use finance_query_cli::backtest::types::{
    ComparisonType, EnsembleModeChoice, LogicalOp, LongOrderType, RebalanceModeChoice,
    ShortOrderType,
};
use finance_query_cli::backtest::user_presets::{
    delete_user_preset, deser_comparison, deser_next_op, ensemble_mode_to_str,
    long_order_type_to_str, next_op_to_str, rebalance_mode_to_str, short_order_type_to_str,
    str_to_ensemble_mode, str_to_long_order_type, str_to_rebalance_mode, str_to_short_order_type,
    PresetStorage,
};

#[test]
fn order_types_round_trip_through_their_codes() {
    for t in [
        LongOrderType::Market,
        LongOrderType::LimitBelow,
        LongOrderType::StopAbove,
        LongOrderType::StopLimitAbove,
    ] {
        assert_eq!(str_to_long_order_type(&long_order_type_to_str(t)), t);
    }
    for t in [
        ShortOrderType::Market,
        ShortOrderType::LimitAbove,
        ShortOrderType::StopBelow,
    ] {
        assert_eq!(str_to_short_order_type(&short_order_type_to_str(t)), t);
    }
    assert_eq!(long_order_type_to_str(LongOrderType::StopLimitAbove), "stop_limit_above");
    assert_eq!(short_order_type_to_str(ShortOrderType::LimitAbove), "limit_above");
}

#[test]
fn unknown_codes_read_as_defaults() {
    assert_eq!(str_to_long_order_type(""), LongOrderType::Market);
    assert_eq!(str_to_long_order_type("LIMIT_BELOW"), LongOrderType::Market);
    assert_eq!(str_to_short_order_type("stop"), ShortOrderType::Market);
    assert_eq!(str_to_ensemble_mode("majority"), EnsembleModeChoice::WeightedMajority);
    assert_eq!(str_to_rebalance_mode(""), RebalanceModeChoice::AvailableCapital);
}

#[test]
fn ensemble_and_rebalance_modes_round_trip() {
    for m in [
        EnsembleModeChoice::WeightedMajority,
        EnsembleModeChoice::Unanimous,
        EnsembleModeChoice::AnySignal,
        EnsembleModeChoice::StrongestSignal,
    ] {
        assert_eq!(str_to_ensemble_mode(ensemble_mode_to_str(m)), m);
    }
    assert_eq!(ensemble_mode_to_str(EnsembleModeChoice::AnySignal), "any_signal");
    for m in [RebalanceModeChoice::AvailableCapital, RebalanceModeChoice::EqualWeight] {
        assert_eq!(str_to_rebalance_mode(&rebalance_mode_to_str(m)), m);
    }
    assert_eq!(rebalance_mode_to_str(RebalanceModeChoice::EqualWeight), "equal_weight");
}

#[test]
fn comparisons_are_stored_by_display_name() {
    for c in ComparisonType::all() {
        assert_eq!(deser_comparison(c.name()), Some(c));
    }
    assert_eq!(deser_comparison("Crosses Above"), Some(ComparisonType::CrossesAbove));
    assert_eq!(deser_comparison("crosses above"), None);
    assert_eq!(deser_comparison("Sideways"), None);
}

#[test]
fn next_operator_reads_or_in_any_case() {
    assert_eq!(deser_next_op("or"), LogicalOp::Or);
    assert_eq!(deser_next_op("OR"), LogicalOp::Or);
    assert_eq!(deser_next_op("oR"), LogicalOp::Or);
    assert_eq!(deser_next_op("and"), LogicalOp::And);
    assert_eq!(deser_next_op("xor"), LogicalOp::And);
    assert_eq!(deser_next_op(""), LogicalOp::And);
    for op in [LogicalOp::And, LogicalOp::Or] {
        assert_eq!(deser_next_op(&next_op_to_str(op)), op);
    }
}

fn presets(names: &[&str]) -> Vec<(String, u32)> {
    names
        .iter()
        .enumerate()
        .map(|(i, n)| (n.to_string(), i as u32))
        .collect()
}

#[test]
fn save_replaces_the_first_preset_of_the_same_name() {
    let Ok(storage) = PresetStorage::new() else {
        return;
    };
    let before = presets(&["Swing", "Trend", "Swing"]);
    let after = storage.save(before, "Swing".to_string(), 99);
    assert_eq!(
        after,
        vec![
            ("Swing".to_string(), 99),
            ("Trend".to_string(), 1),
            ("Swing".to_string(), 2)
        ]
    );
    let appended = storage.save(presets(&["Trend"]), "New".to_string(), 7);
    assert_eq!(appended, vec![("Trend".to_string(), 0), ("New".to_string(), 7)]);
    assert_eq!(storage.file_name(), "presets.json");
}

#[test]
fn delete_removes_every_preset_of_that_name() {
    let Ok(storage) = PresetStorage::new() else {
        return;
    };
    let kept = storage.delete(presets(&["A", "B", "A", "C"]), "A");
    assert_eq!(kept, vec![("B".to_string(), 1), ("C".to_string(), 3)]);
    let again = storage.delete(kept.clone(), "A");
    assert_eq!(again, kept);
    let none = storage.delete(presets(&["A"]), "missing");
    assert_eq!(none, presets(&["A"]));
}

#[test]
fn delete_user_preset_works_on_the_given_presets() {
    match delete_user_preset(presets(&["X", "Y"]), "Y") {
        Ok(kept) => assert_eq!(kept, presets(&["X"])),
        Err(e) => assert_eq!(e.message(), "Failed to get config directory"),
    }
}

#[test]
fn presets_are_located_under_the_config_dir() {
    let base = std::path::PathBuf::from("/home/u/.config");
    let storage = PresetStorage::from_config_dir(Some(base.clone())).unwrap();
    assert_eq!(storage.base(), &base);
    assert_eq!(storage.subdir(), "fq");
    assert_eq!(storage.file_name(), "presets.json");
    assert!(PresetStorage::from_config_dir(None).is_err());
}
