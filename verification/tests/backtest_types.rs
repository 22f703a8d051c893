use finance_query_cli::backtest::types::{
    all_optimize_metrics, display_conditions, ConditionGroup, optimize_metric_label, ComparisonType,
    EnsembleModeChoice, LogicalOp, LongOrderType, OptimizeMetric, RebalanceModeChoice,
    SearchMethod, ShortOrderType,
};

#[test]
fn comparison_types_are_listed_in_builder_order() {
    let all = ComparisonType::all();
    assert_eq!(
        all,
        vec![
            ComparisonType::Above,
            ComparisonType::Below,
            ComparisonType::CrossesAbove,
            ComparisonType::CrossesBelow,
            ComparisonType::Between,
            ComparisonType::Equals,
        ]
    );
}

#[test]
fn comparison_names_descriptions_and_symbols() {
    assert_eq!(ComparisonType::CrossesAbove.name(), "Crosses Above");
    assert_eq!(ComparisonType::Equals.name(), "Equals");
    assert_eq!(
        ComparisonType::Between.description(),
        "Value is between two thresholds"
    );
    assert_eq!(
        ComparisonType::Equals.description(),
        "Value equals threshold (within tolerance)"
    );
    assert_eq!(ComparisonType::Above.symbol(), ">");
    assert_eq!(ComparisonType::CrossesBelow.symbol(), "↘");
    assert_eq!(ComparisonType::Between.symbol(), "↔");
}

#[test]
fn only_between_needs_two_thresholds() {
    for c in ComparisonType::all() {
        let between = c == ComparisonType::Between;
        assert_eq!(c.threshold_count(), if between { 2 } else { 1 });
        assert_eq!(c.needs_range(), between);
    }
}

#[test]
fn logical_op_toggle_twice_is_identity() {
    assert_eq!(LogicalOp::And.toggle(), LogicalOp::Or);
    assert_eq!(LogicalOp::Or.toggle(), LogicalOp::And);
    assert_eq!(LogicalOp::And.toggle().toggle(), LogicalOp::And);
    assert_eq!(LogicalOp::And.name(), "AND");
    assert_eq!(LogicalOp::Or.name(), "OR");
}

#[test]
fn long_order_types_cycle_with_period_four() {
    let mut t = LongOrderType::default();
    assert_eq!(t, LongOrderType::Market);
    let names: Vec<&str> = (0..4)
        .map(|_| {
            let n = t.name();
            t = t.cycle();
            n
        })
        .collect();
    assert_eq!(names, vec!["Market", "Limit Below", "Stop Above", "Stop-Limit Above"]);
    assert_eq!(t, LongOrderType::Market);
    assert!(!LongOrderType::Market.needs_offset());
    assert!(LongOrderType::LimitBelow.needs_offset());
    assert!(LongOrderType::StopLimitAbove.needs_gap());
    assert!(!LongOrderType::StopAbove.needs_gap());
}

#[test]
fn short_order_types_cycle_with_period_three() {
    let t = ShortOrderType::default();
    assert_eq!(t, ShortOrderType::Market);
    assert_eq!(t.cycle(), ShortOrderType::LimitAbove);
    assert_eq!(t.cycle().cycle(), ShortOrderType::StopBelow);
    assert_eq!(t.cycle().cycle().cycle(), ShortOrderType::Market);
    assert_eq!(ShortOrderType::StopBelow.name(), "Stop Below");
    assert!(ShortOrderType::LimitAbove.needs_offset());
    assert!(!ShortOrderType::Market.needs_offset());
}

#[test]
fn rebalance_and_ensemble_modes_cycle() {
    assert_eq!(RebalanceModeChoice::default(), RebalanceModeChoice::AvailableCapital);
    assert_eq!(RebalanceModeChoice::AvailableCapital.cycle(), RebalanceModeChoice::EqualWeight);
    assert_eq!(RebalanceModeChoice::EqualWeight.cycle(), RebalanceModeChoice::AvailableCapital);
    assert_eq!(RebalanceModeChoice::EqualWeight.name(), "Equal Weight");
    let m = EnsembleModeChoice::default();
    assert_eq!(m, EnsembleModeChoice::WeightedMajority);
    assert_eq!(m.cycle().cycle().cycle().cycle(), m);
    assert_eq!(m.cycle().name(), "Unanimous");
    assert_eq!(EnsembleModeChoice::StrongestSignal.name(), "Strongest Signal");
}

#[test]
fn search_method_labels_and_toggle() {
    assert_eq!(SearchMethod::default(), SearchMethod::Grid);
    assert_eq!(SearchMethod::Grid.label(), "Grid Search (exhaustive)");
    assert_eq!(SearchMethod::Bayesian.label(), "Bayesian/SAMBO (adaptive)");
    assert_eq!(SearchMethod::Grid.toggle().toggle(), SearchMethod::Grid);
}

#[test]
fn optimizer_metrics_start_with_sharpe() {
    let all = all_optimize_metrics();
    assert_eq!(all.len(), 7);
    assert_eq!(all[0], OptimizeMetric::SharpeRatio);
    assert_eq!(all[1], OptimizeMetric::TotalReturn);
    assert_eq!(optimize_metric_label(OptimizeMetric::MinDrawdown), "Min Drawdown");
    assert_eq!(optimize_metric_label(OptimizeMetric::WinRate), "Win Rate");
}

#[test]
fn condition_groups_read_with_their_operators() {
    assert_eq!(display_conditions(&vec![], &vec![]), "(no conditions)");
    let displays = vec![
        "RSI(14) > 30.00".to_string(),
        "SMA(20) ↗ SMA(50)".to_string(),
        "ADX(14) > 25.00".to_string(),
    ];
    let ops = vec![LogicalOp::Or, LogicalOp::And, LogicalOp::Or];
    assert_eq!(
        display_conditions(&displays, &ops),
        "RSI(14) > 30.00 OR SMA(20) ↗ SMA(50) AND ADX(14) > 25.00"
    );
    assert_eq!(
        display_conditions(&vec!["A".to_string()], &vec![LogicalOp::Or]),
        "A"
    );
}

#[test]
fn condition_groups_toggle_and_remove_by_index() {
    let mut g: ConditionGroup<&str> = ConditionGroup::new();
    assert!(g.conditions.is_empty());
    g.conditions = vec![("rsi < 30", LogicalOp::And), ("sma cross", LogicalOp::And), ("vol", LogicalOp::Or)];
    g.toggle_op_at(1);
    assert_eq!(g.conditions[1], ("sma cross", LogicalOp::Or));
    g.toggle_op_at(1);
    assert_eq!(g.conditions[1], ("sma cross", LogicalOp::And));
    g.toggle_op_at(5);
    g.remove_at(0);
    assert_eq!(g.conditions, vec![("sma cross", LogicalOp::And), ("vol", LogicalOp::Or)]);
    g.remove_at(9);
    assert_eq!(g.conditions.len(), 2);
}
