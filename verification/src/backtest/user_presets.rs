//! Storage of user strategy presets: the stable string codes that presets are
//! saved with, and the upsert-by-name and delete-by-name rules of the preset
//! file. Reading and writing the file itself is left to the caller.
use vstd::prelude::*;

use super::types::{
    ComparisonType, EnsembleModeChoice, LogicalOp, LongOrderType, RebalanceModeChoice,
    ShortOrderType, all_comparisons, comparison_name, lemma_comparison_names_distinct,
};
use crate::config::{config_dir, CliError, CliErrorView};
use crate::text::{eq_ignore_ascii_case, eq_ignore_ascii_case_spec, str_eq, string_of};
use std::path::PathBuf;

verus! {

// ── Order types and modes as stored ─────────────────────────────────────────

pub open spec fn long_order_code(t: LongOrderType) -> Seq<char> {
    match t {
        LongOrderType::Market => "market"@,
        LongOrderType::LimitBelow => "limit_below"@,
        LongOrderType::StopAbove => "stop_above"@,
        LongOrderType::StopLimitAbove => "stop_limit_above"@,
    }
}

/// The stored code of a long order type.
pub fn long_order_type_to_str(ot: LongOrderType) -> (s: String)
    ensures
        s@ == long_order_code(ot),
{
    match ot {
        LongOrderType::Market => string_of("market"),
        LongOrderType::LimitBelow => string_of("limit_below"),
        LongOrderType::StopAbove => string_of("stop_above"),
        LongOrderType::StopLimitAbove => string_of("stop_limit_above"),
    }
}

/// Reads a stored long order type; anything unknown is a market order.
pub fn str_to_long_order_type(s: &str) -> (ot: LongOrderType)
    ensures
        s@ == "limit_below"@ ==> ot == LongOrderType::LimitBelow,
        s@ == "stop_above"@ ==> ot == LongOrderType::StopAbove,
        s@ == "stop_limit_above"@ ==> ot == LongOrderType::StopLimitAbove,
        s@ != "limit_below"@ && s@ != "stop_above"@ && s@ != "stop_limit_above"@ ==> ot
            == LongOrderType::Market,
{
    proof {
        reveal_strlit("limit_below");
        reveal_strlit("stop_above");
        reveal_strlit("stop_limit_above");
        assert("stop_above"@.len() != "limit_below"@.len());
        assert("stop_limit_above"@.len() != "limit_below"@.len());
        assert("stop_limit_above"@.len() != "stop_above"@.len());
    }
    if str_eq(s, "limit_below") {
        LongOrderType::LimitBelow
    } else if str_eq(s, "stop_above") {
        LongOrderType::StopAbove
    } else if str_eq(s, "stop_limit_above") {
        LongOrderType::StopLimitAbove
    } else {
        LongOrderType::Market
    }
}

pub open spec fn short_order_code(t: ShortOrderType) -> Seq<char> {
    match t {
        ShortOrderType::Market => "market"@,
        ShortOrderType::LimitAbove => "limit_above"@,
        ShortOrderType::StopBelow => "stop_below"@,
    }
}

/// The stored code of a short order type.
pub fn short_order_type_to_str(ot: ShortOrderType) -> (s: String)
    ensures
        s@ == short_order_code(ot),
{
    match ot {
        ShortOrderType::Market => string_of("market"),
        ShortOrderType::LimitAbove => string_of("limit_above"),
        ShortOrderType::StopBelow => string_of("stop_below"),
    }
}

/// Reads a stored short order type; anything unknown is a market order.
pub fn str_to_short_order_type(s: &str) -> (ot: ShortOrderType)
    ensures
        s@ == "limit_above"@ ==> ot == ShortOrderType::LimitAbove,
        s@ == "stop_below"@ ==> ot == ShortOrderType::StopBelow,
        s@ != "limit_above"@ && s@ != "stop_below"@ ==> ot == ShortOrderType::Market,
{
    proof {
        reveal_strlit("limit_above");
        reveal_strlit("stop_below");
        assert("stop_below"@[5] != "limit_above"@[5]);
    }
    if str_eq(s, "limit_above") {
        ShortOrderType::LimitAbove
    } else if str_eq(s, "stop_below") {
        ShortOrderType::StopBelow
    } else {
        ShortOrderType::Market
    }
}

pub open spec fn ensemble_code(m: EnsembleModeChoice) -> Seq<char> {
    match m {
        EnsembleModeChoice::WeightedMajority => "weighted_majority"@,
        EnsembleModeChoice::Unanimous => "unanimous"@,
        EnsembleModeChoice::AnySignal => "any_signal"@,
        EnsembleModeChoice::StrongestSignal => "strongest_signal"@,
    }
}

/// The stored code of an ensemble voting mode.
pub fn ensemble_mode_to_str(mode: EnsembleModeChoice) -> (s: &'static str)
    ensures
        s@ == ensemble_code(mode),
{
    match mode {
        EnsembleModeChoice::WeightedMajority => "weighted_majority",
        EnsembleModeChoice::Unanimous => "unanimous",
        EnsembleModeChoice::AnySignal => "any_signal",
        EnsembleModeChoice::StrongestSignal => "strongest_signal",
    }
}

/// Reads a stored ensemble mode; anything unknown is weighted majority.
pub fn str_to_ensemble_mode(s: &str) -> (m: EnsembleModeChoice)
    ensures
        s@ == "unanimous"@ ==> m == EnsembleModeChoice::Unanimous,
        s@ == "any_signal"@ ==> m == EnsembleModeChoice::AnySignal,
        s@ == "strongest_signal"@ ==> m == EnsembleModeChoice::StrongestSignal,
        s@ != "unanimous"@ && s@ != "any_signal"@ && s@ != "strongest_signal"@ ==> m
            == EnsembleModeChoice::WeightedMajority,
{
    proof {
        reveal_strlit("unanimous");
        reveal_strlit("any_signal");
        reveal_strlit("strongest_signal");
        assert("any_signal"@.len() != "unanimous"@.len());
        assert("strongest_signal"@.len() != "unanimous"@.len());
        assert("strongest_signal"@.len() != "any_signal"@.len());
    }
    if str_eq(s, "unanimous") {
        EnsembleModeChoice::Unanimous
    } else if str_eq(s, "any_signal") {
        EnsembleModeChoice::AnySignal
    } else if str_eq(s, "strongest_signal") {
        EnsembleModeChoice::StrongestSignal
    } else {
        EnsembleModeChoice::WeightedMajority
    }
}

pub open spec fn rebalance_code(m: RebalanceModeChoice) -> Seq<char> {
    match m {
        RebalanceModeChoice::AvailableCapital => "available_capital"@,
        RebalanceModeChoice::EqualWeight => "equal_weight"@,
    }
}

/// The stored code of a rebalance mode.
pub fn rebalance_mode_to_str(m: RebalanceModeChoice) -> (s: String)
    ensures
        s@ == rebalance_code(m),
{
    match m {
        RebalanceModeChoice::AvailableCapital => string_of("available_capital"),
        RebalanceModeChoice::EqualWeight => string_of("equal_weight"),
    }
}

/// Reads a stored rebalance mode; anything but `equal_weight` (an empty
/// field included) is available capital.
pub fn str_to_rebalance_mode(s: &str) -> (m: RebalanceModeChoice)
    ensures
        m == (if s@ == "equal_weight"@ {
            RebalanceModeChoice::EqualWeight
        } else {
            RebalanceModeChoice::AvailableCapital
        }),
{
    if str_eq(s, "equal_weight") {
        RebalanceModeChoice::EqualWeight
    } else {
        RebalanceModeChoice::AvailableCapital
    }
}

/// Every long order type reads back as itself after being stored.
pub proof fn law_long_order_code_round_trip(ot: LongOrderType, back: LongOrderType)
    requires
        long_order_code(ot) == "limit_below"@ ==> back == LongOrderType::LimitBelow,
        long_order_code(ot) == "stop_above"@ ==> back == LongOrderType::StopAbove,
        long_order_code(ot) == "stop_limit_above"@ ==> back == LongOrderType::StopLimitAbove,
        long_order_code(ot) != "limit_below"@ && long_order_code(ot) != "stop_above"@
            && long_order_code(ot) != "stop_limit_above"@ ==> back == LongOrderType::Market,
    ensures
        back == ot,
{
    reveal_strlit("market");
    reveal_strlit("limit_below");
    reveal_strlit("stop_above");
    reveal_strlit("stop_limit_above");
    match ot {
        LongOrderType::Market => {
            assert("market"@.len() != "limit_below"@.len());
            assert("market"@.len() != "stop_above"@.len());
            assert("market"@.len() != "stop_limit_above"@.len());
        },
        LongOrderType::LimitBelow => {},
        LongOrderType::StopAbove => {
            assert("stop_above"@.len() != "limit_below"@.len());
        },
        LongOrderType::StopLimitAbove => {
            assert("stop_limit_above"@.len() != "limit_below"@.len());
            assert("stop_limit_above"@.len() != "stop_above"@.len());
        },
    }
}

/// Every short order type reads back as itself after being stored.
pub proof fn law_short_order_code_round_trip(ot: ShortOrderType, back: ShortOrderType)
    requires
        short_order_code(ot) == "limit_above"@ ==> back == ShortOrderType::LimitAbove,
        short_order_code(ot) == "stop_below"@ ==> back == ShortOrderType::StopBelow,
        short_order_code(ot) != "limit_above"@ && short_order_code(ot) != "stop_below"@ ==> back
            == ShortOrderType::Market,
    ensures
        back == ot,
{
    reveal_strlit("market");
    reveal_strlit("limit_above");
    reveal_strlit("stop_below");
    match ot {
        ShortOrderType::Market => {
            assert("market"@.len() != "limit_above"@.len());
            assert("market"@.len() != "stop_below"@.len());
        },
        ShortOrderType::LimitAbove => {},
        ShortOrderType::StopBelow => {
            assert("stop_below"@[5] != "limit_above"@[5]);
        },
    }
}

/// Every ensemble mode reads back as itself after being stored.
pub proof fn law_ensemble_code_round_trip(m: EnsembleModeChoice, back: EnsembleModeChoice)
    requires
        ensemble_code(m) == "unanimous"@ ==> back == EnsembleModeChoice::Unanimous,
        ensemble_code(m) == "any_signal"@ ==> back == EnsembleModeChoice::AnySignal,
        ensemble_code(m) == "strongest_signal"@ ==> back == EnsembleModeChoice::StrongestSignal,
        ensemble_code(m) != "unanimous"@ && ensemble_code(m) != "any_signal"@ && ensemble_code(m)
            != "strongest_signal"@ ==> back == EnsembleModeChoice::WeightedMajority,
    ensures
        back == m,
{
    reveal_strlit("weighted_majority");
    reveal_strlit("unanimous");
    reveal_strlit("any_signal");
    reveal_strlit("strongest_signal");
    match m {
        EnsembleModeChoice::WeightedMajority => {
            assert("weighted_majority"@.len() != "unanimous"@.len());
            assert("weighted_majority"@.len() != "any_signal"@.len());
            assert("weighted_majority"@.len() != "strongest_signal"@.len());
        },
        EnsembleModeChoice::Unanimous => {},
        EnsembleModeChoice::AnySignal => {
            assert("any_signal"@.len() != "unanimous"@.len());
        },
        EnsembleModeChoice::StrongestSignal => {
            assert("strongest_signal"@.len() != "unanimous"@.len());
            assert("strongest_signal"@.len() != "any_signal"@.len());
        },
    }
}

/// Every rebalance mode reads back as itself after being stored.
pub proof fn law_rebalance_code_round_trip(m: RebalanceModeChoice)
    ensures
        (if rebalance_code(m) == "equal_weight"@ {
            RebalanceModeChoice::EqualWeight
        } else {
            RebalanceModeChoice::AvailableCapital
        }) == m,
{
    reveal_strlit("available_capital");
    reveal_strlit("equal_weight");
    assert("available_capital"@.len() != "equal_weight"@.len());
}

// ── Conditions as stored ────────────────────────────────────────────────────

/// Reads a stored comparison by its display name; `None` for an unknown name.
pub fn deser_comparison(s: &str) -> (r: Option<ComparisonType>)
    ensures
        match r {
            Some(c) => comparison_name(c) == s@,
            None => forall|c: ComparisonType| comparison_name(c) != s@,
        },
{
    let all = ComparisonType::all();
    let mut i: usize = 0;
    while i < all.len()
        invariant
            all@ == all_comparisons(),
            i <= all.len(),
            forall|j: int| 0 <= j < i ==> comparison_name(#[trigger] all@[j]) != s@,
        decreases all.len() - i,
    {
        let c = all[i];
        if str_eq(c.name(), s) {
            return Some(c);
        }
        i = i + 1;
    }
    proof {
        assert forall|c: ComparisonType| comparison_name(c) != s@ by {
            let k: int = match c {
                ComparisonType::Above => 0,
                ComparisonType::Below => 1,
                ComparisonType::CrossesAbove => 2,
                ComparisonType::CrossesBelow => 3,
                ComparisonType::Between => 4,
                ComparisonType::Equals => 5,
            };
            assert(all@[k] == c);
        }
    }
    None
}

/// A comparison stored under its display name reads back as itself.
pub proof fn law_comparison_round_trip(c: ComparisonType, back: Option<ComparisonType>)
    requires
        match back {
            Some(d) => comparison_name(d) == comparison_name(c),
            None => forall|d: ComparisonType| comparison_name(d) != comparison_name(c),
        },
    ensures
        back == Some(c),
{
    match back {
        Some(d) => {
            lemma_comparison_names_distinct(d, c);
            assert(d == c);
        },
        None => {
            assert(comparison_name(c) =~= comparison_name(c));
            assert(false);
        },
    }
}

pub open spec fn next_op_code(op: LogicalOp) -> Seq<char> {
    match op {
        LogicalOp::And => "and"@,
        LogicalOp::Or => "or"@,
    }
}

/// The stored code of a logical operator: its name in lower case.
pub fn next_op_to_str(op: LogicalOp) -> (s: String)
    ensures
        s@ == next_op_code(op),
{
    match op {
        LogicalOp::And => string_of("and"),
        LogicalOp::Or => string_of("or"),
    }
}

/// Reads a stored operator: `or` in any ASCII case is OR, anything else AND.
pub fn deser_next_op(s: &str) -> (op: LogicalOp)
    ensures
        op == (if eq_ignore_ascii_case_spec(s@, "or"@) {
            LogicalOp::Or
        } else {
            LogicalOp::And
        }),
{
    if eq_ignore_ascii_case(s, "or") {
        LogicalOp::Or
    } else {
        LogicalOp::And
    }
}

/// A stored operator reads back as itself.
pub proof fn law_next_op_round_trip(op: LogicalOp)
    ensures
        (if eq_ignore_ascii_case_spec(next_op_code(op), "or"@) {
            LogicalOp::Or
        } else {
            LogicalOp::And
        }) == op,
{
    reveal_strlit("and");
    reveal_strlit("or");
    if op == LogicalOp::And {
        assert("and"@.len() != "or"@.len());
    }
}

// ── Presets by name ─────────────────────────────────────────────────────────

/// The presets kept by a delete of `name`: all others, in order.
pub open spec fn without_name<T>(s: Seq<(String, T)>, name: Seq<char>) -> Seq<(String, T)>
    decreases s.len(),
{
    if s.len() == 0 {
        s
    } else {
        let rest = without_name(s.drop_last(), name);
        if s.last().0@ == name {
            rest
        } else {
            rest.push(s.last())
        }
    }
}

/// No kept preset carries the deleted name, and every kept preset was there before.
pub proof fn lemma_without_name<T>(s: Seq<(String, T)>, name: Seq<char>)
    ensures
        forall|i: int|
            0 <= i < without_name(s, name).len() ==> (#[trigger] without_name(s, name)[i]).0@
                != name && s.contains(without_name(s, name)[i]),
        without_name(s, name).len() <= s.len(),
    decreases s.len(),
{
    if s.len() > 0 {
        lemma_without_name(s.drop_last(), name);
        let rest = without_name(s.drop_last(), name);
        assert forall|i: int| 0 <= i < rest.len() implies s.contains(#[trigger] rest[i]) by {
            assert(s.drop_last().contains(rest[i]));
            let k = choose|k: int| 0 <= k < s.drop_last().len() && s.drop_last()[k] == rest[i];
            assert(s[k] == rest[i]);
        }
        assert(s[s.len() - 1] == s.last());
    }
}

/// Where `name` first occurs in the presets, if it does.
pub open spec fn first_with_name<T>(s: Seq<(String, T)>, name: Seq<char>, i: int) -> bool {
    &&& 0 <= i < s.len()
    &&& s[i].0@ == name
    &&& forall|j: int| 0 <= j < i ==> (#[trigger] s[j]).0@ != name
}

/// Index of the first preset named `name`.
fn position_of_name<T>(s: &Vec<(String, T)>, name: &str) -> (r: Option<usize>)
    ensures
        match r {
            Some(i) => first_with_name(s@, name@, i as int),
            None => forall|j: int| 0 <= j < s@.len() ==> (#[trigger] s@[j]).0@ != name@,
        },
{
    let mut i: usize = 0;
    while i < s.len()
        invariant
            i <= s.len(),
            forall|j: int| 0 <= j < i ==> (#[trigger] s@[j]).0@ != name@,
        decreases s.len() - i,
    {
        if str_eq(s[i].0.as_str(), name) {
            return Some(i);
        }
        i = i + 1;
    }
    None
}

/// Where the presets file lives: `<config dir>/fq/presets.json`, held as the
/// configuration directory with the subdirectory and file name beneath it.
/// The caller joins the parts, creates the subdirectory, and reads or writes
/// the file.
pub struct PresetStorage {
    base: PathBuf,
}

impl PresetStorage {
    /// Locates the presets file under the user's configuration directory.
    /// Fails when the platform has no configuration directory.
    pub fn new() -> (r: Result<Self, CliError>)
        ensures
            r matches Err(e) ==> e@ == CliErrorView::Other("Failed to get config directory"@),
    {
        Self::from_config_dir(config_dir())
    }

    /// Locates the presets file under a configuration directory, as found
    /// on the platform. Fails exactly when there is none.
    pub fn from_config_dir(base: Option<PathBuf>) -> (r: Result<Self, CliError>)
        ensures
            r is Ok <==> base is Some,
            r matches Ok(st) ==> st.stored_base() == base->0,
            r matches Err(e) ==> e@ == CliErrorView::Other("Failed to get config directory"@),
    {
        match base {
            Some(base) => Ok(PresetStorage { base }),
            None => Err(CliError::Other(string_of("Failed to get config directory"))),
        }
    }

    /// The configuration directory the storage was located under.
    pub closed spec fn stored_base(&self) -> PathBuf {
        self.base
    }

    /// The configuration directory the storage was located under.
    pub fn base(&self) -> (b: &PathBuf)
        ensures
            *b == self.stored_base(),
    {
        &self.base
    }

    /// The subdirectory of the configuration directory that holds the file.
    pub fn subdir(&self) -> (d: &'static str)
        ensures
            d@ == "fq"@,
    {
        "fq"
    }

    /// The name of the presets file.
    pub fn file_name(&self) -> (f: &'static str)
        ensures
            f@ == "presets.json"@,
    {
        "presets.json"
    }

    /// Saves (or replaces) a preset: the first preset with the same name is
    /// replaced in place, otherwise the preset is appended. Returns the
    /// presets to write back.
    pub fn save<T>(&self, presets: Vec<(String, T)>, name: String, data: T) -> (r: Vec<(String, T)>)
        ensures
            (exists|i: int| first_with_name(presets@, name@, i)) ==> ({
                let i = choose|i: int| first_with_name(presets@, name@, i);
                r@ == presets@.update(i, (name, data))
            }),
            (forall|j: int| 0 <= j < presets@.len() ==> (#[trigger] presets@[j]).0@ != name@)
                ==> r@ == presets@.push((name, data)),
    {
        let mut presets = presets;
        match position_of_name(&presets, name.as_str()) {
            Some(i) => {
                proof {
                    let c = choose|c: int| first_with_name(presets@, name@, c);
                    if c < i {
                        assert(presets@[c].0@ != name@);
                    }
                    if i < c {
                        assert(presets@[i as int].0@ != name@);
                    }
                }
                presets.set(i, (name, data));
            },
            None => {
                proof {
                    assert forall|c: int| !first_with_name(presets@, name@, c) by {
                        if first_with_name(presets@, name@, c) {
                            assert(presets@[c].0@ != name@);
                        }
                    }
                }
                presets.push((name, data));
            },
        }
        presets
    }

    /// Removes every preset named `name` (nothing when there is none), keeping
    /// the others in order. Returns the presets to write back.
    pub fn delete<T>(&self, presets: Vec<(String, T)>, name: &str) -> (r: Vec<(String, T)>)
        ensures
            r@ == without_name(presets@, name@),
    {
        let ghost all = presets@;
        let mut presets = presets;
        let mut rev: Vec<(String, T)> = Vec::new();
        while presets.len() > 0
            invariant
                presets@.len() + rev@.len() == all.len(),
                presets@ == all.take(presets@.len() as int),
                forall|i: int| 0 <= i < rev@.len() ==> #[trigger] rev@[i] == all[all.len() - 1 - i],
            decreases presets.len(),
        {
            let p = presets.pop().unwrap();
            rev.push(p);
            proof {
                assert(presets@ =~= all.take(presets@.len() as int));
            }
        }
        let mut kept: Vec<(String, T)> = Vec::new();
        while rev.len() > 0
            invariant
                rev@.len() <= all.len(),
                forall|i: int| 0 <= i < rev@.len() ==> #[trigger] rev@[i] == all[all.len() - 1 - i],
                kept@ == without_name(all.take(all.len() - rev@.len()), name@),
            decreases rev.len(),
        {
            let ghost m = all.len() - rev@.len();
            let p = rev.pop().unwrap();
            proof {
                assert(p == all[m]);
                assert(all.take(m + 1).drop_last() =~= all.take(m));
                assert(all.take(m + 1).last() == all[m]);
            }
            if !str_eq(p.0.as_str(), name) {
                kept.push(p);
            }
        }
        proof {
            assert(all.take(all.len() as int) =~= all);
        }
        kept
    }
}

/// Deletes a user preset by name from the presets read from the presets
/// file, returning the presets to write back.
pub fn delete_user_preset<T>(presets: Vec<(String, T)>, name: &str) -> (r: Result<
    Vec<(String, T)>,
    CliError,
>)
    ensures
        match r {
            Ok(kept) => kept@ == without_name(presets@, name@),
            Err(e) => e@ == CliErrorView::Other("Failed to get config directory"@),
        },
{
    let storage = PresetStorage::new()?;
    Ok(storage.delete(presets, name))
}

/// Deleting a name leaves no preset with that name, keeps every other
/// preset, and deleting it again changes nothing.
pub proof fn law_delete_removes_name<T>(s: Seq<(String, T)>, name: Seq<char>)
    ensures
        forall|i: int|
            0 <= i < without_name(s, name).len() ==> (#[trigger] without_name(s, name)[i]).0@
                != name,
        forall|i: int|
            0 <= i < s.len() && (#[trigger] s[i]).0@ != name ==> without_name(s, name).contains(
                s[i],
            ),
        without_name(without_name(s, name), name) == without_name(s, name),
    decreases s.len(),
{
    lemma_without_name(s, name);
    if s.len() > 0 {
        law_delete_removes_name(s.drop_last(), name);
        let rest = without_name(s.drop_last(), name);
        assert forall|i: int| 0 <= i < s.len() && (#[trigger] s[i]).0@ != name implies without_name(
            s,
            name,
        ).contains(s[i]) by {
            if i < s.len() - 1 {
                assert(s.drop_last()[i] == s[i]);
                assert(rest.contains(s[i]));
                let k = choose|k: int| 0 <= k < rest.len() && rest[k] == s[i];
                if s.last().0@ != name {
                    assert(without_name(s, name)[k] == s[i]);
                }
            } else {
                assert(without_name(s, name)[without_name(s, name).len() - 1] == s[i]);
            }
        }
        law_delete_missing_is_noop(without_name(s, name), name);
    }
}

/// Deleting a name that no preset carries changes nothing.
pub proof fn law_delete_missing_is_noop<T>(s: Seq<(String, T)>, name: Seq<char>)
    requires
        forall|i: int| 0 <= i < s.len() ==> (#[trigger] s[i]).0@ != name,
    ensures
        without_name(s, name) == s,
    decreases s.len(),
{
    if s.len() > 0 {
        assert forall|i: int| 0 <= i < s.drop_last().len() implies (#[trigger] s.drop_last()[i]).0@
            != name by {
            assert(s.drop_last()[i] == s[i]);
        }
        law_delete_missing_is_noop(s.drop_last(), name);
        assert(s.last().0@ != name);
        assert(s.drop_last().push(s.last()) =~= s);
    }
}

/// Two lists that differ only in entries carrying `name` keep the same
/// presets when `name` is deleted.
proof fn lemma_without_name_same_others<T>(a: Seq<(String, T)>, b: Seq<(String, T)>, name: Seq<char>)
    requires
        a.len() == b.len(),
        forall|j: int|
            0 <= j < a.len() ==> a[j] == b[j] || ((#[trigger] a[j]).0@ == name && (
            #[trigger] b[j]).0@ == name),
    ensures
        without_name(a, name) == without_name(b, name),
    decreases a.len(),
{
    if a.len() > 0 {
        assert forall|j: int| 0 <= j < a.drop_last().len() implies a.drop_last()[j] == b.drop_last()[j]
            || ((#[trigger] a.drop_last()[j]).0@ == name && (#[trigger] b.drop_last()[j]).0@
            == name) by {
            assert(a.drop_last()[j] == a[j]);
            assert(b.drop_last()[j] == b[j]);
        }
        lemma_without_name_same_others(a.drop_last(), b.drop_last(), name);
        assert(a.last() == a[a.len() - 1]);
        assert(b.last() == b[b.len() - 1]);
    }
}

/// A name that occurs has a first occurrence.
proof fn lemma_first_name_exists<T>(s: Seq<(String, T)>, name: Seq<char>, j: int)
    requires
        0 <= j < s.len(),
        s[j].0@ == name,
    ensures
        exists|i: int| first_with_name(s, name, i),
    decreases j,
{
    if forall|m: int| 0 <= m < j ==> (#[trigger] s[m]).0@ != name {
        assert(first_with_name(s, name, j));
    } else {
        let m = choose|m: int| 0 <= m < j && (#[trigger] s[m]).0@ == name;
        lemma_first_name_exists(s, name, m);
    }
}

/// Saving a preset and then deleting its name leaves what deleting the name
/// alone leaves: a save only ever touches presets of that name.
pub proof fn law_save_then_delete<T>(s: Seq<(String, T)>, name: String, data: T, saved: Seq<(String, T)>)
    requires
        (exists|i: int| first_with_name(s, name@, i)) ==> ({
            let i = choose|i: int| first_with_name(s, name@, i);
            saved == s.update(i, (name, data))
        }),
        (forall|j: int| 0 <= j < s.len() ==> (#[trigger] s[j]).0@ != name@) ==> saved == s.push(
            (name, data),
        ),
    ensures
        without_name(saved, name@) == without_name(s, name@),
{
    if exists|i: int| first_with_name(s, name@, i) {
        let i = choose|i: int| first_with_name(s, name@, i);
        assert forall|j: int| 0 <= j < s.len() implies s[j] == saved[j] || ((#[trigger] s[j]).0@
            == name@ && (#[trigger] saved[j]).0@ == name@) by {
            if j == i {
                assert(saved[j] == (name, data));
            }
        }
        lemma_without_name_same_others(s, saved, name@);
    } else {
        assert forall|j: int| 0 <= j < s.len() implies (#[trigger] s[j]).0@ != name@ by {
            if s[j].0@ == name@ {
                lemma_first_name_exists(s, name@, j);
            }
        }
        assert(saved.drop_last() =~= s);
        assert(saved.last() == (name, data));
    }
}

} // verus!
