//! The choices a strategy is built from: comparisons, logical operators,
//! order types, rebalance and ensemble modes, and the optimizer's search method.
use vstd::prelude::*;

verus! {

/// Types of comparisons available for conditions.
#[derive(Debug, Clone, Copy, PartialEq, Eq, Structural)]
pub enum ComparisonType {
    Above,
    Below,
    CrossesAbove,
    CrossesBelow,
    Between,
    Equals,
}

/// All comparison types, in the order the strategy builder lists them.
pub open spec fn all_comparisons() -> Seq<ComparisonType> {
    seq![
        ComparisonType::Above,
        ComparisonType::Below,
        ComparisonType::CrossesAbove,
        ComparisonType::CrossesBelow,
        ComparisonType::Between,
        ComparisonType::Equals,
    ]
}

pub open spec fn comparison_name(c: ComparisonType) -> Seq<char> {
    match c {
        ComparisonType::Above => "Above"@,
        ComparisonType::Below => "Below"@,
        ComparisonType::CrossesAbove => "Crosses Above"@,
        ComparisonType::CrossesBelow => "Crosses Below"@,
        ComparisonType::Between => "Between"@,
        ComparisonType::Equals => "Equals"@,
    }
}

pub open spec fn comparison_description(c: ComparisonType) -> Seq<char> {
    match c {
        ComparisonType::Above => "Value is greater than threshold"@,
        ComparisonType::Below => "Value is less than threshold"@,
        ComparisonType::CrossesAbove => "Value crosses from below to above threshold"@,
        ComparisonType::CrossesBelow => "Value crosses from above to below threshold"@,
        ComparisonType::Between => "Value is between two thresholds"@,
        ComparisonType::Equals => "Value equals threshold (within tolerance)"@,
    }
}

pub open spec fn comparison_symbol(c: ComparisonType) -> Seq<char> {
    match c {
        ComparisonType::Above => ">"@,
        ComparisonType::Below => "<"@,
        ComparisonType::CrossesAbove => "↗"@,
        ComparisonType::CrossesBelow => "↘"@,
        ComparisonType::Between => "↔"@,
        ComparisonType::Equals => "="@,
    }
}

impl ComparisonType {
    pub fn all() -> (v: Vec<Self>)
        ensures
            v@ == all_comparisons(),
    {
        let v = vec![
            ComparisonType::Above,
            ComparisonType::Below,
            ComparisonType::CrossesAbove,
            ComparisonType::CrossesBelow,
            ComparisonType::Between,
            ComparisonType::Equals,
        ];
        assert(v@ =~= all_comparisons());
        v
    }

    pub fn name(&self) -> (r: &'static str)
        ensures
            r@ == comparison_name(*self),
    {
        match self {
            ComparisonType::Above => "Above",
            ComparisonType::Below => "Below",
            ComparisonType::CrossesAbove => "Crosses Above",
            ComparisonType::CrossesBelow => "Crosses Below",
            ComparisonType::Between => "Between",
            ComparisonType::Equals => "Equals",
        }
    }

    pub fn description(&self) -> (r: &'static str)
        ensures
            r@ == comparison_description(*self),
    {
        match self {
            ComparisonType::Above => "Value is greater than threshold",
            ComparisonType::Below => "Value is less than threshold",
            ComparisonType::CrossesAbove => "Value crosses from below to above threshold",
            ComparisonType::CrossesBelow => "Value crosses from above to below threshold",
            ComparisonType::Between => "Value is between two thresholds",
            ComparisonType::Equals => "Value equals threshold (within tolerance)",
        }
    }

    pub fn symbol(&self) -> (r: &'static str)
        ensures
            r@ == comparison_symbol(*self),
    {
        match self {
            ComparisonType::Above => ">",
            ComparisonType::Below => "<",
            ComparisonType::CrossesAbove => "↗",
            ComparisonType::CrossesBelow => "↘",
            ComparisonType::Between => "↔",
            ComparisonType::Equals => "=",
        }
    }

    /// Number of threshold values needed for this comparison type.
    pub fn threshold_count(&self) -> (n: usize)
        ensures
            n == (if *self == ComparisonType::Between { 2usize } else { 1usize }),
    {
        match self {
            ComparisonType::Between => 2,
            _ => 1,
        }
    }

    /// Whether this comparison requires two threshold values.
    pub fn needs_range(&self) -> (b: bool)
        ensures
            b == (*self == ComparisonType::Between),
    {
        self.threshold_count() == 2
    }
}

/// Comparison names are pairwise distinct, so a name identifies its comparison.
pub proof fn lemma_comparison_names_distinct(a: ComparisonType, b: ComparisonType)
    ensures
        comparison_name(a) == comparison_name(b) ==> a == b,
{
    reveal_strlit("Above");
    reveal_strlit("Below");
    reveal_strlit("Crosses Above");
    reveal_strlit("Crosses Below");
    reveal_strlit("Between");
    reveal_strlit("Equals");
    if comparison_name(a) == comparison_name(b) {
        assert(comparison_name(a).len() == comparison_name(b).len());
        assert(comparison_name(a)[0] == comparison_name(b)[0]);
        assert(comparison_name(a)[8] == comparison_name(b)[8] || comparison_name(a).len() <= 8);
    }
}

/// Logical operator for combining conditions.
#[derive(Debug, Clone, Copy, PartialEq, Eq, Structural)]
pub enum LogicalOp {
    And,
    Or,
}

pub open spec fn logical_op_name(op: LogicalOp) -> Seq<char> {
    match op {
        LogicalOp::And => "AND"@,
        LogicalOp::Or => "OR"@,
    }
}

pub open spec fn toggled_op(op: LogicalOp) -> LogicalOp {
    match op {
        LogicalOp::And => LogicalOp::Or,
        LogicalOp::Or => LogicalOp::And,
    }
}

impl LogicalOp {
    pub fn name(&self) -> (r: &'static str)
        ensures
            r@ == logical_op_name(*self),
    {
        match self {
            LogicalOp::And => "AND",
            LogicalOp::Or => "OR",
        }
    }

    pub fn toggle(&self) -> (r: Self)
        ensures
            r == toggled_op(*self),
    {
        match self {
            LogicalOp::And => LogicalOp::Or,
            LogicalOp::Or => LogicalOp::And,
        }
    }
}

/// Toggling an operator twice gives it back, and toggling always changes it.
pub proof fn law_logical_op_toggle_involutive(op: LogicalOp)
    ensures
        toggled_op(toggled_op(op)) == op,
        toggled_op(op) != op,
{
}

/// Entry order type for long positions.
#[derive(Debug, Clone, Copy, PartialEq, Eq, Structural)]
pub enum LongOrderType {
    /// Standard market order: fills at the next bar's open (the default).
    Market,
    /// Limit buy: fills if price dips X% below the signal close.
    LimitBelow,
    /// Stop buy (breakout): fills if price breaks X% above the signal close.
    StopAbove,
    /// Stop-limit buy: triggers at the stop price (X% above close) and fills
    /// only if the fill price does not exceed the limit (stop + gap%).
    StopLimitAbove,
}

pub open spec fn long_order_index(t: LongOrderType) -> int {
    match t {
        LongOrderType::Market => 0,
        LongOrderType::LimitBelow => 1,
        LongOrderType::StopAbove => 2,
        LongOrderType::StopLimitAbove => 3,
    }
}

pub open spec fn long_order_name(t: LongOrderType) -> Seq<char> {
    match t {
        LongOrderType::Market => "Market"@,
        LongOrderType::LimitBelow => "Limit Below"@,
        LongOrderType::StopAbove => "Stop Above"@,
        LongOrderType::StopLimitAbove => "Stop-Limit Above"@,
    }
}

pub open spec fn long_order_cycled(t: LongOrderType) -> LongOrderType {
    match t {
        LongOrderType::Market => LongOrderType::LimitBelow,
        LongOrderType::LimitBelow => LongOrderType::StopAbove,
        LongOrderType::StopAbove => LongOrderType::StopLimitAbove,
        LongOrderType::StopLimitAbove => LongOrderType::Market,
    }
}

impl Default for LongOrderType {
    fn default() -> (r: Self)
        ensures
            r == LongOrderType::Market,
    {
        LongOrderType::Market
    }
}

impl LongOrderType {
    pub fn name(self) -> (r: &'static str)
        ensures
            r@ == long_order_name(self),
    {
        match self {
            LongOrderType::Market => "Market",
            LongOrderType::LimitBelow => "Limit Below",
            LongOrderType::StopAbove => "Stop Above",
            LongOrderType::StopLimitAbove => "Stop-Limit Above",
        }
    }

    /// The next order type in the builder's cycle.
    pub fn cycle(self) -> (r: Self)
        ensures
            r == long_order_cycled(self),
            long_order_index(r) == (long_order_index(self) + 1) % 4,
    {
        match self {
            LongOrderType::Market => LongOrderType::LimitBelow,
            LongOrderType::LimitBelow => LongOrderType::StopAbove,
            LongOrderType::StopAbove => LongOrderType::StopLimitAbove,
            LongOrderType::StopLimitAbove => LongOrderType::Market,
        }
    }

    /// Whether this order type needs a price offset.
    pub fn needs_offset(self) -> (b: bool)
        ensures
            b == (self != LongOrderType::Market),
    {
        !matches!(self, LongOrderType::Market)
    }

    /// Whether this order type needs the stop-limit gap field.
    pub fn needs_gap(self) -> (b: bool)
        ensures
            b == (self == LongOrderType::StopLimitAbove),
    {
        matches!(self, LongOrderType::StopLimitAbove)
    }
}

/// Cycling through the long order types four times comes back to the start.
pub proof fn law_long_order_cycle_period(t: LongOrderType)
    ensures
        long_order_cycled(long_order_cycled(long_order_cycled(long_order_cycled(t)))) == t,
        long_order_cycled(t) != t,
{
}

/// Entry order type for short positions.
#[derive(Debug, Clone, Copy, PartialEq, Eq, Structural)]
pub enum ShortOrderType {
    /// Standard market order: fills at the next bar's open (the default).
    Market,
    /// Limit sell: fills if price rallies X% above the signal close.
    LimitAbove,
    /// Stop sell (breakdown): fills if price breaks X% below the signal close.
    StopBelow,
}

pub open spec fn short_order_name(t: ShortOrderType) -> Seq<char> {
    match t {
        ShortOrderType::Market => "Market"@,
        ShortOrderType::LimitAbove => "Limit Above"@,
        ShortOrderType::StopBelow => "Stop Below"@,
    }
}

pub open spec fn short_order_cycled(t: ShortOrderType) -> ShortOrderType {
    match t {
        ShortOrderType::Market => ShortOrderType::LimitAbove,
        ShortOrderType::LimitAbove => ShortOrderType::StopBelow,
        ShortOrderType::StopBelow => ShortOrderType::Market,
    }
}

impl Default for ShortOrderType {
    fn default() -> (r: Self)
        ensures
            r == ShortOrderType::Market,
    {
        ShortOrderType::Market
    }
}

impl ShortOrderType {
    pub fn name(self) -> (r: &'static str)
        ensures
            r@ == short_order_name(self),
    {
        match self {
            ShortOrderType::Market => "Market",
            ShortOrderType::LimitAbove => "Limit Above",
            ShortOrderType::StopBelow => "Stop Below",
        }
    }

    pub fn cycle(self) -> (r: Self)
        ensures
            r == short_order_cycled(self),
    {
        match self {
            ShortOrderType::Market => ShortOrderType::LimitAbove,
            ShortOrderType::LimitAbove => ShortOrderType::StopBelow,
            ShortOrderType::StopBelow => ShortOrderType::Market,
        }
    }

    pub fn needs_offset(self) -> (b: bool)
        ensures
            b == (self != ShortOrderType::Market),
    {
        !matches!(self, ShortOrderType::Market)
    }
}

/// Cycling through the short order types three times comes back to the start.
pub proof fn law_short_order_cycle_period(t: ShortOrderType)
    ensures
        short_order_cycled(short_order_cycled(short_order_cycled(t))) == t,
        short_order_cycled(t) != t,
{
}

/// Rebalance mode for portfolio backtesting.
#[derive(Debug, Clone, Copy, PartialEq, Eq, Structural)]
pub enum RebalanceModeChoice {
    /// Each symbol uses `position_size_pct` of available cash at entry time.
    AvailableCapital,
    /// Capital is split equally among all configured symbols.
    EqualWeight,
}

pub open spec fn rebalance_name(m: RebalanceModeChoice) -> Seq<char> {
    match m {
        RebalanceModeChoice::AvailableCapital => "Available Capital"@,
        RebalanceModeChoice::EqualWeight => "Equal Weight"@,
    }
}

pub open spec fn rebalance_cycled(m: RebalanceModeChoice) -> RebalanceModeChoice {
    match m {
        RebalanceModeChoice::AvailableCapital => RebalanceModeChoice::EqualWeight,
        RebalanceModeChoice::EqualWeight => RebalanceModeChoice::AvailableCapital,
    }
}

impl Default for RebalanceModeChoice {
    fn default() -> (r: Self)
        ensures
            r == RebalanceModeChoice::AvailableCapital,
    {
        RebalanceModeChoice::AvailableCapital
    }
}

impl RebalanceModeChoice {
    pub fn name(self) -> (r: &'static str)
        ensures
            r@ == rebalance_name(self),
    {
        match self {
            RebalanceModeChoice::AvailableCapital => "Available Capital",
            RebalanceModeChoice::EqualWeight => "Equal Weight",
        }
    }

    pub fn cycle(self) -> (r: Self)
        ensures
            r == rebalance_cycled(self),
    {
        match self {
            RebalanceModeChoice::AvailableCapital => RebalanceModeChoice::EqualWeight,
            RebalanceModeChoice::EqualWeight => RebalanceModeChoice::AvailableCapital,
        }
    }
}

/// Cycling the rebalance mode twice comes back to the start.
pub proof fn law_rebalance_cycle_period(m: RebalanceModeChoice)
    ensures
        rebalance_cycled(rebalance_cycled(m)) == m,
        rebalance_cycled(m) != m,
{
}

/// Voting mode for composed ensemble strategies.
#[derive(Debug, Clone, Copy, PartialEq, Eq, Structural)]
pub enum EnsembleModeChoice {
    WeightedMajority,
    Unanimous,
    AnySignal,
    StrongestSignal,
}

pub open spec fn ensemble_name(m: EnsembleModeChoice) -> Seq<char> {
    match m {
        EnsembleModeChoice::WeightedMajority => "Weighted Majority"@,
        EnsembleModeChoice::Unanimous => "Unanimous"@,
        EnsembleModeChoice::AnySignal => "Any Signal"@,
        EnsembleModeChoice::StrongestSignal => "Strongest Signal"@,
    }
}

pub open spec fn ensemble_cycled(m: EnsembleModeChoice) -> EnsembleModeChoice {
    match m {
        EnsembleModeChoice::WeightedMajority => EnsembleModeChoice::Unanimous,
        EnsembleModeChoice::Unanimous => EnsembleModeChoice::AnySignal,
        EnsembleModeChoice::AnySignal => EnsembleModeChoice::StrongestSignal,
        EnsembleModeChoice::StrongestSignal => EnsembleModeChoice::WeightedMajority,
    }
}

impl Default for EnsembleModeChoice {
    fn default() -> (r: Self)
        ensures
            r == EnsembleModeChoice::WeightedMajority,
    {
        EnsembleModeChoice::WeightedMajority
    }
}

impl EnsembleModeChoice {
    pub fn name(self) -> (r: &'static str)
        ensures
            r@ == ensemble_name(self),
    {
        match self {
            EnsembleModeChoice::WeightedMajority => "Weighted Majority",
            EnsembleModeChoice::Unanimous => "Unanimous",
            EnsembleModeChoice::AnySignal => "Any Signal",
            EnsembleModeChoice::StrongestSignal => "Strongest Signal",
        }
    }

    pub fn cycle(self) -> (r: Self)
        ensures
            r == ensemble_cycled(self),
    {
        match self {
            EnsembleModeChoice::WeightedMajority => EnsembleModeChoice::Unanimous,
            EnsembleModeChoice::Unanimous => EnsembleModeChoice::AnySignal,
            EnsembleModeChoice::AnySignal => EnsembleModeChoice::StrongestSignal,
            EnsembleModeChoice::StrongestSignal => EnsembleModeChoice::WeightedMajority,
        }
    }
}

/// Cycling the ensemble mode four times comes back to the start.
pub proof fn law_ensemble_cycle_period(m: EnsembleModeChoice)
    ensures
        ensemble_cycled(ensemble_cycled(ensemble_cycled(ensemble_cycled(m)))) == m,
        ensemble_cycled(m) != m,
{
}

/// Whether the optimizer uses grid search or Bayesian/SAMBO search.
#[derive(Debug, Clone, Copy, PartialEq, Eq, Structural)]
pub enum SearchMethod {
    Grid,
    Bayesian,
}

pub open spec fn search_method_label(m: SearchMethod) -> Seq<char> {
    match m {
        SearchMethod::Grid => "Grid Search (exhaustive)"@,
        SearchMethod::Bayesian => "Bayesian/SAMBO (adaptive)"@,
    }
}

pub open spec fn toggled_search(m: SearchMethod) -> SearchMethod {
    match m {
        SearchMethod::Grid => SearchMethod::Bayesian,
        SearchMethod::Bayesian => SearchMethod::Grid,
    }
}

impl Default for SearchMethod {
    fn default() -> (r: Self)
        ensures
            r == SearchMethod::Grid,
    {
        SearchMethod::Grid
    }
}

impl SearchMethod {
    pub fn label(&self) -> (r: &'static str)
        ensures
            r@ == search_method_label(*self),
    {
        match self {
            SearchMethod::Grid => "Grid Search (exhaustive)",
            SearchMethod::Bayesian => "Bayesian/SAMBO (adaptive)",
        }
    }

    pub fn toggle(self) -> (r: Self)
        ensures
            r == toggled_search(self),
    {
        match self {
            SearchMethod::Grid => SearchMethod::Bayesian,
            SearchMethod::Bayesian => SearchMethod::Grid,
        }
    }
}

/// Toggling the search method twice gives it back.
pub proof fn law_search_method_toggle_involutive(m: SearchMethod)
    ensures
        toggled_search(toggled_search(m)) == m,
        toggled_search(m) != m,
{
}

/// Metrics the optimizer can maximise.
#[derive(Debug, Clone, Copy, PartialEq, Eq, Structural)]
pub enum OptimizeMetric {
    TotalReturn,
    SharpeRatio,
    SortinoRatio,
    CalmarRatio,
    ProfitFactor,
    WinRate,
    MinDrawdown,
}

/// The metrics in the order the optimizer screen offers them.
pub open spec fn optimize_metrics_listed() -> Seq<OptimizeMetric> {
    seq![
        OptimizeMetric::SharpeRatio,
        OptimizeMetric::TotalReturn,
        OptimizeMetric::SortinoRatio,
        OptimizeMetric::CalmarRatio,
        OptimizeMetric::ProfitFactor,
        OptimizeMetric::WinRate,
        OptimizeMetric::MinDrawdown,
    ]
}

pub open spec fn optimize_metric_name(m: OptimizeMetric) -> Seq<char> {
    match m {
        OptimizeMetric::SharpeRatio => "Sharpe Ratio"@,
        OptimizeMetric::TotalReturn => "Total Return"@,
        OptimizeMetric::SortinoRatio => "Sortino Ratio"@,
        OptimizeMetric::CalmarRatio => "Calmar Ratio"@,
        OptimizeMetric::ProfitFactor => "Profit Factor"@,
        OptimizeMetric::WinRate => "Win Rate"@,
        OptimizeMetric::MinDrawdown => "Min Drawdown"@,
    }
}

/// The metrics the optimizer screen offers, Sharpe ratio first.
pub fn all_optimize_metrics() -> (v: Vec<OptimizeMetric>)
    ensures
        v@ == optimize_metrics_listed(),
{
    let v = vec![
        OptimizeMetric::SharpeRatio,
        OptimizeMetric::TotalReturn,
        OptimizeMetric::SortinoRatio,
        OptimizeMetric::CalmarRatio,
        OptimizeMetric::ProfitFactor,
        OptimizeMetric::WinRate,
        OptimizeMetric::MinDrawdown,
    ];
    assert(v@ =~= optimize_metrics_listed());
    v
}

pub fn optimize_metric_label(m: OptimizeMetric) -> (r: &'static str)
    ensures
        r@ == optimize_metric_name(m),
{
    match m {
        OptimizeMetric::SharpeRatio => "Sharpe Ratio",
        OptimizeMetric::TotalReturn => "Total Return",
        OptimizeMetric::SortinoRatio => "Sortino Ratio",
        OptimizeMetric::CalmarRatio => "Calmar Ratio",
        OptimizeMetric::ProfitFactor => "Profit Factor",
        OptimizeMetric::WinRate => "Win Rate",
        OptimizeMetric::MinDrawdown => "Min Drawdown",
    }
}

/// The optimizer screen offers every metric exactly once.
pub proof fn law_optimize_metrics_listed_once(m: OptimizeMetric)
    ensures
        optimize_metrics_listed().contains(m),
        forall|i: int, j: int|
            0 <= i < j < 7 ==> optimize_metrics_listed()[i] != optimize_metrics_listed()[j],
{
    let k: int = match m {
        OptimizeMetric::SharpeRatio => 0,
        OptimizeMetric::TotalReturn => 1,
        OptimizeMetric::SortinoRatio => 2,
        OptimizeMetric::CalmarRatio => 3,
        OptimizeMetric::ProfitFactor => 4,
        OptimizeMetric::WinRate => 5,
        OptimizeMetric::MinDrawdown => 6,
    };
    assert(optimize_metrics_listed()[k] == m);
}

/// A group of conditions, each with the operator that combines it with the
/// next one (ignored for the last). The conditions themselves are carried
/// along untouched.
pub struct ConditionGroup<C> {
    pub conditions: Vec<(C, LogicalOp)>,
}

impl<C> ConditionGroup<C> {
    /// An empty group.
    pub fn new() -> (g: Self)
        ensures
            g.conditions@.len() == 0,
    {
        ConditionGroup { conditions: Vec::new() }
    }

    /// Toggles the operator of the condition at `idx` (how it combines with
    /// the next one); nothing happens when there is no such condition.
    pub fn toggle_op_at(&mut self, idx: usize)
        ensures
            idx < old(self).conditions@.len() ==> final(self).conditions@ == old(
                self,
            ).conditions@.update(
                idx as int,
                (old(self).conditions@[idx as int].0, toggled_op(old(self).conditions@[idx as int].1)),
            ),
            idx >= old(self).conditions@.len() ==> final(self).conditions@ == old(self).conditions@,
    {
        if idx < self.conditions.len() {
            let ghost before = self.conditions@;
            let (c, op) = self.conditions.remove(idx);
            self.conditions.insert(idx, (c, op.toggle()));
            proof {
                let (c0, op0) = before[idx as int];
                assert(self.conditions@ =~= before.update(idx as int, (c0, toggled_op(op0))));
            }
        }
    }

    /// Deletes the condition at `idx`; nothing happens when there is no such
    /// condition.
    pub fn remove_at(&mut self, idx: usize)
        ensures
            idx < old(self).conditions@.len() ==> final(self).conditions@ == old(
                self,
            ).conditions@.remove(idx as int),
            idx >= old(self).conditions@.len() ==> final(self).conditions@ == old(self).conditions@,
    {
        if idx < self.conditions.len() {
            self.conditions.remove(idx);
        }
    }
}

/// How a group of conditions reads: each condition's text, joined by the
/// operator that the previous condition combines with the next one.
pub open spec fn conditions_text(displays: Seq<Seq<char>>, ops: Seq<LogicalOp>) -> Seq<char>
    decreases displays.len(),
{
    if displays.len() == 0 {
        Seq::empty()
    } else if displays.len() == 1 {
        displays[0]
    } else {
        conditions_text(displays.drop_last(), ops) + " "@ + logical_op_name(
            ops[displays.len() - 2],
        ) + " "@ + displays.last()
    }
}

/// The text of a condition group from the texts of its conditions and their
/// operators (`(no conditions)` when it is empty).
pub fn display_conditions(displays: &Vec<String>, ops: &Vec<LogicalOp>) -> (r: String)
    requires
        ops@.len() == displays@.len(),
    ensures
        r@ == (if displays@.len() == 0 {
            "(no conditions)"@
        } else {
            conditions_text(Seq::new(displays@.len(), |i: int| displays@[i]@), ops@)
        }),
{
    if displays.len() == 0 {
        return crate::text::string_of("(no conditions)");
    }
    let ghost ds = Seq::new(displays@.len(), |i: int| displays@[i]@);
    let mut result = String::new();
    let mut i: usize = 0;
    while i < displays.len()
        invariant
            ops@.len() == displays@.len(),
            ds == Seq::new(displays@.len(), |i: int| displays@[i]@),
            i <= displays.len(),
            result@ == conditions_text(ds.take(i as int), ops@),
        decreases displays.len() - i,
    {
        proof {
            assert(ds.take(i + 1).drop_last() =~= ds.take(i as int));
            assert(ds.take(i + 1).last() == displays@[i as int]@);
        }
        if i > 0 {
            crate::text::push_str(&mut result, " ");
            crate::text::push_str(&mut result, ops[i - 1].name());
            crate::text::push_str(&mut result, " ");
        }
        crate::text::push_str(&mut result, displays[i].as_str());
        proof {
            if i == 0 {
                assert(result@ =~= ds.take(1)[0]);
            }
        }
        i = i + 1;
    }
    proof {
        assert(ds.take(displays.len() as int) =~= ds);
    }
    result
}

} // verus!
