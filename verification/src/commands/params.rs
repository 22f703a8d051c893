//! Reading the textual choices of the commands (intervals, ranges, statement
//! types, regions, asset types, screeners) into the values the commands work
//! with.
use vstd::prelude::*;

use crate::config::{CliError, CliErrorView};
use crate::text::{
    push_char, push_str, str_chars, str_eq, str_to_lowercase, str_to_uppercase, string_of,
    unicode_lowercase, unicode_uppercase,
};

verus! {

// ── Name tables ─────────────────────────────────────────────────────────────

/// The names of a table, as character sequences.
pub open spec fn names_view<T>(t: Seq<(&'static str, T)>) -> Seq<(Seq<char>, T)> {
    Seq::new(t.len(), |i: int| (t[i].0@, t[i].1))
}

/// `key` first appears in `table` at index `i`.
pub open spec fn first_key<T>(table: Seq<(Seq<char>, T)>, key: Seq<char>, i: int) -> bool {
    &&& 0 <= i < table.len()
    &&& table[i].0 == key
    &&& forall|j: int| 0 <= j < i ==> (#[trigger] table[j]).0 != key
}

/// The value that `key` names in `table`: the value of its first entry.
pub open spec fn table_lookup<T>(table: Seq<(Seq<char>, T)>, key: Seq<char>) -> Option<T> {
    if exists|i: int| first_key(table, key, i) {
        Some(table[choose|i: int| first_key(table, key, i)].1)
    } else {
        None
    }
}

proof fn lemma_first_key_unique<T>(table: Seq<(Seq<char>, T)>, key: Seq<char>, i: int, k: int)
    requires
        first_key(table, key, i),
        first_key(table, key, k),
    ensures
        i == k,
{
    if i < k {
        assert(table[i].0 != key);
    }
    if k < i {
        assert(table[k].0 != key);
    }
}

/// Looks `key` up in a table of names.
pub fn lookup<T: Copy>(table: &Vec<(&'static str, T)>, key: &str) -> (r: Option<T>)
    ensures
        r == table_lookup(names_view(table@), key@),
{
    let ghost t = names_view(table@);
    let mut i: usize = 0;
    while i < table.len()
        invariant
            i <= table.len(),
            t == names_view(table@),
            forall|j: int| 0 <= j < i ==> (#[trigger] t[j]).0 != key@,
        decreases table.len() - i,
    {
        let (name, value) = table[i];
        if str_eq(name, key) {
            proof {
                assert(first_key(t, key@, i as int));
                let c = choose|c: int| first_key(t, key@, c);
                lemma_first_key_unique(t, key@, i as int, c);
            }
            return Some(value);
        }
        i = i + 1;
    }
    proof {
        assert forall|c: int| !first_key(t, key@, c) by {
            if first_key(t, key@, c) {
                assert(t[c].0 != key@);
            }
        }
    }
    None
}

/// `"<prefix>'<s>'<suffix>"`, the shape of the CLI's messages about a bad value.
pub fn quoted_message(prefix: &str, s: &str, suffix: &str) -> (m: String)
    ensures
        m@ == prefix@ + "'"@ + s@ + "'"@ + suffix@,
{
    let mut m = string_of(prefix);
    push_str(&mut m, "'");
    push_str(&mut m, s);
    push_str(&mut m, "'");
    push_str(&mut m, suffix);
    proof {
        assert(m@ =~= prefix@ + "'"@ + s@ + "'"@ + suffix@);
    }
    m
}

// ── Chart interval and range ────────────────────────────────────────────────

/// Bar intervals that the chart command accepts.
#[derive(Debug, Clone, Copy, PartialEq, Eq, Structural)]
pub enum Interval {
    OneMinute,
    FiveMinutes,
    FifteenMinutes,
    OneHour,
    OneDay,
    OneWeek,
    OneMonth,
}

pub open spec fn interval_names() -> Seq<(Seq<char>, Interval)> {
    seq![
        ("1m"@, Interval::OneMinute),
        ("5m"@, Interval::FiveMinutes),
        ("15m"@, Interval::FifteenMinutes),
        ("1h"@, Interval::OneHour),
        ("1d"@, Interval::OneDay),
        ("1wk"@, Interval::OneWeek),
        ("1mo"@, Interval::OneMonth),
    ]
}

fn interval_table() -> (t: Vec<(&'static str, Interval)>)
    ensures
        names_view(t@) == interval_names(),
{
    let t = vec![
        ("1m", Interval::OneMinute),
        ("5m", Interval::FiveMinutes),
        ("15m", Interval::FifteenMinutes),
        ("1h", Interval::OneHour),
        ("1d", Interval::OneDay),
        ("1wk", Interval::OneWeek),
        ("1mo", Interval::OneMonth),
    ];
    assert(names_view(t@) =~= interval_names());
    t
}

/// Reads a chart interval, ignoring case.
pub fn parse_interval(s: &str) -> (r: Result<Interval, CliError>)
    ensures
        match r {
            Ok(i) => table_lookup(interval_names(), unicode_lowercase(s@)) == Some(i),
            Err(e) => table_lookup(interval_names(), unicode_lowercase(s@)) is None && e@
                == CliErrorView::InvalidArgument(
                "Invalid interval "@ + "'"@ + s@ + "'"@ + ". Valid: 1m, 5m, 15m, 1h, 1d, 1wk, 1mo"@,
            ),
        },
{
    let lower = str_to_lowercase(s);
    match lookup(&interval_table(), lower.as_str()) {
        Some(i) => Ok(i),
        None => Err(
            CliError::InvalidArgument(
                quoted_message("Invalid interval ", s, ". Valid: 1m, 5m, 15m, 1h, 1d, 1wk, 1mo"),
            ),
        ),
    }
}

/// Time ranges that the chart command accepts.
#[derive(Debug, Clone, Copy, PartialEq, Eq, Structural)]
pub enum TimeRange {
    OneDay,
    FiveDays,
    OneMonth,
    ThreeMonths,
    SixMonths,
    OneYear,
    TwoYears,
    FiveYears,
    TenYears,
    YearToDate,
    Max,
}

pub open spec fn range_names() -> Seq<(Seq<char>, TimeRange)> {
    seq![
        ("1d"@, TimeRange::OneDay),
        ("5d"@, TimeRange::FiveDays),
        ("1mo"@, TimeRange::OneMonth),
        ("3mo"@, TimeRange::ThreeMonths),
        ("6mo"@, TimeRange::SixMonths),
        ("1y"@, TimeRange::OneYear),
        ("2y"@, TimeRange::TwoYears),
        ("5y"@, TimeRange::FiveYears),
        ("10y"@, TimeRange::TenYears),
        ("ytd"@, TimeRange::YearToDate),
        ("max"@, TimeRange::Max),
    ]
}

fn range_table() -> (t: Vec<(&'static str, TimeRange)>)
    ensures
        names_view(t@) == range_names(),
{
    let t = vec![
        ("1d", TimeRange::OneDay),
        ("5d", TimeRange::FiveDays),
        ("1mo", TimeRange::OneMonth),
        ("3mo", TimeRange::ThreeMonths),
        ("6mo", TimeRange::SixMonths),
        ("1y", TimeRange::OneYear),
        ("2y", TimeRange::TwoYears),
        ("5y", TimeRange::FiveYears),
        ("10y", TimeRange::TenYears),
        ("ytd", TimeRange::YearToDate),
        ("max", TimeRange::Max),
    ];
    assert(names_view(t@) =~= range_names());
    t
}

/// Reads a chart time range, ignoring case.
pub fn parse_range(s: &str) -> (r: Result<TimeRange, CliError>)
    ensures
        match r {
            Ok(x) => table_lookup(range_names(), unicode_lowercase(s@)) == Some(x),
            Err(e) => table_lookup(range_names(), unicode_lowercase(s@)) is None && e@
                == CliErrorView::InvalidArgument(
                "Invalid range "@ + "'"@ + s@ + "'"@
                    + ". Valid: 1d, 5d, 1mo, 3mo, 6mo, 1y, 2y, 5y, 10y, ytd, max"@,
            ),
        },
{
    let lower = str_to_lowercase(s);
    match lookup(&range_table(), lower.as_str()) {
        Some(x) => Ok(x),
        None => Err(
            CliError::InvalidArgument(
                quoted_message(
                    "Invalid range ",
                    s,
                    ". Valid: 1d, 5d, 1mo, 3mo, 6mo, 1y, 2y, 5y, 10y, ytd, max",
                ),
            ),
        ),
    }
}

/// Time ranges of the calendar command, which also takes `1wk` for five days.
pub open spec fn calendar_range_names() -> Seq<(Seq<char>, TimeRange)> {
    seq![
        ("1d"@, TimeRange::OneDay),
        ("5d"@, TimeRange::FiveDays),
        ("1wk"@, TimeRange::FiveDays),
        ("1mo"@, TimeRange::OneMonth),
        ("3mo"@, TimeRange::ThreeMonths),
        ("6mo"@, TimeRange::SixMonths),
        ("1y"@, TimeRange::OneYear),
        ("2y"@, TimeRange::TwoYears),
        ("5y"@, TimeRange::FiveYears),
        ("10y"@, TimeRange::TenYears),
        ("ytd"@, TimeRange::YearToDate),
        ("max"@, TimeRange::Max),
    ]
}

fn calendar_range_table() -> (t: Vec<(&'static str, TimeRange)>)
    ensures
        names_view(t@) == calendar_range_names(),
{
    let t = vec![
        ("1d", TimeRange::OneDay),
        ("5d", TimeRange::FiveDays),
        ("1wk", TimeRange::FiveDays),
        ("1mo", TimeRange::OneMonth),
        ("3mo", TimeRange::ThreeMonths),
        ("6mo", TimeRange::SixMonths),
        ("1y", TimeRange::OneYear),
        ("2y", TimeRange::TwoYears),
        ("5y", TimeRange::FiveYears),
        ("10y", TimeRange::TenYears),
        ("ytd", TimeRange::YearToDate),
        ("max", TimeRange::Max),
    ];
    assert(names_view(t@) =~= calendar_range_names());
    t
}

/// Reads the calendar command's time range, ignoring case.
pub fn parse_calendar_range(s: &str) -> (r: Result<TimeRange, CliError>)
    ensures
        match r {
            Ok(x) => table_lookup(calendar_range_names(), unicode_lowercase(s@)) == Some(x),
            Err(e) => table_lookup(calendar_range_names(), unicode_lowercase(s@)) is None && e@
                == CliErrorView::InvalidArgument(
                "Invalid range "@ + "'"@ + s@ + "'"@
                    + ". Valid ranges: 1d, 5d/1wk, 1mo, 3mo, 6mo, 1y, 2y, 5y, 10y, ytd, max"@,
            ),
        },
{
    let lower = str_to_lowercase(s);
    match lookup(&calendar_range_table(), lower.as_str()) {
        Some(x) => Ok(x),
        None => Err(
            CliError::InvalidArgument(
                quoted_message(
                    "Invalid range ",
                    s,
                    ". Valid ranges: 1d, 5d/1wk, 1mo, 3mo, 6mo, 1y, 2y, 5y, 10y, ytd, max",
                ),
            ),
        ),
    }
}

// ── Financial statements ────────────────────────────────────────────────────

/// Financial statements that the financials command shows.
#[derive(Debug, Clone, Copy, PartialEq, Eq, Structural)]
pub enum StatementType {
    Income,
    Balance,
    CashFlow,
}

pub open spec fn statement_names() -> Seq<(Seq<char>, StatementType)> {
    seq![
        ("income"@, StatementType::Income),
        ("income-statement"@, StatementType::Income),
        ("balance"@, StatementType::Balance),
        ("balance-sheet"@, StatementType::Balance),
        ("cash"@, StatementType::CashFlow),
        ("cashflow"@, StatementType::CashFlow),
        ("cash-flow"@, StatementType::CashFlow),
    ]
}

fn statement_table() -> (t: Vec<(&'static str, StatementType)>)
    ensures
        names_view(t@) == statement_names(),
{
    let t = vec![
        ("income", StatementType::Income),
        ("income-statement", StatementType::Income),
        ("balance", StatementType::Balance),
        ("balance-sheet", StatementType::Balance),
        ("cash", StatementType::CashFlow),
        ("cashflow", StatementType::CashFlow),
        ("cash-flow", StatementType::CashFlow),
    ];
    assert(names_view(t@) =~= statement_names());
    t
}

/// Reads a statement type, ignoring case.
pub fn parse_statement_type(s: &str) -> (r: Result<StatementType, CliError>)
    ensures
        match r {
            Ok(x) => table_lookup(statement_names(), unicode_lowercase(s@)) == Some(x),
            Err(e) => table_lookup(statement_names(), unicode_lowercase(s@)) is None && e@
                == CliErrorView::InvalidArgument(
                "Invalid statement type "@ + "'"@ + s@ + "'"@
                    + ". Valid types: income, balance, cash-flow"@,
            ),
        },
{
    let lower = str_to_lowercase(s);
    match lookup(&statement_table(), lower.as_str()) {
        Some(x) => Ok(x),
        None => Err(
            CliError::InvalidArgument(
                quoted_message(
                    "Invalid statement type ",
                    s,
                    ". Valid types: income, balance, cash-flow",
                ),
            ),
        ),
    }
}

/// Reporting frequencies of financial statements.
#[derive(Debug, Clone, Copy, PartialEq, Eq, Structural)]
pub enum Frequency {
    Annual,
    Quarterly,
}

pub open spec fn frequency_names() -> Seq<(Seq<char>, Frequency)> {
    seq![
        ("annual"@, Frequency::Annual),
        ("yearly"@, Frequency::Annual),
        ("year"@, Frequency::Annual),
        ("quarterly"@, Frequency::Quarterly),
        ("quarter"@, Frequency::Quarterly),
        ("q"@, Frequency::Quarterly),
    ]
}

fn frequency_table() -> (t: Vec<(&'static str, Frequency)>)
    ensures
        names_view(t@) == frequency_names(),
{
    let t = vec![
        ("annual", Frequency::Annual),
        ("yearly", Frequency::Annual),
        ("year", Frequency::Annual),
        ("quarterly", Frequency::Quarterly),
        ("quarter", Frequency::Quarterly),
        ("q", Frequency::Quarterly),
    ];
    assert(names_view(t@) =~= frequency_names());
    t
}

/// Reads a reporting frequency, ignoring case.
pub fn parse_frequency(s: &str) -> (r: Result<Frequency, CliError>)
    ensures
        match r {
            Ok(x) => table_lookup(frequency_names(), unicode_lowercase(s@)) == Some(x),
            Err(e) => table_lookup(frequency_names(), unicode_lowercase(s@)) is None && e@
                == CliErrorView::InvalidArgument(
                "Invalid frequency "@ + "'"@ + s@ + "'"@
                    + ". Valid frequencies: annual, quarterly"@,
            ),
        },
{
    let lower = str_to_lowercase(s);
    match lookup(&frequency_table(), lower.as_str()) {
        Some(x) => Ok(x),
        None => Err(
            CliError::InvalidArgument(
                quoted_message("Invalid frequency ", s, ". Valid frequencies: annual, quarterly"),
            ),
        ),
    }
}

// ── Regions ─────────────────────────────────────────────────────────────────

/// Regions of the world indices.
#[derive(Debug, Clone, Copy, PartialEq, Eq, Structural)]
pub enum IndicesRegion {
    Americas,
    Europe,
    AsiaPacific,
    MiddleEastAfrica,
    Currencies,
}

pub open spec fn indices_region_names() -> Seq<(Seq<char>, IndicesRegion)> {
    seq![
        ("americas"@, IndicesRegion::Americas),
        ("america"@, IndicesRegion::Americas),
        ("am"@, IndicesRegion::Americas),
        ("europe"@, IndicesRegion::Europe),
        ("eu"@, IndicesRegion::Europe),
        ("asia"@, IndicesRegion::AsiaPacific),
        ("asiapacific"@, IndicesRegion::AsiaPacific),
        ("asia-pacific"@, IndicesRegion::AsiaPacific),
        ("apac"@, IndicesRegion::AsiaPacific),
        ("mea"@, IndicesRegion::MiddleEastAfrica),
        ("middleeastafrica"@, IndicesRegion::MiddleEastAfrica),
        ("middle-east-africa"@, IndicesRegion::MiddleEastAfrica),
        ("emea"@, IndicesRegion::MiddleEastAfrica),
        ("currencies"@, IndicesRegion::Currencies),
        ("currency"@, IndicesRegion::Currencies),
        ("fx"@, IndicesRegion::Currencies),
    ]
}

fn indices_region_table() -> (t: Vec<(&'static str, IndicesRegion)>)
    ensures
        names_view(t@) == indices_region_names(),
{
    let t = vec![
        ("americas", IndicesRegion::Americas),
        ("america", IndicesRegion::Americas),
        ("am", IndicesRegion::Americas),
        ("europe", IndicesRegion::Europe),
        ("eu", IndicesRegion::Europe),
        ("asia", IndicesRegion::AsiaPacific),
        ("asiapacific", IndicesRegion::AsiaPacific),
        ("asia-pacific", IndicesRegion::AsiaPacific),
        ("apac", IndicesRegion::AsiaPacific),
        ("mea", IndicesRegion::MiddleEastAfrica),
        ("middleeastafrica", IndicesRegion::MiddleEastAfrica),
        ("middle-east-africa", IndicesRegion::MiddleEastAfrica),
        ("emea", IndicesRegion::MiddleEastAfrica),
        ("currencies", IndicesRegion::Currencies),
        ("currency", IndicesRegion::Currencies),
        ("fx", IndicesRegion::Currencies),
    ];
    assert(names_view(t@) =~= indices_region_names());
    t
}

/// Reads a world-indices region, ignoring case.
pub fn parse_indices_region(s: &str) -> (r: Result<IndicesRegion, CliError>)
    ensures
        match r {
            Ok(x) => table_lookup(indices_region_names(), unicode_lowercase(s@)) == Some(x),
            Err(e) => table_lookup(indices_region_names(), unicode_lowercase(s@)) is None && e@
                == CliErrorView::InvalidArgument(
                "Invalid region "@ + "'"@ + s@ + "'"@
                    + ". Valid regions: americas, europe, asia, mea, currencies"@,
            ),
        },
{
    let lower = str_to_lowercase(s);
    match lookup(&indices_region_table(), lower.as_str()) {
        Some(x) => Ok(x),
        None => Err(
            CliError::InvalidArgument(
                quoted_message(
                    "Invalid region ",
                    s,
                    ". Valid regions: americas, europe, asia, mea, currencies",
                ),
            ),
        ),
    }
}

/// Markets of the market-summary and trending commands.
#[derive(Debug, Clone, Copy, PartialEq, Eq, Structural)]
pub enum Region {
    UnitedStates,
    UnitedKingdom,
    Canada,
    Australia,
    Germany,
    France,
    Italy,
    Spain,
    HongKong,
    Singapore,
    India,
    Brazil,
    China,
    Taiwan,
}

pub open spec fn region_names() -> Seq<(Seq<char>, Region)> {
    seq![
        ("US"@, Region::UnitedStates),
        ("GB"@, Region::UnitedKingdom),
        ("UK"@, Region::UnitedKingdom),
        ("CA"@, Region::Canada),
        ("AU"@, Region::Australia),
        ("DE"@, Region::Germany),
        ("FR"@, Region::France),
        ("IT"@, Region::Italy),
        ("ES"@, Region::Spain),
        ("HK"@, Region::HongKong),
        ("SG"@, Region::Singapore),
        ("IN"@, Region::India),
        ("BR"@, Region::Brazil),
        ("CN"@, Region::China),
        ("TW"@, Region::Taiwan),
    ]
}

fn region_table() -> (t: Vec<(&'static str, Region)>)
    ensures
        names_view(t@) == region_names(),
{
    let t = vec![
        ("US", Region::UnitedStates),
        ("GB", Region::UnitedKingdom),
        ("UK", Region::UnitedKingdom),
        ("CA", Region::Canada),
        ("AU", Region::Australia),
        ("DE", Region::Germany),
        ("FR", Region::France),
        ("IT", Region::Italy),
        ("ES", Region::Spain),
        ("HK", Region::HongKong),
        ("SG", Region::Singapore),
        ("IN", Region::India),
        ("BR", Region::Brazil),
        ("CN", Region::China),
        ("TW", Region::Taiwan),
    ];
    assert(names_view(t@) =~= region_names());
    t
}

/// Reads a market by its two-letter country code, ignoring case; `None` for
/// any other text.
pub fn parse_region(s: &str) -> (r: Option<Region>)
    ensures
        r == table_lookup(region_names(), unicode_uppercase(s@)),
{
    let upper = str_to_uppercase(s);
    lookup(&region_table(), upper.as_str())
}

// ── Asset types ─────────────────────────────────────────────────────────────

/// Asset types of the symbol lookup.
#[derive(Debug, Clone, Copy, PartialEq, Eq, Structural)]
pub enum LookupType {
    All,
    Equity,
    MutualFund,
    Etf,
    Index,
    Future,
    Currency,
    Cryptocurrency,
}

pub open spec fn lookup_type_names() -> Seq<(Seq<char>, LookupType)> {
    seq![
        ("equity"@, LookupType::Equity),
        ("stock"@, LookupType::Equity),
        ("stocks"@, LookupType::Equity),
        ("etf"@, LookupType::Etf),
        ("etfs"@, LookupType::Etf),
        ("mutualfund"@, LookupType::MutualFund),
        ("fund"@, LookupType::MutualFund),
        ("funds"@, LookupType::MutualFund),
        ("index"@, LookupType::Index),
        ("indices"@, LookupType::Index),
        ("indexes"@, LookupType::Index),
        ("future"@, LookupType::Future),
        ("futures"@, LookupType::Future),
        ("currency"@, LookupType::Currency),
        ("currencies"@, LookupType::Currency),
        ("forex"@, LookupType::Currency),
        ("cryptocurrency"@, LookupType::Cryptocurrency),
        ("crypto"@, LookupType::Cryptocurrency),
        ("all"@, LookupType::All),
    ]
}

fn lookup_type_table() -> (t: Vec<(&'static str, LookupType)>)
    ensures
        names_view(t@) == lookup_type_names(),
{
    let t = vec![
        ("equity", LookupType::Equity),
        ("stock", LookupType::Equity),
        ("stocks", LookupType::Equity),
        ("etf", LookupType::Etf),
        ("etfs", LookupType::Etf),
        ("mutualfund", LookupType::MutualFund),
        ("fund", LookupType::MutualFund),
        ("funds", LookupType::MutualFund),
        ("index", LookupType::Index),
        ("indices", LookupType::Index),
        ("indexes", LookupType::Index),
        ("future", LookupType::Future),
        ("futures", LookupType::Future),
        ("currency", LookupType::Currency),
        ("currencies", LookupType::Currency),
        ("forex", LookupType::Currency),
        ("cryptocurrency", LookupType::Cryptocurrency),
        ("crypto", LookupType::Cryptocurrency),
        ("all", LookupType::All),
    ];
    assert(names_view(t@) =~= lookup_type_names());
    t
}

/// Reads an asset type of the symbol lookup, ignoring case.
pub fn parse_lookup_type(s: &str) -> (r: Result<LookupType, CliError>)
    ensures
        match r {
            Ok(x) => table_lookup(lookup_type_names(), unicode_lowercase(s@)) == Some(x),
            Err(e) => table_lookup(lookup_type_names(), unicode_lowercase(s@)) is None && e@
                == CliErrorView::InvalidArgument(
                "Invalid asset type "@ + "'"@ + s@ + "'"@
                    + ". Valid types: equity, etf, mutualfund, index, future, currency, cryptocurrency, all"@,
            ),
        },
{
    let lower = str_to_lowercase(s);
    match lookup(&lookup_type_table(), lower.as_str()) {
        Some(x) => Ok(x),
        None => Err(
            CliError::InvalidArgument(
                quoted_message(
                    "Invalid asset type ",
                    s,
                    ". Valid types: equity, etf, mutualfund, index, future, currency, cryptocurrency, all",
                ),
            ),
        ),
    }
}

// ── Readings, as the commands use them ──────────────────────────────────────

pub open spec fn interval_of(s: Seq<char>) -> Option<Interval> {
    table_lookup(interval_names(), unicode_lowercase(s))
}

pub open spec fn range_of(s: Seq<char>) -> Option<TimeRange> {
    table_lookup(range_names(), unicode_lowercase(s))
}

pub open spec fn interval_error(s: Seq<char>) -> CliErrorView {
    CliErrorView::InvalidArgument(
        "Invalid interval "@ + "'"@ + s + "'"@ + ". Valid: 1m, 5m, 15m, 1h, 1d, 1wk, 1mo"@,
    )
}

pub open spec fn range_error(s: Seq<char>) -> CliErrorView {
    CliErrorView::InvalidArgument(
        "Invalid range "@ + "'"@ + s + "'"@
            + ". Valid: 1d, 5d, 1mo, 3mo, 6mo, 1y, 2y, 5y, 10y, ytd, max"@,
    )
}

// ── Screeners ───────────────────────────────────────────────────────────────

/// The predefined screeners.
#[derive(Debug, Clone, Copy, PartialEq, Eq, Structural)]
pub enum ScreenerKind {
    AggressiveSmallCaps,
    DayGainers,
    DayLosers,
    GrowthTechnologyStocks,
    MostActives,
    MostShortedStocks,
    SmallCapGainers,
    UndervaluedGrowthStocks,
    UndervaluedLargeCaps,
    ConservativeForeignFunds,
    HighYieldBond,
    PortfolioAnchors,
    SolidLargeGrowthFunds,
    SolidMidcapGrowthFunds,
    TopMutualFunds,
}

/// The names a screener is known by (finance-query's `Screener::parse`
/// table): the full name of each, and a few short aliases.
pub open spec fn screener_names() -> Seq<(Seq<char>, ScreenerKind)> {
    seq![
        ("aggressive-small-caps"@, ScreenerKind::AggressiveSmallCaps),
        ("day-gainers"@, ScreenerKind::DayGainers),
        ("gainers"@, ScreenerKind::DayGainers),
        ("day-losers"@, ScreenerKind::DayLosers),
        ("losers"@, ScreenerKind::DayLosers),
        ("growth-technology-stocks"@, ScreenerKind::GrowthTechnologyStocks),
        ("growth-tech"@, ScreenerKind::GrowthTechnologyStocks),
        ("most-actives"@, ScreenerKind::MostActives),
        ("actives"@, ScreenerKind::MostActives),
        ("most-shorted-stocks"@, ScreenerKind::MostShortedStocks),
        ("most-shorted"@, ScreenerKind::MostShortedStocks),
        ("small-cap-gainers"@, ScreenerKind::SmallCapGainers),
        ("undervalued-growth-stocks"@, ScreenerKind::UndervaluedGrowthStocks),
        ("undervalued-growth"@, ScreenerKind::UndervaluedGrowthStocks),
        ("undervalued-large-caps"@, ScreenerKind::UndervaluedLargeCaps),
        ("undervalued-large"@, ScreenerKind::UndervaluedLargeCaps),
        ("conservative-foreign-funds"@, ScreenerKind::ConservativeForeignFunds),
        ("high-yield-bond"@, ScreenerKind::HighYieldBond),
        ("portfolio-anchors"@, ScreenerKind::PortfolioAnchors),
        ("solid-large-growth-funds"@, ScreenerKind::SolidLargeGrowthFunds),
        ("solid-midcap-growth-funds"@, ScreenerKind::SolidMidcapGrowthFunds),
        ("top-mutual-funds"@, ScreenerKind::TopMutualFunds),
    ]
}

fn screener_table() -> (t: Vec<(&'static str, ScreenerKind)>)
    ensures
        names_view(t@) == screener_names(),
{
    let t = vec![
        ("aggressive-small-caps", ScreenerKind::AggressiveSmallCaps),
        ("day-gainers", ScreenerKind::DayGainers),
        ("gainers", ScreenerKind::DayGainers),
        ("day-losers", ScreenerKind::DayLosers),
        ("losers", ScreenerKind::DayLosers),
        ("growth-technology-stocks", ScreenerKind::GrowthTechnologyStocks),
        ("growth-tech", ScreenerKind::GrowthTechnologyStocks),
        ("most-actives", ScreenerKind::MostActives),
        ("actives", ScreenerKind::MostActives),
        ("most-shorted-stocks", ScreenerKind::MostShortedStocks),
        ("most-shorted", ScreenerKind::MostShortedStocks),
        ("small-cap-gainers", ScreenerKind::SmallCapGainers),
        ("undervalued-growth-stocks", ScreenerKind::UndervaluedGrowthStocks),
        ("undervalued-growth", ScreenerKind::UndervaluedGrowthStocks),
        ("undervalued-large-caps", ScreenerKind::UndervaluedLargeCaps),
        ("undervalued-large", ScreenerKind::UndervaluedLargeCaps),
        ("conservative-foreign-funds", ScreenerKind::ConservativeForeignFunds),
        ("high-yield-bond", ScreenerKind::HighYieldBond),
        ("portfolio-anchors", ScreenerKind::PortfolioAnchors),
        ("solid-large-growth-funds", ScreenerKind::SolidLargeGrowthFunds),
        ("solid-midcap-growth-funds", ScreenerKind::SolidMidcapGrowthFunds),
        ("top-mutual-funds", ScreenerKind::TopMutualFunds),
    ];
    assert(names_view(t@) =~= screener_names());
    t
}

/// `s` with every `_` read as `-`.
pub open spec fn dashes_for_underscores(s: Seq<char>) -> Seq<char> {
    Seq::new(s.len(), |i: int| if s[i] == '_' { '-' } else { s[i] })
}

/// The screener a name stands for: the name in lower case, `_` read as `-`,
/// looked up among the known names.
pub open spec fn screener_of(s: Seq<char>) -> Option<ScreenerKind> {
    table_lookup(screener_names(), dashes_for_underscores(unicode_lowercase(s)))
}

fn with_dashes(s: &str) -> (r: String)
    ensures
        r@ == dashes_for_underscores(s@),
{
    let v = str_chars(s);
    let mut r = String::new();
    let mut i: usize = 0;
    while i < v.len()
        invariant
            i <= v.len(),
            v@ == s@,
            r@ == dashes_for_underscores(s@).take(i as int),
        decreases v.len() - i,
    {
        let c = if v[i] == '_' {
            '-'
        } else {
            v[i]
        };
        push_char(&mut r, c);
        proof {
            assert(dashes_for_underscores(s@).take(i + 1) =~= dashes_for_underscores(s@).take(
                i as int,
            ).push(c));
        }
        i = i + 1;
    }
    proof {
        assert(dashes_for_underscores(s@).take(v.len() as int) =~= dashes_for_underscores(s@));
    }
    r
}

/// The list of screener names that finance-query's
/// `Screener::valid_types` gives for error messages.
pub open spec fn screener_names_text() -> Seq<char> {
    "aggressive-small-caps, day-gainers, day-losers, growth-technology-stocks, most-actives, most-shorted-stocks, small-cap-gainers, undervalued-growth-stocks, undervalued-large-caps, conservative-foreign-funds, high-yield-bond, portfolio-anchors, solid-large-growth-funds, solid-midcap-growth-funds, top-mutual-funds"@
}

/// Calls finance-query's `Screener::valid_types`, which returns a fixed
/// list of the screener names.
#[verifier::external_body]
fn screener_valid_types() -> (r: &'static str)
    ensures
        r@ == screener_names_text(),
{
    finance_query::Screener::valid_types()
}

/// Reads a screener's name, ignoring case and reading `_` as `-`; an unknown
/// name is an error that lists the known ones.
pub fn parse_screener_type(s: &str) -> (r: Result<ScreenerKind, CliError>)
    ensures
        match screener_of(s@) {
            Some(k) => r == Ok::<ScreenerKind, CliError>(k),
            None => r matches Err(e) && e@ == CliErrorView::InvalidArgument(
                "Invalid screener type "@ + "'"@ + s@ + "'"@ + ". Valid types: "@
                    + screener_names_text(),
            ),
        },
{
    let lower = str_to_lowercase(s);
    let key = with_dashes(lower.as_str());
    match lookup(&screener_table(), key.as_str()) {
        Some(k) => Ok(k),
        None => {
            let mut suffix = string_of(". Valid types: ");
            push_str(&mut suffix, screener_valid_types());
            let m = quoted_message("Invalid screener type ", s, suffix.as_str());
            proof {
                assert(m@ =~= "Invalid screener type "@ + "'"@ + s@ + "'"@ + ". Valid types: "@
                    + screener_names_text());
            }
            Err(CliError::InvalidArgument(m))
        },
    }
}

// ── What the names denote ───────────────────────────────────────────────────

/// Names that are all different look up their own entries.
proof fn lemma_lookup_entry<T>(t: Seq<(Seq<char>, T)>, i: int)
    requires
        0 <= i < t.len(),
        forall|a: int, b: int| 0 <= a < b < t.len() ==> t[a].0 != t[b].0,
    ensures
        table_lookup(t, t[i].0) == Some(t[i].1),
{
    assert(first_key(t, t[i].0, i));
    let c = choose|c: int| first_key(t, t[i].0, c);
    lemma_first_key_unique(t, t[i].0, i, c);
}

/// What a name looks up is the value of an entry with that name.
proof fn lemma_lookup_found<T>(t: Seq<(Seq<char>, T)>, key: Seq<char>)
    ensures
        table_lookup(t, key) is Some ==> exists|i: int|
            0 <= i < t.len() && t[i].0 == key && Some(t[i].1) == table_lookup(t, key),
{
    if table_lookup(t, key) is Some {
        let i = choose|i: int| first_key(t, key, i);
        assert(0 <= i < t.len() && t[i].0 == key && Some(t[i].1) == table_lookup(t, key));
    }
}

/// The documented name of each chart range: 1d, 5d, 1mo, 3mo, 6mo, 1y, 2y,
/// 5y, 10y, ytd and max.
pub open spec fn documented_range_name(r: TimeRange) -> Seq<char> {
    match r {
        TimeRange::OneDay => "1d"@,
        TimeRange::FiveDays => "5d"@,
        TimeRange::OneMonth => "1mo"@,
        TimeRange::ThreeMonths => "3mo"@,
        TimeRange::SixMonths => "6mo"@,
        TimeRange::OneYear => "1y"@,
        TimeRange::TwoYears => "2y"@,
        TimeRange::FiveYears => "5y"@,
        TimeRange::TenYears => "10y"@,
        TimeRange::YearToDate => "ytd"@,
        TimeRange::Max => "max"@,
    }
}

spec fn documented_range_index(r: TimeRange) -> int {
    match r {
        TimeRange::OneDay => 0,
        TimeRange::FiveDays => 1,
        TimeRange::OneMonth => 2,
        TimeRange::ThreeMonths => 3,
        TimeRange::SixMonths => 4,
        TimeRange::OneYear => 5,
        TimeRange::TwoYears => 6,
        TimeRange::FiveYears => 7,
        TimeRange::TenYears => 8,
        TimeRange::YearToDate => 9,
        TimeRange::Max => 10,
    }
}

/// Each range name denotes its own range: a name reads as a range exactly
/// when it is that range's documented name, so no two names read as the
/// same range and `6mo` reads as six months.
pub proof fn law_range_names(key: Seq<char>, r: TimeRange)
    ensures
        table_lookup(range_names(), key) == Some(r) <==> key == documented_range_name(r),
{
    let t = range_names();
    assert(t.len() == 11);
    assert forall|a: int, b: int| 0 <= a < b < t.len() implies t[a].0 != t[b].0 by {
        reveal_strlit("1d");
        reveal_strlit("5d");
        reveal_strlit("1mo");
        reveal_strlit("3mo");
        reveal_strlit("6mo");
        reveal_strlit("1y");
        reveal_strlit("2y");
        reveal_strlit("5y");
        reveal_strlit("10y");
        reveal_strlit("ytd");
        reveal_strlit("max");
        assert("1d"@[0] != "5d"@[0]);
        assert("1d"@.len() != "1mo"@.len());
        assert("1d"@.len() != "3mo"@.len());
        assert("1d"@.len() != "6mo"@.len());
        assert("1d"@[1] != "1y"@[1]);
        assert("1d"@[0] != "2y"@[0]);
        assert("1d"@[0] != "5y"@[0]);
        assert("1d"@.len() != "10y"@.len());
        assert("1d"@.len() != "ytd"@.len());
        assert("1d"@.len() != "max"@.len());
        assert("5d"@.len() != "1mo"@.len());
        assert("5d"@.len() != "3mo"@.len());
        assert("5d"@.len() != "6mo"@.len());
        assert("5d"@[0] != "1y"@[0]);
        assert("5d"@[0] != "2y"@[0]);
        assert("5d"@[1] != "5y"@[1]);
        assert("5d"@.len() != "10y"@.len());
        assert("5d"@.len() != "ytd"@.len());
        assert("5d"@.len() != "max"@.len());
        assert("1mo"@[0] != "3mo"@[0]);
        assert("1mo"@[0] != "6mo"@[0]);
        assert("1mo"@.len() != "1y"@.len());
        assert("1mo"@.len() != "2y"@.len());
        assert("1mo"@.len() != "5y"@.len());
        assert("1mo"@[1] != "10y"@[1]);
        assert("1mo"@[0] != "ytd"@[0]);
        assert("1mo"@[0] != "max"@[0]);
        assert("3mo"@[0] != "6mo"@[0]);
        assert("3mo"@.len() != "1y"@.len());
        assert("3mo"@.len() != "2y"@.len());
        assert("3mo"@.len() != "5y"@.len());
        assert("3mo"@[0] != "10y"@[0]);
        assert("3mo"@[0] != "ytd"@[0]);
        assert("3mo"@[0] != "max"@[0]);
        assert("6mo"@.len() != "1y"@.len());
        assert("6mo"@.len() != "2y"@.len());
        assert("6mo"@.len() != "5y"@.len());
        assert("6mo"@[0] != "10y"@[0]);
        assert("6mo"@[0] != "ytd"@[0]);
        assert("6mo"@[0] != "max"@[0]);
        assert("1y"@[0] != "2y"@[0]);
        assert("1y"@[0] != "5y"@[0]);
        assert("1y"@.len() != "10y"@.len());
        assert("1y"@.len() != "ytd"@.len());
        assert("1y"@.len() != "max"@.len());
        assert("2y"@[0] != "5y"@[0]);
        assert("2y"@.len() != "10y"@.len());
        assert("2y"@.len() != "ytd"@.len());
        assert("2y"@.len() != "max"@.len());
        assert("5y"@.len() != "10y"@.len());
        assert("5y"@.len() != "ytd"@.len());
        assert("5y"@.len() != "max"@.len());
        assert("10y"@[0] != "ytd"@[0]);
        assert("10y"@[0] != "max"@[0]);
        assert("ytd"@[0] != "max"@[0]);
    }
    assert forall|i: int| 0 <= i < t.len() implies t[i].0 == documented_range_name(t[i].1)
        && documented_range_index(t[i].1) == i by {
        if i == 0 {
            assert(t[0] == ("1d"@, TimeRange::OneDay));
        } else if i == 1 {
            assert(t[1] == ("5d"@, TimeRange::FiveDays));
        } else if i == 2 {
            assert(t[2] == ("1mo"@, TimeRange::OneMonth));
        } else if i == 3 {
            assert(t[3] == ("3mo"@, TimeRange::ThreeMonths));
        } else if i == 4 {
            assert(t[4] == ("6mo"@, TimeRange::SixMonths));
        } else if i == 5 {
            assert(t[5] == ("1y"@, TimeRange::OneYear));
        } else if i == 6 {
            assert(t[6] == ("2y"@, TimeRange::TwoYears));
        } else if i == 7 {
            assert(t[7] == ("5y"@, TimeRange::FiveYears));
        } else if i == 8 {
            assert(t[8] == ("10y"@, TimeRange::TenYears));
        } else if i == 9 {
            assert(t[9] == ("ytd"@, TimeRange::YearToDate));
        } else if i == 10 {
            assert(t[10] == ("max"@, TimeRange::Max));
        }
    }
    let k = documented_range_index(r);
    assert(0 <= k < t.len() && t[k].1 == r && t[k].0 == documented_range_name(r)) by {
        let i = k;
        if i == 0 {
            assert(t[0] == ("1d"@, TimeRange::OneDay));
        } else if i == 1 {
            assert(t[1] == ("5d"@, TimeRange::FiveDays));
        } else if i == 2 {
            assert(t[2] == ("1mo"@, TimeRange::OneMonth));
        } else if i == 3 {
            assert(t[3] == ("3mo"@, TimeRange::ThreeMonths));
        } else if i == 4 {
            assert(t[4] == ("6mo"@, TimeRange::SixMonths));
        } else if i == 5 {
            assert(t[5] == ("1y"@, TimeRange::OneYear));
        } else if i == 6 {
            assert(t[6] == ("2y"@, TimeRange::TwoYears));
        } else if i == 7 {
            assert(t[7] == ("5y"@, TimeRange::FiveYears));
        } else if i == 8 {
            assert(t[8] == ("10y"@, TimeRange::TenYears));
        } else if i == 9 {
            assert(t[9] == ("ytd"@, TimeRange::YearToDate));
        } else if i == 10 {
            assert(t[10] == ("max"@, TimeRange::Max));
        }
    }
    lemma_lookup_entry(t, k);
    lemma_lookup_found(t, key);
}

/// The names of the reporting frequencies: `quarterly`, `quarter` and `q`
/// read as quarterly statements, `annual`, `yearly` and `year` as annual
/// ones, and no other name reads as either.
pub proof fn law_frequency_names(key: Seq<char>)
    ensures
        table_lookup(frequency_names(), key) == Some(Frequency::Quarterly) <==> (key
            == "quarterly"@ || key == "quarter"@ || key == "q"@),
        table_lookup(frequency_names(), key) == Some(Frequency::Annual) <==> (key == "annual"@
            || key == "yearly"@ || key == "year"@),
{
    let t = frequency_names();
    assert(t.len() == 6);
    assert forall|a: int, b: int| 0 <= a < b < t.len() implies t[a].0 != t[b].0 by {
        reveal_strlit("annual");
        reveal_strlit("yearly");
        reveal_strlit("year");
        reveal_strlit("quarterly");
        reveal_strlit("quarter");
        reveal_strlit("q");
        assert("annual"@[0] != "yearly"@[0]);
        assert("annual"@.len() != "year"@.len());
        assert("annual"@.len() != "quarterly"@.len());
        assert("annual"@.len() != "quarter"@.len());
        assert("annual"@.len() != "q"@.len());
        assert("yearly"@.len() != "year"@.len());
        assert("yearly"@.len() != "quarterly"@.len());
        assert("yearly"@.len() != "quarter"@.len());
        assert("yearly"@.len() != "q"@.len());
        assert("year"@.len() != "quarterly"@.len());
        assert("year"@.len() != "quarter"@.len());
        assert("year"@.len() != "q"@.len());
        assert("quarterly"@.len() != "quarter"@.len());
        assert("quarterly"@.len() != "q"@.len());
        assert("quarter"@.len() != "q"@.len());
    }
    assert forall|i: int| 0 <= i < t.len() implies (t[i].1 == Frequency::Quarterly <==> (t[i].0
        == "quarterly"@ || t[i].0 == "quarter"@ || t[i].0 == "q"@)) && (t[i].1 == Frequency::Annual
        <==> (t[i].0 == "annual"@ || t[i].0 == "yearly"@ || t[i].0 == "year"@)) by {
        reveal_strlit("annual");
        reveal_strlit("yearly");
        reveal_strlit("year");
        reveal_strlit("quarterly");
        reveal_strlit("quarter");
        reveal_strlit("q");
        assert("annual"@[0] != "yearly"@[0]);
        assert("annual"@.len() != "year"@.len());
        assert("annual"@.len() != "quarterly"@.len());
        assert("annual"@.len() != "quarter"@.len());
        assert("annual"@.len() != "q"@.len());
        assert("yearly"@.len() != "year"@.len());
        assert("yearly"@.len() != "quarterly"@.len());
        assert("yearly"@.len() != "quarter"@.len());
        assert("yearly"@.len() != "q"@.len());
        assert("year"@.len() != "quarterly"@.len());
        assert("year"@.len() != "quarter"@.len());
        assert("year"@.len() != "q"@.len());
        assert("quarterly"@.len() != "quarter"@.len());
        assert("quarterly"@.len() != "q"@.len());
        assert("quarter"@.len() != "q"@.len());
        if i == 0 {
            assert(t[0] == ("annual"@, Frequency::Annual));
        } else if i == 1 {
            assert(t[1] == ("yearly"@, Frequency::Annual));
        } else if i == 2 {
            assert(t[2] == ("year"@, Frequency::Annual));
        } else if i == 3 {
            assert(t[3] == ("quarterly"@, Frequency::Quarterly));
        } else if i == 4 {
            assert(t[4] == ("quarter"@, Frequency::Quarterly));
        } else if i == 5 {
            assert(t[5] == ("q"@, Frequency::Quarterly));
        }
    }
    lemma_lookup_found(t, key);
    lemma_lookup_entry(t, 0);lemma_lookup_entry(t, 1);lemma_lookup_entry(t, 2);lemma_lookup_entry(t, 3);lemma_lookup_entry(t, 4);lemma_lookup_entry(t, 5);
    assert(t[0].0 == "annual"@ && t[1].0 == "yearly"@ && t[2].0 == "year"@);
    assert(t[3].0 == "quarterly"@ && t[4].0 == "quarter"@ && t[5].0 == "q"@);
}

} // verus!
