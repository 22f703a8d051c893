//! The arguments of the CLI's commands, and what the commands decide from
//! them before any data is fetched.
use vstd::prelude::*;

use super::indicators::{indicators_of, indicators_view, parse_indicators, IndicatorView};
use super::params::{
    frequency_names, indices_region_names, interval_error, interval_of, lookup_type_names,
    parse_frequency, parse_indices_region, parse_interval, parse_lookup_type, parse_range,
    parse_region, parse_statement_type, quoted_message, range_error, range_of, region_names,
    statement_names, table_lookup, Frequency, IndicesRegion, Interval, LookupType, Region,
    StatementType, TimeRange,
};
use crate::config::{CliError, CliErrorView};
use crate::text::{split_seq, str_eq, str_to_lowercase, unicode_lowercase, unicode_uppercase};

verus! {

/// Sub-commands of `alerts`.
pub enum AlertCommand {
    /// Add a new alert on `symbol`; `alert` is `TYPE:VALUE`.
    Add { symbol: String, alert: String, label: Option<String> },
    /// List the alerts, optionally of one symbol or only the enabled ones.
    List { symbol: Option<String>, enabled: bool },
    /// Remove an alert by id.
    Remove { id: i64 },
    /// Check all alerts, optionally showing only the triggered ones.
    Check { triggered: bool },
    /// Enable or disable an alert.
    Toggle { id: i64 },
    /// Clear all alerts.
    Clear { force: bool },
    /// Show alert type examples.
    Examples,
    /// Watch the alerts, polling every `interval` seconds.
    Watch { interval: u64, verbose: bool },
    /// Manage the alert watcher as a system service.
    Service { action: ServiceAction },
}

/// Actions on the alert watcher service.
pub enum ServiceAction {
    Install { interval: u64 },
    Uninstall,
    Status,
    Start,
    Stop,
}

pub struct AlertsArgs {
    pub command: Option<AlertCommand>,
}

pub struct BacktestArgs {
    pub symbol: Option<String>,
    pub json: bool,
    pub no_tui: bool,
    pub preset: Option<String>,
}

pub struct CalendarArgs {
    pub symbols: Vec<String>,
    pub range: String,
    pub output: String,
}

pub struct ChartArgs {
    pub symbol: String,
    pub interval: String,
    pub range: String,
    pub output: String,
    pub indicators: Option<String>,
}

pub struct CurrenciesArgs {
    pub output: String,
}

pub struct DashboardArgs {}

pub struct DividendsArgs {
    pub symbol: String,
    pub range: String,
}

pub struct EarningsArgs {
    pub symbol: String,
    pub output: String,
}

pub struct ExchangesArgs {
    pub output: String,
}

pub struct FactsArgs {
    pub symbol: String,
    pub email: Option<String>,
    pub output: String,
    pub concept: Option<String>,
    pub unit: Option<String>,
    pub limit: usize,
}

pub struct FilingsArgs {
    pub symbol: String,
    pub output: String,
    pub filing_type: Option<String>,
    pub limit: usize,
}

pub struct FinancialsArgs {
    pub symbol: String,
    pub statement_type: String,
    pub period: String,
    pub limit: usize,
    pub date: usize,
    pub all: bool,
}

pub struct GradesArgs {
    pub symbol: String,
    pub output: String,
    pub action: Option<String>,
    pub limit: usize,
}

pub struct HoldersArgs {
    pub symbol: String,
    pub output: String,
}

pub struct HoursArgs {
    pub region: Option<String>,
}

pub struct IndicesArgs {
    pub region: Option<String>,
}

pub struct InfoArgs {
    pub symbol: String,
    pub output: String,
    pub compact: bool,
}

pub struct LookupArgs {
    pub query: String,
    pub asset_type: Option<String>,
    pub limit: u32,
    pub include_logo: bool,
}

pub struct MarketArgs {
    pub region: Option<String>,
    pub output: String,
}

pub struct NewsArgs {
    pub symbol: Option<String>,
    pub output: String,
    pub limit: usize,
}

pub struct OptionsArgs {
    pub symbol: String,
    pub date: Option<i64>,
    pub calls: bool,
    pub puts: bool,
    pub limit: usize,
    pub plain: bool,
    pub list_expirations: bool,
}

pub struct ProfileArgs {
    pub symbol: String,
    pub output: String,
}

pub struct QuoteArgs {
    pub symbols: Vec<String>,
    pub output: String,
    pub logo: bool,
}

pub struct RecommendationsArgs {
    pub symbol: String,
    pub limit: u32,
}

pub struct ScreenerArgs {
    pub screener_type: String,
    pub output: String,
    pub limit: u32,
}

/// Sectors of the `sector` command.
#[derive(Debug, Clone, Copy, PartialEq, Eq, Structural)]
pub enum SectorTypeArg {
    Technology,
    FinancialServices,
    ConsumerCyclical,
    CommunicationServices,
    Healthcare,
    Industrials,
    ConsumerDefensive,
    Energy,
    BasicMaterials,
    RealEstate,
    Utilities,
}

pub struct SectorArgs {
    pub sector: SectorTypeArg,
    pub output: String,
    pub companies: bool,
    pub industries: bool,
    pub all: bool,
}

pub struct SplitsArgs {
    pub symbol: String,
    pub range: String,
}

pub struct StreamArgs {
    pub symbols: Vec<String>,
}

pub struct TranscriptArgs {
    pub symbol: String,
    pub quarter: Option<String>,
    pub year: Option<i32>,
    pub full: bool,
    pub preview: usize,
}

pub struct TrendingArgs {
    pub region: String,
    pub output: String,
}

// ── What the commands decide from their arguments ───────────────────────────

/// How the chart command shows its data.
#[derive(Debug)]
pub enum ChartMode {
    /// The interactive chart.
    Interactive { interval: Interval, range: TimeRange },
    /// A table, JSON or CSV (the output format names which), with indicators.
    Tabular { interval: Interval, range: TimeRange },
}

pub open spec fn chart_output_ok(lower: Seq<char>) -> bool {
    lower == "table"@ || lower == "json"@ || lower == "csv"@
}

impl ChartArgs {
    /// Reads the interval, then the range, and decides between the
    /// interactive chart (output `chart`, in any case) and a table, JSON or
    /// CSV output; the first of these that fails gives the error.
    pub fn mode(&self) -> (r: Result<ChartMode, CliError>)
        ensures
            ({
                let lower = unicode_lowercase(self.output@);
                match (interval_of(self.interval@), range_of(self.range@)) {
                    (None, _) => r matches Err(e) && e@ == interval_error(self.interval@),
                    (Some(_), None) => r matches Err(e) && e@ == range_error(self.range@),
                    (Some(i), Some(x)) => if lower == "chart"@ {
                        r matches Ok(ChartMode::Interactive { interval, range }) && interval == i
                            && range == x
                    } else if chart_output_ok(lower) {
                        r matches Ok(ChartMode::Tabular { interval, range }) && interval == i
                            && range == x
                    } else {
                        r matches Err(e) && e@ == CliErrorView::InvalidArgument(
                            "Invalid output format "@ + "'"@ + self.output@ + "'"@
                                + ". Valid: chart, table, json, csv"@,
                        )
                    },
                }
            }),
    {
        let interval = parse_interval(self.interval.as_str())?;
        let range = parse_range(self.range.as_str())?;
        let lower = str_to_lowercase(self.output.as_str());
        let l = lower.as_str();
        if str_eq(l, "chart") {
            Ok(ChartMode::Interactive { interval, range })
        } else if str_eq(l, "table") || str_eq(l, "json") || str_eq(l, "csv") {
            Ok(ChartMode::Tabular { interval, range })
        } else {
            Err(
                CliError::InvalidArgument(
                    quoted_message(
                        "Invalid output format ",
                        self.output.as_str(),
                        ". Valid: chart, table, json, csv",
                    ),
                ),
            )
        }
    }

    /// The indicators to compute for a table, JSON or CSV output (none when
    /// `--indicators` is absent).
    pub fn indicators(&self) -> (r: Result<Vec<super::indicators::IndicatorType>, CliError>)
        ensures
            match self.indicators {
                None => r matches Ok(v) && v@.len() == 0,
                Some(s) => match r {
                    Ok(v) => indicators_of(split_seq(s@, ',')) == Ok::<
                        Seq<IndicatorView>,
                        Seq<char>,
                    >(indicators_view(v@)),
                    Err(e) => exists|name: Seq<char>|
                        indicators_of(split_seq(s@, ',')) == Err::<Seq<IndicatorView>, Seq<char>>(
                            name,
                        ) && e@ == CliErrorView::InvalidArgument(
                            "Unknown indicator "@ + "'"@ + name + "'"@
                                + ". Available: sma, ema, rsi, macd, bollinger, atr, stochastic, adx, obv, vwap, cci, williamsr, stochrsi, psar, supertrend, mfi, ichimoku, donchian"@,
                        ),
                },
            },
    {
        match &self.indicators {
            Some(s) => parse_indicators(s.as_str()),
            None => Ok(Vec::new()),
        }
    }
}

impl FinancialsArgs {
    /// Reads the statement type, then the reporting period; the first of
    /// them that is unknown gives the error.
    pub fn statement(&self) -> (r: Result<(StatementType, Frequency), CliError>)
        ensures
            match (
                table_lookup(statement_names(), unicode_lowercase(self.statement_type@)),
                table_lookup(frequency_names(), unicode_lowercase(self.period@)),
            ) {
                (Some(t), Some(f)) => r matches Ok((t2, f2)) && t2 == t && f2 == f,
                (None, _) => r matches Err(e) && e@ == CliErrorView::InvalidArgument(
                    "Invalid statement type "@ + "'"@ + self.statement_type@ + "'"@
                        + ". Valid types: income, balance, cash-flow"@,
                ),
                (Some(_), None) => r matches Err(e) && e@ == CliErrorView::InvalidArgument(
                    "Invalid frequency "@ + "'"@ + self.period@ + "'"@
                        + ". Valid frequencies: annual, quarterly"@,
                ),
            },
    {
        let t = parse_statement_type(self.statement_type.as_str())?;
        let f = parse_frequency(self.period.as_str())?;
        Ok((t, f))
    }
}

impl IndicesArgs {
    /// The region to show, if one was given; an unknown region is an error.
    pub fn region(&self) -> (r: Result<Option<IndicesRegion>, CliError>)
        ensures
            match self.region {
                None => r matches Ok(None),
                Some(s) => match table_lookup(indices_region_names(), unicode_lowercase(s@)) {
                    Some(x) => r matches Ok(Some(y)) && y == x,
                    None => r matches Err(e) && e@ == CliErrorView::InvalidArgument(
                        "Invalid region "@ + "'"@ + s@ + "'"@
                            + ". Valid regions: americas, europe, asia, mea, currencies"@,
                    ),
                },
            },
    {
        match &self.region {
            Some(s) => {
                let x = parse_indices_region(s.as_str())?;
                Ok(Some(x))
            },
            None => Ok(None),
        }
    }
}

impl LookupArgs {
    /// The asset type to look up, if one was given; an unknown type is an error.
    pub fn lookup_type(&self) -> (r: Result<Option<LookupType>, CliError>)
        ensures
            match self.asset_type {
                None => r matches Ok(None),
                Some(s) => match table_lookup(lookup_type_names(), unicode_lowercase(s@)) {
                    Some(x) => r matches Ok(Some(y)) && y == x,
                    None => r matches Err(e) && e@ == CliErrorView::InvalidArgument(
                        "Invalid asset type "@ + "'"@ + s@ + "'"@
                            + ". Valid types: equity, etf, mutualfund, index, future, currency, cryptocurrency, all"@,
                    ),
                },
            },
    {
        match &self.asset_type {
            Some(s) => {
                let x = parse_lookup_type(s.as_str())?;
                Ok(Some(x))
            },
            None => Ok(None),
        }
    }
}

impl MarketArgs {
    /// The market to summarise: the given country code when it is known,
    /// otherwise none (all markets).
    pub fn market_region(&self) -> (r: Option<Region>)
        ensures
            r == match self.region {
                Some(s) => table_lookup(region_names(), unicode_uppercase(s@)),
                None => None,
            },
    {
        match &self.region {
            Some(s) => parse_region(s.as_str()),
            None => None,
        }
    }
}

impl TrendingArgs {
    /// The market whose trending symbols are shown, when its code is known.
    pub fn market_region(&self) -> (r: Option<Region>)
        ensures
            r == table_lookup(region_names(), unicode_uppercase(self.region@)),
    {
        parse_region(self.region.as_str())
    }
}

/// The last `limit` items, in order (the grades command keeps the most
/// recent grades this way).
pub fn keep_last<T>(items: Vec<T>, limit: usize) -> (r: Vec<T>)
    ensures
        r@ == (if items@.len() > limit {
            items@.skip(items@.len() - limit)
        } else {
            items@
        }),
{
    if items.len() > limit {
        let mut items = items;
        let at = items.len() - limit;
        let tail = items.split_off(at);
        tail
    } else {
        items
    }
}

} // verus!
