//! The `--indicators` argument of the chart command: a comma-separated list
//! of indicator names, each with optional `:`-separated parameters, such as
//! `sma:20,rsi:14,stochrsi:14:14,supertrend:10:3.0`.
use vstd::prelude::*;

use crate::config::{CliError, CliErrorView};
use crate::text::{
    parse_usize, split_char, split_once_char, split_once_seq, split_seq, str_eq, str_to_lowercase,
    string_of, trim, trim_seq, unicode_lowercase, usize_text,
};
use super::params::quoted_message;

verus! {

/// A technical indicator with its parameters. Fractional parameters are
/// kept as the text that was given (`None` when absent); they are read as
/// decimal numbers, with their defaults, where the indicator is computed.
#[derive(Debug)]
pub enum IndicatorType {
    Sma(usize),
    Ema(usize),
    Rsi(usize),
    Macd(usize, usize, usize),
    /// Period and standard-deviation multiplier (default 2.0).
    Bollinger(usize, Option<String>),
    Atr(usize),
    /// %K and %D periods.
    Stochastic(usize, usize),
    Adx(usize),
    Obv,
    Vwap,
    Cci(usize),
    WilliamsR(usize),
    /// RSI and stochastic periods.
    StochasticRsi(usize, usize),
    /// Acceleration (default 0.02) and maximum (default 0.2).
    ParabolicSar(Option<String>, Option<String>),
    /// Period and multiplier (default 3.0).
    Supertrend(usize, Option<String>),
    Mfi(usize),
    Ichimoku,
    DonchianChannels(usize),
}

pub enum IndicatorView {
    Sma(usize),
    Ema(usize),
    Rsi(usize),
    Macd(usize, usize, usize),
    Bollinger(usize, Option<Seq<char>>),
    Atr(usize),
    Stochastic(usize, usize),
    Adx(usize),
    Obv,
    Vwap,
    Cci(usize),
    WilliamsR(usize),
    StochasticRsi(usize, usize),
    ParabolicSar(Option<Seq<char>>, Option<Seq<char>>),
    Supertrend(usize, Option<Seq<char>>),
    Mfi(usize),
    Ichimoku,
    DonchianChannels(usize),
}

pub open spec fn opt_text(o: Option<String>) -> Option<Seq<char>> {
    match o {
        Some(s) => Some(s@),
        None => None,
    }
}

impl View for IndicatorType {
    type V = IndicatorView;

    open spec fn view(&self) -> IndicatorView {
        match self {
            IndicatorType::Sma(p) => IndicatorView::Sma(*p),
            IndicatorType::Ema(p) => IndicatorView::Ema(*p),
            IndicatorType::Rsi(p) => IndicatorView::Rsi(*p),
            IndicatorType::Macd(a, b, c) => IndicatorView::Macd(*a, *b, *c),
            IndicatorType::Bollinger(p, d) => IndicatorView::Bollinger(*p, opt_text(*d)),
            IndicatorType::Atr(p) => IndicatorView::Atr(*p),
            IndicatorType::Stochastic(k, d) => IndicatorView::Stochastic(*k, *d),
            IndicatorType::Adx(p) => IndicatorView::Adx(*p),
            IndicatorType::Obv => IndicatorView::Obv,
            IndicatorType::Vwap => IndicatorView::Vwap,
            IndicatorType::Cci(p) => IndicatorView::Cci(*p),
            IndicatorType::WilliamsR(p) => IndicatorView::WilliamsR(*p),
            IndicatorType::StochasticRsi(r, s) => IndicatorView::StochasticRsi(*r, *s),
            IndicatorType::ParabolicSar(a, m) => IndicatorView::ParabolicSar(opt_text(*a), opt_text(*m)),
            IndicatorType::Supertrend(p, m) => IndicatorView::Supertrend(*p, opt_text(*m)),
            IndicatorType::Mfi(p) => IndicatorView::Mfi(*p),
            IndicatorType::Ichimoku => IndicatorView::Ichimoku,
            IndicatorType::DonchianChannels(p) => IndicatorView::DonchianChannels(*p),
        }
    }
}

/// A whole-number parameter: its value when the text reads as a `usize`,
/// else the default.
pub open spec fn usize_or(p: Option<Seq<char>>, default: usize) -> usize {
    match p {
        Some(t) => match usize_text(t) {
            Some(v) => v,
            None => default,
        },
        None => default,
    }
}

/// The `i`-th piece, if there is one.
pub open spec fn piece(parts: Seq<Seq<char>>, i: int) -> Option<Seq<char>> {
    if 0 <= i < parts.len() {
        Some(parts[i])
    } else {
        None
    }
}

/// A pair of whole-number parameters separated by `sep`, with defaults.
pub open spec fn usize_pair(params: Option<Seq<char>>, sep: char, a: usize, b: usize) -> (
    usize,
    usize,
) {
    match params {
        Some(p) => {
            let parts = split_seq(p, sep);
            (usize_or(piece(parts, 0), a), usize_or(piece(parts, 1), b))
        },
        None => (a, b),
    }
}

/// The indicator that a lower-cased name and its parameter text denote, or
/// `None` for an unknown name.
pub open spec fn indicator_named(name: Seq<char>, params: Option<Seq<char>>) -> Option<
    IndicatorView,
> {
    if name == "sma"@ {
        Some(IndicatorView::Sma(usize_or(params, 20)))
    } else if name == "ema"@ {
        Some(IndicatorView::Ema(usize_or(params, 12)))
    } else if name == "rsi"@ {
        Some(IndicatorView::Rsi(usize_or(params, 14)))
    } else if name == "macd"@ {
        match params {
            Some(p) => {
                let parts = split_seq(p, ',');
                Some(
                    IndicatorView::Macd(
                        usize_or(piece(parts, 0), 12),
                        usize_or(piece(parts, 1), 26),
                        usize_or(piece(parts, 2), 9),
                    ),
                )
            },
            None => Some(IndicatorView::Macd(12, 26, 9)),
        }
    } else if name == "bollinger"@ || name == "bb"@ {
        match params {
            Some(p) => {
                let parts = split_seq(p, ',');
                Some(IndicatorView::Bollinger(usize_or(piece(parts, 0), 20), piece(parts, 1)))
            },
            None => Some(IndicatorView::Bollinger(20, None)),
        }
    } else if name == "atr"@ {
        Some(IndicatorView::Atr(usize_or(params, 14)))
    } else if name == "stochastic"@ || name == "stoch"@ {
        let (k, d) = usize_pair(params, ':', 14, 3);
        Some(IndicatorView::Stochastic(k, d))
    } else if name == "adx"@ {
        Some(IndicatorView::Adx(usize_or(params, 14)))
    } else if name == "obv"@ {
        Some(IndicatorView::Obv)
    } else if name == "vwap"@ {
        Some(IndicatorView::Vwap)
    } else if name == "cci"@ {
        Some(IndicatorView::Cci(usize_or(params, 20)))
    } else if name == "williamsr"@ || name == "williams"@ || name == "willr"@ {
        Some(IndicatorView::WilliamsR(usize_or(params, 14)))
    } else if name == "stochrsi"@ || name == "stochastic_rsi"@ {
        let (r, s) = usize_pair(params, ':', 14, 14);
        Some(IndicatorView::StochasticRsi(r, s))
    } else if name == "psar"@ || name == "parabolicsar"@ || name == "parabolic_sar"@ {
        match params {
            Some(p) => {
                let parts = split_seq(p, ':');
                Some(IndicatorView::ParabolicSar(piece(parts, 0), piece(parts, 1)))
            },
            None => Some(IndicatorView::ParabolicSar(None, None)),
        }
    } else if name == "supertrend"@ || name == "st"@ {
        match params {
            Some(p) => {
                let parts = split_seq(p, ':');
                Some(IndicatorView::Supertrend(usize_or(piece(parts, 0), 10), piece(parts, 1)))
            },
            None => Some(IndicatorView::Supertrend(10, None)),
        }
    } else if name == "mfi"@ {
        Some(IndicatorView::Mfi(usize_or(params, 14)))
    } else if name == "ichimoku"@ {
        Some(IndicatorView::Ichimoku)
    } else if name == "donchian"@ || name == "donchian_channels"@ {
        Some(IndicatorView::DonchianChannels(usize_or(params, 20)))
    } else {
        None
    }
}

/// A trimmed, non-empty entry of the list split into its name and its
/// parameter text at the first `:`, both trimmed.
pub open spec fn entry_parts(entry: Seq<char>) -> (Seq<char>, Option<Seq<char>>) {
    match split_once_seq(entry, ':') {
        Some((n, p)) => (trim_seq(n), Some(trim_seq(p))),
        None => (entry, None),
    }
}

/// The indicators of the list entries, in order; empty entries are skipped.
/// An entry with an unknown name stops the reading with that name.
pub open spec fn indicators_of(entries: Seq<Seq<char>>) -> Result<Seq<IndicatorView>, Seq<char>>
    decreases entries.len(),
{
    if entries.len() == 0 {
        Ok(Seq::empty())
    } else {
        match indicators_of(entries.drop_last()) {
            Err(name) => Err(name),
            Ok(found) => {
                let entry = trim_seq(entries.last());
                if entry.len() == 0 {
                    Ok(found)
                } else {
                    let (name, params) = entry_parts(entry);
                    match indicator_named(unicode_lowercase(name), params) {
                        Some(ind) => Ok(found.push(ind)),
                        None => Err(name),
                    }
                }
            },
        }
    }
}

pub open spec fn opt_str_view(o: Option<&str>) -> Option<Seq<char>> {
    match o {
        Some(s) => Some(s@),
        None => None,
    }
}

fn usize_param(p: Option<&str>, default: usize) -> (v: usize)
    ensures
        v == usize_or(opt_str_view(p), default),
{
    match p {
        Some(t) => match parse_usize(t) {
            Some(v) => v,
            None => default,
        },
        None => default,
    }
}

fn piece_of(parts: &Vec<String>, i: usize) -> (r: Option<&str>)
    ensures
        opt_str_view(r) == piece(Seq::new(parts@.len(), |k: int| parts@[k]@), i as int),
{
    if i < parts.len() {
        Some(parts[i].as_str())
    } else {
        None
    }
}

fn text_of(p: Option<&str>) -> (r: Option<String>)
    ensures
        opt_text(r) == opt_str_view(p),
{
    match p {
        Some(t) => Some(crate::text::string_of(t)),
        None => None,
    }
}

proof fn lemma_split_view(parts: Vec<String>, p: Seq<char>, sep: char)
    requires
        parts@.len() == split_seq(p, sep).len(),
        forall|i: int| 0 <= i < parts@.len() ==> #[trigger] parts@[i]@ == split_seq(p, sep)[i],
    ensures
        Seq::new(parts@.len(), |k: int| parts@[k]@) == split_seq(p, sep),
{
    assert(Seq::new(parts@.len(), |k: int| parts@[k]@) =~= split_seq(p, sep));
}

fn usize_pair_of(params: Option<&str>, sep: char, a: usize, b: usize) -> (r: (usize, usize))
    ensures
        r == usize_pair(opt_str_view(params), sep, a, b),
{
    match params {
        Some(p) => {
            let parts = split_char(p, sep);
            proof {
                lemma_split_view(parts, p@, sep);
            }
            (usize_param(piece_of(&parts, 0), a), usize_param(piece_of(&parts, 1), b))
        },
        None => (a, b),
    }
}

/// The indicator that a lower-cased name and its parameter text denote.
pub fn indicator_from_name(name: &str, params: Option<&str>) -> (r: Option<IndicatorType>)
    ensures
        match r {
            Some(ind) => indicator_named(name@, opt_str_view(params)) == Some(ind@),
            None => indicator_named(name@, opt_str_view(params)) is None,
        },
{
    if str_eq(name, "sma") {
        Some(IndicatorType::Sma(usize_param(params, 20)))
    } else if str_eq(name, "ema") {
        Some(IndicatorType::Ema(usize_param(params, 12)))
    } else if str_eq(name, "rsi") {
        Some(IndicatorType::Rsi(usize_param(params, 14)))
    } else if str_eq(name, "macd") {
        match params {
            Some(p) => {
                let parts = split_char(p, ',');
                proof {
                    lemma_split_view(parts, p@, ',');
                }
                Some(
                    IndicatorType::Macd(
                        usize_param(piece_of(&parts, 0), 12),
                        usize_param(piece_of(&parts, 1), 26),
                        usize_param(piece_of(&parts, 2), 9),
                    ),
                )
            },
            None => Some(IndicatorType::Macd(12, 26, 9)),
        }
    } else if str_eq(name, "bollinger") || str_eq(name, "bb") {
        match params {
            Some(p) => {
                let parts = split_char(p, ',');
                proof {
                    lemma_split_view(parts, p@, ',');
                }
                Some(
                    IndicatorType::Bollinger(
                        usize_param(piece_of(&parts, 0), 20),
                        text_of(piece_of(&parts, 1)),
                    ),
                )
            },
            None => Some(IndicatorType::Bollinger(20, None)),
        }
    } else if str_eq(name, "atr") {
        Some(IndicatorType::Atr(usize_param(params, 14)))
    } else if str_eq(name, "stochastic") || str_eq(name, "stoch") {
        let (k, d) = usize_pair_of(params, ':', 14, 3);
        Some(IndicatorType::Stochastic(k, d))
    } else if str_eq(name, "adx") {
        Some(IndicatorType::Adx(usize_param(params, 14)))
    } else if str_eq(name, "obv") {
        Some(IndicatorType::Obv)
    } else if str_eq(name, "vwap") {
        Some(IndicatorType::Vwap)
    } else if str_eq(name, "cci") {
        Some(IndicatorType::Cci(usize_param(params, 20)))
    } else if str_eq(name, "williamsr") || str_eq(name, "williams") || str_eq(name, "willr") {
        Some(IndicatorType::WilliamsR(usize_param(params, 14)))
    } else if str_eq(name, "stochrsi") || str_eq(name, "stochastic_rsi") {
        let (r, s) = usize_pair_of(params, ':', 14, 14);
        Some(IndicatorType::StochasticRsi(r, s))
    } else if str_eq(name, "psar") || str_eq(name, "parabolicsar") || str_eq(
        name,
        "parabolic_sar",
    ) {
        match params {
            Some(p) => {
                let parts = split_char(p, ':');
                proof {
                    lemma_split_view(parts, p@, ':');
                }
                Some(
                    IndicatorType::ParabolicSar(
                        text_of(piece_of(&parts, 0)),
                        text_of(piece_of(&parts, 1)),
                    ),
                )
            },
            None => Some(IndicatorType::ParabolicSar(None, None)),
        }
    } else if str_eq(name, "supertrend") || str_eq(name, "st") {
        match params {
            Some(p) => {
                let parts = split_char(p, ':');
                proof {
                    lemma_split_view(parts, p@, ':');
                }
                Some(
                    IndicatorType::Supertrend(
                        usize_param(piece_of(&parts, 0), 10),
                        text_of(piece_of(&parts, 1)),
                    ),
                )
            },
            None => Some(IndicatorType::Supertrend(10, None)),
        }
    } else if str_eq(name, "mfi") {
        Some(IndicatorType::Mfi(usize_param(params, 14)))
    } else if str_eq(name, "ichimoku") {
        Some(IndicatorType::Ichimoku)
    } else if str_eq(name, "donchian") || str_eq(name, "donchian_channels") {
        Some(IndicatorType::DonchianChannels(usize_param(params, 20)))
    } else {
        None
    }
}

pub open spec fn indicators_view(v: Seq<IndicatorType>) -> Seq<IndicatorView> {
    Seq::new(v.len(), |i: int| v[i]@)
}

/// Reads the `--indicators` list. Fails on the first entry whose name is not
/// a known indicator.
pub fn parse_indicators(s: &str) -> (r: Result<Vec<IndicatorType>, CliError>)
    ensures
        match r {
            Ok(v) => indicators_of(split_seq(s@, ',')) == Ok::<Seq<IndicatorView>, Seq<char>>(
                indicators_view(v@),
            ),
            Err(e) => exists|name: Seq<char>|
                indicators_of(split_seq(s@, ',')) == Err::<Seq<IndicatorView>, Seq<char>>(name)
                    && e@ == CliErrorView::InvalidArgument(
                    "Unknown indicator "@ + "'"@ + name + "'"@
                        + ". Available: sma, ema, rsi, macd, bollinger, atr, stochastic, adx, obv, vwap, cci, williamsr, stochrsi, psar, supertrend, mfi, ichimoku, donchian"@,
                ),
        },
{
    let entries = split_char(s, ',');
    let ghost all = split_seq(s@, ',');
    let mut out: Vec<IndicatorType> = Vec::new();
    proof {
        assert(indicators_view(out@) =~= Seq::<IndicatorView>::empty());
        assert(all.take(0).len() == 0);
    }
    let mut i: usize = 0;
    while i < entries.len()
        invariant
            entries@.len() == all.len(),
            all == split_seq(s@, ','),
            forall|k: int| 0 <= k < entries@.len() ==> #[trigger] entries@[k]@ == all[k],
            i <= entries.len(),
            indicators_of(all.take(i as int)) == Ok::<Seq<IndicatorView>, Seq<char>>(
                indicators_view(out@),
            ),
        decreases entries.len() - i,
    {
        proof {
            assert(all.take(i + 1).drop_last() =~= all.take(i as int));
            assert(all.take(i + 1).last() == all[i as int]);
        }
        let entry = trim(entries[i].as_str());
        if entry.as_str().is_empty() {
            i = i + 1;
            continue;
        }
        let (name, params): (String, Option<String>) = match split_once_char(entry.as_str(), ':') {
            Some((n, p)) => (trim(n.as_str()), Some(trim(p.as_str()))),
            None => (entry, None),
        };
        let lower = str_to_lowercase(name.as_str());
        let params_ref: Option<&str> = match &params {
            Some(p) => Some(p.as_str()),
            None => None,
        };
        match indicator_from_name(lower.as_str(), params_ref) {
            Some(ind) => {
                let ghost before = out@;
                out.push(ind);
                proof {
                    assert(indicators_view(out@) =~= indicators_view(before).push(ind@));
                }
            },
            None => {
                let msg = quoted_message(
                    "Unknown indicator ",
                    name.as_str(),
                    ". Available: sma, ema, rsi, macd, bollinger, atr, stochastic, adx, obv, vwap, cci, williamsr, stochrsi, psar, supertrend, mfi, ichimoku, donchian",
                );
                proof {
                    lemma_indicators_err_stays(all, i as int + 1, name@);
                }
                return Err(CliError::InvalidArgument(msg));
            },
        }
        i = i + 1;
    }
    proof {
        assert(all.take(entries.len() as int) =~= all);
    }
    Ok(out)
}

/// Once an entry fails, every longer list fails with the same name.
proof fn lemma_indicators_err_stays(all: Seq<Seq<char>>, k: int, name: Seq<char>)
    requires
        0 <= k <= all.len(),
        indicators_of(all.take(k)) == Err::<Seq<IndicatorView>, Seq<char>>(name),
    ensures
        indicators_of(all) == Err::<Seq<IndicatorView>, Seq<char>>(name),
    decreases all.len() - k,
{
    if k == all.len() {
        assert(all.take(k) =~= all);
    } else {
        assert(all.take(k + 1).drop_last() =~= all.take(k));
        lemma_indicators_err_stays(all, k + 1, name);
    }
}

/// The columns an indicator adds to the candle table.
pub open spec fn columns_of(t: IndicatorType) -> Seq<Seq<char>> {
    match t {
        IndicatorType::Sma(_) => seq!["SMA"@],
        IndicatorType::Ema(_) => seq!["EMA"@],
        IndicatorType::Rsi(_) => seq!["RSI"@],
        IndicatorType::Macd(_, _, _) => seq!["MACD"@],
        IndicatorType::Bollinger(_, _) => seq!["BB_Upper"@, "BB_Middle"@, "BB_Lower"@],
        IndicatorType::Atr(_) => seq!["ATR"@],
        IndicatorType::Stochastic(_, _) => seq!["Stoch_%K"@, "Stoch_%D"@],
        IndicatorType::Adx(_) => seq!["ADX"@],
        IndicatorType::Obv => seq!["OBV"@],
        IndicatorType::Vwap => seq!["VWAP"@],
        IndicatorType::Cci(_) => seq!["CCI"@],
        IndicatorType::WilliamsR(_) => seq!["Williams_%R"@],
        IndicatorType::StochasticRsi(_, _) => seq!["Stoch_RSI"@],
        IndicatorType::ParabolicSar(_, _) => seq!["PSAR"@],
        IndicatorType::Supertrend(_, _) => seq!["SuperTrend"@],
        IndicatorType::Mfi(_) => seq!["MFI"@],
        IndicatorType::Ichimoku => seq!["Ichimoku_Conversion"@, "Ichimoku_Base"@, "Ichimoku_SpanA"@, "Ichimoku_SpanB"@, "Ichimoku_Lagging"@],
        IndicatorType::DonchianChannels(_) => seq!["Donchian_Upper"@, "Donchian_Middle"@, "Donchian_Lower"@],
    }
}

pub open spec fn strs_view(v: Seq<&'static str>) -> Seq<Seq<char>> {
    Seq::new(v.len(), |i: int| v[i]@)
}

/// The columns of an indicator in the candle table.
pub fn indicator_columns(t: &IndicatorType) -> (r: Vec<&'static str>)
    ensures
        strs_view(r@) == columns_of(*t),
{
    let r = match t {
        IndicatorType::Sma(_) => vec!["SMA"],
        IndicatorType::Ema(_) => vec!["EMA"],
        IndicatorType::Rsi(_) => vec!["RSI"],
        IndicatorType::Macd(_, _, _) => vec!["MACD"],
        IndicatorType::Bollinger(_, _) => vec!["BB_Upper", "BB_Middle", "BB_Lower"],
        IndicatorType::Atr(_) => vec!["ATR"],
        IndicatorType::Stochastic(_, _) => vec!["Stoch_%K", "Stoch_%D"],
        IndicatorType::Adx(_) => vec!["ADX"],
        IndicatorType::Obv => vec!["OBV"],
        IndicatorType::Vwap => vec!["VWAP"],
        IndicatorType::Cci(_) => vec!["CCI"],
        IndicatorType::WilliamsR(_) => vec!["Williams_%R"],
        IndicatorType::StochasticRsi(_, _) => vec!["Stoch_RSI"],
        IndicatorType::ParabolicSar(_, _) => vec!["PSAR"],
        IndicatorType::Supertrend(_, _) => vec!["SuperTrend"],
        IndicatorType::Mfi(_) => vec!["MFI"],
        IndicatorType::Ichimoku => vec!["Ichimoku_Conversion", "Ichimoku_Base", "Ichimoku_SpanA", "Ichimoku_SpanB", "Ichimoku_Lagging"],
        IndicatorType::DonchianChannels(_) => vec!["Donchian_Upper", "Donchian_Middle", "Donchian_Lower"],
    };
    proof {
        assert(strs_view(r@) =~= columns_of(*t));
    }
    r
}

/// The columns added by the indicators, in order.
pub open spec fn all_columns(ts: Seq<IndicatorType>) -> Seq<Seq<char>>
    decreases ts.len(),
{
    if ts.len() == 0 {
        Seq::empty()
    } else {
        all_columns(ts.drop_last()) + columns_of(ts.last())
    }
}

pub open spec fn header_view(v: Seq<String>) -> Seq<Seq<char>> {
    Seq::new(v.len(), |i: int| v[i]@)
}

/// The header of the candle table with indicators: the candle's columns,
/// then those of each indicator in turn.
pub fn indicator_table_header(indicators: &Vec<IndicatorType>) -> (r: Vec<String>)
    ensures
        header_view(r@) == seq!["Date"@, "Open"@, "High"@, "Low"@, "Close"@, "Volume"@]
            + all_columns(indicators@),
{
    let mut r: Vec<String> = Vec::new();
    let base = vec!["Date", "Open", "High", "Low", "Close", "Volume"];
    let mut k: usize = 0;
    while k < base.len()
        invariant
            k <= base.len(),
            base@.len() == 6,
            header_view(r@) == strs_view(base@).take(k as int),
        decreases base.len() - k,
    {
        let ghost before = r@;
        r.push(string_of(base[k]));
        proof {
            assert(header_view(r@) =~= header_view(before).push(base@[k as int]@));
            assert(strs_view(base@).take(k + 1) =~= strs_view(base@).take(k as int).push(
                base@[k as int]@,
            ));
        }
        k = k + 1;
    }
    proof {
        assert(strs_view(base@).take(6) =~= seq!["Date"@, "Open"@, "High"@, "Low"@, "Close"@, "Volume"@]);
        assert(indicators@.take(0) =~= Seq::<IndicatorType>::empty());
    }
    let ghost head = header_view(r@);
    let mut i: usize = 0;
    while i < indicators.len()
        invariant
            i <= indicators.len(),
            head == seq!["Date"@, "Open"@, "High"@, "Low"@, "Close"@, "Volume"@],
            header_view(r@) == head + all_columns(indicators@.take(i as int)),
        decreases indicators.len() - i,
    {
        let cols = indicator_columns(&indicators[i]);
        let ghost start = r@;
        let mut j: usize = 0;
        while j < cols.len()
            invariant
                j <= cols.len(),
                header_view(r@) == header_view(start) + strs_view(cols@).take(j as int),
            decreases cols.len() - j,
        {
            let ghost before = r@;
            r.push(string_of(cols[j]));
            proof {
                assert(header_view(r@) =~= header_view(before).push(cols@[j as int]@));
                assert(strs_view(cols@).take(j + 1) =~= strs_view(cols@).take(j as int).push(
                    cols@[j as int]@,
                ));
            }
            j = j + 1;
        }
        proof {
            assert(strs_view(cols@).take(cols.len() as int) =~= strs_view(cols@));
            assert(indicators@.take(i + 1).drop_last() =~= indicators@.take(i as int));
            assert(indicators@.take(i + 1).last() == indicators@[i as int]);
            assert(header_view(r@) =~= head + all_columns(indicators@.take(i + 1)));
        }
        i = i + 1;
    }
    proof {
        assert(indicators@.take(indicators.len() as int) =~= indicators@);
    }
    r
}

/// An indicator with a single period takes the period written after its
/// colon whenever that text reads as a whole number, and its default period
/// when no parameter is given: two entries with different periods give
/// different indicators.
pub proof fn law_indicator_period_given(t: Seq<char>, n: usize)
    requires
        usize_text(t) == Some(n),
    ensures
        indicator_named("sma"@, Some(t)) == Some(IndicatorView::Sma(n)),
        indicator_named("ema"@, Some(t)) == Some(IndicatorView::Ema(n)),
        indicator_named("rsi"@, Some(t)) == Some(IndicatorView::Rsi(n)),
        indicator_named("atr"@, Some(t)) == Some(IndicatorView::Atr(n)),
        indicator_named("adx"@, Some(t)) == Some(IndicatorView::Adx(n)),
        indicator_named("cci"@, Some(t)) == Some(IndicatorView::Cci(n)),
        indicator_named("williamsr"@, Some(t)) == Some(IndicatorView::WilliamsR(n)),
        indicator_named("mfi"@, Some(t)) == Some(IndicatorView::Mfi(n)),
        indicator_named("donchian"@, Some(t)) == Some(IndicatorView::DonchianChannels(n)),
        indicator_named("sma"@, None) == Some(IndicatorView::Sma(20)),
        indicator_named("ema"@, None) == Some(IndicatorView::Ema(12)),
        indicator_named("rsi"@, None) == Some(IndicatorView::Rsi(14)),
{
    reveal_strlit("sma");
    reveal_strlit("ema");
    reveal_strlit("rsi");
    reveal_strlit("macd");
    reveal_strlit("bollinger");
    reveal_strlit("bb");
    reveal_strlit("atr");
    reveal_strlit("stochastic");
    reveal_strlit("stoch");
    reveal_strlit("adx");
    reveal_strlit("obv");
    reveal_strlit("vwap");
    reveal_strlit("cci");
    reveal_strlit("williamsr");
    reveal_strlit("williams");
    reveal_strlit("willr");
    reveal_strlit("stochrsi");
    reveal_strlit("stochastic_rsi");
    reveal_strlit("psar");
    reveal_strlit("parabolicsar");
    reveal_strlit("parabolic_sar");
    reveal_strlit("supertrend");
    reveal_strlit("st");
    reveal_strlit("mfi");
    reveal_strlit("ichimoku");
    reveal_strlit("donchian");
    reveal_strlit("donchian_channels");
    assert("ema"@[0] != "sma"@[0]);
    assert("rsi"@[0] != "sma"@[0]);
    assert("rsi"@[0] != "ema"@[0]);
    assert("atr"@[0] != "sma"@[0]);
    assert("atr"@[0] != "ema"@[0]);
    assert("atr"@[0] != "rsi"@[0]);
    assert("atr"@.len() != "macd"@.len());
    assert("atr"@.len() != "bollinger"@.len());
    assert("atr"@.len() != "bb"@.len());
    assert("adx"@[0] != "sma"@[0]);
    assert("adx"@[0] != "ema"@[0]);
    assert("adx"@[0] != "rsi"@[0]);
    assert("adx"@.len() != "macd"@.len());
    assert("adx"@.len() != "bollinger"@.len());
    assert("adx"@.len() != "bb"@.len());
    assert("adx"@[1] != "atr"@[1]);
    assert("adx"@.len() != "stochastic"@.len());
    assert("adx"@.len() != "stoch"@.len());
    assert("cci"@[0] != "sma"@[0]);
    assert("cci"@[0] != "ema"@[0]);
    assert("cci"@[0] != "rsi"@[0]);
    assert("cci"@.len() != "macd"@.len());
    assert("cci"@.len() != "bollinger"@.len());
    assert("cci"@.len() != "bb"@.len());
    assert("cci"@[0] != "atr"@[0]);
    assert("cci"@.len() != "stochastic"@.len());
    assert("cci"@.len() != "stoch"@.len());
    assert("cci"@[0] != "adx"@[0]);
    assert("cci"@[0] != "obv"@[0]);
    assert("cci"@.len() != "vwap"@.len());
    assert("williamsr"@.len() != "sma"@.len());
    assert("williamsr"@.len() != "ema"@.len());
    assert("williamsr"@.len() != "rsi"@.len());
    assert("williamsr"@.len() != "macd"@.len());
    assert("williamsr"@[0] != "bollinger"@[0]);
    assert("williamsr"@.len() != "bb"@.len());
    assert("williamsr"@.len() != "atr"@.len());
    assert("williamsr"@.len() != "stochastic"@.len());
    assert("williamsr"@.len() != "stoch"@.len());
    assert("williamsr"@.len() != "adx"@.len());
    assert("williamsr"@.len() != "obv"@.len());
    assert("williamsr"@.len() != "vwap"@.len());
    assert("williamsr"@.len() != "cci"@.len());
    assert("mfi"@[0] != "sma"@[0]);
    assert("mfi"@[0] != "ema"@[0]);
    assert("mfi"@[0] != "rsi"@[0]);
    assert("mfi"@.len() != "macd"@.len());
    assert("mfi"@.len() != "bollinger"@.len());
    assert("mfi"@.len() != "bb"@.len());
    assert("mfi"@[0] != "atr"@[0]);
    assert("mfi"@.len() != "stochastic"@.len());
    assert("mfi"@.len() != "stoch"@.len());
    assert("mfi"@[0] != "adx"@[0]);
    assert("mfi"@[0] != "obv"@[0]);
    assert("mfi"@.len() != "vwap"@.len());
    assert("mfi"@[0] != "cci"@[0]);
    assert("mfi"@.len() != "williamsr"@.len());
    assert("mfi"@.len() != "williams"@.len());
    assert("mfi"@.len() != "willr"@.len());
    assert("mfi"@.len() != "stochrsi"@.len());
    assert("mfi"@.len() != "stochastic_rsi"@.len());
    assert("mfi"@.len() != "psar"@.len());
    assert("mfi"@.len() != "parabolicsar"@.len());
    assert("mfi"@.len() != "parabolic_sar"@.len());
    assert("mfi"@.len() != "supertrend"@.len());
    assert("mfi"@.len() != "st"@.len());
    assert("donchian"@.len() != "sma"@.len());
    assert("donchian"@.len() != "ema"@.len());
    assert("donchian"@.len() != "rsi"@.len());
    assert("donchian"@.len() != "macd"@.len());
    assert("donchian"@.len() != "bollinger"@.len());
    assert("donchian"@.len() != "bb"@.len());
    assert("donchian"@.len() != "atr"@.len());
    assert("donchian"@.len() != "stochastic"@.len());
    assert("donchian"@.len() != "stoch"@.len());
    assert("donchian"@.len() != "adx"@.len());
    assert("donchian"@.len() != "obv"@.len());
    assert("donchian"@.len() != "vwap"@.len());
    assert("donchian"@.len() != "cci"@.len());
    assert("donchian"@.len() != "williamsr"@.len());
    assert("donchian"@[0] != "williams"@[0]);
    assert("donchian"@.len() != "willr"@.len());
    assert("donchian"@[0] != "stochrsi"@[0]);
    assert("donchian"@.len() != "stochastic_rsi"@.len());
    assert("donchian"@.len() != "psar"@.len());
    assert("donchian"@.len() != "parabolicsar"@.len());
    assert("donchian"@.len() != "parabolic_sar"@.len());
    assert("donchian"@.len() != "supertrend"@.len());
    assert("donchian"@.len() != "st"@.len());
    assert("donchian"@.len() != "mfi"@.len());
    assert("donchian"@[0] != "ichimoku"@[0]);
}

} // verus!
