use finance_query_cli::commands::args::{ChartArgs, ChartMode};
use finance_query_cli::commands::indicators::{
    indicator_columns, indicator_table_header, parse_indicators, IndicatorType,
};
use finance_query_cli::commands::params::{Interval, TimeRange};

fn describe(v: &[IndicatorType]) -> Vec<String> {
    v.iter()
        .map(|i| match i {
            IndicatorType::Sma(p) => format!("sma {p}"),
            IndicatorType::Ema(p) => format!("ema {p}"),
            IndicatorType::Rsi(p) => format!("rsi {p}"),
            IndicatorType::Macd(a, b, c) => format!("macd {a} {b} {c}"),
            IndicatorType::Bollinger(p, d) => format!("bb {p} {d:?}"),
            IndicatorType::Atr(p) => format!("atr {p}"),
            IndicatorType::Stochastic(k, d) => format!("stoch {k} {d}"),
            IndicatorType::Adx(p) => format!("adx {p}"),
            IndicatorType::Obv => "obv".to_string(),
            IndicatorType::Vwap => "vwap".to_string(),
            IndicatorType::Cci(p) => format!("cci {p}"),
            IndicatorType::WilliamsR(p) => format!("willr {p}"),
            IndicatorType::StochasticRsi(r, s) => format!("stochrsi {r} {s}"),
            IndicatorType::ParabolicSar(a, m) => format!("psar {a:?} {m:?}"),
            IndicatorType::Supertrend(p, m) => format!("st {p} {m:?}"),
            IndicatorType::Mfi(p) => format!("mfi {p}"),
            IndicatorType::Ichimoku => "ichimoku".to_string(),
            IndicatorType::DonchianChannels(p) => format!("donchian {p}"),
        })
        .collect()
}

#[test]
fn indicators_with_parameters_and_defaults() {
    let v = parse_indicators("sma:20,RSI:14,stochrsi:14:14,supertrend:10:3.0").unwrap();
    assert_eq!(
        describe(&v),
        vec!["sma 20", "rsi 14", "stochrsi 14 14", "st 10 Some(\"3.0\")"]
    );
    let v = parse_indicators("ema, bb ,psar,obv,vwap,ichimoku,donchian,cci,willr,mfi,adx,atr,stoch").unwrap();
    assert_eq!(
        describe(&v),
        vec![
            "ema 12", "bb 20 None", "psar None None", "obv", "vwap", "ichimoku", "donchian 20",
            "cci 20", "willr 14", "mfi 14", "adx 14", "atr 14", "stoch 14 3"
        ]
    );
}

#[test]
fn bad_parameters_fall_back_to_defaults_and_empty_entries_are_skipped() {
    let v = parse_indicators(",sma:abc,, rsi : 7 ,stochastic:5:x,psar:0.01:0.3").unwrap();
    assert_eq!(
        describe(&v),
        vec!["sma 20", "rsi 7", "stoch 5 3", "psar Some(\"0.01\") Some(\"0.3\")"]
    );
    assert!(parse_indicators("").unwrap().is_empty());
}

#[test]
fn macd_parameters_are_split_by_the_list_commas() {
    let v = parse_indicators("macd").unwrap();
    assert_eq!(describe(&v), vec!["macd 12 26 9"]);
    let v = parse_indicators("macd:8").unwrap();
    assert_eq!(describe(&v), vec!["macd 8 26 9"]);
    let e = parse_indicators("macd:12,26,9").unwrap_err();
    assert_eq!(
        e.message(),
        "Invalid argument: Unknown indicator '26'. Available: sma, ema, rsi, macd, bollinger, atr, stochastic, adx, obv, vwap, cci, williamsr, stochrsi, psar, supertrend, mfi, ichimoku, donchian"
    );
}

#[test]
fn the_first_unknown_indicator_is_reported() {
    let e = parse_indicators("sma, Foo:3, bar").unwrap_err();
    assert!(e.message().contains("'Foo'"));
}

fn chart_args(interval: &str, range: &str, output: &str, indicators: Option<&str>) -> ChartArgs {
    ChartArgs {
        symbol: "AAPL".to_string(),
        interval: interval.to_string(),
        range: range.to_string(),
        output: output.to_string(),
        indicators: indicators.map(|s| s.to_string()),
    }
}

#[test]
fn chart_mode_follows_the_output_format() {
    match chart_args("1d", "1mo", "Chart", None).mode().unwrap() {
        ChartMode::Interactive { interval, range } => {
            assert_eq!(interval, Interval::OneDay);
            assert_eq!(range, TimeRange::OneMonth);
        }
        _ => panic!("expected the interactive chart"),
    }
    assert!(matches!(
        chart_args("1h", "5d", "csv", None).mode().unwrap(),
        ChartMode::Tabular { interval: Interval::OneHour, range: TimeRange::FiveDays }
    ));
    assert_eq!(
        chart_args("1d", "1mo", "xml", None).mode().err().unwrap().message(),
        "Invalid argument: Invalid output format 'xml'. Valid: chart, table, json, csv"
    );
    assert!(chart_args("2d", "xx", "xml", None).mode().err().unwrap().message().contains("interval"));
    assert!(chart_args("1d", "xx", "xml", None).mode().err().unwrap().message().contains("range"));
    assert!(chart_args("1d", "1y", "table", None).indicators().unwrap().is_empty());
    assert_eq!(chart_args("1d", "1y", "table", Some("obv")).indicators().unwrap().len(), 1);
}

#[test]
fn indicator_table_header_lists_each_indicators_columns() {
    let indicators = parse_indicators("sma:20,bollinger,obv").unwrap();
    assert_eq!(
        indicator_table_header(&indicators),
        vec![
            "Date", "Open", "High", "Low", "Close", "Volume", "SMA", "BB_Upper", "BB_Middle",
            "BB_Lower", "OBV"
        ]
    );
    assert_eq!(indicator_table_header(&Vec::new()).len(), 6);
    assert_eq!(indicator_columns(&IndicatorType::Ichimoku).len(), 5);
    assert_eq!(indicator_columns(&IndicatorType::Stochastic(14, 3)), vec!["Stoch_%K", "Stoch_%D"]);
}
