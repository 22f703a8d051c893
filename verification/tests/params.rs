use finance_query_cli::commands::params::{parse_screener_type, ScreenerKind};
use finance_query_cli::commands::params::{
    parse_frequency, parse_indices_region, parse_interval, parse_lookup_type, parse_range,
    parse_region, parse_statement_type, Frequency, IndicesRegion, Interval, LookupType, Region,
    StatementType, TimeRange,
};

#[test]
fn intervals_are_read_in_any_case() {
    assert_eq!(parse_interval("1m").unwrap(), Interval::OneMinute);
    assert_eq!(parse_interval("15m").unwrap(), Interval::FifteenMinutes);
    assert_eq!(parse_interval("1D").unwrap(), Interval::OneDay);
    assert_eq!(parse_interval("1WK").unwrap(), Interval::OneWeek);
    assert_eq!(parse_interval("1mo").unwrap(), Interval::OneMonth);
}

#[test]
fn an_unknown_interval_is_named_in_the_error() {
    let e = parse_interval("30m").unwrap_err();
    assert_eq!(
        e.message(),
        "Invalid argument: Invalid interval '30m'. Valid: 1m, 5m, 15m, 1h, 1d, 1wk, 1mo"
    );
}

#[test]
fn ranges_are_read_in_any_case() {
    assert_eq!(parse_range("YTD").unwrap(), TimeRange::YearToDate);
    assert_eq!(parse_range("10y").unwrap(), TimeRange::TenYears);
    assert_eq!(parse_range("Max").unwrap(), TimeRange::Max);
    let e = parse_range("7d").unwrap_err();
    assert_eq!(
        e.message(),
        "Invalid argument: Invalid range '7d'. Valid: 1d, 5d, 1mo, 3mo, 6mo, 1y, 2y, 5y, 10y, ytd, max"
    );
}

#[test]
fn statement_types_and_frequencies_have_aliases() {
    assert_eq!(parse_statement_type("Income-Statement").unwrap(), StatementType::Income);
    assert_eq!(parse_statement_type("balance-sheet").unwrap(), StatementType::Balance);
    assert_eq!(parse_statement_type("CASHFLOW").unwrap(), StatementType::CashFlow);
    assert_eq!(parse_statement_type("cash").unwrap(), StatementType::CashFlow);
    assert_eq!(
        parse_statement_type("equity").unwrap_err().message(),
        "Invalid argument: Invalid statement type 'equity'. Valid types: income, balance, cash-flow"
    );
    assert_eq!(parse_frequency("Yearly").unwrap(), Frequency::Annual);
    assert_eq!(parse_frequency("q").unwrap(), Frequency::Quarterly);
    assert_eq!(
        parse_frequency("monthly").unwrap_err().message(),
        "Invalid argument: Invalid frequency 'monthly'. Valid frequencies: annual, quarterly"
    );
}

#[test]
fn regions_of_indices_and_markets() {
    assert_eq!(parse_indices_region("Asia-Pacific").unwrap(), IndicesRegion::AsiaPacific);
    assert_eq!(parse_indices_region("EMEA").unwrap(), IndicesRegion::MiddleEastAfrica);
    assert_eq!(parse_indices_region("fx").unwrap(), IndicesRegion::Currencies);
    assert!(parse_indices_region("antarctica").is_err());
    assert_eq!(parse_region("us"), Some(Region::UnitedStates));
    assert_eq!(parse_region("uk"), Some(Region::UnitedKingdom));
    assert_eq!(parse_region("GB"), Some(Region::UnitedKingdom));
    assert_eq!(parse_region("tw"), Some(Region::Taiwan));
    assert_eq!(parse_region("JP"), None);
    assert_eq!(parse_region(""), None);
}

#[test]
fn lookup_types_have_aliases() {
    assert_eq!(parse_lookup_type("Stocks").unwrap(), LookupType::Equity);
    assert_eq!(parse_lookup_type("forex").unwrap(), LookupType::Currency);
    assert_eq!(parse_lookup_type("crypto").unwrap(), LookupType::Cryptocurrency);
    assert_eq!(parse_lookup_type("ALL").unwrap(), LookupType::All);
    assert_eq!(
        parse_lookup_type("bond").unwrap_err().message(),
        "Invalid argument: Invalid asset type 'bond'. Valid types: equity, etf, mutualfund, index, future, currency, cryptocurrency, all"
    );
}

#[test]
fn screeners_are_read_by_name() {
    assert_eq!(parse_screener_type("Most_Actives").unwrap(), ScreenerKind::MostActives);
    assert_eq!(parse_screener_type("gainers").unwrap(), ScreenerKind::DayGainers);
    assert_eq!(parse_screener_type("DAY-LOSERS").unwrap(), ScreenerKind::DayLosers);
    assert_eq!(parse_screener_type("growth_tech").unwrap(), ScreenerKind::GrowthTechnologyStocks);
    assert_eq!(parse_screener_type("top-mutual-funds").unwrap(), ScreenerKind::TopMutualFunds);
    // The same screener that finance-query's own reading gives.
    for name in ["aggressive-small-caps", "undervalued-large", "high_yield_bond", "Most-Shorted"] {
        let ours = format!("{:?}", parse_screener_type(name).unwrap());
        let theirs = format!("{:?}", finance_query::Screener::parse(name).unwrap());
        assert_eq!(ours, theirs);
    }
    assert!(finance_query::Screener::parse("best-stocks").is_none());
    let err = parse_screener_type("best-stocks").unwrap_err();
    assert_eq!(
        err.message(),
        "Invalid argument: Invalid screener type 'best-stocks'. Valid types: aggressive-small-caps, day-gainers, day-losers, growth-technology-stocks, most-actives, most-shorted-stocks, small-cap-gainers, undervalued-growth-stocks, undervalued-large-caps, conservative-foreign-funds, high-yield-bond, portfolio-anchors, solid-large-growth-funds, solid-midcap-growth-funds, top-mutual-funds"
    );
}
