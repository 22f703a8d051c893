use finance_query_cli::commands::stream::{
    is_overnight_hour, is_overnight_session, market_hours_label, session_label, MarketHours,
};

#[test]
fn overnight_runs_from_eight_pm_to_four_am() {
    assert!(is_overnight_hour(20));
    assert!(is_overnight_hour(23));
    assert!(is_overnight_hour(0));
    assert!(is_overnight_hour(3));
    assert!(!is_overnight_hour(4));
    assert!(!is_overnight_hour(19));
}

#[test]
fn sessions_are_named() {
    assert_eq!(session_label(MarketHours::RegularMarket, true), "Regular");
    assert_eq!(session_label(MarketHours::PreMarket, true), "Overnight");
    assert_eq!(session_label(MarketHours::PreMarket, false), "Pre-Market");
    assert_eq!(session_label(MarketHours::PostMarket, false), "After-Hours");
    assert_eq!(market_hours_label(MarketHours::ExtendedHoursMarket), "Extended");
    let pre = market_hours_label(MarketHours::PreMarket);
    assert_eq!(pre, if is_overnight_session() { "Overnight" } else { "Pre-Market" });
}
