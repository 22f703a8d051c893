use finance_query_cli::commands::params::{parse_calendar_range, TimeRange};
use finance_query_cli::commands::service::{launchd_plist, systemd_unit};

#[test]
fn the_systemd_unit_runs_the_watcher() {
    let unit = systemd_unit("/usr/bin/fq", 90);
    assert!(unit.starts_with("[Unit]\nDescription=Finance Query Alert Watcher\n"));
    assert!(unit.contains("\nExecStart=/usr/bin/fq alerts watch --interval 90\n"));
    assert!(unit.ends_with("[Install]\nWantedBy=default.target\n"));
}

#[test]
fn the_launchd_agent_runs_the_watcher() {
    let plist = launchd_plist("/opt/fq", 60);
    assert!(plist.contains("<string>/opt/fq</string>\n        <string>alerts</string>"));
    assert!(plist.contains("<string>--interval</string>\n        <string>60</string>"));
    assert!(plist.ends_with("</dict>\n</plist>\n"));
}

#[test]
fn the_calendar_takes_a_week_for_five_days() {
    assert_eq!(parse_calendar_range("1WK").unwrap(), TimeRange::FiveDays);
    assert_eq!(parse_calendar_range("5d").unwrap(), TimeRange::FiveDays);
    assert_eq!(
        parse_calendar_range("1w").unwrap_err().message(),
        "Invalid argument: Invalid range '1w'. Valid ranges: 1d, 5d/1wk, 1mo, 3mo, 6mo, 1y, 2y, 5y, 10y, ytd, max"
    );
}
