use finance_query_cli::commands::hours::{hours_row, market_status_label, market_time, time_or_na};

#[test]
fn statuses_are_shown_with_their_marker() {
    assert_eq!(market_status_label("open"), "🟢 OPEN");
    assert_eq!(market_status_label("closed"), "🔴 CLOSED");
    assert_eq!(market_status_label("pre"), "pre");
}

#[test]
fn rows_are_padded_into_columns() {
    let row = hours_row(
        "us_market",
        "U.S. markets",
        "open",
        Some("2024-01-02T09:30:00-05:00"),
        Some("not a time"),
    );
    assert_eq!(
        row,
        format!(
            "{:<15} {:<25} {:<10} {:<20} {:<20}",
            "us_market", "U.S. markets", "🟢 OPEN", "09:30 -05:00", "N/A"
        )
    );
    let long = hours_row("x", "A very long market name for sure", "closed", None, None);
    assert!(long.contains("A very long market nam... "));
}

#[test]
fn market_times_show_the_time_of_day() {
    assert_eq!(market_time(Some("2024-03-08T16:00:00+09:00")), "16:00 +09:00");
    assert_eq!(market_time(Some("2024-03-08T04:05:59Z")), "04:05 +00:00");
    assert_eq!(market_time(Some("16:00")), "N/A");
    assert_eq!(market_time(None), "N/A");
    assert_eq!(time_or_na(Some("09:30".to_string())), "09:30");
    assert_eq!(time_or_na(None), "N/A");
}
