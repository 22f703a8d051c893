use finance_query_cli::commands::timeline::{sort_by_timestamp, utc_date};

#[test]
fn events_are_listed_oldest_first_and_stably() {
    let events = vec![(300, 'a'), (100, 'b'), (200, 'c'), (100, 'd'), (-5, 'e')];
    let sorted = sort_by_timestamp(events.clone());
    assert_eq!(sorted, vec![(-5, 'e'), (100, 'b'), (100, 'd'), (200, 'c'), (300, 'a')]);

    // The same order as a stable sort by time.
    let mut expected = events;
    expected.sort_by_key(|e| e.0);
    assert_eq!(sorted, expected);
    assert!(sort_by_timestamp(Vec::<(i64, u8)>::new()).is_empty());
}

#[test]
fn event_dates_are_utc_days() {
    assert_eq!(utc_date(1_700_000_000), Some("2023-11-14".to_string()));
    assert_eq!(utc_date(-86_400), Some("1969-12-31".to_string()));
    assert_eq!(utc_date(i64::MIN), None);
}
