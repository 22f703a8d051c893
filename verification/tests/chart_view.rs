use finance_query_cli::commands::chart_view::{interval_label, range_option, ChartView, RANGE_COUNT};
use finance_query_cli::commands::params::{Interval, TimeRange};
use finance_query_cli::keys::{KeyCode, KeyEvent, KeyModifiers};

fn key(code: KeyCode) -> KeyEvent {
    KeyEvent { code, modifiers: KeyModifiers { control: false, shift: false } }
}

#[test]
fn the_chart_starts_on_the_range_asked_for() {
    let v = ChartView::new(TimeRange::YearToDate);
    assert_eq!(v.range_idx, 4);
    assert_eq!(v.range, TimeRange::YearToDate);
    assert_eq!(v.interval, Interval::OneDay);
    assert!(v.loading);
    assert!(v.candles.is_none());

    // A range that is not offered selects one month, keeps the range asked
    // for, and fetches at the one month interval.
    let v = ChartView::new(TimeRange::ThreeMonths);
    assert_eq!(v.range_idx, 2);
    assert_eq!(v.range, TimeRange::ThreeMonths);
    assert_eq!(v.interval, Interval::OneDay);

    let v = ChartView::new(TimeRange::OneDay);
    assert_eq!((v.range_idx, v.interval), (0, Interval::FiveMinutes));
}

#[test]
fn ranges_are_offered_in_order() {
    assert_eq!(RANGE_COUNT, 8);
    assert_eq!(range_option(0), ("1D", TimeRange::OneDay, Interval::FiveMinutes));
    assert_eq!(range_option(1), ("5D", TimeRange::FiveDays, Interval::FifteenMinutes));
    assert_eq!(range_option(6), ("5Y", TimeRange::FiveYears, Interval::OneWeek));
    assert_eq!(range_option(7), ("Max", TimeRange::Max, Interval::OneWeek));
    assert_eq!(interval_label(Interval::OneWeek), "1wk");
}

#[test]
fn arrows_step_through_ranges_and_ask_for_a_fetch() {
    let mut v = ChartView::new(TimeRange::OneMonth);
    v.finish_fetch(20);
    assert!(!v.loading);
    assert!(!v.handle_key(key(KeyCode::Right)));
    assert_eq!((v.range_idx, v.range, v.interval), (3, TimeRange::SixMonths, Interval::OneDay));
    assert!(v.loading);
    v.finish_fetch(120);
    v.handle_key(key(KeyCode::BackTab));
    v.handle_key(key(KeyCode::Char('h')));
    v.handle_key(key(KeyCode::Left));
    v.handle_key(key(KeyCode::Left));
    assert_eq!(v.range_idx, 0);
    assert_eq!(v.range, TimeRange::OneDay);
    for _ in 0..10 {
        v.handle_key(key(KeyCode::Tab));
    }
    assert_eq!((v.range_idx, v.range), (7, TimeRange::Max));
}

#[test]
fn trace_mode_steps_through_candles() {
    let mut v = ChartView::new(TimeRange::OneMonth);
    // No candles yet: Enter does nothing.
    v.handle_key(key(KeyCode::Enter));
    assert!(!v.focus);
    v.finish_fetch(5);
    v.handle_key(key(KeyCode::Enter));
    assert!(v.focus);
    assert_eq!(v.focus_index, 2);
    v.handle_key(key(KeyCode::Right));
    v.handle_key(key(KeyCode::Char('l')));
    v.handle_key(key(KeyCode::Right));
    assert_eq!(v.focus_index, 4);
    // Ranges do not change in the trace mode.
    v.handle_key(key(KeyCode::Tab));
    assert_eq!(v.range_idx, 2);
    v.handle_key(key(KeyCode::Home));
    assert_eq!(v.focus_index, 0);
    v.handle_key(key(KeyCode::Left));
    assert_eq!(v.focus_index, 0);
    v.handle_key(key(KeyCode::End));
    assert_eq!(v.focus_index, 4);
    // Esc leaves the trace mode, then closes the chart.
    assert!(!v.handle_key(key(KeyCode::Esc)));
    assert!(!v.focus);
    assert!(v.handle_key(key(KeyCode::Esc)));
}

#[test]
fn quitting_keys_close_the_chart() {
    let mut v = ChartView::new(TimeRange::OneMonth);
    assert!(v.handle_key(key(KeyCode::Char('q'))));
    let ctrl_c =
        KeyEvent { code: KeyCode::Char('c'), modifiers: KeyModifiers { control: true, shift: false } };
    assert!(v.handle_key(ctrl_c));
    assert!(!v.handle_key(key(KeyCode::Char('c'))));
}

#[test]
fn fetch_results_update_the_status() {
    let mut v = ChartView::new(TimeRange::FiveDays);
    assert_eq!(v.status_text(), " Loading...");
    v.fail_fetch("timed out");
    assert_eq!(v.error.as_deref(), Some("Error: timed out"));
    assert_eq!(v.status_text(), "");
    v.handle_key(key(KeyCode::Left));
    v.finish_fetch(78);
    assert!(v.error.is_none());
    assert_eq!(v.status_text(), " 5m | 78 pts");
    // A failed fetch keeps the chart shown.
    v.handle_key(key(KeyCode::Right));
    v.fail_fetch("down");
    assert_eq!(v.candles, Some(78));
    assert_eq!(v.status_text(), " 15m | 78 pts");
}

#[test]
fn the_traced_candle_is_brought_back_onto_a_shorter_chart() {
    let mut v = ChartView::new(TimeRange::OneMonth);
    v.finish_fetch(10);
    v.handle_key(key(KeyCode::Enter));
    v.handle_key(key(KeyCode::End));
    assert_eq!(v.focus_index, 9);
    v.finish_fetch(4);
    v.fit_focus();
    assert_eq!(v.focus_index, 3);
    v.finish_fetch(0);
    v.fit_focus();
    assert_eq!(v.focus_index, 3);
}
