use finance_query_cli::commands::financials::{
    financial_dates, financial_metrics, start_period, year_of, FinancialsView,
};
use finance_query_cli::keys::{KeyCode, KeyEvent, KeyModifiers};

fn key(code: KeyCode) -> KeyEvent {
    KeyEvent { code, modifiers: KeyModifiers { control: false, shift: false } }
}

fn s(v: &[&str]) -> Vec<String> {
    v.iter().map(|x| x.to_string()).collect()
}

#[test]
fn dates_are_newest_first_without_repeats() {
    let dates = s(&["2022-12-31", "2024-12-31", "2023-12-31", "2024-12-31", "2022-12-31"]);
    assert_eq!(financial_dates(&dates), s(&["2024-12-31", "2023-12-31", "2022-12-31"]));
    assert!(financial_dates(&Vec::new()).is_empty());

    // The same as sorting newest first and dropping repeats.
    let mut expected = dates.clone();
    expected.sort_by(|a, b| b.cmp(a));
    expected.dedup();
    assert_eq!(financial_dates(&dates), expected);
}

#[test]
fn metrics_are_ordered_by_name_and_limited() {
    let metrics = vec![
        ("TotalRevenue".to_string(), 1),
        ("GrossProfit".to_string(), 2),
        ("NetIncome".to_string(), 3),
        ("EBITDA".to_string(), 4),
    ];
    let all = financial_metrics(metrics.clone(), 0);
    let names: Vec<&str> = all.iter().map(|m| m.0.as_str()).collect();
    assert_eq!(names, vec!["EBITDA", "GrossProfit", "NetIncome", "TotalRevenue"]);
    let two = financial_metrics(metrics.clone(), 2);
    assert_eq!(two.iter().map(|m| m.1).collect::<Vec<_>>(), vec![4, 2]);
    assert_eq!(financial_metrics(metrics, 10).len(), 4);
}

#[test]
fn first_period_is_the_requested_one_within_range() {
    assert_eq!(start_period(0, 4), 0);
    assert_eq!(start_period(1, 4), 0);
    assert_eq!(start_period(3, 4), 2);
    assert_eq!(start_period(9, 4), 3);
}

#[test]
fn year_is_the_text_before_the_first_dash() {
    assert_eq!(year_of("2024-09-30"), "2024");
    assert_eq!(year_of("TTM"), "TTM");
    assert_eq!(year_of("-x"), "");
}

#[test]
fn periods_wrap_around() {
    let mut v = FinancialsView::new(3, 5, 0);
    assert!(!v.handle_key(key(KeyCode::Left)));
    assert_eq!(v.period, 2);
    assert!(!v.handle_key(key(KeyCode::Tab)));
    assert_eq!(v.period, 0);
    v.handle_key(key(KeyCode::Char('l')));
    v.handle_key(key(KeyCode::Right));
    assert_eq!(v.period, 2);
    v.handle_key(key(KeyCode::Right));
    assert_eq!(v.period, 0);
    v.handle_key(key(KeyCode::BackTab));
    v.handle_key(key(KeyCode::Char('h')));
    assert_eq!(v.period, 1);
}

#[test]
fn rows_stay_inside_the_table() {
    let mut v = FinancialsView::new(1, 25, 0);
    v.handle_key(key(KeyCode::Up));
    assert_eq!(v.selected, 0);
    v.handle_key(key(KeyCode::PageDown));
    assert_eq!(v.selected, 10);
    v.handle_key(key(KeyCode::PageDown));
    v.handle_key(key(KeyCode::PageDown));
    assert_eq!(v.selected, 24);
    v.handle_key(key(KeyCode::Down));
    assert_eq!(v.selected, 24);
    v.handle_key(key(KeyCode::Char('k')));
    assert_eq!(v.selected, 23);
    v.handle_key(key(KeyCode::PageUp));
    assert_eq!(v.selected, 13);
    v.handle_key(key(KeyCode::Char('g')));
    assert_eq!(v.selected, 0);
    v.handle_key(key(KeyCode::End));
    assert_eq!(v.selected, 24);
    v.handle_key(key(KeyCode::Home));
    assert_eq!(v.selected, 0);
    v.handle_key(key(KeyCode::Char('G')));
    assert_eq!(v.selected, 24);
    v.handle_key(key(KeyCode::Char('j')));
    assert_eq!(v.selected, 24);

    let mut empty = FinancialsView::new(1, 0, 0);
    empty.handle_key(key(KeyCode::Down));
    empty.handle_key(key(KeyCode::End));
    assert_eq!(empty.selected, 0);
}

#[test]
fn quitting_keys_close_the_view() {
    let mut v = FinancialsView::new(2, 2, 1);
    assert!(v.handle_key(key(KeyCode::Char('q'))));
    assert!(v.handle_key(key(KeyCode::Esc)));
    assert!(!v.handle_key(key(KeyCode::Char('c'))));
    let ctrl_c =
        KeyEvent { code: KeyCode::Char('c'), modifiers: KeyModifiers { control: true, shift: false } };
    assert!(v.handle_key(ctrl_c));
    assert_eq!(v, FinancialsView::new(2, 2, 1));
}
