use finance_query_cli::commands::grades::{
    action_style, filter_grades_by_action, grade_date, grade_summary, is_downgrade, is_upgrade,
    select_grades, sort_grades_by_date, ActionStyle,
};

fn grade(action: Option<&str>, date: Option<i64>, id: u32) -> (Option<String>, Option<i64>, u32) {
    (action.map(|a| a.to_string()), date, id)
}

fn ids<A, B>(v: &[(A, B, u32)]) -> Vec<u32> {
    v.iter().map(|g| g.2).collect()
}

#[test]
fn grades_are_sorted_oldest_first_and_stably() {
    let items = vec![
        grade(Some("up"), Some(30), 1),
        grade(Some("down"), Some(10), 2),
        grade(Some("main"), None, 3),
        grade(Some("reit"), Some(10), 4),
        grade(Some("init"), Some(20), 5),
    ];
    let sorted = sort_grades_by_date(items);
    // A missing date counts as zero; equal dates keep their order.
    assert_eq!(ids(&sorted), vec![3, 2, 4, 5, 1]);
}

#[test]
fn action_filter_ignores_case_and_skips_missing_actions() {
    let items = vec![
        grade(Some("Upgrade"), Some(1), 1),
        grade(Some("down"), Some(2), 2),
        grade(None, Some(3), 3),
        grade(Some("UP"), Some(4), 4),
    ];
    let kept = filter_grades_by_action(items, "uP");
    assert_eq!(ids(&kept), vec![1, 4]);
}

#[test]
fn selection_keeps_the_most_recent_grades() {
    let items = vec![
        grade(Some("up"), Some(50), 1),
        grade(Some("down"), Some(10), 2),
        grade(Some("up"), Some(40), 3),
        grade(Some("up"), Some(20), 4),
        grade(Some("init"), Some(30), 5),
    ];
    let shown = select_grades(items.clone(), Some("up"), 2);
    assert_eq!(ids(&shown), vec![3, 1]);
    let all = select_grades(items.clone(), None, 20);
    assert_eq!(ids(&all), vec![2, 4, 5, 3, 1]);
    let none = select_grades(items, Some("reit"), 5);
    assert!(none.is_empty());
}

#[test]
fn zero_limit_shows_no_grades() {
    let items = vec![grade(Some("up"), Some(1), 1)];
    assert!(select_grades(items, None, 0).is_empty());
}

#[test]
fn upgrades_and_downgrades_are_counted() {
    let items = vec![
        grade(Some("up"), Some(1), 1),
        grade(Some("reit-up"), Some(2), 2),
        grade(Some("down"), Some(3), 3),
        grade(Some("main"), Some(4), 4),
        grade(Some("init-downgrade"), Some(5), 5),
        grade(None, Some(6), 6),
        grade(Some("Up"), Some(7), 7),
        grade(Some("init-upgrade"), None, 8),
    ];
    assert_eq!(grade_summary(&items), (3, 2));
    assert_eq!(grade_summary(&Vec::<(Option<String>, Option<i64>, u32)>::new()), (0, 0));
    assert!(is_upgrade(&Some("up".to_string())));
    assert!(!is_upgrade(&Some("upgrade".to_string())));
    assert!(is_downgrade(&Some("reit-down".to_string())));
    assert!(!is_downgrade(&None));
}

#[test]
fn actions_are_styled_by_what_they_say() {
    assert_eq!(action_style("up"), ActionStyle::Up);
    assert_eq!(action_style("reit-up"), ActionStyle::Up);
    assert_eq!(action_style("down"), ActionStyle::Down);
    assert_eq!(action_style("init"), ActionStyle::Init);
    assert_eq!(action_style("main"), ActionStyle::Main);
    assert_eq!(action_style("reit"), ActionStyle::Plain);
    assert_eq!(action_style("init-upgrade"), ActionStyle::Up);
}

#[test]
fn grade_dates_are_written_in_utc() {
    assert_eq!(grade_date(Some(1_704_153_600)), Some("2024-01-02".to_string()));
    assert_eq!(grade_date(Some(0)), Some("1970-01-01".to_string()));
    assert_eq!(grade_date(Some(86_399)), Some("1970-01-01".to_string()));
    assert_eq!(grade_date(Some(i64::MAX)), None);
    assert_eq!(grade_date(None), None);
}
