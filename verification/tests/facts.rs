use finance_query_cli::commands::args::FactsArgs;
use finance_query_cli::commands::facts::{
    extract_fact_rows, fact_concepts, latest_fact_points, sort_fact_points, unit_selected,
};

type Point = (Option<i32>, Option<String>, u32);

fn point(fy: Option<i32>, fp: Option<&str>, id: u32) -> Point {
    (fy, fp.map(|s| s.to_string()), id)
}

fn sample() -> Vec<Point> {
    vec![
        point(Some(2023), Some("Q1"), 1),
        point(Some(2024), Some("FY"), 2),
        point(None, Some("Q2"), 3),
        point(Some(2024), Some("Q3"), 4),
        point(Some(2023), Some("Q1"), 5),
        point(Some(2024), None, 6),
    ]
}

#[test]
fn points_are_ordered_newest_year_then_period_first() {
    let sorted = sort_fact_points(sample());
    let ids: Vec<u32> = sorted.iter().map(|p| p.2).collect();
    assert_eq!(ids, vec![4, 2, 6, 1, 5, 3]);

    // The same order as a stable sort by year, then period, both descending.
    let mut expected = sample();
    expected.sort_by(|a, b| b.0.cmp(&a.0).then_with(|| b.1.cmp(&a.1)));
    assert_eq!(sorted, expected);
}

#[test]
fn periods_compare_by_their_text() {
    let sorted = sort_fact_points(vec![
        point(Some(2020), Some("Q"), 1),
        point(Some(2020), Some("Q10"), 2),
        point(Some(2020), Some("Q2"), 3),
        point(Some(2020), Some("é"), 4),
    ]);
    let ids: Vec<u32> = sorted.iter().map(|p| p.2).collect();
    assert_eq!(ids, vec![4, 3, 2, 1]);
}

#[test]
fn only_the_most_recent_points_are_kept() {
    let latest = latest_fact_points(sample(), 2);
    let ids: Vec<u32> = latest.iter().map(|p| p.2).collect();
    assert_eq!(ids, vec![4, 2]);
    assert_eq!(latest_fact_points(sample(), 100).len(), 6);
    assert!(latest_fact_points(sample(), 0).is_empty());
}

#[test]
fn common_concepts_are_used_without_a_filter() {
    let all = fact_concepts(None);
    assert_eq!(all.len(), 10);
    assert_eq!(all[0], "Revenue");
    assert_eq!(all[9], "RetainedEarningsAccumulatedDeficit");
    assert_eq!(fact_concepts(Some("Assets")), vec!["Assets".to_string()]);
}

#[test]
fn unit_filter_matches_exactly() {
    assert!(unit_selected("USD", None));
    assert!(unit_selected("USD", Some("USD")));
    assert!(!unit_selected("USD", Some("usd")));
    assert!(!unit_selected("shares", Some("USD")));
}

#[test]
fn rows_follow_concepts_then_units() {
    let found = vec![
        (
            "Revenue".to_string(),
            Some(vec![
                ("USD".to_string(), sample()),
                ("shares".to_string(), vec![point(Some(2022), Some("FY"), 7)]),
            ]),
        ),
        ("Assets".to_string(), None),
        (
            "Liabilities".to_string(),
            Some(vec![("USD".to_string(), vec![point(Some(2021), Some("FY"), 8)])]),
        ),
    ];
    let rows = extract_fact_rows(found.clone(), Some("USD"), 2);
    let got: Vec<(String, String, u32)> =
        rows.iter().map(|r| (r.0.clone(), r.1.clone(), r.2 .2)).collect();
    assert_eq!(
        got,
        vec![
            ("Revenue".to_string(), "USD".to_string(), 4),
            ("Revenue".to_string(), "USD".to_string(), 2),
            ("Liabilities".to_string(), "USD".to_string(), 8),
        ]
    );
    let unfiltered = extract_fact_rows(found, None, 1);
    let got: Vec<(String, u32)> = unfiltered.iter().map(|r| (r.1.clone(), r.2 .2)).collect();
    assert_eq!(
        got,
        vec![("USD".to_string(), 4), ("shares".to_string(), 7), ("USD".to_string(), 8)]
    );
}

fn facts_args(email: Option<&str>) -> FactsArgs {
    FactsArgs {
        symbol: "AAPL".to_string(),
        email: email.map(|e| e.to_string()),
        output: "table".to_string(),
        concept: None,
        unit: None,
        limit: 10,
    }
}

#[test]
fn facts_need_a_contact_email() {
    assert_eq!(facts_args(Some("me@example.com")).required_email().unwrap(), "me@example.com");
    let err = facts_args(None).required_email().unwrap_err();
    assert_eq!(
        err.message(),
        "Invalid argument: EDGAR email required. Provide via --email or set EDGAR_EMAIL environment variable"
    );
}
