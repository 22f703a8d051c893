use finance_query_cli::text::{
    eq_ignore_ascii_case, parse_usize, split_char, split_once_char, str_eq, trim,
};

#[test]
fn whole_numbers_are_read_like_std() {
    assert_eq!(parse_usize("42"), Some(42));
    assert_eq!(parse_usize("+7"), Some(7));
    assert_eq!(parse_usize("007"), Some(7));
    assert_eq!(parse_usize(""), None);
    assert_eq!(parse_usize("+"), None);
    assert_eq!(parse_usize("-1"), None);
    assert_eq!(parse_usize("1.5"), None);
    assert_eq!(parse_usize(" 3"), None);
    assert_eq!(parse_usize("18446744073709551616"), None);
    for s in ["0", "12", "+99", "x", "18446744073709551615"] {
        assert_eq!(parse_usize(s), s.parse::<usize>().ok());
    }
}

#[test]
fn splitting_keeps_empty_pieces() {
    assert_eq!(split_char("a,,b", ','), vec!["a", "", "b"]);
    assert_eq!(split_char("", ','), vec![""]);
    assert_eq!(split_char("x:", ':'), vec!["x", ""]);
    assert_eq!(
        split_once_char("k:v:w", ':'),
        Some(("k".to_string(), "v:w".to_string()))
    );
    assert_eq!(split_once_char("kv", ':'), None);
}

#[test]
fn trimming_and_comparing() {
    assert_eq!(trim("\t a b \n"), "a b");
    assert_eq!(trim("   "), "");
    assert!(str_eq("abc", "abc"));
    assert!(!str_eq("abc", "abd"));
    assert!(eq_ignore_ascii_case("Or", "oR"));
    assert!(!eq_ignore_ascii_case("or", "ör"));
}
