use finance_query_cli::format::{
    build_address, escape_csv, format_number, humanize_metric_name, i64_text, split_whitespace,
    textwrap, truncate, truncate_with_dots, wrapped_lines,
};

#[test]
fn truncation_keeps_the_byte_budget() {
    assert_eq!(truncate("Apple Inc.", 20), "Apple Inc.");
    assert_eq!(truncate("Apple Inc.", 10), "Apple Inc.");
    assert_eq!(truncate("Berkshire Hathaway", 10), "Berkshire…");
    assert_eq!(truncate("Nestlé S.A.", 8), "Nestlé…");
    assert_eq!(truncate_with_dots("New York Stock Exchange", 10), "New Yor...");
    assert_eq!(truncate_with_dots("NYSE", 4), "NYSE");
}

#[test]
fn csv_fields_are_quoted_when_needed() {
    assert_eq!(escape_csv("plain"), "plain");
    assert_eq!(escape_csv("a,b"), "\"a,b\"");
    assert_eq!(escape_csv("say \"hi\""), "\"say \"\"hi\"\"\"");
    assert_eq!(escape_csv("two\nlines"), "\"two\nlines\"");
    assert_eq!(escape_csv(""), "");
}

#[test]
fn camel_case_names_are_spaced_out() {
    assert_eq!(humanize_metric_name("TotalRevenue"), "Total Revenue");
    assert_eq!(humanize_metric_name("EBITDA"), "E B I T D A");
    assert_eq!(humanize_metric_name("netIncome"), "net Income");
    assert_eq!(humanize_metric_name(""), "");
}

#[test]
fn addresses_join_the_present_parts() {
    let city = "Cupertino".to_string();
    let state = "CA".to_string();
    let country = "United States".to_string();
    assert_eq!(
        build_address(Some(&city), Some(&state), Some(&country)),
        "Cupertino, CA, United States"
    );
    assert_eq!(build_address(None, Some(&state), None), "CA");
    assert_eq!(build_address(Some(&city), None, Some(&country)), "Cupertino, United States");
    assert_eq!(build_address(None, None, None), "");
}

#[test]
fn words_are_wrapped_greedily() {
    assert_eq!(split_whitespace("  one two\tthree\n"), vec!["one", "two", "three"]);
    assert_eq!(
        textwrap("the quick brown fox jumps", 10),
        vec!["the quick", "brown fox", "jumps"]
    );
    assert_eq!(textwrap("extraordinarily long", 5), vec!["extraordinarily", "long"]);
    assert!(textwrap("   ", 10).is_empty());
}

#[test]
fn printed_descriptions_wrap_at_the_terminal_width() {
    assert_eq!(wrapped_lines("aa bb cc", 8), vec!["aa", "bb", "cc"]);
    assert_eq!(wrapped_lines("aa bb cc", 9), vec!["aa bb", "cc"]);
    assert_eq!(wrapped_lines("aa bb cc", 12), vec!["aa bb cc"]);
    assert_eq!(wrapped_lines("toolongword x", 8), vec!["", "toolongword", "x"]);
}

#[test]
fn numbers_are_grouped_by_thousands() {
    assert_eq!(i64_text(0), "0");
    assert_eq!(i64_text(-42), "-42");
    assert_eq!(i64_text(i64::MIN), "-9223372036854775808");
    assert_eq!(format_number(1234567), "1,234,567");
    assert_eq!(format_number(999), "999");
    assert_eq!(format_number(1000), "1,000");
    assert_eq!(format_number(-1234), "-1,234");
    assert_eq!(format_number(-123), "-123");
    assert_eq!(format_number(-123456), "-123,456");
    assert_eq!(format_number(i64::MIN), "-9,223,372,036,854,775,808");
}

#[test]
fn wrapping_keeps_the_words_and_is_greedy() {
    let text = "  The quick\tbrown fox   jumps over\nthe lazy dog  ";
    let lines = textwrap(text, 12);
    assert_eq!(lines, vec!["The quick", "brown fox", "jumps over", "the lazy dog"]);
    let words: Vec<&str> = text.split_whitespace().collect();
    assert_eq!(lines.join(" "), words.join(" "));
    for pair in lines.windows(2) {
        let next_first = pair[1].split(' ').next().unwrap();
        assert!(pair[0].len() + 1 + next_first.len() > 12);
    }
    assert!(lines.iter().all(|l| !l.is_empty() && l.trim() == l));
}
