use finance_query_cli::commands::edgar::{form_codes, EdgarArgs, EdgarStart, FormType};
use finance_query_cli::edgar::state::{
    next_filter, App, EdgarAction, Filing, InputMode, KeyCode, KeyEvent, KeyModifiers, SearchHit,
};

fn key(code: KeyCode) -> KeyEvent {
    KeyEvent { code, modifiers: KeyModifiers { control: false, shift: false } }
}

fn ctrl(code: KeyCode) -> KeyEvent {
    KeyEvent { code, modifiers: KeyModifiers { control: true, shift: false } }
}

fn filing(accession: &str, form: &str, doc: &str) -> Filing {
    Filing {
        accession_number: accession.to_string(),
        filing_date: "2024-01-02".to_string(),
        report_date: String::new(),
        acceptance_date_time: String::new(),
        form: form.to_string(),
        size: 10,
        is_xbrl: true,
        is_inline_xbrl: false,
        primary_document: doc.to_string(),
        primary_doc_description: String::new(),
    }
}

fn filings() -> Vec<Filing> {
    vec![
        filing("0000320193-24-000001", "10-K", "a.htm"),
        filing("0000320193-24-000002", "10-Q", "b.htm"),
        filing("0000320193-24-000003", "8-K", ""),
        filing("0000320193-24-000004", "10-K/A", "d.htm"),
    ]
}

#[test]
fn cursor_moves_and_stops_at_the_ends() {
    let mut app = App::new_symbol("AAPL".to_string(), Some("Apple Inc.".to_string()), Some("0000320193".to_string()), filings());
    app.prev_filing();
    assert_eq!(app.selected_index, 0);
    app.next_filing();
    app.next_filing();
    app.next_filing();
    app.next_filing();
    assert_eq!(app.selected_index, 3);
    app.page_up(10);
    assert_eq!(app.selected_index, 0);
    app.page_down(2);
    assert_eq!(app.selected_index, 2);
    app.page_down(10);
    assert_eq!(app.selected_index, 3);
    app.jump_to_top();
    assert_eq!(app.selected_index, 0);
    app.jump_to_bottom();
    assert_eq!(app.selected_index, 3);
}

#[test]
fn the_filter_matches_forms_ignoring_case_and_resets() {
    let mut app = App::new_symbol("AAPL".to_string(), Some("Apple Inc.".to_string()), Some("0000320193".to_string()), filings());
    app.next_filing();
    app.apply_filter(Some("10-k".to_string()));
    let forms: Vec<&str> = app.filings.iter().map(|f| f.form.as_str()).collect();
    assert_eq!(forms, vec!["10-K", "10-K/A"]);
    assert_eq!(app.selected_index, 0);
    app.apply_filter(Some("8-K".to_string()));
    assert_eq!(app.filings.len(), 1);
    app.apply_filter(None);
    assert_eq!(app.filings.len(), 4);
}

#[test]
fn the_f_key_cycles_through_the_form_types() {
    let mut current: Option<String> = None;
    let mut seen = Vec::new();
    for _ in 0..11 {
        current = next_filter(&current);
        seen.push(current.clone().unwrap_or_else(|| "all".to_string()));
    }
    assert_eq!(
        seen,
        vec!["10-K", "10-Q", "8-K", "4", "S-1", "DEF 14A", "10-K/A", "10-Q/A", "S-3", "20-F", "all"]
    );
    assert_eq!(next_filter(&Some("XYZ".to_string())), None);
    let codes = form_codes(&vec![FormType::TenK, FormType::Def14A, FormType::TwentyF]);
    assert_eq!(codes, vec!["10-K", "DEF 14A", "20-F"]);
}

#[test]
fn opening_a_filing_gives_its_edgar_url() {
    let mut app = App::new_symbol("AAPL".to_string(), Some("Apple Inc.".to_string()), Some("0000320193".to_string()), filings());
    assert_eq!(
        app.open_selected_filing().unwrap(),
        "https://www.sec.gov/Archives/edgar/data/320193/000032019324000001/a.htm"
    );
    app.next_filing();
    app.next_filing();
    assert_eq!(
        app.open_selected_filing().unwrap(),
        "https://www.sec.gov/cgi-bin/viewer?action=view&cik=320193&accession_number=000032019324000003&xbrl_type=v"
    );
    let empty = App::new_empty();
    assert_eq!(empty.open_selected_filing(), None);
}

#[test]
fn typing_a_search_and_pressing_enter_asks_for_it() {
    let mut app = App::new_empty();
    assert_eq!(app.input_mode, InputMode::SearchInput);
    assert!(matches!(app.handle_key(key(KeyCode::Enter)), EdgarAction::Continue));
    for c in "revenuex".chars() {
        app.handle_key(key(KeyCode::Char(c)));
    }
    app.handle_key(key(KeyCode::Backspace));
    match app.handle_key(key(KeyCode::Enter)) {
        EdgarAction::RunSearch(q) => assert_eq!(q, "revenue"),
        _ => panic!("expected a search"),
    }
    let hits = vec![
        SearchHit {
            adsh: Some("0001-24-1".to_string()),
            file_date: Some("2024-02-01".to_string()),
            period_ending: None,
            form: Some("10-K".to_string()),
            display_name: Some("Apple Inc.".to_string()),
        },
        SearchHit { adsh: None, file_date: None, period_ending: None, form: None, display_name: None },
    ];
    app.finish_search(Some(250), hits);
    assert_eq!(app.input_mode, InputMode::Normal);
    assert_eq!(app.search_input, "");
    assert_eq!(app.filings.len(), 2);
    assert_eq!(app.filings[0].primary_doc_description, "Apple Inc.");
    assert_eq!(app.filings[1].accession_number, "");
    match app.handle_key(key(KeyCode::Char('n'))) {
        EdgarAction::LoadPage { query, offset, next } => {
            assert_eq!(query, "revenue");
            assert_eq!(offset, 100);
            assert!(next);
        }
        _ => panic!("expected the next page"),
    }
    assert!(matches!(app.handle_key(key(KeyCode::Left)), EdgarAction::Continue));
}

#[test]
fn pages_stop_at_the_first_and_last() {
    let mut app = App::new_search("q".to_string(), Some(150), vec![]);
    app.finish_load_page("q".to_string(), 100, Some(150), vec![]);
    assert!(app.load_next_page().is_none());
    assert_eq!(app.load_prev_page(), Some(("q".to_string(), 0)));
    let mut sym = App::new_symbol("AAPL".to_string(), Some("Apple Inc.".to_string()), Some("0000320193".to_string()), filings());
    assert!(sym.load_next_page().is_none());
    assert!(sym.load_prev_page().is_none());
}

#[test]
fn symbol_input_is_upper_cased_and_errors_are_dismissed() {
    let mut app = App::new_symbol("AAPL".to_string(), Some("Apple Inc.".to_string()), Some("0000320193".to_string()), filings());
    app.handle_key(key(KeyCode::Char('s')));
    assert_eq!(app.input_mode, InputMode::SymbolInput);
    for c in "msft".chars() {
        app.handle_key(key(KeyCode::Char(c)));
    }
    assert_eq!(app.symbol_input, "MSFT");
    match app.handle_key(key(KeyCode::Enter)) {
        EdgarAction::LookupSymbol(s) => assert_eq!(s, "MSFT"),
        _ => panic!("expected a lookup"),
    }
    app.fail_symbol_lookup("not found");
    assert_eq!(app.error_message.as_deref(), Some("Symbol lookup failed: not found"));
    assert_eq!(app.input_mode, InputMode::Normal);
    assert!(matches!(app.handle_key(key(KeyCode::Char('q'))), EdgarAction::Continue));
    assert!(app.error_message.is_none());
    assert!(matches!(app.handle_key(key(KeyCode::Char('q'))), EdgarAction::Quit));
    assert!(matches!(app.handle_key(ctrl(KeyCode::Char('c'))), EdgarAction::Quit));
}

#[test]
fn page_keys_need_control() {
    let mut app = App::new_symbol("AAPL".to_string(), Some("Apple Inc.".to_string()), Some("0000320193".to_string()), filings());
    app.handle_key(key(KeyCode::PageDown));
    assert_eq!(app.selected_index, 0);
    app.handle_key(ctrl(KeyCode::Char('d')));
    assert_eq!(app.selected_index, 3);
    app.handle_key(ctrl(KeyCode::PageUp));
    assert_eq!(app.selected_index, 0);
    app.handle_key(key(KeyCode::Char('f')));
    assert_eq!(app.filter_form.as_deref(), Some("10-K"));
    assert_eq!(app.filings.len(), 2);
    app.handle_key(key(KeyCode::Char('r')));
    assert_eq!(app.filings.len(), 4);
    assert!(matches!(app.handle_key(key(KeyCode::Char('o'))), EdgarAction::OpenSelectedFiling));
}

#[test]
fn the_edgar_command_starts_by_its_arguments() {
    let args = |symbol: Option<&str>, search: Option<&str>| EdgarArgs {
        symbol: symbol.map(|s| s.to_string()),
        search: search.map(|s| s.to_string()),
        form_type: Some(vec![FormType::TenQ]),
        start_date: None,
        end_date: None,
        email: None,
    };
    assert!(matches!(args(Some("AAPL"), None).start(), Ok(EdgarStart::Symbol(s)) if s == "AAPL"));
    match args(None, Some("climate")).start() {
        Ok(EdgarStart::Search { query, forms }) => {
            assert_eq!(query, "climate");
            assert_eq!(forms, Some(vec!["10-Q"]));
        }
        _ => panic!("expected a search"),
    }
    assert!(matches!(args(None, None).start(), Ok(EdgarStart::Empty)));
    assert_eq!(
        args(Some("A"), Some("b")).start().err().unwrap().message(),
        "Invalid argument: Cannot specify both symbol and search"
    );
}

#[test]
fn the_header_describes_the_company_or_the_search() {
    let mut app = App::new_symbol("aapl".to_string(), None, Some("320193".to_string()), filings());
    assert_eq!(app.title_line(), "SEC EDGAR Filings: AAPL");
    assert_eq!(app.filter_label(), "");
    app.next_filing();
    assert_eq!(
        app.detail_lines(),
        vec!["Unknown Company (CIK: 320193)", "Showing filing 2 of 4"]
    );
    app.apply_filter(Some("10-Q".to_string()));
    assert_eq!(app.filter_label(), " [Filter: 10-Q]");
    assert_eq!(app.footer_hints().len(), 6);

    let mut search = App::new_search("climate risk".to_string(), Some(250), vec![]);
    search.finish_load_page("climate risk".to_string(), 200, Some(250), vec![]);
    assert_eq!(search.title_line(), "SEC EDGAR Search: \"climate risk\"");
    assert_eq!(
        search.detail_lines(),
        vec!["Page 3 of 3 (0 results, 250 total matches)", "Viewing filing 1 of 0 on this page"]
    );
    assert_eq!(search.footer_hints().len(), 7);
    let empty = App::new_empty();
    assert_eq!(empty.title_line(), "SEC EDGAR Filing Browser");
    assert_eq!(empty.detail_lines().len(), 2);
}

#[test]
fn the_list_scrolls_to_keep_the_cursor_visible() {
    let mut many = Vec::new();
    for i in 0..20 {
        many.push(filing(&format!("0000000001-24-{i:06}"), "8-K", ""));
    }
    let mut app = App::new_symbol("X".to_string(), None, None, many);
    assert_eq!(app.adjust_scroll(14), 3);
    assert_eq!(app.scroll_offset, 0);
    app.page_down(5);
    app.adjust_scroll(14);
    assert_eq!(app.scroll_offset, 3);
    app.page_up(4);
    app.adjust_scroll(14);
    assert_eq!(app.scroll_offset, 1);
}
