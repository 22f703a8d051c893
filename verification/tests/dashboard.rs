use finance_query_cli::commands::params::{Interval, TimeRange};
use finance_query_cli::dashboard::actions::{chart_range, Fetch};
use finance_query_cli::dashboard::input::{Command, KeyCode, KeyEvent, KeyModifiers};
use finance_query_cli::dashboard::state::{
    cycle_backward, cycle_forward, AlertEntry, App, FocusPane, InputMode, ScreenerCategory,
    SectorsViewMode, Tab,
};
use finance_query_cli::commands::params::ScreenerKind;
use finance_query_cli::dashboard::storage::{
    add_symbol_to_watchlist, remove_symbol_from_watchlist, Watchlist,
};

fn key(code: KeyCode) -> KeyEvent {
    KeyEvent { code, modifiers: KeyModifiers { control: false, shift: false } }
}

fn shifted(code: KeyCode) -> KeyEvent {
    KeyEvent { code, modifiers: KeyModifiers { control: false, shift: true } }
}

fn app(symbols: &[&str]) -> App {
    App {
        current_watchlist: Watchlist {
            id: 1,
            name: "Default".to_string(),
            symbols: symbols.iter().map(|s| s.to_string()).collect(),
        },
        selected_index: 0,
        active_tab: Tab::Watchlist,
        focus_pane: FocusPane::Left,
        input_mode: InputMode::Normal,
        input_buffer: String::new(),
        news_count: 0,
        selected_chart_range_idx: 0,
        selected_news_idx: 0,
        search_query: String::new(),
        search_symbols: vec![],
        selected_search_idx: 0,
        screener_category: ScreenerCategory::Gainers,
        screener_symbols: vec![],
        selected_screener_idx: 0,
        alerts: vec![],
        alert_type_count: 6,
        status_message: String::new(),
        should_quit: false,
        portfolio_symbols: vec![],
        selected_portfolio_idx: 0,
        add_form_field: 0,
        add_form_symbol: String::new(),
        add_form_shares: String::new(),
        add_form_cost: String::new(),
        selected_alert_idx: 0,
        alert_form_symbol: String::new(),
        alert_form_type_idx: 0,
        alert_form_threshold: String::new(),
        alert_form_field: 0,
        sector_industry_counts: vec![],
        sectors_selected_idx: 0,
        sectors_selected_industry: 0,
        sectors_view_mode: SectorsViewMode::default_mode(),
        is_loading_sectors: false,
        news_symbol: None,
        detail_scroll: [0, 0, 0],
    }
}

#[test]
fn tabs_cycle_in_both_directions() {
    let mut t = Tab::Watchlist;
    let mut titles = Vec::new();
    for _ in 0..8 {
        titles.push(t.title());
        t = t.next();
    }
    assert_eq!(
        titles,
        vec!["Watchlist", "Charts", "News", "Lookup", "Screeners", "Sectors", "Portfolio", "Alerts"]
    );
    assert_eq!(t, Tab::Watchlist);
    assert_eq!(Tab::Watchlist.prev(), Tab::Alerts);
    assert_eq!(Tab::Sectors.next().prev(), Tab::Sectors);
}

#[test]
fn screener_categories_cycle() {
    assert_eq!(ScreenerCategory::Gainers.prev(), ScreenerCategory::AggressiveSmallCaps);
    assert_eq!(ScreenerCategory::AggressiveSmallCaps.next(), ScreenerCategory::Gainers);
    assert_eq!(ScreenerCategory::MostActive.title(), "Active");
    assert_eq!(ScreenerCategory::GrowthTech.description(), "Tech stocks with 25%+ revenue growth");
}

#[test]
fn cursors_wrap_around() {
    assert_eq!(cycle_forward(2, 3), 0);
    assert_eq!(cycle_forward(0, 3), 1);
    assert_eq!(cycle_backward(0, 3), 2);
    assert_eq!(cycle_backward(2, 3), 1);
}

#[test]
fn selection_moves_with_wrap_around() {
    let mut a = app(&["AAPL", "MSFT", "GOOG"]);
    a.move_selection(-1);
    assert_eq!(a.selected_index, 2);
    a.move_selection(4);
    assert_eq!(a.selected_index, 0);
    assert_eq!(a.selected_symbol().map(|s| s.as_str()), Some("AAPL"));
    let mut empty = app(&[]);
    empty.move_selection(3);
    assert_eq!(empty.selected_index, 0);
    assert!(empty.selected_symbol().is_none());
}

#[test]
fn watchlists_keep_one_upper_case_copy() {
    let mut w = Watchlist { id: 1, name: "W".to_string(), symbols: vec!["AAPL".to_string()] };
    assert!(w.add_symbol("msft"));
    assert!(!w.add_symbol("MSFT"));
    assert_eq!(w.symbols, vec!["AAPL", "MSFT"]);
    assert!(w.contains_symbol(&"MSFT".to_string()));
    w.remove_symbol("aapl");
    assert_eq!(w.symbols, vec!["MSFT"]);
    w.remove_symbol("aapl");
    assert_eq!(w.symbols, vec!["MSFT"]);
}

#[test]
fn quitting_and_tabbing() {
    let mut a = app(&["AAPL"]);
    assert!(matches!(a.handle_key_event(key(KeyCode::Tab)), Command::RefreshDetails));
    assert_eq!(a.active_tab, Tab::Charts);
    assert!(matches!(a.handle_key_event(key(KeyCode::BackTab)), Command::RefreshDetails));
    assert_eq!(a.active_tab, Tab::Watchlist);
    a.handle_key_event(shifted(KeyCode::Tab));
    assert_eq!(a.active_tab, Tab::Alerts);
    a.handle_key_event(key(KeyCode::Char('q')));
    assert!(a.should_quit);
}

#[test]
fn adding_a_symbol_by_typing() {
    let mut a = app(&["AAPL"]);
    a.handle_key_event(key(KeyCode::Char('a')));
    assert_eq!(a.input_mode, InputMode::AddSymbol);
    assert_eq!(a.status_message, "Enter symbol to add:");
    for c in " tsla ".chars() {
        a.handle_key_event(key(KeyCode::Char(c)));
    }
    a.handle_key_event(key(KeyCode::Char('x')));
    a.handle_key_event(key(KeyCode::Backspace));
    match a.handle_key_event(key(KeyCode::Enter)) {
        Command::AddSymbol(s) => assert_eq!(s, "TSLA"),
        _ => panic!("expected a symbol to add"),
    }
    assert_eq!(a.input_mode, InputMode::Normal);
    let mut w = a.current_watchlist.symbols.clone();
    w.push("TSLA".to_string());
    a.report_quote_fetch("TSLA");
    assert_eq!(a.status_message, "Fetching quote for TSLA...");
    a.finish_add_symbol(
        "TSLA",
        Watchlist { id: 1, name: "Default".to_string(), symbols: w },
        Fetch::Failed("timeout".to_string()),
    );
    assert_eq!(a.current_watchlist.symbols, vec!["AAPL", "TSLA"]);
    assert_eq!(a.input_buffer, "");
    assert_eq!(a.status_message, "Added TSLA (quote error: timeout)");
}

#[test]
fn escape_cancels_the_symbol_input() {
    let mut a = app(&[]);
    a.handle_key_event(key(KeyCode::Char('a')));
    a.handle_key_event(key(KeyCode::Char('z')));
    a.handle_key_event(key(KeyCode::Esc));
    assert_eq!(a.input_mode, InputMode::Normal);
    assert_eq!(a.input_buffer, "");
    assert_eq!(a.status_message, "Cancelled");
}

#[test]
fn removing_the_selected_symbol() {
    let mut a = app(&["AAPL", "MSFT"]);
    a.move_selection(1);
    match a.handle_key_event(key(KeyCode::Char('d'))) {
        Command::RemoveSelectedSymbol(s) => assert_eq!(s, "MSFT"),
        _ => panic!("expected a removal"),
    }
    a.finish_symbol_removal(
        "MSFT",
        Watchlist { id: 1, name: "Default".to_string(), symbols: vec!["AAPL".to_string()] },
    );
    assert_eq!(a.selected_index, 0);
    assert_eq!(a.status_message, "Removed MSFT from watchlist");
}

#[test]
fn alerts_are_deleted_and_toggled_by_key() {
    let mut a = app(&["AAPL"]);
    a.active_tab = Tab::Alerts;
    a.alerts = vec![
        AlertEntry { id: 7, symbol: "AAPL".to_string(), enabled: true },
        AlertEntry { id: 9, symbol: "MSFT".to_string(), enabled: false },
    ];
    a.handle_key_event(key(KeyCode::Down));
    assert_eq!(a.selected_alert_idx, 1);
    match a.handle_key_event(key(KeyCode::Char('e'))) {
        Command::SetAlertEnabled { id, enabled } => {
            assert_eq!(id, 9);
            assert!(enabled);
        }
        _ => panic!("expected a toggle"),
    }
    match a.handle_key_event(key(KeyCode::Char('d'))) {
        Command::DeleteAlert { id, symbol } => {
            assert_eq!(id, 9);
            assert_eq!(symbol, "MSFT");
        }
        _ => panic!("expected a deletion"),
    }
    a.handle_key_event(key(KeyCode::Up));
    assert_eq!(a.selected_alert_idx, 0);
}

#[test]
fn refresh_reports_and_sectors_fetch() {
    let mut a = app(&["AAPL"]);
    assert!(matches!(a.handle_key_event(key(KeyCode::Char('r'))), Command::RefreshAndReport));
    a.finish_refresh_report();
    assert_eq!(a.status_message, "Refreshed");
    a.active_tab = Tab::Sectors;
    assert!(matches!(a.handle_key_event(key(KeyCode::Char('r'))), Command::FetchSectorsData));
}

#[test]
fn an_empty_position_symbol_is_refused() {
    let mut a = app(&[]);
    assert!(!a.check_position_symbol());
    assert_eq!(a.status_message, "Error: Symbol cannot be empty");
    a.add_form_symbol = "NVDA".to_string();
    assert!(a.check_position_symbol());
    a.reject_position_numbers();
    assert_eq!(a.status_message, "Error: Invalid shares or cost");
}

#[test]
fn the_status_line_fits_the_width() {
    let mut a = app(&["AAPL", "MSFT"]);
    a.status_message = "Refreshed".to_string();
    assert_eq!(
        a.status_text(200, Some("12:30:00"), "Price Above"),
        " Refreshed | 2 symbols | Last: 12:30:00 | j/k:nav a:add d:del 1/2/3:scroll 0:reset"
    );
    a.active_tab = Tab::Alerts;
    assert_eq!(
        a.status_text(200, None, "Price Above"),
        " Refreshed | 0 alerts | Last: N/A | j/k:nav a:add d:del e:toggle c:check"
    );
    a.status_message = "A much longer status message".to_string();
    assert_eq!(
        a.status_text(72, None, "x"),
        " A much ... | 0 alerts | Last: N/A | j/k:nav a:add d:del e:toggle c:c…"
    );
    a.input_mode = InputMode::AddSymbol;
    a.input_buffer = "NV".to_string();
    assert_eq!(a.status_text(100, None, "x"), " Add symbol: NV | Enter:confirm Esc:cancel");
    assert_eq!(a.status_text(12, None, "x"), " Add symb…");
    a.input_mode = InputMode::AddAlert;
    a.alert_form_field = 1;
    a.alert_form_symbol = "TSLA".to_string();
    assert_eq!(
        a.status_text(200, None, "Price>"),
        " TSLA <Price>> [VAL] | Tab:next ←/→:type Enter:create Esc:cancel"
    );
    a.alert_form_field = 0;
    assert_eq!(
        a.status_text(200, None, "Price>"),
        " [TSLA▌] Price> [VAL] | Tab:next ←/→:type Enter:create Esc:cancel"
    );
}

#[test]
fn the_news_title_shows_the_position() {
    let mut a = app(&["AAPL"]);
    assert_eq!(a.news_panel_title(), "Market News (no articles) [Enter:symbol news l/→:focus]");
    a.news_count = 5;
    a.selected_news_idx = 1;
    a.focus_pane = FocusPane::Right;
    a.news_symbol = Some("AAPL".to_string());
    assert_eq!(
        a.news_panel_title(),
        "AAPL News (2/5) [j/k:scroll Enter:open g:market h:back]"
    );
}

#[test]
fn searches_report_what_they_found() {
    let mut a = app(&["AAPL"]);
    a.search_query = "   ".to_string();
    a.search_symbols = vec!["OLD".to_string()];
    a.selected_search_idx = 0;
    assert_eq!(a.begin_search(), None);
    assert!(a.search_symbols.is_empty());
    a.search_query = "apple".to_string();
    assert_eq!(a.begin_search().as_deref(), Some("apple"));
    assert_eq!(a.status_message, "Searching for 'apple'...");
    a.finish_search(Ok(vec!["AAPL".to_string(), "APLE".to_string()]));
    assert_eq!(a.status_message, "Found 2 results");
    a.selected_search_idx = 1;
    assert_eq!(a.selected_search_symbol().as_deref(), Some("APLE"));
    a.finish_search(Err("offline".to_string()));
    assert_eq!(a.status_message, "Search error: offline");
    assert_eq!(a.selected_search_idx, 0);
    assert_eq!(a.selected_search_symbol(), None);
}

#[test]
fn screeners_news_and_quotes_report_their_outcome() {
    let mut a = app(&["AAPL"]);
    a.screener_category = ScreenerCategory::Losers;
    a.begin_screener_fetch();
    assert_eq!(a.status_message, "Fetching Losers...");
    a.finish_screener_fetch(Ok(vec!["X".to_string(); 25]));
    assert_eq!(a.status_message, "Losers: 25 stocks loaded");
    a.finish_screener_fetch(Err("boom".to_string()));
    assert_eq!(a.status_message, "Error loading Losers: boom");
    a.finish_general_news(Ok(35));
    assert_eq!(a.news_count, 20);
    assert_eq!(a.status_message, "Market news loaded (20 items)");
    a.finish_symbol_news("AAPL", Fetch::Loaded(3));
    assert_eq!(a.news_symbol.as_deref(), Some("AAPL"));
    assert_eq!(a.status_message, "News loaded for AAPL (3 items)");
    a.finish_symbol_news("MSFT", Fetch::TickerFailed("bad symbol".to_string()));
    assert_eq!(a.news_count, 0);
    assert_eq!(a.news_symbol.as_deref(), Some("AAPL"));
    assert_eq!(a.status_message, "Failed to create ticker for MSFT: bad symbol");
    assert!(a.begin_quotes_fetch());
    a.finish_quotes_fetch(Fetch::Loaded(1));
    assert_eq!(a.status_message, "Quotes loaded (1 symbols)");
    assert!(!app(&[]).begin_quotes_fetch());
    assert!(a.begin_sectors_fetch());
    assert!(!a.begin_sectors_fetch());
    a.finish_sectors_fetch(11, vec![5; 11]);
    assert!(!a.is_loading_sectors);
    assert_eq!(a.status_message, "Loaded 11 sectors");
}

#[test]
fn charts_use_the_selected_range() {
    assert_eq!(chart_range(0), ("1D", TimeRange::OneDay, Interval::FiveMinutes));
    assert_eq!(chart_range(7), ("Max", TimeRange::Max, Interval::OneWeek));
    let mut a = app(&["NVDA"]);
    a.selected_chart_range_idx = 4;
    let (symbol, label, range, _) = a.begin_chart_fetch().unwrap();
    assert_eq!(symbol, "NVDA");
    assert_eq!(label, "YTD");
    assert_eq!(range, TimeRange::YearToDate);
    assert_eq!(a.status_message, "Fetching chart for NVDA (YTD)...");
    a.finish_chart_fetch("NVDA", "YTD", Fetch::Loaded(120));
    assert_eq!(a.status_message, "Chart loaded for NVDA (YTD, 120 points)");
    assert!(app(&[]).begin_chart_fetch().is_none());
}

#[test]
fn watchlists_are_stored_as_json_lists() {
    let w = Watchlist::from_row(3, "Tech".to_string(), "[\"AAPL\",\"MSFT\"]");
    assert_eq!(w.id, 3);
    assert_eq!(w.symbols, vec!["AAPL", "MSFT"]);
    assert_eq!(w.symbols_json(), "[\"AAPL\",\"MSFT\"]");
    let broken = Watchlist::from_row(4, "Broken".to_string(), "not json");
    assert!(broken.symbols.is_empty());
    assert_eq!(broken.symbols_json(), "[]");
    let again = Watchlist::from_row(5, "Q".to_string(), &w.symbols_json());
    assert_eq!(again.symbols, w.symbols);
    let odd = Watchlist::from_row(6, "Odd".to_string(), r#"["A\"B", "C\\D", "é\n"]"#);
    assert_eq!(odd.symbols, vec!["A\"B", "C\\D", "é\n"]);
    let back = Watchlist::from_row(7, "Odd".to_string(), &odd.symbols_json());
    assert_eq!(back.symbols, odd.symbols);
}

#[test]
fn categories_fetch_their_screener() {
    assert_eq!(ScreenerCategory::Gainers.screener_type(), ScreenerKind::DayGainers);
    assert_eq!(ScreenerCategory::MostShorted.screener_type(), ScreenerKind::MostShortedStocks);
    assert_eq!(
        ScreenerCategory::UndervaluedLargeCap.screener_type(),
        ScreenerKind::UndervaluedLargeCaps
    );
    assert_eq!(
        ScreenerCategory::AggressiveSmallCaps.screener_type(),
        ScreenerKind::AggressiveSmallCaps
    );
}

fn stored(symbols: &[&str]) -> Watchlist {
    Watchlist {
        id: 7,
        name: "Main".to_string(),
        symbols: symbols.iter().map(|s| s.to_string()).collect(),
    }
}

#[test]
fn adding_to_a_stored_watchlist() {
    let w = add_symbol_to_watchlist(Some(stored(&["AAPL"])), "msft").unwrap().unwrap();
    assert_eq!(w.symbols, vec!["AAPL", "MSFT"]);
    assert_eq!((w.id, w.name.as_str()), (7, "Main"));
    assert!(add_symbol_to_watchlist(Some(stored(&["AAPL"])), "aapl").unwrap().is_none());
    let err = add_symbol_to_watchlist(None, "AAPL").err().unwrap();
    assert_eq!(err.message(), "Watchlist not found");
}

#[test]
fn removing_from_a_stored_watchlist() {
    let w = remove_symbol_from_watchlist(Some(stored(&["AAPL", "MSFT", "aapl"])), "Aapl").unwrap();
    assert_eq!(w.symbols, vec!["MSFT"]);
    let same = remove_symbol_from_watchlist(Some(stored(&["MSFT"])), "TSLA").unwrap();
    assert_eq!(same.symbols, vec!["MSFT"]);
    let err = remove_symbol_from_watchlist(None, "AAPL").err().unwrap();
    assert_eq!(err.message(), "Watchlist not found");
}
