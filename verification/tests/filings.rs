use finance_query_cli::commands::filings::select_filings;
use finance_query_cli::commands::list_view::{ListAction, ListView};
use finance_query_cli::keys::{KeyCode, KeyEvent, KeyModifiers};

fn key(code: KeyCode) -> KeyEvent {
    KeyEvent { code, modifiers: KeyModifiers { control: false, shift: false } }
}

#[test]
fn filings_are_filtered_by_type_and_cut_to_the_limit() {
    let items: Vec<(Option<String>, u32)> = vec![
        (Some("10-K".to_string()), 1),
        (Some("8-K".to_string()), 2),
        (None, 3),
        (Some("10-k/a".to_string()), 4),
        (Some("10-Q".to_string()), 5),
    ];
    let kept = select_filings(items.clone(), Some("10-k"), 10);
    assert_eq!(kept.iter().map(|f| f.1).collect::<Vec<_>>(), vec![1, 4]);
    let first = select_filings(items.clone(), None, 2);
    assert_eq!(first.iter().map(|f| f.1).collect::<Vec<_>>(), vec![1, 2]);
    let one = select_filings(items, Some("k"), 1);
    assert_eq!(one.iter().map(|f| f.1).collect::<Vec<_>>(), vec![1]);
}

#[test]
fn selection_moves_within_the_list() {
    let mut b = ListView::new(3);
    assert_eq!(b.handle_key(key(KeyCode::Up)), ListAction::Continue);
    assert_eq!(b.selected, 0);
    b.handle_key(key(KeyCode::Down));
    b.handle_key(key(KeyCode::Char('j')));
    b.handle_key(key(KeyCode::Down));
    assert_eq!(b.selected, 2);
    assert_eq!(b.handle_key(key(KeyCode::Enter)), ListAction::Open(2));
    b.handle_key(key(KeyCode::Char('k')));
    assert_eq!(b.selected, 1);
    assert_eq!(b.handle_key(key(KeyCode::Char('q'))), ListAction::Quit);
    assert_eq!(b.handle_key(key(KeyCode::Esc)), ListAction::Quit);
    let ctrl_c =
        KeyEvent { code: KeyCode::Char('c'), modifiers: KeyModifiers { control: true, shift: false } };
    assert_eq!(b.handle_key(ctrl_c), ListAction::Quit);
    assert_eq!(b.handle_key(key(KeyCode::Char('c'))), ListAction::Continue);
}

#[test]
fn the_selected_item_stays_in_view() {
    // A list area 11 rows high holds three items of three rows.
    let mut b = ListView::new(10);
    assert_eq!(b.scroll_to_selected(11), 3);
    assert_eq!(b.scroll, 0);
    for _ in 0..5 {
        b.handle_key(key(KeyCode::Down));
    }
    b.scroll_to_selected(11);
    assert_eq!(b.scroll, 3);
    b.handle_key(key(KeyCode::Up));
    b.handle_key(key(KeyCode::Up));
    b.handle_key(key(KeyCode::Up));
    b.scroll_to_selected(11);
    assert_eq!((b.selected, b.scroll), (2, 2));
}
