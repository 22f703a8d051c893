//! Key handling for the dashboard: from the current state and a key press to
//! the next state and the command that the caller must carry out (fetching,
//! storing, opening a link). Commands that depend on the outcome of the
//! caller's work are finished by the `finish_*` methods.
use vstd::prelude::*;

use super::state::{
    alerts_view, category_index, cycle_backward, cycle_forward, move_selection_spec, tab_index,
    toggle_sectors_view_spec, AlertEntry, App, AppView,
    FocusPane, InputMode, ScreenerCategory, SectorsViewMode, Tab, NUM_CHART_RANGES,
};
use super::storage::Watchlist;
pub use crate::keys::{KeyCode, KeyEvent, KeyModifiers};
use crate::text::{
    ascii_upper, is_ascii_digit, pop_char, push_char, push_str, str_to_uppercase, string_of, to_ascii_uppercase, trim, trim_seq, unicode_uppercase,
};

verus! {

/// Work that the caller performs after a key press.
pub enum Command {
    /// Nothing to do.
    Nothing,
    /// Refresh the details of the selected symbol.
    RefreshDetails,
    /// Refresh the chart for the selected chart range.
    RefreshDetailsWithRange,
    /// Refresh the details, then call `finish_refresh_report`.
    RefreshAndReport,
    FetchGeneralNews,
    FetchSymbolNews(String),
    FetchScreeners,
    FetchSectorsData,
    /// Open the link of the news item at this index.
    OpenNewsLink(usize),
    PerformSearch,
    AddSelectedSearchResult,
    AddScreenerToWatchlist,
    /// Add this (trimmed, upper-cased) symbol to the current watchlist.
    AddSymbol(String),
    /// Remove this symbol from the current watchlist, then call `finish_symbol_removal`.
    RemoveSelectedSymbol(String),
    /// Delete this alert; on success call `finish_alert_delete`.
    DeleteAlert { id: i64, symbol: String },
    /// Set this alert's enabled flag; on success call `finish_alert_toggle`.
    SetAlertEnabled { id: i64, enabled: bool },
    /// Validate the threshold text and create the alert.
    CreateAlert { symbol: String, type_idx: usize, threshold: String },
    /// Remove the position with this symbol, save, then call `finish_position_delete`.
    DeletePortfolioPosition(String),
    /// Parse the add-position form and add the position.
    AddPortfolioPosition,
}

pub enum CommandView {
    Nothing,
    RefreshDetails,
    RefreshDetailsWithRange,
    RefreshAndReport,
    FetchGeneralNews,
    FetchSymbolNews(Seq<char>),
    FetchScreeners,
    FetchSectorsData,
    OpenNewsLink(usize),
    PerformSearch,
    AddSelectedSearchResult,
    AddScreenerToWatchlist,
    AddSymbol(Seq<char>),
    RemoveSelectedSymbol(Seq<char>),
    DeleteAlert { id: i64, symbol: Seq<char> },
    SetAlertEnabled { id: i64, enabled: bool },
    CreateAlert { symbol: Seq<char>, type_idx: usize, threshold: Seq<char> },
    DeletePortfolioPosition(Seq<char>),
    AddPortfolioPosition,
}

impl View for Command {
    type V = CommandView;

    open spec fn view(&self) -> CommandView {
        match self {
            Command::Nothing => CommandView::Nothing,
            Command::RefreshDetails => CommandView::RefreshDetails,
            Command::RefreshDetailsWithRange => CommandView::RefreshDetailsWithRange,
            Command::RefreshAndReport => CommandView::RefreshAndReport,
            Command::FetchGeneralNews => CommandView::FetchGeneralNews,
            Command::FetchSymbolNews(s) => CommandView::FetchSymbolNews(s@),
            Command::FetchScreeners => CommandView::FetchScreeners,
            Command::FetchSectorsData => CommandView::FetchSectorsData,
            Command::OpenNewsLink(i) => CommandView::OpenNewsLink(*i),
            Command::PerformSearch => CommandView::PerformSearch,
            Command::AddSelectedSearchResult => CommandView::AddSelectedSearchResult,
            Command::AddScreenerToWatchlist => CommandView::AddScreenerToWatchlist,
            Command::AddSymbol(s) => CommandView::AddSymbol(s@),
            Command::RemoveSelectedSymbol(s) => CommandView::RemoveSelectedSymbol(s@),
            Command::DeleteAlert { id, symbol } => CommandView::DeleteAlert {
                id: *id,
                symbol: symbol@,
            },
            Command::SetAlertEnabled { id, enabled } => CommandView::SetAlertEnabled {
                id: *id,
                enabled: *enabled,
            },
            Command::CreateAlert { symbol, type_idx, threshold } => CommandView::CreateAlert {
                symbol: symbol@,
                type_idx: *type_idx,
                threshold: threshold@,
            },
            Command::DeletePortfolioPosition(s) => CommandView::DeletePortfolioPosition(s@),
            Command::AddPortfolioPosition => CommandView::AddPortfolioPosition,
        }
    }
}

// ── Specification of the key handling ────────────────────────────────────────

pub open spec fn tab_of_index(i: int) -> Tab {
    if i == 0 {
        Tab::Watchlist
    } else if i == 1 {
        Tab::Charts
    } else if i == 2 {
        Tab::News
    } else if i == 3 {
        Tab::Lookup
    } else if i == 4 {
        Tab::Screeners
    } else if i == 5 {
        Tab::Sectors
    } else if i == 6 {
        Tab::Portfolio
    } else {
        Tab::Alerts
    }
}

pub open spec fn next_tab(t: Tab) -> Tab {
    tab_of_index((tab_index(t) + 1) % 8)
}

pub open spec fn prev_tab(t: Tab) -> Tab {
    tab_of_index((tab_index(t) + 7) % 8)
}

pub open spec fn category_of_index(i: int) -> ScreenerCategory {
    if i == 0 {
        ScreenerCategory::Gainers
    } else if i == 1 {
        ScreenerCategory::Losers
    } else if i == 2 {
        ScreenerCategory::MostActive
    } else if i == 3 {
        ScreenerCategory::MostShorted
    } else if i == 4 {
        ScreenerCategory::SmallCapGainers
    } else if i == 5 {
        ScreenerCategory::GrowthTech
    } else if i == 6 {
        ScreenerCategory::UndervaluedGrowth
    } else if i == 7 {
        ScreenerCategory::UndervaluedLargeCap
    } else {
        ScreenerCategory::AggressiveSmallCaps
    }
}

pub open spec fn fwd(i: usize, len: nat) -> usize {
    ((i + 1) % (len as int)) as usize
}

pub open spec fn back(i: usize, len: nat) -> usize {
    ((i + len - 1) % (len as int)) as usize
}

/// What happens on arriving at a tab: load what the tab shows if it is empty,
/// otherwise refresh the details.
pub open spec fn tab_entry_spec(s: AppView) -> (AppView, CommandView) {
    if s.active_tab == Tab::Screeners && s.screener_symbols.len() == 0 {
        (s, CommandView::FetchScreeners)
    } else if s.active_tab == Tab::Sectors && s.sector_industry_counts.len() == 0 {
        (AppView { is_loading_sectors: true, ..s }, CommandView::Nothing)
    } else if s.active_tab == Tab::News && s.news_count == 0 {
        (s, CommandView::FetchGeneralNews)
    } else {
        (s, CommandView::RefreshDetails)
    }
}

pub open spec fn esc_spec(s: AppView) -> (AppView, CommandView) {
    if s.active_tab == Tab::Sectors && s.sectors_view_mode == SectorsViewMode::Industries {
        (
            AppView {
                sectors_view_mode: SectorsViewMode::Overview,
                sectors_selected_industry: 0,
                ..s
            },
            CommandView::Nothing,
        )
    } else if s.focus_pane == FocusPane::Right {
        let t = AppView { focus_pane: FocusPane::Left, ..s };
        if s.active_tab == Tab::News && s.news_symbol is Some {
            (t, CommandView::FetchGeneralNews)
        } else {
            (t, CommandView::Nothing)
        }
    } else {
        (s, CommandView::Nothing)
    }
}

pub open spec fn focus_right_spec(s: AppView) -> (AppView, CommandView) {
    if s.active_tab == Tab::Charts || s.active_tab == Tab::News || s.active_tab == Tab::Lookup
        || s.active_tab == Tab::Screeners {
        let t = AppView { focus_pane: FocusPane::Right, ..s };
        if s.active_tab == Tab::Screeners && s.screener_symbols.len() == 0 {
            (t, CommandView::FetchScreeners)
        } else {
            (t, CommandView::Nothing)
        }
    } else {
        (s, CommandView::Nothing)
    }
}

/// Moving down (`forward`) or up in whatever list the tab and pane point at.
pub open spec fn nav_spec(s: AppView, forward: bool) -> (AppView, CommandView) {
    if s.active_tab == Tab::Sectors {
        match s.sectors_view_mode {
            SectorsViewMode::Overview => {
                let len = s.sector_industry_counts.len();
                if len > 0 {
                    (
                        AppView {
                            sectors_selected_idx: if forward {
                                fwd(s.sectors_selected_idx, len)
                            } else {
                                back(s.sectors_selected_idx, len)
                            },
                            ..s
                        },
                        CommandView::Nothing,
                    )
                } else {
                    (s, CommandView::Nothing)
                }
            },
            SectorsViewMode::Industries => {
                if s.sectors_selected_idx < s.sector_industry_counts.len() {
                    let len = s.sector_industry_counts[s.sectors_selected_idx as int] as nat;
                    if len > 0 {
                        (
                            AppView {
                                sectors_selected_industry: if forward {
                                    fwd(s.sectors_selected_industry, len)
                                } else {
                                    back(s.sectors_selected_industry, len)
                                },
                                ..s
                            },
                            CommandView::Nothing,
                        )
                    } else {
                        (s, CommandView::Nothing)
                    }
                } else {
                    (s, CommandView::Nothing)
                }
            },
        }
    } else if s.active_tab == Tab::Alerts {
        let len = s.alerts.len();
        if len > 0 {
            (
                AppView {
                    selected_alert_idx: if forward {
                        fwd(s.selected_alert_idx, len)
                    } else {
                        back(s.selected_alert_idx, len)
                    },
                    ..s
                },
                CommandView::Nothing,
            )
        } else {
            (s, CommandView::Nothing)
        }
    } else if s.focus_pane == FocusPane::Left {
        if s.active_tab == Tab::Portfolio {
            let len = s.portfolio_symbols.len();
            if len > 0 {
                (
                    AppView {
                        selected_portfolio_idx: if forward {
                            fwd(s.selected_portfolio_idx, len)
                        } else {
                            back(s.selected_portfolio_idx, len)
                        },
                        ..s
                    },
                    CommandView::Nothing,
                )
            } else {
                (s, CommandView::Nothing)
            }
        } else {
            (move_selection_spec(s, if forward { 1 } else { -1 }), CommandView::RefreshDetails)
        }
    } else if s.active_tab == Tab::News {
        let len = s.news_count as nat;
        if len > 0 {
            (
                AppView {
                    selected_news_idx: if forward {
                        fwd(s.selected_news_idx, len)
                    } else {
                        back(s.selected_news_idx, len)
                    },
                    ..s
                },
                CommandView::Nothing,
            )
        } else {
            (s, CommandView::Nothing)
        }
    } else if s.active_tab == Tab::Lookup {
        let len = s.search_symbols.len();
        if len > 0 {
            (
                AppView {
                    selected_search_idx: if forward {
                        fwd(s.selected_search_idx, len)
                    } else {
                        back(s.selected_search_idx, len)
                    },
                    ..s
                },
                CommandView::Nothing,
            )
        } else {
            (s, CommandView::Nothing)
        }
    } else if s.active_tab == Tab::Screeners {
        let len = s.screener_symbols.len();
        if len > 0 {
            (
                AppView {
                    selected_screener_idx: if forward {
                        fwd(s.selected_screener_idx, len)
                    } else {
                        back(s.selected_screener_idx, len)
                    },
                    ..s
                },
                CommandView::Nothing,
            )
        } else {
            (s, CommandView::Nothing)
        }
    } else {
        (s, CommandView::Nothing)
    }
}

/// Characters that are shortcuts and so are not typed into the Lookup query.
pub open spec fn is_lookup_reserved(c: char) -> bool {
    c == 'q' || c == 'Q' || c == 'a' || c == 'd' || c == 'r' || c == 'h' || c == 'l' || c == 'g'
        || c == 'G' || c == 'j' || c == 'k'
}

pub open spec fn pop_seq(s: Seq<char>) -> Seq<char> {
    if s.len() > 0 {
        s.drop_last()
    } else {
        s
    }
}

pub open spec fn add_key_spec(s: AppView) -> AppView {
    if s.active_tab == Tab::Portfolio {
        AppView {
            input_mode: InputMode::AddPosition,
            add_form_symbol: Seq::empty(),
            add_form_shares: Seq::empty(),
            add_form_cost: Seq::empty(),
            add_form_field: 0,
            status_message: "Add Position: Tab to switch fields, Enter to confirm"@,
            ..s
        }
    } else if s.active_tab == Tab::Alerts {
        AppView {
            alert_form_symbol: Seq::empty(),
            alert_form_type_idx: 0,
            alert_form_threshold: Seq::empty(),
            alert_form_field: 0,
            input_mode: InputMode::AddAlert,
            status_message: "Create Alert: Tab to switch fields, ←/→ to change type"@,
            ..s
        }
    } else {
        AppView {
            input_mode: InputMode::AddSymbol,
            input_buffer: Seq::empty(),
            status_message: "Enter symbol to add:"@,
            ..s
        }
    }
}

/// The symbol that pre-fills the alert form, taken from the current tab.
pub open spec fn alert_prefill_symbol(s: AppView) -> Option<Seq<char>> {
    if s.active_tab == Tab::Watchlist {
        s.selected_symbol()
    } else if s.active_tab == Tab::Lookup && s.search_symbols.len() > 0 {
        Some(s.search_symbols[s.selected_search_idx as int])
    } else if s.active_tab == Tab::Screeners && s.screener_symbols.len() > 0 {
        Some(s.screener_symbols[s.selected_screener_idx as int])
    } else if s.active_tab == Tab::Portfolio && s.portfolio_symbols.len() > 0 {
        Some(s.portfolio_symbols[s.selected_portfolio_idx as int])
    } else {
        None
    }
}

pub open spec fn alert_prefill_spec(s: AppView) -> AppView {
    let sym = match alert_prefill_symbol(s) {
        Some(x) => x,
        None => Seq::empty(),
    };
    AppView {
        alert_form_symbol: sym,
        alert_form_type_idx: 0,
        alert_form_threshold: Seq::empty(),
        alert_form_field: if sym.len() == 0 {
            0
        } else {
            1
        },
        input_mode: InputMode::AddAlert,
        status_message: "Create Alert: Tab to switch, ←/→ to change type"@,
        ..s
    }
}

pub open spec fn delete_key_spec(s: AppView) -> (AppView, CommandView) {
    if s.active_tab == Tab::Portfolio {
        if s.portfolio_symbols.len() > 0 && s.selected_portfolio_idx < s.portfolio_symbols.len() {
            (
                s,
                CommandView::DeletePortfolioPosition(
                    s.portfolio_symbols[s.selected_portfolio_idx as int],
                ),
            )
        } else {
            (s, CommandView::Nothing)
        }
    } else if s.active_tab == Tab::Watchlist {
        match s.selected_symbol() {
            Some(sym) => (s, CommandView::RemoveSelectedSymbol(sym)),
            None => (s, CommandView::Nothing),
        }
    } else {
        (s, CommandView::Nothing)
    }
}

pub open spec fn normal_key_spec(s: AppView, k: KeyEvent) -> (AppView, CommandView) {
    let c = k.code;
    let ctrl = k.modifiers.control;
    let shift = k.modifiers.shift;
    let left = s.focus_pane == FocusPane::Left;
    let right = s.focus_pane == FocusPane::Right;
    if c == KeyCode::Char('q') || c == KeyCode::Char('Q') {
        (AppView { should_quit: true, ..s }, CommandView::Nothing)
    } else if c == KeyCode::Char('c') && ctrl {
        (AppView { should_quit: true, ..s }, CommandView::Nothing)
    } else if c == KeyCode::Esc {
        esc_spec(s)
    } else if c == KeyCode::Tab && shift {
        tab_entry_spec(AppView { active_tab: prev_tab(s.active_tab), focus_pane: FocusPane::Left, ..s })
    } else if c == KeyCode::Tab {
        tab_entry_spec(AppView { active_tab: next_tab(s.active_tab), focus_pane: FocusPane::Left, ..s })
    } else if c == KeyCode::BackTab {
        tab_entry_spec(AppView { active_tab: prev_tab(s.active_tab), focus_pane: FocusPane::Left, ..s })
    } else if c == KeyCode::Char('h') && right {
        (AppView { focus_pane: FocusPane::Left, ..s }, CommandView::Nothing)
    } else if (c == KeyCode::Char('l') || c == KeyCode::Right) && left {
        focus_right_spec(s)
    } else if c == KeyCode::Char('j') || c == KeyCode::Down {
        nav_spec(s, true)
    } else if c == KeyCode::Char('k') || c == KeyCode::Up {
        nav_spec(s, false)
    } else if c == KeyCode::Char('g') && left {
        (AppView { selected_index: 0, ..s }, CommandView::RefreshDetails)
    } else if c == KeyCode::Char('G') && shift && left {
        let len = s.current_watchlist.symbols.len();
        (
            AppView { selected_index: if len > 0 { (len - 1) as usize } else { 0 }, ..s },
            CommandView::RefreshDetails,
        )
    } else if c == KeyCode::Left && right && s.active_tab == Tab::Charts {
        (
            AppView {
                selected_chart_range_idx: back(s.selected_chart_range_idx, NUM_CHART_RANGES as nat),
                ..s
            },
            CommandView::RefreshDetailsWithRange,
        )
    } else if c == KeyCode::Right && right && s.active_tab == Tab::Charts {
        (
            AppView {
                selected_chart_range_idx: fwd(s.selected_chart_range_idx, NUM_CHART_RANGES as nat),
                ..s
            },
            CommandView::RefreshDetailsWithRange,
        )
    } else if c == KeyCode::Left && right && s.active_tab == Tab::Screeners {
        (
            AppView {
                screener_category: category_of_index(
                    (category_index(s.screener_category) + 8) % 9,
                ),
                ..s
            },
            CommandView::FetchScreeners,
        )
    } else if c == KeyCode::Right && right && s.active_tab == Tab::Screeners {
        (
            AppView {
                screener_category: category_of_index(
                    (category_index(s.screener_category) + 1) % 9,
                ),
                ..s
            },
            CommandView::FetchScreeners,
        )
    } else if c == KeyCode::Enter && right && s.active_tab == Tab::News {
        if s.selected_news_idx < s.news_count {
            (s, CommandView::OpenNewsLink(s.selected_news_idx))
        } else {
            (s, CommandView::Nothing)
        }
    } else if c == KeyCode::Enter && left && s.active_tab == Tab::News {
        match s.selected_symbol() {
            Some(sym) => (
                AppView { focus_pane: FocusPane::Right, ..s },
                CommandView::FetchSymbolNews(sym),
            ),
            None => (s, CommandView::Nothing),
        }
    } else if c == KeyCode::Char('g') && s.active_tab == Tab::News && s.news_symbol is Some {
        (s, CommandView::FetchGeneralNews)
    } else if c == KeyCode::Enter && right && s.active_tab == Tab::Lookup {
        (s, CommandView::AddSelectedSearchResult)
    } else if c == KeyCode::Enter && right && s.active_tab == Tab::Screeners {
        (s, CommandView::AddScreenerToWatchlist)
    } else if c == KeyCode::Enter && s.active_tab == Tab::Sectors {
        (toggle_sectors_view_spec(s), CommandView::Nothing)
    } else if c is Char && s.active_tab == Tab::Lookup && !ctrl {
        let ch = c->0;
        if is_lookup_reserved(ch) {
            (s, CommandView::Nothing)
        } else {
            (
                AppView { search_query: s.search_query.push(ch), focus_pane: FocusPane::Right, ..s },
                CommandView::PerformSearch,
            )
        }
    } else if c == KeyCode::Backspace && s.active_tab == Tab::Lookup {
        (AppView { search_query: pop_seq(s.search_query), ..s }, CommandView::PerformSearch)
    } else if c == KeyCode::Char('a') {
        (add_key_spec(s), CommandView::Nothing)
    } else if c == KeyCode::Char('d') && s.active_tab == Tab::Alerts && s.alerts.len() > 0 {
        if s.selected_alert_idx < s.alerts.len() {
            let a = s.alerts[s.selected_alert_idx as int];
            (s, CommandView::DeleteAlert { id: a.id, symbol: a.symbol })
        } else {
            (s, CommandView::Nothing)
        }
    } else if c == KeyCode::Char('e') && s.active_tab == Tab::Alerts && s.alerts.len() > 0 {
        if s.selected_alert_idx < s.alerts.len() {
            let a = s.alerts[s.selected_alert_idx as int];
            (s, CommandView::SetAlertEnabled { id: a.id, enabled: !a.enabled })
        } else {
            (s, CommandView::Nothing)
        }
    } else if (c == KeyCode::Char('d') || c == KeyCode::Delete) && s.active_tab != Tab::Alerts
        && left {
        delete_key_spec(s)
    } else if c == KeyCode::Char('A') && shift && s.active_tab != Tab::Alerts {
        (alert_prefill_spec(s), CommandView::Nothing)
    } else if c == KeyCode::Char('r') {
        if s.active_tab == Tab::Sectors {
            (s, CommandView::FetchSectorsData)
        } else {
            (s, CommandView::RefreshAndReport)
        }
    } else {
        (s, CommandView::Nothing)
    }
}

pub open spec fn add_symbol_key_spec(s: AppView, k: KeyEvent) -> (AppView, CommandView) {
    let c = k.code;
    if c == KeyCode::Enter {
        let sym = unicode_uppercase(trim_seq(s.input_buffer));
        (
            AppView { input_mode: InputMode::Normal, ..s },
            if sym.len() == 0 {
                CommandView::Nothing
            } else {
                CommandView::AddSymbol(sym)
            },
        )
    } else if c == KeyCode::Esc {
        (
            AppView {
                input_mode: InputMode::Normal,
                input_buffer: Seq::empty(),
                status_message: "Cancelled"@,
                ..s
            },
            CommandView::Nothing,
        )
    } else if c == KeyCode::Backspace {
        (AppView { input_buffer: pop_seq(s.input_buffer), ..s }, CommandView::Nothing)
    } else if c is Char {
        (AppView { input_buffer: s.input_buffer.push(c->0), ..s }, CommandView::Nothing)
    } else {
        (s, CommandView::Nothing)
    }
}

/// Characters accepted in the alert threshold field.
pub open spec fn is_threshold_char(c: char) -> bool {
    is_ascii_digit(c) || c == '.' || c == '-'
}

pub open spec fn reset_alert_form(s: AppView) -> AppView {
    AppView {
        alert_form_symbol: Seq::empty(),
        alert_form_threshold: Seq::empty(),
        alert_form_type_idx: 0,
        alert_form_field: 0,
        ..s
    }
}

pub open spec fn add_alert_key_spec(s: AppView, k: KeyEvent) -> (AppView, CommandView) {
    let c = k.code;
    if c == KeyCode::Tab {
        (AppView { alert_form_field: ((s.alert_form_field + 1) % 3) as usize, ..s }, CommandView::Nothing)
    } else if c == KeyCode::BackTab {
        (AppView { alert_form_field: ((s.alert_form_field + 2) % 3) as usize, ..s }, CommandView::Nothing)
    } else if c == KeyCode::Enter {
        let sym = unicode_uppercase(trim_seq(s.alert_form_symbol));
        if sym.len() == 0 {
            (AppView { status_message: "Symbol required"@, ..s }, CommandView::Nothing)
        } else {
            (
                s,
                CommandView::CreateAlert {
                    symbol: sym,
                    type_idx: s.alert_form_type_idx,
                    threshold: trim_seq(s.alert_form_threshold),
                },
            )
        }
    } else if c == KeyCode::Esc {
        (
            reset_alert_form(
                AppView { input_mode: InputMode::Normal, status_message: "Cancelled"@, ..s },
            ),
            CommandView::Nothing,
        )
    } else if c == KeyCode::Left && s.alert_form_field == 1 {
        (
            AppView {
                alert_form_type_idx: back(s.alert_form_type_idx, s.alert_type_count as nat),
                ..s
            },
            CommandView::Nothing,
        )
    } else if c == KeyCode::Right && s.alert_form_field == 1 {
        (
            AppView {
                alert_form_type_idx: fwd(s.alert_form_type_idx, s.alert_type_count as nat),
                ..s
            },
            CommandView::Nothing,
        )
    } else if c == KeyCode::Backspace {
        if s.alert_form_field == 0 {
            (AppView { alert_form_symbol: pop_seq(s.alert_form_symbol), ..s }, CommandView::Nothing)
        } else if s.alert_form_field == 2 {
            (
                AppView { alert_form_threshold: pop_seq(s.alert_form_threshold), ..s },
                CommandView::Nothing,
            )
        } else {
            (s, CommandView::Nothing)
        }
    } else if c is Char {
        let ch = c->0;
        if s.alert_form_field == 0 {
            (AppView { alert_form_symbol: s.alert_form_symbol.push(ch), ..s }, CommandView::Nothing)
        } else if s.alert_form_field == 2 && is_threshold_char(ch) {
            (
                AppView { alert_form_threshold: s.alert_form_threshold.push(ch), ..s },
                CommandView::Nothing,
            )
        } else {
            (s, CommandView::Nothing)
        }
    } else {
        (s, CommandView::Nothing)
    }
}

pub open spec fn add_position_key_spec(s: AppView, k: KeyEvent) -> (AppView, CommandView) {
    let c = k.code;
    if c == KeyCode::Tab || c == KeyCode::Down {
        (AppView { add_form_field: ((s.add_form_field + 1) % 3) as usize, ..s }, CommandView::Nothing)
    } else if c == KeyCode::BackTab || c == KeyCode::Up {
        (
            AppView {
                add_form_field: if s.add_form_field == 0 {
                    2
                } else {
                    (s.add_form_field - 1) as usize
                },
                ..s
            },
            CommandView::Nothing,
        )
    } else if c == KeyCode::Enter {
        if s.add_form_field == 2 {
            (s, CommandView::AddPortfolioPosition)
        } else {
            (
                AppView { add_form_field: ((s.add_form_field + 1) % 3) as usize, ..s },
                CommandView::Nothing,
            )
        }
    } else if c == KeyCode::Esc {
        (
            AppView {
                input_mode: InputMode::Normal,
                add_form_symbol: Seq::empty(),
                add_form_shares: Seq::empty(),
                add_form_cost: Seq::empty(),
                add_form_field: 0,
                status_message: "Cancelled"@,
                ..s
            },
            CommandView::Nothing,
        )
    } else if c is Char {
        let ch = c->0;
        if s.add_form_field == 0 {
            (
                AppView { add_form_symbol: s.add_form_symbol.push(ascii_upper(ch)), ..s },
                CommandView::Nothing,
            )
        } else if (s.add_form_field == 1 || s.add_form_field == 2) && (is_ascii_digit(ch) || ch
            == '.') {
            if s.add_form_field == 1 {
                (AppView { add_form_shares: s.add_form_shares.push(ch), ..s }, CommandView::Nothing)
            } else {
                (AppView { add_form_cost: s.add_form_cost.push(ch), ..s }, CommandView::Nothing)
            }
        } else {
            (s, CommandView::Nothing)
        }
    } else if c == KeyCode::Backspace {
        if s.add_form_field == 0 {
            (AppView { add_form_symbol: pop_seq(s.add_form_symbol), ..s }, CommandView::Nothing)
        } else if s.add_form_field == 1 {
            (AppView { add_form_shares: pop_seq(s.add_form_shares), ..s }, CommandView::Nothing)
        } else if s.add_form_field == 2 {
            (AppView { add_form_cost: pop_seq(s.add_form_cost), ..s }, CommandView::Nothing)
        } else {
            (s, CommandView::Nothing)
        }
    } else {
        (s, CommandView::Nothing)
    }
}


// ── Implementation ───────────────────────────────────────────────────────────

proof fn lemma_tab_roundtrip(t: Tab)
    ensures
        tab_of_index(tab_index(t)) == t,
{
}

proof fn lemma_category_roundtrip(c: ScreenerCategory)
    ensures
        category_of_index(category_index(c)) == c,
{
}

/// Whether the key is a character key, and which.
fn key_char(c: KeyCode) -> (r: Option<char>)
    ensures
        match r {
            Some(ch) => c == KeyCode::Char(ch),
            None => !(c is Char),
        },
{
    match c {
        KeyCode::Char(ch) => Some(ch),
        _ => None,
    }
}

fn clone_string(s: &String) -> (r: String)
    ensures
        r@ == s@,
{
    s.clone()
}

/// Removes the last character of `s`, if any.
fn pop_last(s: &mut String)
    ensures
        final(s)@ == pop_seq(old(s)@),
{
    let _ = pop_char(s);
}

impl App {
    /// Arrival at `self.active_tab`.
    fn enter_tab(&mut self) -> (cmd: Command)
        ensures
            final(self)@ == tab_entry_spec(old(self)@).0,
            cmd@ == tab_entry_spec(old(self)@).1,
    {
        if self.active_tab == Tab::Screeners && self.screener_symbols.len() == 0 {
            Command::FetchScreeners
        } else if self.active_tab == Tab::Sectors && self.sector_industry_counts.len() == 0 {
            self.is_loading_sectors = true;
            Command::Nothing
        } else if self.active_tab == Tab::News && self.news_count == 0 {
            Command::FetchGeneralNews
        } else {
            Command::RefreshDetails
        }
    }

    fn esc_key(&mut self) -> (cmd: Command)
        ensures
            final(self)@ == esc_spec(old(self)@).0,
            cmd@ == esc_spec(old(self)@).1,
    {
        if self.active_tab == Tab::Sectors && self.sectors_view_mode
            == SectorsViewMode::Industries {
            self.sectors_view_mode = SectorsViewMode::Overview;
            self.sectors_selected_industry = 0;
            Command::Nothing
        } else if self.focus_pane == FocusPane::Right {
            self.focus_pane = FocusPane::Left;
            if self.active_tab == Tab::News && self.news_symbol.is_some() {
                Command::FetchGeneralNews
            } else {
                Command::Nothing
            }
        } else {
            Command::Nothing
        }
    }

    fn focus_right(&mut self) -> (cmd: Command)
        ensures
            final(self)@ == focus_right_spec(old(self)@).0,
            cmd@ == focus_right_spec(old(self)@).1,
    {
        if self.active_tab == Tab::Charts || self.active_tab == Tab::News || self.active_tab
            == Tab::Lookup || self.active_tab == Tab::Screeners {
            self.focus_pane = FocusPane::Right;
            if self.active_tab == Tab::Screeners && self.screener_symbols.len() == 0 {
                Command::FetchScreeners
            } else {
                Command::Nothing
            }
        } else {
            Command::Nothing
        }
    }

    fn nav(&mut self, forward: bool) -> (cmd: Command)
        ensures
            final(self)@ == nav_spec(old(self)@, forward).0,
            cmd@ == nav_spec(old(self)@, forward).1,
    {
        if self.active_tab == Tab::Sectors {
            match self.sectors_view_mode {
                SectorsViewMode::Overview => {
                    let len = self.sector_industry_counts.len();
                    if len > 0 {
                        self.sectors_selected_idx = if forward {
                            cycle_forward(self.sectors_selected_idx, len)
                        } else {
                            cycle_backward(self.sectors_selected_idx, len)
                        };
                    }
                },
                SectorsViewMode::Industries => {
                    if self.sectors_selected_idx < self.sector_industry_counts.len() {
                        let len = self.sector_industry_counts[self.sectors_selected_idx];
                        if len > 0 {
                            self.sectors_selected_industry = if forward {
                                cycle_forward(self.sectors_selected_industry, len)
                            } else {
                                cycle_backward(self.sectors_selected_industry, len)
                            };
                        }
                    }
                },
            }
            Command::Nothing
        } else if self.active_tab == Tab::Alerts {
            let len = self.alerts.len();
            if len > 0 {
                self.selected_alert_idx = if forward {
                    cycle_forward(self.selected_alert_idx, len)
                } else {
                    cycle_backward(self.selected_alert_idx, len)
                };
            }
            Command::Nothing
        } else if self.focus_pane == FocusPane::Left {
            if self.active_tab == Tab::Portfolio {
                let len = self.portfolio_symbols.len();
                if len > 0 {
                    self.selected_portfolio_idx = if forward {
                        cycle_forward(self.selected_portfolio_idx, len)
                    } else {
                        cycle_backward(self.selected_portfolio_idx, len)
                    };
                }
                Command::Nothing
            } else {
                self.move_selection(if forward { 1 } else { -1 });
                Command::RefreshDetails
            }
        } else if self.active_tab == Tab::News {
            let len = self.news_count;
            if len > 0 {
                self.selected_news_idx = if forward {
                    cycle_forward(self.selected_news_idx, len)
                } else {
                    cycle_backward(self.selected_news_idx, len)
                };
            }
            Command::Nothing
        } else if self.active_tab == Tab::Lookup {
            let len = self.search_symbols.len();
            if len > 0 {
                self.selected_search_idx = if forward {
                    cycle_forward(self.selected_search_idx, len)
                } else {
                    cycle_backward(self.selected_search_idx, len)
                };
            }
            Command::Nothing
        } else if self.active_tab == Tab::Screeners {
            let len = self.screener_symbols.len();
            if len > 0 {
                self.selected_screener_idx = if forward {
                    cycle_forward(self.selected_screener_idx, len)
                } else {
                    cycle_backward(self.selected_screener_idx, len)
                };
            }
            Command::Nothing
        } else {
            Command::Nothing
        }
    }

    fn add_key(&mut self)
        ensures
            final(self)@ == add_key_spec(old(self)@),
    {
        if self.active_tab == Tab::Portfolio {
            self.input_mode = InputMode::AddPosition;
            self.add_form_symbol = String::new();
            self.add_form_shares = String::new();
            self.add_form_cost = String::new();
            self.add_form_field = 0;
            self.status_message = string_of("Add Position: Tab to switch fields, Enter to confirm");
        } else if self.active_tab == Tab::Alerts {
            self.alert_form_symbol = String::new();
            self.alert_form_type_idx = 0;
            self.alert_form_threshold = String::new();
            self.alert_form_field = 0;
            self.input_mode = InputMode::AddAlert;
            self.status_message = string_of("Create Alert: Tab to switch fields, ←/→ to change type");
        } else {
            self.input_mode = InputMode::AddSymbol;
            self.input_buffer = String::new();
            self.status_message = string_of("Enter symbol to add:");
        }
    }

    fn alert_prefill(&mut self)
        requires
            old(self)@.wf(),
        ensures
            final(self)@ == alert_prefill_spec(old(self)@),
    {
        let symbol: Option<String> = if self.active_tab == Tab::Watchlist {
            match self.selected_symbol() {
                Some(s) => Some(clone_string(s)),
                None => None,
            }
        } else if self.active_tab == Tab::Lookup && self.search_symbols.len() > 0 {
            Some(clone_string(&self.search_symbols[self.selected_search_idx]))
        } else if self.active_tab == Tab::Screeners && self.screener_symbols.len() > 0 {
            Some(clone_string(&self.screener_symbols[self.selected_screener_idx]))
        } else if self.active_tab == Tab::Portfolio && self.portfolio_symbols.len() > 0 {
            Some(clone_string(&self.portfolio_symbols[self.selected_portfolio_idx]))
        } else {
            None
        };
        self.alert_form_symbol = match symbol {
            Some(s) => s,
            None => String::new(),
        };
        self.alert_form_type_idx = 0;
        self.alert_form_threshold = String::new();
        self.alert_form_field = if self.alert_form_symbol.as_str().is_empty() {
            0
        } else {
            1
        };
        self.input_mode = InputMode::AddAlert;
        self.status_message = string_of("Create Alert: Tab to switch, ←/→ to change type");
    }

    fn delete_key(&mut self) -> (cmd: Command)
        ensures
            final(self)@ == delete_key_spec(old(self)@).0,
            cmd@ == delete_key_spec(old(self)@).1,
    {
        if self.active_tab == Tab::Portfolio {
            if self.portfolio_symbols.len() > 0 && self.selected_portfolio_idx
                < self.portfolio_symbols.len() {
                Command::DeletePortfolioPosition(
                    clone_string(&self.portfolio_symbols[self.selected_portfolio_idx]),
                )
            } else {
                Command::Nothing
            }
        } else if self.active_tab == Tab::Watchlist {
            match self.selected_symbol() {
                Some(s) => Command::RemoveSelectedSymbol(clone_string(s)),
                None => Command::Nothing,
            }
        } else {
            Command::Nothing
        }
    }

    fn normal_key(&mut self, key: KeyEvent) -> (cmd: Command)
        requires
            old(self)@.wf(),
        ensures
            final(self)@ == normal_key_spec(old(self)@, key).0,
            cmd@ == normal_key_spec(old(self)@, key).1,
    {
        let c = key.code;
        let ctrl = key.modifiers.control;
        let shift = key.modifiers.shift;
        let left = self.focus_pane == FocusPane::Left;
        let right = self.focus_pane == FocusPane::Right;
        let ch = key_char(c);
        if c == KeyCode::Char('q') || c == KeyCode::Char('Q') {
            self.should_quit = true;
            Command::Nothing
        } else if c == KeyCode::Char('c') && ctrl {
            self.should_quit = true;
            Command::Nothing
        } else if c == KeyCode::Esc {
            self.esc_key()
        } else if (c == KeyCode::Tab && shift) || (c != KeyCode::Tab && c == KeyCode::BackTab) {
            let t = self.active_tab.prev();
            proof {
                lemma_tab_roundtrip(t);
            }
            self.active_tab = t;
            self.focus_pane = FocusPane::Left;
            self.enter_tab()
        } else if c == KeyCode::Tab {
            let t = self.active_tab.next();
            proof {
                lemma_tab_roundtrip(t);
            }
            self.active_tab = t;
            self.focus_pane = FocusPane::Left;
            self.enter_tab()
        } else if c == KeyCode::Char('h') && right {
            self.focus_pane = FocusPane::Left;
            Command::Nothing
        } else if (c == KeyCode::Char('l') || c == KeyCode::Right) && left {
            self.focus_right()
        } else if c == KeyCode::Char('j') || c == KeyCode::Down {
            self.nav(true)
        } else if c == KeyCode::Char('k') || c == KeyCode::Up {
            self.nav(false)
        } else if c == KeyCode::Char('g') && left {
            self.selected_index = 0;
            Command::RefreshDetails
        } else if c == KeyCode::Char('G') && shift && left {
            let len = self.current_watchlist.symbols.len();
            self.selected_index = if len > 0 {
                len - 1
            } else {
                0
            };
            Command::RefreshDetails
        } else if c == KeyCode::Left && right && self.active_tab == Tab::Charts {
            self.selected_chart_range_idx = cycle_backward(
                self.selected_chart_range_idx,
                NUM_CHART_RANGES,
            );
            Command::RefreshDetailsWithRange
        } else if c == KeyCode::Right && right && self.active_tab == Tab::Charts {
            self.selected_chart_range_idx = cycle_forward(
                self.selected_chart_range_idx,
                NUM_CHART_RANGES,
            );
            Command::RefreshDetailsWithRange
        } else if c == KeyCode::Left && right && self.active_tab == Tab::Screeners {
            let n = self.screener_category.prev();
            proof {
                lemma_category_roundtrip(n);
            }
            self.screener_category = n;
            Command::FetchScreeners
        } else if c == KeyCode::Right && right && self.active_tab == Tab::Screeners {
            let n = self.screener_category.next();
            proof {
                lemma_category_roundtrip(n);
            }
            self.screener_category = n;
            Command::FetchScreeners
        } else if c == KeyCode::Enter && right && self.active_tab == Tab::News {
            if self.selected_news_idx < self.news_count {
                Command::OpenNewsLink(self.selected_news_idx)
            } else {
                Command::Nothing
            }
        } else if c == KeyCode::Enter && left && self.active_tab == Tab::News {
            match self.selected_symbol() {
                Some(s) => {
                    let sym = clone_string(s);
                    self.focus_pane = FocusPane::Right;
                    Command::FetchSymbolNews(sym)
                },
                None => Command::Nothing,
            }
        } else if c == KeyCode::Char('g') && self.active_tab == Tab::News
            && self.news_symbol.is_some() {
            Command::FetchGeneralNews
        } else if c == KeyCode::Enter && right && self.active_tab == Tab::Lookup {
            Command::AddSelectedSearchResult
        } else if c == KeyCode::Enter && right && self.active_tab == Tab::Screeners {
            Command::AddScreenerToWatchlist
        } else if c == KeyCode::Enter && self.active_tab == Tab::Sectors {
            self.toggle_sectors_view();
            Command::Nothing
        } else if ch.is_some() && self.active_tab == Tab::Lookup && !ctrl {
            let x = ch.unwrap();
            if x == 'q' || x == 'Q' || x == 'a' || x == 'd' || x == 'r' || x == 'h' || x == 'l'
                || x == 'g' || x == 'G' || x == 'j' || x == 'k' {
                Command::Nothing
            } else {
                push_char(&mut self.search_query, x);
                self.focus_pane = FocusPane::Right;
                Command::PerformSearch
            }
        } else if c == KeyCode::Backspace && self.active_tab == Tab::Lookup {
            pop_last(&mut self.search_query);
            Command::PerformSearch
        } else if c == KeyCode::Char('a') {
            self.add_key();
            Command::Nothing
        } else if c == KeyCode::Char('d') && self.active_tab == Tab::Alerts && self.alerts.len()
            > 0 {
            if self.selected_alert_idx < self.alerts.len() {
                let a = &self.alerts[self.selected_alert_idx];
                Command::DeleteAlert { id: a.id, symbol: clone_string(&a.symbol) }
            } else {
                Command::Nothing
            }
        } else if c == KeyCode::Char('e') && self.active_tab == Tab::Alerts && self.alerts.len()
            > 0 {
            if self.selected_alert_idx < self.alerts.len() {
                let a = &self.alerts[self.selected_alert_idx];
                Command::SetAlertEnabled { id: a.id, enabled: !a.enabled }
            } else {
                Command::Nothing
            }
        } else if (c == KeyCode::Char('d') || c == KeyCode::Delete) && self.active_tab
            != Tab::Alerts && left {
            self.delete_key()
        } else if c == KeyCode::Char('A') && shift && self.active_tab != Tab::Alerts {
            self.alert_prefill();
            Command::Nothing
        } else if c == KeyCode::Char('r') {
            if self.active_tab == Tab::Sectors {
                Command::FetchSectorsData
            } else {
                Command::RefreshAndReport
            }
        } else {
            Command::Nothing
        }
    }
}

impl App {
    fn add_symbol_key(&mut self, key: KeyEvent) -> (cmd: Command)
        ensures
            final(self)@ == add_symbol_key_spec(old(self)@, key).0,
            cmd@ == add_symbol_key_spec(old(self)@, key).1,
    {
        let c = key.code;
        let ch = key_char(c);
        if c == KeyCode::Enter {
            let trimmed = trim(self.input_buffer.as_str());
            let symbol = str_to_uppercase(trimmed.as_str());
            self.input_mode = InputMode::Normal;
            if symbol.as_str().is_empty() {
                Command::Nothing
            } else {
                Command::AddSymbol(symbol)
            }
        } else if c == KeyCode::Esc {
            self.input_mode = InputMode::Normal;
            self.input_buffer = String::new();
            self.status_message = string_of("Cancelled");
            Command::Nothing
        } else if c == KeyCode::Backspace {
            pop_last(&mut self.input_buffer);
            Command::Nothing
        } else if ch.is_some() {
            push_char(&mut self.input_buffer, ch.unwrap());
            Command::Nothing
        } else {
            Command::Nothing
        }
    }

    fn reset_alert_form(&mut self)
        ensures
            final(self)@ == reset_alert_form(old(self)@),
    {
        self.alert_form_symbol = String::new();
        self.alert_form_threshold = String::new();
        self.alert_form_type_idx = 0;
        self.alert_form_field = 0;
    }

    fn add_alert_key(&mut self, key: KeyEvent) -> (cmd: Command)
        requires
            old(self)@.wf(),
        ensures
            final(self)@ == add_alert_key_spec(old(self)@, key).0,
            cmd@ == add_alert_key_spec(old(self)@, key).1,
    {
        let c = key.code;
        let ch = key_char(c);
        if c == KeyCode::Tab {
            self.alert_form_field = (self.alert_form_field + 1) % 3;
            Command::Nothing
        } else if c == KeyCode::BackTab {
            self.alert_form_field = (self.alert_form_field + 2) % 3;
            Command::Nothing
        } else if c == KeyCode::Enter {
            let trimmed = trim(self.alert_form_symbol.as_str());
            let symbol = str_to_uppercase(trimmed.as_str());
            if symbol.as_str().is_empty() {
                self.status_message = string_of("Symbol required");
                Command::Nothing
            } else {
                let threshold = trim(self.alert_form_threshold.as_str());
                Command::CreateAlert { symbol, type_idx: self.alert_form_type_idx, threshold }
            }
        } else if c == KeyCode::Esc {
            self.input_mode = InputMode::Normal;
            self.status_message = string_of("Cancelled");
            self.reset_alert_form();
            Command::Nothing
        } else if c == KeyCode::Left && self.alert_form_field == 1 {
            self.alert_form_type_idx = cycle_backward(
                self.alert_form_type_idx,
                self.alert_type_count,
            );
            Command::Nothing
        } else if c == KeyCode::Right && self.alert_form_field == 1 {
            self.alert_form_type_idx = cycle_forward(
                self.alert_form_type_idx,
                self.alert_type_count,
            );
            Command::Nothing
        } else if c == KeyCode::Backspace {
            if self.alert_form_field == 0 {
                pop_last(&mut self.alert_form_symbol);
            } else if self.alert_form_field == 2 {
                pop_last(&mut self.alert_form_threshold);
            }
            Command::Nothing
        } else if ch.is_some() {
            let x = ch.unwrap();
            if self.alert_form_field == 0 {
                push_char(&mut self.alert_form_symbol, x);
            } else if self.alert_form_field == 2 && (('0' <= x && x <= '9') || x == '.' || x
                == '-') {
                push_char(&mut self.alert_form_threshold, x);
            }
            Command::Nothing
        } else {
            Command::Nothing
        }
    }

    fn add_position_key(&mut self, key: KeyEvent) -> (cmd: Command)
        requires
            old(self)@.wf(),
        ensures
            final(self)@ == add_position_key_spec(old(self)@, key).0,
            cmd@ == add_position_key_spec(old(self)@, key).1,
    {
        let c = key.code;
        let ch = key_char(c);
        if c == KeyCode::Tab || c == KeyCode::Down {
            self.add_form_field = (self.add_form_field + 1) % 3;
            Command::Nothing
        } else if c == KeyCode::BackTab || c == KeyCode::Up {
            self.add_form_field = if self.add_form_field == 0 {
                2
            } else {
                self.add_form_field - 1
            };
            Command::Nothing
        } else if c == KeyCode::Enter {
            if self.add_form_field == 2 {
                Command::AddPortfolioPosition
            } else {
                self.add_form_field = (self.add_form_field + 1) % 3;
                Command::Nothing
            }
        } else if c == KeyCode::Esc {
            self.input_mode = InputMode::Normal;
            self.add_form_symbol = String::new();
            self.add_form_shares = String::new();
            self.add_form_cost = String::new();
            self.add_form_field = 0;
            self.status_message = string_of("Cancelled");
            Command::Nothing
        } else if ch.is_some() {
            let x = ch.unwrap();
            if self.add_form_field == 0 {
                push_char(&mut self.add_form_symbol, to_ascii_uppercase(x));
            } else if (self.add_form_field == 1 || self.add_form_field == 2) && (('0' <= x && x
                <= '9') || x == '.') {
                if self.add_form_field == 1 {
                    push_char(&mut self.add_form_shares, x);
                } else {
                    push_char(&mut self.add_form_cost, x);
                }
            }
            Command::Nothing
        } else if c == KeyCode::Backspace {
            if self.add_form_field == 0 {
                pop_last(&mut self.add_form_symbol);
            } else if self.add_form_field == 1 {
                pop_last(&mut self.add_form_shares);
            } else if self.add_form_field == 2 {
                pop_last(&mut self.add_form_cost);
            }
            Command::Nothing
        } else {
            Command::Nothing
        }
    }

    /// Handles one key press: updates the state and returns the work the
    /// caller must carry out.
    pub fn handle_key_event(&mut self, key: KeyEvent) -> (cmd: Command)
        requires
            old(self)@.wf(),
        ensures
            final(self)@ == handle_key_spec(old(self)@, key).0,
            cmd@ == handle_key_spec(old(self)@, key).1,
    {
        match self.input_mode {
            InputMode::Normal => self.normal_key(key),
            InputMode::AddSymbol => self.add_symbol_key(key),
            InputMode::AddAlert => self.add_alert_key(key),
            InputMode::AddPosition => self.add_position_key(key),
        }
    }
}

/// `a` followed by `b`.
fn concat2(a: &str, b: &str) -> (r: String)
    ensures
        r@ == a@ + b@,
{
    let mut out = string_of(a);
    push_str(&mut out, b);
    out
}

/// `a`, `b` and `c` in a row.
fn concat3(a: &str, b: &str, c: &str) -> (r: String)
    ensures
        r@ == a@ + b@ + c@,
{
    let mut out = string_of(a);
    push_str(&mut out, b);
    push_str(&mut out, c);
    out
}

/// After deleting the item under a cursor, the cursor steps back when it is
/// past the end of the shortened list.
pub open spec fn cursor_after_removal(idx: usize, len: nat) -> usize {
    if idx >= len && idx > 0 {
        (idx - 1) as usize
    } else {
        idx
    }
}

impl App {
    /// After the details were refreshed for `Command::RefreshAndReport`.
    pub fn finish_refresh_report(&mut self)
        ensures
            final(self)@ == (AppView { status_message: "Refreshed"@, ..old(self)@ }),
    {
        self.status_message = string_of("Refreshed");
    }

    /// After `symbol` was removed from the stored watchlist and the watchlist
    /// was read back as `reloaded`.
    pub fn finish_symbol_removal(&mut self, symbol: &str, reloaded: Watchlist)
        ensures
            final(self)@ == (AppView {
                current_watchlist: reloaded@,
                selected_index: cursor_after_removal(
                    old(self)@.selected_index,
                    reloaded@.symbols.len(),
                ),
                status_message: "Removed "@ + symbol@ + " from watchlist"@,
                ..old(self)@
            }),
    {
        self.current_watchlist = reloaded;
        if self.selected_index >= self.current_watchlist.symbols.len() && self.selected_index > 0 {
            self.selected_index = self.selected_index - 1;
        }
        self.status_message = concat3("Removed ", symbol, " from watchlist");
    }

    /// After the alert for `symbol` was deleted; `reloaded` is the alert list
    /// read back, if that succeeded.
    pub fn finish_alert_delete(&mut self, symbol: &str, reloaded: Option<Vec<AlertEntry>>)
        ensures
            ({
                let alerts = match reloaded {
                    Some(v) => alerts_view(v@),
                    None => old(self)@.alerts,
                };
                final(self)@ == (AppView {
                    alerts: alerts,
                    selected_alert_idx: cursor_after_removal(
                        old(self)@.selected_alert_idx,
                        alerts.len(),
                    ),
                    status_message: "Deleted alert for "@ + symbol@,
                    ..old(self)@
                })
            }),
    {
        if let Some(v) = reloaded {
            self.alerts = v;
        }
        if self.selected_alert_idx >= self.alerts.len() && self.selected_alert_idx > 0 {
            self.selected_alert_idx = self.selected_alert_idx - 1;
        }
        self.status_message = concat2("Deleted alert for ", symbol);
    }

    /// After an alert was switched on or off; `reloaded` is the alert list
    /// read back, if that succeeded.
    pub fn finish_alert_toggle(&mut self, enabled: bool, reloaded: Option<Vec<AlertEntry>>)
        ensures
            final(self)@ == (AppView {
                alerts: match reloaded {
                    Some(v) => alerts_view(v@),
                    None => old(self)@.alerts,
                },
                status_message: if enabled {
                    "Alert enabled"@
                } else {
                    "Alert disabled"@
                },
                ..old(self)@
            }),
    {
        if let Some(v) = reloaded {
            self.alerts = v;
        }
        self.status_message = if enabled {
            string_of("Alert enabled")
        } else {
            string_of("Alert disabled")
        };
    }

    /// After an alert was created for `symbol`; `type_label` is the short
    /// name of its type and `reloaded` the alert list read back, if that
    /// succeeded. Closes and clears the alert form.
    pub fn finish_alert_created(
        &mut self,
        symbol: &str,
        type_label: &str,
        reloaded: Option<Vec<AlertEntry>>,
    )
        ensures
            final(self)@ == reset_alert_form(
                AppView {
                    alerts: match reloaded {
                        Some(v) => alerts_view(v@),
                        None => old(self)@.alerts,
                    },
                    status_message: "Alert: "@ + symbol@ + " "@ + type_label@,
                    input_mode: InputMode::Normal,
                    ..old(self)@
                },
            ),
    {
        if let Some(v) = reloaded {
            self.alerts = v;
        }
        let mut msg = concat3("Alert: ", symbol, " ");
        push_str(&mut msg, type_label);
        self.status_message = msg;
        self.input_mode = InputMode::Normal;
        self.reset_alert_form();
    }

    /// Records why the alert form was not accepted (an unreadable or
    /// non-positive threshold, or a storage error).
    pub fn reject_alert_form(&mut self, message: &str)
        ensures
            final(self)@ == (AppView { status_message: message@, ..old(self)@ }),
    {
        self.status_message = string_of(message);
    }

    /// The add-position form may only be submitted with a symbol; when it is
    /// empty the status says so and `false` is returned.
    pub fn check_position_symbol(&mut self) -> (ok: bool)
        ensures
            ok == (old(self)@.add_form_symbol.len() > 0),
            final(self)@ == if ok {
                old(self)@
            } else {
                AppView { status_message: "Error: Symbol cannot be empty"@, ..old(self)@ }
            },
    {
        if self.add_form_symbol.as_str().is_empty() {
            self.status_message = string_of("Error: Symbol cannot be empty");
            false
        } else {
            true
        }
    }

    /// The shares or cost of the add-position form could not be read as
    /// positive numbers.
    pub fn reject_position_numbers(&mut self)
        ensures
            final(self)@ == (AppView {
                status_message: "Error: Invalid shares or cost"@,
                ..old(self)@
            }),
    {
        self.status_message = string_of("Error: Invalid shares or cost");
    }

    /// After a position from the form was added to the portfolio (whose
    /// symbols are now `symbols`) and saving it ended with `save_error`.
    pub fn finish_position_added(&mut self, symbols: Vec<String>, save_error: Option<String>)
        ensures
            final(self)@ == match save_error {
                Some(e) => AppView {
                    portfolio_symbols: symbols.deep_view(),
                    status_message: "Error saving: "@ + e@,
                    ..old(self)@
                },
                None => AppView {
                    portfolio_symbols: symbols.deep_view(),
                    status_message: "Added "@ + old(self)@.add_form_symbol + " to portfolio"@,
                    add_form_symbol: Seq::empty(),
                    add_form_shares: Seq::empty(),
                    add_form_cost: Seq::empty(),
                    add_form_field: 0,
                    input_mode: InputMode::Normal,
                    ..old(self)@
                },
            },
    {
        self.portfolio_symbols = symbols;
        match save_error {
            Some(e) => {
                self.status_message = concat2("Error saving: ", e.as_str());
            },
            None => {
                self.status_message = concat3("Added ", self.add_form_symbol.as_str(), " to portfolio");
                self.add_form_symbol = String::new();
                self.add_form_shares = String::new();
                self.add_form_cost = String::new();
                self.add_form_field = 0;
                self.input_mode = InputMode::Normal;
            },
        }
    }

    /// After the position `symbol` was removed from the portfolio (whose
    /// symbols are now `symbols`) and saving it ended with `save_error`.
    pub fn finish_position_delete(
        &mut self,
        symbol: &str,
        symbols: Vec<String>,
        save_error: Option<String>,
    )
        ensures
            final(self)@ == match save_error {
                Some(e) => AppView {
                    portfolio_symbols: symbols.deep_view(),
                    status_message: "Error saving: "@ + e@,
                    ..old(self)@
                },
                None => AppView {
                    portfolio_symbols: symbols.deep_view(),
                    status_message: "Deleted "@ + symbol@,
                    selected_portfolio_idx: if old(self)@.selected_portfolio_idx > 0 {
                        (old(self)@.selected_portfolio_idx - 1) as usize
                    } else {
                        0
                    },
                    ..old(self)@
                },
            },
    {
        self.portfolio_symbols = symbols;
        match save_error {
            Some(e) => {
                self.status_message = concat2("Error saving: ", e.as_str());
            },
            None => {
                self.status_message = concat2("Deleted ", symbol);
                if self.selected_portfolio_idx > 0 {
                    self.selected_portfolio_idx = self.selected_portfolio_idx - 1;
                }
            },
        }
    }
}

/// The next state and command for a key press.
pub open spec fn handle_key_spec(s: AppView, k: KeyEvent) -> (AppView, CommandView) {
    match s.input_mode {
        InputMode::Normal => normal_key_spec(s, k),
        InputMode::AddSymbol => add_symbol_key_spec(s, k),
        InputMode::AddAlert => add_alert_key_spec(s, k),
        InputMode::AddPosition => add_position_key_spec(s, k),
    }
}

} // verus!

verus! {

// ── Laws of the key handling ─────────────────────────────────────────────────

proof fn lemma_fwd_back(i: usize, n: nat)
    requires
        0 < n <= usize::MAX,
    ensures
        fwd(i, n) < n,
        back(i, n) < n,
        i < n ==> back(fwd(i, n), n) == i,
        i < n ==> fwd(back(i, n), n) == i,
{
    let ni = n as int;
    let ii = i as int;
    let f = (ii + 1) % ni;
    let b = (ii + ni - 1) % ni;
    assert(0 <= f < ni) by (nonlinear_arith)
        requires
            ni > 0,
            f == (ii + 1) % ni,
    ;
    assert(0 <= b < ni) by (nonlinear_arith)
        requires
            ni > 0,
            b == (ii + ni - 1) % ni,
    ;
    assert(fwd(i, n) as int == f);
    assert(back(i, n) as int == b);
    if ii < ni {
        if ii + 1 < ni {
            assert(f == ii + 1) by (nonlinear_arith)
                requires
                    0 <= ii + 1 < ni,
                    f == (ii + 1) % ni,
            ;
            assert((f + ni - 1) % ni == ii) by (nonlinear_arith)
                requires
                    0 <= ii < ni,
                    f == ii + 1,
            ;
        } else {
            assert(f == 0) by (nonlinear_arith)
                requires
                    ii + 1 == ni,
                    ni > 0,
                    f == (ii + 1) % ni,
            ;
            assert((f + ni - 1) % ni == ii) by (nonlinear_arith)
                requires
                    ii + 1 == ni,
                    ni > 0,
                    f == 0,
            ;
        }
        assert(back(fwd(i, n), n) as int == (f + ni - 1) % ni);
        if ii > 0 {
            assert(b == ii - 1) by (nonlinear_arith)
                requires
                    0 < ii < ni,
                    b == (ii + ni - 1) % ni,
            ;
            assert((b + 1) % ni == ii) by (nonlinear_arith)
                requires
                    0 < ii < ni,
                    b == ii - 1,
            ;
        } else {
            assert(b == ni - 1) by (nonlinear_arith)
                requires
                    ii == 0,
                    ni > 0,
                    b == (ii + ni - 1) % ni,
            ;
            assert((b + 1) % ni == ii) by (nonlinear_arith)
                requires
                    ni > 0,
                    ii == 0,
                    b == ni - 1,
            ;
        }
        assert(fwd(back(i, n), n) as int == (b + 1) % ni);
    }
}

proof fn lemma_nav_wf(s: AppView, forward: bool)
    requires
        s.wf(),
    ensures
        nav_spec(s, forward).0.wf(),
{
    if s.portfolio_symbols.len() > 0 {
        lemma_fwd_back(s.selected_portfolio_idx, s.portfolio_symbols.len());
    }
    if s.search_symbols.len() > 0 {
        lemma_fwd_back(s.selected_search_idx, s.search_symbols.len());
    }
    if s.screener_symbols.len() > 0 {
        lemma_fwd_back(s.selected_screener_idx, s.screener_symbols.len());
    }
}

#[verifier::rlimit(60)]
proof fn lemma_normal_key_wf(s: AppView, k: KeyEvent)
    requires
        s.wf(),
        s.input_mode == InputMode::Normal,
    ensures
        normal_key_spec(s, k).0.wf(),
{
    lemma_fwd_back(s.selected_chart_range_idx, NUM_CHART_RANGES as nat);
    lemma_nav_wf(s, true);
    lemma_nav_wf(s, false);
}

/// Every key press keeps the cursors that index lists and fixed tables in
/// range (the dashboard's well-formedness).
pub proof fn law_handle_key_preserves_wf(s: AppView, k: KeyEvent)
    requires
        s.wf(),
    ensures
        handle_key_spec(s, k).0.wf(),
{
    match s.input_mode {
        InputMode::Normal => lemma_normal_key_wf(s, k),
        InputMode::AddAlert => {
            lemma_fwd_back(s.alert_form_type_idx, s.alert_type_count as nat);
        },
        _ => {},
    }
}

/// In normal mode, Tab then BackTab comes back to the tab one started on.
pub proof fn law_tab_then_backtab(s: AppView, m1: KeyModifiers, m2: KeyModifiers)
    requires
        s.input_mode == InputMode::Normal,
        !m1.shift,
    ensures
        ({
            let t = handle_key_spec(s, KeyEvent { code: KeyCode::Tab, modifiers: m1 }).0;
            &&& t.input_mode == InputMode::Normal
            &&& handle_key_spec(t, KeyEvent { code: KeyCode::BackTab, modifiers: m2 }).0.active_tab
                == s.active_tab
        }),
{
    lemma_tab_roundtrip(s.active_tab);
    let n = next_tab(s.active_tab);
    lemma_tab_roundtrip(n);
}

/// In the add-symbol prompt, Backspace undoes the character just typed.
pub proof fn law_backspace_undoes_typing(s: AppView, c: char, m1: KeyModifiers, m2: KeyModifiers)
    requires
        s.input_mode == InputMode::AddSymbol,
    ensures
        handle_key_spec(
            handle_key_spec(s, KeyEvent { code: KeyCode::Char(c), modifiers: m1 }).0,
            KeyEvent { code: KeyCode::Backspace, modifiers: m2 },
        ).0 == s,
{
    assert(s.input_buffer.push(c).drop_last() =~= s.input_buffer);
}

/// 'q' in normal mode always asks the dashboard to quit.
pub proof fn law_q_quits(s: AppView, m: KeyModifiers)
    requires
        s.input_mode == InputMode::Normal,
    ensures
        handle_key_spec(s, KeyEvent { code: KeyCode::Char('q'), modifiers: m }).0.should_quit,
{
}

/// Esc in any of the input forms goes back to normal mode.
pub proof fn law_escape_leaves_forms(s: AppView, m: KeyModifiers)
    requires
        s.input_mode != InputMode::Normal,
    ensures
        handle_key_spec(s, KeyEvent { code: KeyCode::Esc, modifiers: m }).0.input_mode
            == InputMode::Normal,
{
}

/// On the Alerts tab, Down then Up leaves the state as it was.
pub proof fn law_alerts_down_up(s: AppView, m1: KeyModifiers, m2: KeyModifiers)
    requires
        s.input_mode == InputMode::Normal,
        s.active_tab == Tab::Alerts,
        s.selected_alert_idx < s.alerts.len() <= usize::MAX,
    ensures
        handle_key_spec(
            handle_key_spec(s, KeyEvent { code: KeyCode::Down, modifiers: m1 }).0,
            KeyEvent { code: KeyCode::Up, modifiers: m2 },
        ).0 == s,
{
    lemma_fwd_back(s.selected_alert_idx, s.alerts.len());
}

} // verus!
