//! Dashboard state: tabs, screener categories, panes, and the plain-valued
//! part of the dashboard application that the key handling reads and writes.
use vstd::prelude::*;

use super::storage::{Watchlist, WatchlistView};
use crate::commands::params::ScreenerKind;

verus! {

/// Seconds between automatic refreshes of the dashboard.
pub const REFRESH_INTERVAL_SECS: u64 = 5;

/// Number of chart ranges the Charts tab cycles through.
pub const NUM_CHART_RANGES: usize = 8;

#[derive(Debug, Clone, Copy, PartialEq, Eq, Structural)]
pub enum Tab {
    Watchlist,
    Charts,
    News,
    Lookup,
    Screeners,
    Sectors,
    Portfolio,
    Alerts,
}

/// Position of a tab in the tab bar.
pub open spec fn tab_index(t: Tab) -> int {
    match t {
        Tab::Watchlist => 0,
        Tab::Charts => 1,
        Tab::News => 2,
        Tab::Lookup => 3,
        Tab::Screeners => 4,
        Tab::Sectors => 5,
        Tab::Portfolio => 6,
        Tab::Alerts => 7,
    }
}

impl Tab {
    /// The tab to the right, wrapping around to the first.
    pub fn next(&self) -> (r: Self)
        ensures
            tab_index(r) == (tab_index(*self) + 1) % 8,
    {
        match self {
            Tab::Watchlist => Tab::Charts,
            Tab::Charts => Tab::News,
            Tab::News => Tab::Lookup,
            Tab::Lookup => Tab::Screeners,
            Tab::Screeners => Tab::Sectors,
            Tab::Sectors => Tab::Portfolio,
            Tab::Portfolio => Tab::Alerts,
            Tab::Alerts => Tab::Watchlist,
        }
    }

    /// The tab to the left, wrapping around to the last.
    pub fn prev(&self) -> (r: Self)
        ensures
            tab_index(r) == (tab_index(*self) + 7) % 8,
    {
        match self {
            Tab::Watchlist => Tab::Alerts,
            Tab::Charts => Tab::Watchlist,
            Tab::News => Tab::Charts,
            Tab::Lookup => Tab::News,
            Tab::Screeners => Tab::Lookup,
            Tab::Sectors => Tab::Screeners,
            Tab::Portfolio => Tab::Sectors,
            Tab::Alerts => Tab::Portfolio,
        }
    }

    pub fn title(&self) -> (r: &'static str)
        ensures
            r@ == tab_title(*self),
    {
        match self {
            Tab::Watchlist => "Watchlist",
            Tab::Charts => "Charts",
            Tab::News => "News",
            Tab::Lookup => "Lookup",
            Tab::Screeners => "Screeners",
            Tab::Sectors => "Sectors",
            Tab::Portfolio => "Portfolio",
            Tab::Alerts => "Alerts",
        }
    }
}

pub open spec fn tab_title(t: Tab) -> Seq<char> {
    match t {
        Tab::Watchlist => "Watchlist"@,
        Tab::Charts => "Charts"@,
        Tab::News => "News"@,
        Tab::Lookup => "Lookup"@,
        Tab::Screeners => "Screeners"@,
        Tab::Sectors => "Sectors"@,
        Tab::Portfolio => "Portfolio"@,
        Tab::Alerts => "Alerts"@,
    }
}

/// Tab order is a single cycle of length eight: index arithmetic determines the tab.
pub proof fn lemma_tab_index_injective(a: Tab, b: Tab)
    ensures
        tab_index(a) == tab_index(b) ==> a == b,
        0 <= tab_index(a) < 8,
{
}

/// Moving right then left (or left then right) comes back to the same tab.
pub proof fn law_tab_next_prev_inverse(t: Tab, n: Tab, p: Tab)
    requires
        tab_index(n) == (tab_index(t) + 1) % 8,
        tab_index(p) == (tab_index(t) + 7) % 8,
    ensures
        (tab_index(n) + 7) % 8 == tab_index(t),
        (tab_index(p) + 1) % 8 == tab_index(t),
{
}

#[derive(Debug, Clone, Copy, PartialEq, Eq, Structural)]
pub enum InputMode {
    Normal,
    AddSymbol,
    AddPosition,
    AddAlert,
}

#[derive(Debug, Clone, Copy, PartialEq, Eq, Structural)]
pub enum ScreenerCategory {
    Gainers,
    Losers,
    MostActive,
    MostShorted,
    SmallCapGainers,
    GrowthTech,
    UndervaluedGrowth,
    UndervaluedLargeCap,
    AggressiveSmallCaps,
}

/// Number of screener categories.
pub const SCREENER_CATEGORY_COUNT: usize = 9;

/// Position of a category in the fixed category list.
pub open spec fn category_index(c: ScreenerCategory) -> int {
    match c {
        ScreenerCategory::Gainers => 0,
        ScreenerCategory::Losers => 1,
        ScreenerCategory::MostActive => 2,
        ScreenerCategory::MostShorted => 3,
        ScreenerCategory::SmallCapGainers => 4,
        ScreenerCategory::GrowthTech => 5,
        ScreenerCategory::UndervaluedGrowth => 6,
        ScreenerCategory::UndervaluedLargeCap => 7,
        ScreenerCategory::AggressiveSmallCaps => 8,
    }
}

impl ScreenerCategory {
    /// The predefined screener that fills the category.
    pub fn screener_type(&self) -> (k: ScreenerKind)
        ensures
            k == match *self {
                ScreenerCategory::Gainers => ScreenerKind::DayGainers,
                ScreenerCategory::Losers => ScreenerKind::DayLosers,
                ScreenerCategory::MostActive => ScreenerKind::MostActives,
                ScreenerCategory::MostShorted => ScreenerKind::MostShortedStocks,
                ScreenerCategory::SmallCapGainers => ScreenerKind::SmallCapGainers,
                ScreenerCategory::GrowthTech => ScreenerKind::GrowthTechnologyStocks,
                ScreenerCategory::UndervaluedGrowth => ScreenerKind::UndervaluedGrowthStocks,
                ScreenerCategory::UndervaluedLargeCap => ScreenerKind::UndervaluedLargeCaps,
                ScreenerCategory::AggressiveSmallCaps => ScreenerKind::AggressiveSmallCaps,
            },
    {
        match self {
            ScreenerCategory::Gainers => ScreenerKind::DayGainers,
            ScreenerCategory::Losers => ScreenerKind::DayLosers,
            ScreenerCategory::MostActive => ScreenerKind::MostActives,
            ScreenerCategory::MostShorted => ScreenerKind::MostShortedStocks,
            ScreenerCategory::SmallCapGainers => ScreenerKind::SmallCapGainers,
            ScreenerCategory::GrowthTech => ScreenerKind::GrowthTechnologyStocks,
            ScreenerCategory::UndervaluedGrowth => ScreenerKind::UndervaluedGrowthStocks,
            ScreenerCategory::UndervaluedLargeCap => ScreenerKind::UndervaluedLargeCaps,
            ScreenerCategory::AggressiveSmallCaps => ScreenerKind::AggressiveSmallCaps,
        }
    }
}

impl ScreenerCategory {
    /// Position of this category in the category list.
    pub fn position(&self) -> (i: usize)
        ensures
            i == category_index(*self),
    {
        match self {
            ScreenerCategory::Gainers => 0,
            ScreenerCategory::Losers => 1,
            ScreenerCategory::MostActive => 2,
            ScreenerCategory::MostShorted => 3,
            ScreenerCategory::SmallCapGainers => 4,
            ScreenerCategory::GrowthTech => 5,
            ScreenerCategory::UndervaluedGrowth => 6,
            ScreenerCategory::UndervaluedLargeCap => 7,
            ScreenerCategory::AggressiveSmallCaps => 8,
        }
    }

    /// The category at position `i` of the category list.
    pub fn at_position(i: usize) -> (c: ScreenerCategory)
        requires
            i < SCREENER_CATEGORY_COUNT,
        ensures
            category_index(c) == i,
    {
        if i == 0 {
            ScreenerCategory::Gainers
        } else if i == 1 {
            ScreenerCategory::Losers
        } else if i == 2 {
            ScreenerCategory::MostActive
        } else if i == 3 {
            ScreenerCategory::MostShorted
        } else if i == 4 {
            ScreenerCategory::SmallCapGainers
        } else if i == 5 {
            ScreenerCategory::GrowthTech
        } else if i == 6 {
            ScreenerCategory::UndervaluedGrowth
        } else if i == 7 {
            ScreenerCategory::UndervaluedLargeCap
        } else {
            ScreenerCategory::AggressiveSmallCaps
        }
    }

    /// The next category in the list, wrapping around.
    pub fn next(&self) -> (r: Self)
        ensures
            category_index(r) == (category_index(*self) + 1) % 9,
    {
        let idx = self.position();
        Self::at_position((idx + 1) % SCREENER_CATEGORY_COUNT)
    }

    /// The previous category in the list, wrapping around.
    pub fn prev(&self) -> (r: Self)
        ensures
            category_index(r) == (category_index(*self) + 8) % 9,
    {
        let idx = self.position();
        Self::at_position((idx + SCREENER_CATEGORY_COUNT - 1) % SCREENER_CATEGORY_COUNT)
    }

    pub fn title(&self) -> (r: &'static str)
        ensures
            r@ == category_title(*self),
    {
        match self {
            ScreenerCategory::Gainers => "Gainers",
            ScreenerCategory::Losers => "Losers",
            ScreenerCategory::MostActive => "Active",
            ScreenerCategory::MostShorted => "Shorted",
            ScreenerCategory::SmallCapGainers => "SmallCap↑",
            ScreenerCategory::GrowthTech => "Tech",
            ScreenerCategory::UndervaluedGrowth => "Value",
            ScreenerCategory::UndervaluedLargeCap => "LargeCap",
            ScreenerCategory::AggressiveSmallCaps => "Aggr.Small",
        }
    }

    pub fn description(&self) -> (r: &'static str)
        ensures
            r@ == category_description(*self),
    {
        match self {
            ScreenerCategory::Gainers => "Top gaining stocks today",
            ScreenerCategory::Losers => "Top losing stocks today",
            ScreenerCategory::MostActive => "Most actively traded by volume",
            ScreenerCategory::MostShorted => "Highest short interest",
            ScreenerCategory::SmallCapGainers => "Small cap stocks gaining today",
            ScreenerCategory::GrowthTech => "Tech stocks with 25%+ revenue growth",
            ScreenerCategory::UndervaluedGrowth => "Low P/E, high EPS growth",
            ScreenerCategory::UndervaluedLargeCap => "Large caps with low P/E",
            ScreenerCategory::AggressiveSmallCaps => "Small caps with high EPS growth",
        }
    }
}

pub open spec fn category_title(c: ScreenerCategory) -> Seq<char> {
    match c {
        ScreenerCategory::Gainers => "Gainers"@,
        ScreenerCategory::Losers => "Losers"@,
        ScreenerCategory::MostActive => "Active"@,
        ScreenerCategory::MostShorted => "Shorted"@,
        ScreenerCategory::SmallCapGainers => "SmallCap↑"@,
        ScreenerCategory::GrowthTech => "Tech"@,
        ScreenerCategory::UndervaluedGrowth => "Value"@,
        ScreenerCategory::UndervaluedLargeCap => "LargeCap"@,
        ScreenerCategory::AggressiveSmallCaps => "Aggr.Small"@,
    }
}

pub open spec fn category_description(c: ScreenerCategory) -> Seq<char> {
    match c {
        ScreenerCategory::Gainers => "Top gaining stocks today"@,
        ScreenerCategory::Losers => "Top losing stocks today"@,
        ScreenerCategory::MostActive => "Most actively traded by volume"@,
        ScreenerCategory::MostShorted => "Highest short interest"@,
        ScreenerCategory::SmallCapGainers => "Small cap stocks gaining today"@,
        ScreenerCategory::GrowthTech => "Tech stocks with 25%+ revenue growth"@,
        ScreenerCategory::UndervaluedGrowth => "Low P/E, high EPS growth"@,
        ScreenerCategory::UndervaluedLargeCap => "Large caps with low P/E"@,
        ScreenerCategory::AggressiveSmallCaps => "Small caps with high EPS growth"@,
    }
}

/// The category list order is a bijection onto `0..9`.
pub proof fn lemma_category_index_injective(a: ScreenerCategory, b: ScreenerCategory)
    ensures
        category_index(a) == category_index(b) ==> a == b,
        0 <= category_index(a) < 9,
{
}

#[derive(Debug, Clone, Copy, PartialEq, Eq, Structural)]
pub enum FocusPane {
    Left,
    Right,
}

/// Moving to the next screener category and back (or back and then on)
/// returns to the same category.
pub proof fn law_category_next_prev_inverse(c: ScreenerCategory, n: ScreenerCategory, p: ScreenerCategory)
    requires
        category_index(n) == (category_index(c) + 1) % 9,
        category_index(p) == (category_index(c) + 8) % 9,
    ensures
        (category_index(n) + 8) % 9 == category_index(c),
        (category_index(p) + 1) % 9 == category_index(c),
{
}

/// Sectors view mode - sectors overview or drill-down to industries
#[derive(Debug, Clone, Copy, PartialEq, Eq, Structural)]
pub enum SectorsViewMode {
    Overview,
    Industries,
}

impl SectorsViewMode {
    /// The default view (overview).
    pub fn default_mode() -> (r: Self)
        ensures
            r == SectorsViewMode::Overview,
    {
        SectorsViewMode::Overview
    }
}

/// What the dashboard keeps of an alert: its id, symbol and whether it is on.
pub struct AlertEntry {
    pub id: i64,
    pub symbol: String,
    pub enabled: bool,
}

pub struct AlertEntryView {
    pub id: i64,
    pub symbol: Seq<char>,
    pub enabled: bool,
}

impl View for AlertEntry {
    type V = AlertEntryView;

    open spec fn view(&self) -> AlertEntryView {
        AlertEntryView { id: self.id, symbol: self.symbol@, enabled: self.enabled }
    }
}

pub open spec fn alerts_view(v: Seq<AlertEntry>) -> Seq<AlertEntryView> {
    Seq::new(v.len(), |i: int| v[i]@)
}

/// The plain-valued state of the dashboard: selection indices, modes, form
/// buffers and the lengths/symbols of the lists that the key handling reads.
/// The lists themselves (quotes, news, sectors) live with the caller; their
/// lengths and symbols are mirrored here.
pub struct App {
    pub current_watchlist: Watchlist,
    pub selected_index: usize,
    pub active_tab: Tab,
    pub focus_pane: FocusPane,
    pub input_mode: InputMode,
    pub input_buffer: String,
    pub news_count: usize,
    pub selected_chart_range_idx: usize,
    pub selected_news_idx: usize,
    pub search_query: String,
    /// Symbols of the current search results, in order.
    pub search_symbols: Vec<String>,
    pub selected_search_idx: usize,
    pub screener_category: ScreenerCategory,
    /// Symbols of the loaded screener rows, in order.
    pub screener_symbols: Vec<String>,
    pub selected_screener_idx: usize,
    pub alerts: Vec<AlertEntry>,
    /// Number of alert types offered by the alert form.
    pub alert_type_count: usize,
    pub status_message: String,
    pub should_quit: bool,
    /// Symbols of the portfolio positions, in order.
    pub portfolio_symbols: Vec<String>,
    pub selected_portfolio_idx: usize,
    pub add_form_field: usize,
    pub add_form_symbol: String,
    pub add_form_shares: String,
    pub add_form_cost: String,
    pub selected_alert_idx: usize,
    pub alert_form_symbol: String,
    pub alert_form_type_idx: usize,
    pub alert_form_threshold: String,
    pub alert_form_field: usize,
    /// Industry counts of the loaded sectors, in display order.
    pub sector_industry_counts: Vec<usize>,
    pub sectors_selected_idx: usize,
    pub sectors_selected_industry: usize,
    pub sectors_view_mode: SectorsViewMode,
    pub is_loading_sectors: bool,
    pub news_symbol: Option<String>,
    pub detail_scroll: [u16; 3],
}

#[verifier::ext_equal]
pub struct AppView {
    pub current_watchlist: WatchlistView,
    pub selected_index: usize,
    pub active_tab: Tab,
    pub focus_pane: FocusPane,
    pub input_mode: InputMode,
    pub input_buffer: Seq<char>,
    pub news_count: usize,
    pub selected_chart_range_idx: usize,
    pub selected_news_idx: usize,
    pub search_query: Seq<char>,
    pub search_symbols: Seq<Seq<char>>,
    pub selected_search_idx: usize,
    pub screener_category: ScreenerCategory,
    pub screener_symbols: Seq<Seq<char>>,
    pub selected_screener_idx: usize,
    pub alerts: Seq<AlertEntryView>,
    pub alert_type_count: usize,
    pub status_message: Seq<char>,
    pub should_quit: bool,
    pub portfolio_symbols: Seq<Seq<char>>,
    pub selected_portfolio_idx: usize,
    pub add_form_field: usize,
    pub add_form_symbol: Seq<char>,
    pub add_form_shares: Seq<char>,
    pub add_form_cost: Seq<char>,
    pub selected_alert_idx: usize,
    pub alert_form_symbol: Seq<char>,
    pub alert_form_type_idx: usize,
    pub alert_form_threshold: Seq<char>,
    pub alert_form_field: usize,
    pub sector_industry_counts: Seq<usize>,
    pub sectors_selected_idx: usize,
    pub sectors_selected_industry: usize,
    pub sectors_view_mode: SectorsViewMode,
    pub is_loading_sectors: bool,
    pub news_symbol: Option<Seq<char>>,
    pub detail_scroll: [u16; 3],
}

pub open spec fn opt_string_view(o: Option<String>) -> Option<Seq<char>> {
    match o {
        Some(s) => Some(s@),
        None => None,
    }
}

impl View for App {
    type V = AppView;

    open spec fn view(&self) -> AppView {
        AppView {
            current_watchlist: self.current_watchlist@,
            selected_index: self.selected_index,
            active_tab: self.active_tab,
            focus_pane: self.focus_pane,
            input_mode: self.input_mode,
            input_buffer: self.input_buffer@,
            news_count: self.news_count,
            selected_chart_range_idx: self.selected_chart_range_idx,
            selected_news_idx: self.selected_news_idx,
            search_query: self.search_query@,
            search_symbols: self.search_symbols.deep_view(),
            selected_search_idx: self.selected_search_idx,
            screener_category: self.screener_category,
            screener_symbols: self.screener_symbols.deep_view(),
            selected_screener_idx: self.selected_screener_idx,
            alerts: alerts_view(self.alerts@),
            alert_type_count: self.alert_type_count,
            status_message: self.status_message@,
            should_quit: self.should_quit,
            portfolio_symbols: self.portfolio_symbols.deep_view(),
            selected_portfolio_idx: self.selected_portfolio_idx,
            add_form_field: self.add_form_field,
            add_form_symbol: self.add_form_symbol@,
            add_form_shares: self.add_form_shares@,
            add_form_cost: self.add_form_cost@,
            selected_alert_idx: self.selected_alert_idx,
            alert_form_symbol: self.alert_form_symbol@,
            alert_form_type_idx: self.alert_form_type_idx,
            alert_form_threshold: self.alert_form_threshold@,
            alert_form_field: self.alert_form_field,
            sector_industry_counts: self.sector_industry_counts@,
            sectors_selected_idx: self.sectors_selected_idx,
            sectors_selected_industry: self.sectors_selected_industry,
            sectors_view_mode: self.sectors_view_mode,
            is_loading_sectors: self.is_loading_sectors,
            news_symbol: opt_string_view(self.news_symbol),
            detail_scroll: self.detail_scroll,
        }
    }
}

impl AppView {
    /// Well-formedness: the indices that the dashboard uses to index its lists
    /// and fixed tables are in range.
    pub open spec fn wf(self) -> bool {
        &&& self.search_symbols.len() <= usize::MAX
        &&& self.screener_symbols.len() <= usize::MAX
        &&& self.portfolio_symbols.len() <= usize::MAX
        &&& self.alerts.len() <= usize::MAX
        &&& self.alert_type_count > 0
        &&& self.alert_form_type_idx < self.alert_type_count
        &&& self.selected_chart_range_idx < NUM_CHART_RANGES
        &&& self.alert_form_field < 3
        &&& self.add_form_field < 3
        &&& self.search_symbols.len() > 0 ==> self.selected_search_idx < self.search_symbols.len()
        &&& self.screener_symbols.len() > 0 ==> self.selected_screener_idx
            < self.screener_symbols.len()
        &&& self.portfolio_symbols.len() > 0 ==> self.selected_portfolio_idx
            < self.portfolio_symbols.len()
    }

    /// The symbol under the watchlist cursor, if any.
    pub open spec fn selected_symbol(self) -> Option<Seq<char>> {
        if self.selected_index < self.current_watchlist.symbols.len() {
            Some(self.current_watchlist.symbols[self.selected_index as int])
        } else {
            None
        }
    }
}

/// `(i + delta) mod len`, with the result in `0..len` (`rem_euclid`).
pub open spec fn wrap_index(i: int, delta: int, len: int) -> int {
    (i + delta) % len
}

/// Moves `cursor` one step forward in a list of `len` items, wrapping around.
pub fn cycle_forward(cursor: usize, len: usize) -> (r: usize)
    requires
        len > 0,
    ensures
        r == (cursor + 1) % (len as int),
        r < len,
{
    ((cursor as u128 + 1) % (len as u128)) as usize
}

/// Moves `cursor` one step back in a list of `len` items, wrapping around
/// (computed as `(cursor + len - 1) % len`).
pub fn cycle_backward(cursor: usize, len: usize) -> (r: usize)
    requires
        len > 0,
    ensures
        r == (cursor + len - 1) % (len as int),
        r < len,
{
    ((cursor as u128 + len as u128 - 1) % (len as u128)) as usize
}

impl App {
    /// The symbol under the watchlist cursor, if any.
    pub fn selected_symbol(&self) -> (r: Option<&String>)
        ensures
            match r {
                Some(s) => self@.selected_symbol() == Some(s@),
                None => self@.selected_symbol() is None,
            },
    {
        if self.selected_index < self.current_watchlist.symbols.len() {
            Some(&self.current_watchlist.symbols[self.selected_index])
        } else {
            None
        }
    }

    /// Moves the watchlist cursor by `delta`, wrapping around; resets the
    /// detail scroll positions when the list is not empty.
    pub fn move_selection(&mut self, delta: isize)
        ensures
            final(self)@ == move_selection_spec(old(self)@, delta as int),
    {
        let len = self.current_watchlist.symbols.len();
        if len == 0 {
            self.selected_index = 0;
            return;
        }
        let x: i128 = self.selected_index as i128 + delta as i128;
        let n: i128 = len as i128;
        let r: i128 = if x >= 0 {
            ((x as u128) % (n as u128)) as i128
        } else {
            let m = ((-x) as u128) % (n as u128);
            if m == 0 {
                0
            } else {
                n - (m as i128)
            }
        };
        proof {
            let xi = x as int;
            let ni = n as int;
            if x < 0 {
                let mi = (-xi) % ni;
                let qi = (-xi) / ni;
                vstd::arithmetic::div_mod::lemma_fundamental_div_mod(-xi, ni);
                assert(-xi == ni * qi + mi);
                assert((-qi) * ni == -(ni * qi)) by (nonlinear_arith);
                assert((-qi - 1) * ni == -(ni * qi) - ni) by (nonlinear_arith);
                if mi == 0 {
                    vstd::arithmetic::div_mod::lemma_fundamental_div_mod_converse(xi, ni, -qi, 0);
                } else {
                    vstd::arithmetic::div_mod::lemma_fundamental_div_mod_converse(
                        xi,
                        ni,
                        -qi - 1,
                        ni - mi,
                    );
                }
            }
        }
        self.selected_index = r as usize;
        self.detail_scroll = [0, 0, 0];
    }

    /// Switches the Sectors tab between overview and industries, resetting the
    /// industry cursor.
    pub fn toggle_sectors_view(&mut self)
        ensures
            final(self)@ == toggle_sectors_view_spec(old(self)@),
    {
        self.sectors_view_mode = match self.sectors_view_mode {
            SectorsViewMode::Overview => SectorsViewMode::Industries,
            SectorsViewMode::Industries => SectorsViewMode::Overview,
        };
        self.sectors_selected_industry = 0;
    }
}

pub open spec fn move_selection_spec(s: AppView, delta: int) -> AppView {
    let len = s.current_watchlist.symbols.len();
    if len == 0 {
        AppView { selected_index: 0, ..s }
    } else {
        AppView {
            selected_index: wrap_index(s.selected_index as int, delta, len as int) as usize,
            detail_scroll: [0u16, 0u16, 0u16],
            ..s
        }
    }
}

pub open spec fn toggle_sectors_view_spec(s: AppView) -> AppView {
    AppView {
        sectors_view_mode: match s.sectors_view_mode {
            SectorsViewMode::Overview => SectorsViewMode::Industries,
            SectorsViewMode::Industries => SectorsViewMode::Overview,
        },
        sectors_selected_industry: 0,
        ..s
    }
}

/// The sectors view toggles between its two modes: a toggle always changes
/// the mode (the industries view goes back to the overview), toggling twice
/// gives the first mode back, and the industry cursor starts over.
pub proof fn law_sectors_view_toggles(s: AppView)
    ensures
        toggle_sectors_view_spec(s).sectors_view_mode != s.sectors_view_mode,
        s.sectors_view_mode == SectorsViewMode::Industries ==> toggle_sectors_view_spec(
            s,
        ).sectors_view_mode == SectorsViewMode::Overview,
        s.sectors_view_mode == SectorsViewMode::Overview ==> toggle_sectors_view_spec(
            s,
        ).sectors_view_mode == SectorsViewMode::Industries,
        toggle_sectors_view_spec(toggle_sectors_view_spec(s)).sectors_view_mode
            == s.sectors_view_mode,
        toggle_sectors_view_spec(s).sectors_selected_industry == 0,
{
}

} // verus!
