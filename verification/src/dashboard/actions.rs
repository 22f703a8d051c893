//! What the dashboard does around the data it fetches: what to fetch, the
//! status messages shown while and after fetching, and how the results and
//! failures change the state. The fetching itself is done by the caller.
use vstd::prelude::*;

use super::state::{category_title, App, AppView, Tab};
use super::storage::Watchlist;
use crate::commands::params::{Interval, TimeRange};
use crate::format::{nat_text, usize_text};
use crate::text::{push_str, string_of, trim, trim_seq};

verus! {

/// How a fetch that first creates a ticker (or a set of tickers) ended.
pub enum Fetch {
    /// Loaded, with the number of items received.
    Loaded(usize),
    /// The request failed with this message.
    Failed(String),
    /// The ticker could not be created; this is the message.
    TickerFailed(String),
}

/// `a` followed by `b`.
fn cat2(a: &str, b: &str) -> (r: String)
    ensures
        r@ == a@ + b@,
{
    let mut r = string_of(a);
    push_str(&mut r, b);
    r
}

/// `a`, `b`, `c` and `d` in a row.
fn cat4(a: &str, b: &str, c: &str, d: &str) -> (r: String)
    ensures
        r@ == a@ + b@ + c@ + d@,
{
    let mut r = cat2(a, b);
    push_str(&mut r, c);
    push_str(&mut r, d);
    r
}

/// `a`, `b` and `c` in a row.
fn cat3(a: &str, b: &str, c: &str) -> (r: String)
    ensures
        r@ == a@ + b@ + c@,
{
    let mut r = string_of(a);
    push_str(&mut r, b);
    push_str(&mut r, c);
    r
}

/// The chart ranges of the Charts tab: label, time range and bar interval.
pub open spec fn chart_range_spec(i: int) -> (Seq<char>, TimeRange, Interval) {
    if i == 0 {
        ("1D"@, TimeRange::OneDay, Interval::FiveMinutes)
    } else if i == 1 {
        ("5D"@, TimeRange::FiveDays, Interval::FifteenMinutes)
    } else if i == 2 {
        ("1M"@, TimeRange::OneMonth, Interval::OneDay)
    } else if i == 3 {
        ("6M"@, TimeRange::SixMonths, Interval::OneDay)
    } else if i == 4 {
        ("YTD"@, TimeRange::YearToDate, Interval::OneDay)
    } else if i == 5 {
        ("1Y"@, TimeRange::OneYear, Interval::OneDay)
    } else if i == 6 {
        ("5Y"@, TimeRange::FiveYears, Interval::OneWeek)
    } else {
        ("Max"@, TimeRange::Max, Interval::OneWeek)
    }
}

/// The chart range at position `i` of the Charts tab.
pub fn chart_range(i: usize) -> (r: (&'static str, TimeRange, Interval))
    requires
        i < 8,
    ensures
        (r.0@, r.1, r.2) == chart_range_spec(i as int),
{
    if i == 0 {
        ("1D", TimeRange::OneDay, Interval::FiveMinutes)
    } else if i == 1 {
        ("5D", TimeRange::FiveDays, Interval::FifteenMinutes)
    } else if i == 2 {
        ("1M", TimeRange::OneMonth, Interval::OneDay)
    } else if i == 3 {
        ("6M", TimeRange::SixMonths, Interval::OneDay)
    } else if i == 4 {
        ("YTD", TimeRange::YearToDate, Interval::OneDay)
    } else if i == 5 {
        ("1Y", TimeRange::OneYear, Interval::OneDay)
    } else if i == 6 {
        ("5Y", TimeRange::FiveYears, Interval::OneWeek)
    } else {
        ("Max", TimeRange::Max, Interval::OneWeek)
    }
}

/// The status after adding `symbol` to the watchlist and fetching its quote.
pub open spec fn added_message(symbol: Seq<char>, quote: Fetch) -> Seq<char> {
    match quote {
        Fetch::Loaded(_) => "Added "@ + symbol + " to watchlist"@,
        Fetch::Failed(e) => "Added "@ + symbol + " (quote error: "@ + e@ + ")"@,
        Fetch::TickerFailed(e) => "Added "@ + symbol + " (ticker error: "@ + e@ + ")"@,
    }
}

fn added_text(symbol: &str, quote: &Fetch) -> (r: String)
    ensures
        r@ == added_message(symbol@, *quote),
{
    match quote {
        Fetch::Loaded(_) => cat3("Added ", symbol, " to watchlist"),
        Fetch::Failed(e) => {
            let mut r = cat3("Added ", symbol, " (quote error: ");
            push_str(&mut r, e.as_str());
            push_str(&mut r, ")");
            r
        },
        Fetch::TickerFailed(e) => {
            let mut r = cat3("Added ", symbol, " (ticker error: ");
            push_str(&mut r, e.as_str());
            push_str(&mut r, ")");
            r
        },
    }
}

/// At most twenty news items are kept.
pub open spec fn kept_news(n: usize) -> usize {
    if n < 20 {
        n
    } else {
        20
    }
}

impl App {
    /// Starts the fetch of the chart of the selected symbol in the selected
    /// range: the symbol, the range's label, time range and interval, or
    /// `None` when no symbol is selected.
    pub fn begin_chart_fetch(&mut self) -> (r: Option<(String, &'static str, TimeRange, Interval)>)
        requires
            old(self)@.selected_chart_range_idx < 8,
        ensures
            match old(self)@.selected_symbol() {
                None => r is None && final(self)@ == old(self)@,
                Some(s) => {
                    let (label, range, interval) = chart_range_spec(
                        old(self)@.selected_chart_range_idx as int,
                    );
                    &&& r matches Some((sym, l, rg, iv)) && sym@ == s && l@ == label && rg == range
                        && iv == interval
                    &&& final(self)@ == (AppView {
                        status_message: "Fetching chart for "@ + s + " ("@ + label + ")..."@,
                        ..old(self)@
                    })
                },
            },
    {
        let symbol = match self.selected_symbol() {
            Some(s) => s.clone(),
            None => return None,
        };
        let (label, range, interval) = chart_range(self.selected_chart_range_idx);
        let mut m = cat3("Fetching chart for ", symbol.as_str(), " (");
        push_str(&mut m, label);
        push_str(&mut m, ")...");
        self.status_message = m;
        Some((symbol, label, range, interval))
    }

    /// Records how the chart fetch for `symbol` in the range `label` ended.
    pub fn finish_chart_fetch(&mut self, symbol: &str, label: &str, fetched: Fetch)
        ensures
            final(self)@ == (AppView {
                status_message: match fetched {
                    Fetch::Loaded(n) => "Chart loaded for "@ + symbol@ + " ("@ + label@ + ", "@
                        + nat_text(n as nat) + " points)"@,
                    Fetch::Failed(e) => "Chart error for "@ + symbol@ + ": "@ + e@,
                    Fetch::TickerFailed(e) => "Failed to create ticker for "@ + symbol@ + ": "@
                        + e@,
                },
                ..old(self)@
            }),
    {
        let m = match &fetched {
            Fetch::Loaded(n) => {
                let mut m = cat3("Chart loaded for ", symbol, " (");
                push_str(&mut m, label);
                push_str(&mut m, ", ");
                push_str(&mut m, usize_text(*n).as_str());
                push_str(&mut m, " points)");
                m
            },
            Fetch::Failed(e) => cat4("Chart error for ", symbol, ": ", e.as_str()),
            Fetch::TickerFailed(e) => cat4("Failed to create ticker for ", symbol, ": ", e.as_str()),
        };
        self.status_message = m;
    }

    /// Starts the search for the lookup query: `None` (and no results) when
    /// the query is blank, otherwise the query to search for.
    pub fn begin_search(&mut self) -> (q: Option<String>)
        ensures
            trim_seq(old(self)@.search_query).len() == 0 ==> q is None && final(self)@ == (
            AppView { search_symbols: Seq::empty(), selected_search_idx: 0, ..old(self)@ }),
            trim_seq(old(self)@.search_query).len() > 0 ==> (q matches Some(s) && s@ == old(
                self,
            )@.search_query && final(self)@ == (AppView {
                status_message: "Searching for '"@ + old(self)@.search_query + "'..."@,
                ..old(self)@
            })),
    {
        if trim(self.search_query.as_str()).as_str().is_empty() {
            self.search_symbols = Vec::new();
            self.selected_search_idx = 0;
            return None;
        }
        self.status_message = cat3("Searching for '", self.search_query.as_str(), "'...");
        Some(self.search_query.clone())
    }

    /// Records the symbols the search found, or its failure.
    pub fn finish_search(&mut self, found: Result<Vec<String>, String>)
        ensures
            match found {
                Ok(symbols) => final(self)@ == (AppView {
                    search_symbols: symbols.deep_view(),
                    selected_search_idx: 0,
                    status_message: "Found "@ + nat_text(symbols@.len()) + " results"@,
                    ..old(self)@
                }),
                Err(e) => final(self)@ == (AppView {
                    search_symbols: Seq::empty(),
                    selected_search_idx: 0,
                    status_message: "Search error: "@ + e@,
                    ..old(self)@
                }),
            },
    {
        match found {
            Ok(symbols) => {
                self.status_message = cat3("Found ", usize_text(symbols.len()).as_str(), " results");
                self.search_symbols = symbols;
            },
            Err(e) => {
                self.search_symbols = Vec::new();
                self.status_message = cat2("Search error: ", e.as_str());
            },
        }
        self.selected_search_idx = 0;
    }

    /// The search result to add to the watchlist, if the cursor is on one.
    pub fn selected_search_symbol(&self) -> (s: Option<String>)
        ensures
            match s {
                Some(sym) => self.selected_search_idx < self@.search_symbols.len() && sym@
                    == self@.search_symbols[self.selected_search_idx as int],
                None => self.selected_search_idx >= self@.search_symbols.len(),
            },
    {
        if self.selected_search_idx < self.search_symbols.len() {
            Some(self.search_symbols[self.selected_search_idx].clone())
        } else {
            None
        }
    }

    /// Starts the fetch of the selected screener.
    pub fn begin_screener_fetch(&mut self)
        ensures
            final(self)@ == (AppView {
                status_message: "Fetching "@ + category_title(old(self)@.screener_category)
                    + "..."@,
                ..old(self)@
            }),
    {
        self.status_message = cat3("Fetching ", self.screener_category.title(), "...");
    }

    /// Records the symbols of the screener rows loaded, or the failure.
    pub fn finish_screener_fetch(&mut self, found: Result<Vec<String>, String>)
        ensures
            ({
                let title = category_title(old(self)@.screener_category);
                match found {
                    Ok(symbols) => final(self)@ == (AppView {
                        screener_symbols: symbols.deep_view(),
                        selected_screener_idx: 0,
                        status_message: title + ": "@ + nat_text(symbols@.len())
                            + " stocks loaded"@,
                        ..old(self)@
                    }),
                    Err(e) => final(self)@ == (AppView {
                        screener_symbols: Seq::empty(),
                        selected_screener_idx: 0,
                        status_message: "Error loading "@ + title + ": "@ + e@,
                        ..old(self)@
                    }),
                }
            }),
    {
        let title = self.screener_category.title();
        match found {
            Ok(symbols) => {
                self.status_message = cat4(title, ": ", usize_text(symbols.len()).as_str(), " stocks loaded");
                self.screener_symbols = symbols;
            },
            Err(e) => {
                self.screener_symbols = Vec::new();
                self.status_message = cat4("Error loading ", title, ": ", e.as_str());
            },
        }
        self.selected_screener_idx = 0;
    }

    /// The screener row to add to the watchlist, if the cursor is on one.
    pub fn selected_screener_symbol(&self) -> (s: Option<String>)
        ensures
            match s {
                Some(sym) => self.selected_screener_idx < self@.screener_symbols.len() && sym@
                    == self@.screener_symbols[self.selected_screener_idx as int],
                None => self.selected_screener_idx >= self@.screener_symbols.len(),
            },
    {
        if self.selected_screener_idx < self.screener_symbols.len() {
            Some(self.screener_symbols[self.selected_screener_idx].clone())
        } else {
            None
        }
    }

    /// After `symbol` (a search result or screener row) was stored in the
    /// watchlist, read back as `reloaded`, and its quote was fetched.
    pub fn finish_watchlist_add(&mut self, symbol: &str, reloaded: Watchlist, quote: Fetch)
        ensures
            final(self)@ == (AppView {
                current_watchlist: reloaded@,
                status_message: added_message(symbol@, quote),
                ..old(self)@
            }),
    {
        self.current_watchlist = reloaded;
        self.status_message = added_text(symbol, &quote);
    }

    /// The status while the quote of a typed symbol is fetched.
    pub fn report_quote_fetch(&mut self, symbol: &str)
        ensures
            final(self)@ == (AppView {
                status_message: "Fetching quote for "@ + symbol@ + "..."@,
                ..old(self)@
            }),
    {
        self.status_message = cat3("Fetching quote for ", symbol, "...");
    }

    /// After the symbol typed in the add-symbol prompt was stored, the
    /// watchlist read back as `reloaded`, and the symbol's quote fetched.
    pub fn finish_add_symbol(&mut self, symbol: &str, reloaded: Watchlist, quote: Fetch)
        ensures
            final(self)@ == (AppView {
                current_watchlist: reloaded@,
                status_message: added_message(symbol@, quote),
                input_buffer: Seq::empty(),
                ..old(self)@
            }),
    {
        self.current_watchlist = reloaded;
        self.status_message = added_text(symbol, &quote);
        self.input_buffer = String::new();
    }

    /// Starts the fetch of the watchlist's quotes; `false` (and nothing to
    /// do) for an empty watchlist.
    pub fn begin_quotes_fetch(&mut self) -> (go: bool)
        ensures
            go == (old(self)@.current_watchlist.symbols.len() > 0),
            final(self)@ == if go {
                AppView { status_message: "Fetching quotes..."@, ..old(self)@ }
            } else {
                old(self)@
            },
    {
        if self.current_watchlist.symbols.len() == 0 {
            return false;
        }
        self.status_message = string_of("Fetching quotes...");
        true
    }

    /// Records how the quotes fetch ended; `Loaded` carries the number of
    /// quotes now held.
    pub fn finish_quotes_fetch(&mut self, fetched: Fetch)
        ensures
            final(self)@ == (AppView {
                status_message: match fetched {
                    Fetch::Loaded(n) => "Quotes loaded ("@ + nat_text(n as nat) + " symbols)"@,
                    Fetch::Failed(e) => "Error fetching quotes: "@ + e@,
                    Fetch::TickerFailed(e) => "Error creating tickers: "@ + e@,
                },
                ..old(self)@
            }),
    {
        self.status_message = match &fetched {
            Fetch::Loaded(n) => cat3("Quotes loaded (", usize_text(*n).as_str(), " symbols)"),
            Fetch::Failed(e) => cat2("Error fetching quotes: ", e.as_str()),
            Fetch::TickerFailed(e) => cat2("Error creating tickers: ", e.as_str()),
        };
    }

    /// Records a failed refresh of the portfolio prices.
    pub fn fail_portfolio_prices(&mut self, ticker_failed: bool, error: &str)
        ensures
            final(self)@ == (AppView {
                status_message: (if ticker_failed {
                    "Error creating tickers: "@
                } else {
                    "Error fetching portfolio prices: "@
                }) + error@,
                ..old(self)@
            }),
    {
        let prefix = if ticker_failed {
            "Error creating tickers: "
        } else {
            "Error fetching portfolio prices: "
        };
        self.status_message = cat2(prefix, error);
    }

    /// Starts loading the sectors; `false` when they are already loading.
    pub fn begin_sectors_fetch(&mut self) -> (go: bool)
        ensures
            go == !old(self)@.is_loading_sectors,
            final(self)@ == if go {
                AppView {
                    is_loading_sectors: true,
                    status_message: "Loading sector data..."@,
                    ..old(self)@
                }
            } else {
                old(self)@
            },
    {
        if self.is_loading_sectors {
            return false;
        }
        self.is_loading_sectors = true;
        self.status_message = string_of("Loading sector data...");
        true
    }

    /// After the sectors were loaded, `loaded` of them successfully, with
    /// the industry counts of those shown.
    pub fn finish_sectors_fetch(&mut self, loaded: usize, industry_counts: Vec<usize>)
        ensures
            final(self)@ == (AppView {
                is_loading_sectors: false,
                sector_industry_counts: industry_counts@,
                status_message: "Loaded "@ + nat_text(loaded as nat) + " sectors"@,
                ..old(self)@
            }),
    {
        self.is_loading_sectors = false;
        self.sector_industry_counts = industry_counts;
        self.status_message = cat3("Loaded ", usize_text(loaded).as_str(), " sectors");
    }

    /// Starts the fetch of the market news.
    pub fn begin_general_news(&mut self)
        ensures
            final(self)@ == (AppView { status_message: "Fetching market news..."@, ..old(self)@ }),
    {
        self.status_message = string_of("Fetching market news...");
    }

    /// Records the market news received (`Loaded` with the number of
    /// articles; at most twenty are kept) or the failure.
    pub fn finish_general_news(&mut self, fetched: Result<usize, String>)
        ensures
            final(self)@ == match fetched {
                Ok(n) => AppView {
                    news_count: kept_news(n),
                    selected_news_idx: 0,
                    news_symbol: None,
                    status_message: "Market news loaded ("@ + nat_text(kept_news(n) as nat)
                        + " items)"@,
                    ..old(self)@
                },
                Err(e) => AppView {
                    news_count: 0,
                    selected_news_idx: 0,
                    news_symbol: None,
                    status_message: "News error: "@ + e@,
                    ..old(self)@
                },
            },
    {
        match fetched {
            Ok(n) => {
                let kept = if n < 20 {
                    n
                } else {
                    20
                };
                self.news_count = kept;
                self.status_message = cat3("Market news loaded (", usize_text(kept).as_str(), " items)");
            },
            Err(e) => {
                self.news_count = 0;
                self.status_message = cat2("News error: ", e.as_str());
            },
        }
        self.selected_news_idx = 0;
        self.news_symbol = None;
    }

    /// Starts the fetch of the news of `symbol`.
    pub fn begin_symbol_news(&mut self, symbol: &str)
        ensures
            final(self)@ == (AppView {
                status_message: "Fetching news for "@ + symbol@ + "..."@,
                ..old(self)@
            }),
    {
        self.status_message = cat3("Fetching news for ", symbol, "...");
    }

    /// Records the news of `symbol` received, or the failure; on failure
    /// the news shown are cleared but keep their subject.
    pub fn finish_symbol_news(&mut self, symbol: &str, fetched: Fetch)
        ensures
            final(self)@ == match fetched {
                Fetch::Loaded(n) => AppView {
                    news_count: kept_news(n),
                    selected_news_idx: 0,
                    news_symbol: Some(symbol@),
                    status_message: "News loaded for "@ + symbol@ + " ("@ + nat_text(
                        kept_news(n) as nat,
                    ) + " items)"@,
                    ..old(self)@
                },
                Fetch::Failed(e) => AppView {
                    news_count: 0,
                    selected_news_idx: 0,
                    status_message: "News error for "@ + symbol@ + ": "@ + e@,
                    ..old(self)@
                },
                Fetch::TickerFailed(e) => AppView {
                    news_count: 0,
                    selected_news_idx: 0,
                    status_message: "Failed to create ticker for "@ + symbol@ + ": "@ + e@,
                    ..old(self)@
                },
            },
    {
        match fetched {
            Fetch::Loaded(n) => {
                let kept = if n < 20 {
                    n
                } else {
                    20
                };
                self.news_count = kept;
                self.news_symbol = Some(string_of(symbol));
                let mut m = cat3("News loaded for ", symbol, " (");
                push_str(&mut m, usize_text(kept).as_str());
                push_str(&mut m, " items)");
                self.status_message = m;
            },
            Fetch::Failed(e) => {
                self.news_count = 0;
                self.status_message = cat4("News error for ", symbol, ": ", e.as_str());
            },
            Fetch::TickerFailed(e) => {
                self.news_count = 0;
                self.status_message = cat4("Failed to create ticker for ", symbol, ": ", e.as_str());
            },
        }
        self.selected_news_idx = 0;
    }
}

} // verus!
