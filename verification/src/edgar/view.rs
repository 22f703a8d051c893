//! What the filings browser shows: the header lines, the key hints of the
//! footer, and which filings the list shows as the cursor moves.
use vstd::prelude::*;

use super::state::{App, AppMode, AppModeView, AppView};
use crate::format::{nat_text, usize_text};
use crate::text::{push_str, str_to_uppercase, string_of, unicode_uppercase};

verus! {

/// Filings the list shows at once in an area `height` rows high: each
/// filing takes four rows, and the border two.
pub open spec fn items_per_page(height: u16) -> int {
    (if height >= 2 {
        height - 2
    } else {
        0
    }) / 4
}

/// The first filing shown, kept so that the cursor stays visible.
pub open spec fn scrolled(selected: usize, scroll: usize, per_page: int) -> usize {
    if selected < scroll {
        selected
    } else if selected >= scroll + per_page {
        if selected >= per_page - 1 {
            (selected - (per_page - 1)) as usize
        } else {
            0
        }
    } else {
        scroll
    }
}

pub open spec fn title_text(app: AppView) -> Seq<char> {
    match app.mode {
        AppModeView::Symbol { symbol, .. } => "SEC EDGAR Filings: "@ + unicode_uppercase(symbol),
        AppModeView::Search { query, .. } => if query.len() == 0 {
            "SEC EDGAR Filing Browser"@
        } else {
            "SEC EDGAR Search: \""@ + query + "\""@
        },
    }
}

/// The filter shown after the title, when one is active.
pub open spec fn filter_text(app: AppView) -> Seq<char> {
    match app.filter_form {
        Some(f) => " [Filter: "@ + f + "]"@,
        None => Seq::empty(),
    }
}

pub open spec fn or_text(o: Option<Seq<char>>, default: Seq<char>) -> Seq<char> {
    match o {
        Some(s) => s,
        None => default,
    }
}

/// The number of pages of `total` results, `page_size` to a page.
pub open spec fn page_count(total: usize, page_size: usize) -> int {
    (total + page_size - 1) / (page_size as int)
}

/// The lines under the title.
pub open spec fn detail_lines(app: AppView) -> Seq<Seq<char>> {
    let position = nat_text((app.selected_index + 1) as nat) + " of "@ + nat_text(
        app.filings.len(),
    );
    match app.mode {
        AppModeView::Symbol { company_name, cik, .. } => seq![
            or_text(company_name, "Unknown Company"@) + " (CIK: "@ + or_text(cik, "N/A"@) + ")"@,
            "Showing filing "@ + position,
        ],
        AppModeView::Search { query, total_results, page_size, current_offset } => if query.len()
            == 0 {
            seq![
                "Type your search query below to find filings across all companies"@,
                "Or press Esc to quit and run 'fq edgar SYMBOL' to browse a specific company"@,
            ]
        } else {
            seq![
                "Page "@ + nat_text((current_offset / page_size + 1) as nat) + " of "@ + nat_text(
                    page_count(total_results, page_size) as nat,
                ) + " ("@ + nat_text(app.filings.len()) + " results, "@ + nat_text(
                    total_results as nat,
                ) + " total matches)"@,
                "Viewing filing "@ + position + " on this page"@,
            ]
        },
    }
}

pub open spec fn strings_view(v: Seq<String>) -> Seq<Seq<char>> {
    Seq::new(v.len(), |i: int| v[i]@)
}

/// `a` followed by `b`.
fn concat(a: &str, b: &str) -> (r: String)
    ensures
        r@ == a@ + b@,
{
    let mut r = string_of(a);
    push_str(&mut r, b);
    r
}

pub open spec fn hints_view(h: Seq<(&'static str, &'static str)>) -> Seq<(Seq<char>, Seq<char>)> {
    Seq::new(h.len(), |i: int| (h[i].0@, h[i].1@))
}

/// The footer's keys and what they do.
pub open spec fn footer_spec(search: bool) -> Seq<(Seq<char>, Seq<char>)> {
    seq![("↑/↓/j/k"@, " Navigate  "@), ("Enter/o"@, " Open  "@), ("f"@, " Filter  "@)] + (if search {
        seq![("←/→"@, " Page  "@)]
    } else {
        Seq::empty()
    }) + seq![("/"@, " Search  "@), ("s"@, " Symbol  "@), ("q/Esc"@, " Quit"@)]
}

impl App {
    /// Moves the first filing shown so that the cursor stays visible in an
    /// area `height` rows high, and returns how many filings fit in it. The
    /// area must hold at least one filing unless the cursor is above the
    /// first one shown.
    pub fn adjust_scroll(&mut self, height: u16) -> (per_page: usize)
        requires
            items_per_page(height) > 0 || old(self).selected_index < old(self).scroll_offset,
        ensures
            per_page == items_per_page(height),
            final(self)@ == (AppView {
                scroll_offset: scrolled(
                    old(self).selected_index,
                    old(self).scroll_offset,
                    items_per_page(height),
                ),
                ..old(self)@
            }),
    {
        let list_height: usize = if height >= 2 {
            (height - 2) as usize
        } else {
            0
        };
        let per_page = list_height / 4;
        if self.selected_index < self.scroll_offset {
            self.scroll_offset = self.selected_index;
        } else if self.selected_index - self.scroll_offset >= per_page {
            self.scroll_offset = if self.selected_index >= per_page - 1 {
                self.selected_index - (per_page - 1)
            } else {
                0
            };
        }
        per_page
    }

    /// The header's title.
    pub fn title_line(&self) -> (t: String)
        ensures
            t@ == title_text(self@),
    {
        match &self.mode {
            AppMode::Symbol { symbol, .. } => {
                let up = str_to_uppercase(symbol.as_str());
                concat("SEC EDGAR Filings: ", up.as_str())
            },
            AppMode::Search { query, .. } => {
                if query.as_str().is_empty() {
                    string_of("SEC EDGAR Filing Browser")
                } else {
                    let mut t = concat("SEC EDGAR Search: \"", query.as_str());
                    push_str(&mut t, "\"");
                    t
                }
            },
        }
    }

    /// The active filter, as shown after the title (empty without one).
    pub fn filter_label(&self) -> (t: String)
        ensures
            t@ == filter_text(self@),
    {
        match &self.filter_form {
            Some(f) => {
                let mut t = concat(" [Filter: ", f.as_str());
                push_str(&mut t, "]");
                t
            },
            None => String::new(),
        }
    }

    /// The header's lines under the title.
    pub fn detail_lines(&self) -> (lines: Vec<String>)
        requires
            self@.wf(),
        ensures
            strings_view(lines@) == detail_lines(self@),
    {
        let n = self.filings.len();
        proof {
            assert(self@.filings.len() == n);
            assert(self.selected_index < n || self.selected_index == 0);
        }
        let mut position = usize_text(self.selected_index + 1);
        push_str(&mut position, " of ");
        push_str(&mut position, usize_text(self.filings.len()).as_str());
        let mut lines: Vec<String> = Vec::new();
        match &self.mode {
            AppMode::Symbol { company_name, cik, .. } => {
                let mut first = match company_name {
                    Some(n) => n.clone(),
                    None => string_of("Unknown Company"),
                };
                push_str(&mut first, " (CIK: ");
                match cik {
                    Some(c) => push_str(&mut first, c.as_str()),
                    None => push_str(&mut first, "N/A"),
                }
                push_str(&mut first, ")");
                lines.push(first);
                lines.push(concat("Showing filing ", position.as_str()));
            },
            AppMode::Search { query, total_results, page_size, current_offset } => {
                if query.as_str().is_empty() {
                    lines.push(
                        string_of(
                            "Type your search query below to find filings across all companies",
                        ),
                    );
                    lines.push(
                        string_of(
                            "Or press Esc to quit and run 'fq edgar SYMBOL' to browse a specific company",
                        ),
                    );
                } else {
                    let page = *current_offset / *page_size + 1;
                    proof {
                        let t = *total_results as int;
                        let p = *page_size as int;
                        assert(t % p != 0 ==> t / p < usize::MAX) by (nonlinear_arith)
                            requires
                                p > 0,
                                0 <= t <= usize::MAX,
                        ;
                    }
                    let pages = *total_results / *page_size + if *total_results % *page_size
                        != 0 {
                        1
                    } else {
                        0
                    };
                    proof {
                        let t = *total_results as int;
                        let p = *page_size as int;
                        assert((t + p - 1) / p == t / p + if t % p != 0 {
                            1int
                        } else {
                            0int
                        }) by (nonlinear_arith)
                            requires
                                p > 0,
                                t >= 0,
                        ;
                    }
                    let mut first = concat("Page ", usize_text(page).as_str());
                    push_str(&mut first, " of ");
                    push_str(&mut first, usize_text(pages).as_str());
                    push_str(&mut first, " (");
                    push_str(&mut first, usize_text(self.filings.len()).as_str());
                    push_str(&mut first, " results, ");
                    push_str(&mut first, usize_text(*total_results).as_str());
                    push_str(&mut first, " total matches)");
                    lines.push(first);
                    let mut second = concat("Viewing filing ", position.as_str());
                    push_str(&mut second, " on this page");
                    lines.push(second);
                }
            },
        }
        proof {
            assert(strings_view(lines@) =~= detail_lines(self@));
        }
        lines
    }

    /// The key hints of the footer, key then action; paging is offered in
    /// search mode only.
    pub fn footer_hints(&self) -> (hints: Vec<(&'static str, &'static str)>)
        ensures
            hints_view(hints@) == footer_spec(self@.mode is Search),
    {
        let mut hints = vec![("↑/↓/j/k", " Navigate  "), ("Enter/o", " Open  "), ("f", " Filter  ")];
        if let AppMode::Search { .. } = &self.mode {
            hints.push(("←/→", " Page  "));
        }
        hints.push(("/", " Search  "));
        hints.push(("s", " Symbol  "));
        hints.push(("q/Esc", " Quit"));
        proof {
            assert(hints_view(hints@) =~= footer_spec(self@.mode is Search));
        }
        hints
    }
}

/// After the scroll is adjusted, the cursor is among the filings shown.
pub proof fn law_cursor_visible(selected: usize, scroll: usize, per_page: int)
    requires
        per_page > 0,
    ensures
        scrolled(selected, scroll, per_page) <= selected < scrolled(selected, scroll, per_page)
            + per_page,
{
}

} // verus!
