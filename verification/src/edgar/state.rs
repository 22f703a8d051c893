//! State of the interactive SEC EDGAR filings browser: the filings shown,
//! the cursor, the form-type filter, the text inputs, search paging, and the
//! decision taken on each key press.
use vstd::prelude::*;

use crate::commands::edgar::{form_at, form_code};
pub use crate::keys::{KeyCode, KeyEvent, KeyModifiers};
use crate::text::{
    char_first_uppercase, contains_sub, pop_char, push_char, push_str, str_contains, str_eq,
    str_to_uppercase, string_of, unicode_first_uppercase, unicode_uppercase,
};

verus! {

/// A filing, as the browser shows and filters it.
pub struct Filing {
    pub accession_number: String,
    pub filing_date: String,
    pub report_date: String,
    pub acceptance_date_time: String,
    pub form: String,
    pub size: u64,
    pub is_xbrl: bool,
    pub is_inline_xbrl: bool,
    pub primary_document: String,
    pub primary_doc_description: String,
}

pub struct FilingView {
    pub accession_number: Seq<char>,
    pub filing_date: Seq<char>,
    pub report_date: Seq<char>,
    pub acceptance_date_time: Seq<char>,
    pub form: Seq<char>,
    pub size: u64,
    pub is_xbrl: bool,
    pub is_inline_xbrl: bool,
    pub primary_document: Seq<char>,
    pub primary_doc_description: Seq<char>,
}

impl View for Filing {
    type V = FilingView;

    open spec fn view(&self) -> FilingView {
        FilingView {
            accession_number: self.accession_number@,
            filing_date: self.filing_date@,
            report_date: self.report_date@,
            acceptance_date_time: self.acceptance_date_time@,
            form: self.form@,
            size: self.size,
            is_xbrl: self.is_xbrl,
            is_inline_xbrl: self.is_inline_xbrl,
            primary_document: self.primary_document@,
            primary_doc_description: self.primary_doc_description@,
        }
    }
}

pub open spec fn filings_view(v: Seq<Filing>) -> Seq<FilingView> {
    Seq::new(v.len(), |i: int| v[i]@)
}

impl Filing {
    /// A field-by-field copy.
    pub fn duplicate(&self) -> (r: Filing)
        ensures
            r@ == self@,
    {
        Filing {
            accession_number: self.accession_number.clone(),
            filing_date: self.filing_date.clone(),
            report_date: self.report_date.clone(),
            acceptance_date_time: self.acceptance_date_time.clone(),
            form: self.form.clone(),
            size: self.size,
            is_xbrl: self.is_xbrl,
            is_inline_xbrl: self.is_inline_xbrl,
            primary_document: self.primary_document.clone(),
            primary_doc_description: self.primary_doc_description.clone(),
        }
    }
}

/// Copies a list of filings.
pub fn duplicate_filings(v: &Vec<Filing>) -> (r: Vec<Filing>)
    ensures
        filings_view(r@) == filings_view(v@),
{
    let mut out: Vec<Filing> = Vec::new();
    let mut i: usize = 0;
    while i < v.len()
        invariant
            i <= v.len(),
            out@.len() == i,
            filings_view(out@) == filings_view(v@).take(i as int),
        decreases v.len() - i,
    {
        let ghost before = out@;
        let d = v[i].duplicate();
        out.push(d);
        proof {
            assert(out@ == before.push(d));
            assert forall|j: int| 0 <= j < i + 1 implies #[trigger] filings_view(out@)[j]
                == filings_view(v@).take(i + 1)[j] by {
                assert(filings_view(out@)[j] == out@[j]@);
                assert(filings_view(v@).take(i + 1)[j] == v@[j]@);
                if j < i {
                    assert(filings_view(before)[j] == filings_view(v@).take(i as int)[j]);
                    assert(filings_view(before)[j] == before[j]@);
                    assert(before[j] == out@[j]);
                } else {
                    assert(out@[j] == d);
                    assert(d@ == v@[j]@);
                }
            }
            assert(filings_view(out@) =~= filings_view(v@).take(i + 1));
        }
        i = i + 1;
    }
    proof {
        assert(filings_view(v@).take(v.len() as int) =~= filings_view(v@));
    }
    out
}

/// URL of a filing on SEC EDGAR, as the filing model computes it from the
/// accession number and the primary document name.
pub uninterp spec fn edgar_filing_url(accession_number: Seq<char>, primary_document: Seq<char>) -> Seq<char>;

/// Calls `finance_query::EdgarFiling::edgar_url` on the filing. The URL is
/// built only from the accession number and the primary document (read in
/// the crate's source); its shape is named `edgar_filing_url`, not restated.
#[verifier::external_body]
fn filing_url(f: &Filing) -> (url: String)
    ensures
        url@ == edgar_filing_url(f.accession_number@, f.primary_document@),
{
    finance_query::EdgarFiling::new(
        f.accession_number.clone(),
        f.filing_date.clone(),
        f.report_date.clone(),
        f.acceptance_date_time.clone(),
        f.form.clone(),
        f.size,
        f.is_xbrl,
        f.is_inline_xbrl,
        f.primary_document.clone(),
        f.primary_doc_description.clone(),
    ).edgar_url()
}

/// What a full-text search hit carries that the browser shows.
pub struct SearchHit {
    pub adsh: Option<String>,
    pub file_date: Option<String>,
    pub period_ending: Option<String>,
    pub form: Option<String>,
    /// The first display name of the hit, if any.
    pub display_name: Option<String>,
}

pub open spec fn opt_or_empty(o: Option<String>) -> Seq<char> {
    match o {
        Some(s) => s@,
        None => Seq::empty(),
    }
}

/// The filing shown for a search hit: missing fields are empty, the size is
/// zero and the XBRL flags are off (search results do not carry them).
pub open spec fn hit_filing(h: SearchHit) -> FilingView {
    FilingView {
        accession_number: opt_or_empty(h.adsh),
        filing_date: opt_or_empty(h.file_date),
        report_date: opt_or_empty(h.period_ending),
        acceptance_date_time: Seq::empty(),
        form: opt_or_empty(h.form),
        size: 0,
        is_xbrl: false,
        is_inline_xbrl: false,
        primary_document: Seq::empty(),
        primary_doc_description: opt_or_empty(h.display_name),
    }
}

fn take_or_empty(o: Option<String>) -> (r: String)
    ensures
        r@ == opt_or_empty(o),
{
    match o {
        Some(s) => s,
        None => String::new(),
    }
}

/// Converts a search hit into the filing shown for it.
pub fn filing_from_search_hit(h: SearchHit) -> (f: Filing)
    ensures
        f@ == hit_filing(h),
{
    Filing {
        accession_number: take_or_empty(h.adsh),
        filing_date: take_or_empty(h.file_date),
        report_date: take_or_empty(h.period_ending),
        acceptance_date_time: String::new(),
        form: take_or_empty(h.form),
        size: 0,
        is_xbrl: false,
        is_inline_xbrl: false,
        primary_document: String::new(),
        primary_doc_description: take_or_empty(h.display_name),
    }
}

/// Converts all search hits, in order.
pub fn filings_from_search_hits(hits: Vec<SearchHit>) -> (r: Vec<Filing>)
    ensures
        filings_view(r@) == Seq::new(hits@.len(), |i: int| hit_filing(hits@[i])),
{
    let ghost hs = hits@;
    let mut hits = hits;
    let mut rev: Vec<Filing> = Vec::new();
    while hits.len() > 0
        invariant
            hits@.len() + rev@.len() == hs.len(),
            hits@ == hs.take(hits@.len() as int),
            forall|i: int|
                0 <= i < rev@.len() ==> #[trigger] rev@[i]@ == hit_filing(
                    hs[hs.len() - 1 - i],
                ),
        decreases hits.len(),
    {
        let h = hits.pop().unwrap();
        proof {
            assert(h == hs[hits@.len() as int]);
        }
        rev.push(filing_from_search_hit(h));
        proof {
            assert(hits@ =~= hs.take(hits@.len() as int));
        }
    }
    let mut out: Vec<Filing> = Vec::new();
    while rev.len() > 0
        invariant
            rev@.len() + out@.len() == hs.len(),
            forall|i: int|
                0 <= i < rev@.len() ==> #[trigger] rev@[i]@ == hit_filing(
                    hs[hs.len() - 1 - i],
                ),
            forall|i: int| 0 <= i < out@.len() ==> #[trigger] out@[i]@ == hit_filing(hs[i]),
        decreases rev.len(),
    {
        let ghost k = rev@.len() - 1;
        let f = rev.pop().unwrap();
        out.push(f);
    }
    proof {
        assert(filings_view(out@) =~= Seq::new(hs.len(), |i: int| hit_filing(hs[i])));
    }
    out
}

/// Number of search results reported by the search (`0` when absent).
pub fn total_results_of(total: Option<u64>) -> (n: usize)
    ensures
        n == match total {
            Some(t) => t as usize,
            None => 0usize,
        },
{
    match total {
        Some(t) => t as usize,
        None => 0,
    }
}

pub enum AppMode {
    /// The recent filings of a company; its name and CIK as EDGAR gives them.
    Symbol { symbol: String, company_name: Option<String>, cik: Option<String> },
    Search { query: String, total_results: usize, page_size: usize, current_offset: usize },
}

pub enum AppModeView {
    Symbol { symbol: Seq<char>, company_name: Option<Seq<char>>, cik: Option<Seq<char>> },
    Search { query: Seq<char>, total_results: usize, page_size: usize, current_offset: usize },
}

impl View for AppMode {
    type V = AppModeView;

    open spec fn view(&self) -> AppModeView {
        match self {
            AppMode::Symbol { symbol, company_name, cik } => AppModeView::Symbol {
                symbol: symbol@,
                company_name: opt_view(*company_name),
                cik: opt_view(*cik),
            },
            AppMode::Search { query, total_results, page_size, current_offset } => {
                AppModeView::Search {
                    query: query@,
                    total_results: *total_results,
                    page_size: *page_size,
                    current_offset: *current_offset,
                }
            },
        }
    }
}

#[derive(Debug, Clone, Copy, PartialEq, Eq, Structural)]
pub enum InputMode {
    Normal,
    SearchInput,
    SymbolInput,
}

/// Number of search results per page.
pub const PAGE_SIZE: usize = 100;

pub struct App {
    pub mode: AppMode,
    pub filings: Vec<Filing>,
    /// The filings before the form filter, kept for re-filtering.
    pub unfiltered_filings: Vec<Filing>,
    pub selected_index: usize,
    pub scroll_offset: usize,
    pub filter_form: Option<String>,
    pub input_mode: InputMode,
    pub search_input: String,
    pub symbol_input: String,
    pub error_message: Option<String>,
}

#[verifier::ext_equal]
pub struct AppView {
    pub mode: AppModeView,
    pub filings: Seq<FilingView>,
    pub unfiltered_filings: Seq<FilingView>,
    pub selected_index: usize,
    pub scroll_offset: usize,
    pub filter_form: Option<Seq<char>>,
    pub input_mode: InputMode,
    pub search_input: Seq<char>,
    pub symbol_input: Seq<char>,
    pub error_message: Option<Seq<char>>,
}

pub open spec fn opt_view(o: Option<String>) -> Option<Seq<char>> {
    match o {
        Some(s) => Some(s@),
        None => None,
    }
}

impl View for App {
    type V = AppView;

    open spec fn view(&self) -> AppView {
        AppView {
            mode: self.mode@,
            filings: filings_view(self.filings@),
            unfiltered_filings: filings_view(self.unfiltered_filings@),
            selected_index: self.selected_index,
            scroll_offset: self.scroll_offset,
            filter_form: opt_view(self.filter_form),
            input_mode: self.input_mode,
            search_input: self.search_input@,
            symbol_input: self.symbol_input@,
            error_message: opt_view(self.error_message),
        }
    }
}

/// A filing matches a form filter when its form, upper-cased, contains the
/// upper-cased filter.
pub open spec fn form_matches(f: FilingView, filter: Seq<char>) -> bool {
    contains_sub(unicode_uppercase(f.form), unicode_uppercase(filter))
}

/// The filings that pass the filter, in order.
pub open spec fn filter_by_form(fs: Seq<FilingView>, filter: Seq<char>) -> Seq<FilingView>
    decreases fs.len(),
{
    if fs.len() == 0 {
        fs
    } else {
        let rest = filter_by_form(fs.drop_last(), filter);
        if form_matches(fs.last(), filter) {
            rest.push(fs.last())
        } else {
            rest
        }
    }
}

impl AppView {
    /// The cursor points at a filing, or is at the top of an empty list, and
    /// the offset of the next page of search results is a `usize` (with pages
    /// of at least one result).
    pub open spec fn wf(self) -> bool {
        &&& if self.filings.len() == 0 {
            self.selected_index == 0
        } else {
            self.selected_index < self.filings.len()
        }
        &&& self.mode matches AppModeView::Search { page_size, current_offset, .. }
            ==> current_offset + page_size <= usize::MAX && page_size > 0
    }
}

impl App {
    /// A browser that starts in search input mode with nothing loaded.
    pub fn new_empty() -> (app: Self)
        ensures
            app@ == (AppView {
                mode: AppModeView::Search {
                    query: Seq::empty(),
                    total_results: 0,
                    page_size: PAGE_SIZE,
                    current_offset: 0,
                },
                filings: Seq::empty(),
                unfiltered_filings: Seq::empty(),
                selected_index: 0,
                scroll_offset: 0,
                filter_form: None,
                input_mode: InputMode::SearchInput,
                search_input: Seq::empty(),
                symbol_input: Seq::empty(),
                error_message: None,
            }),
    {
        App {
            mode: AppMode::Search {
                query: String::new(),
                total_results: 0,
                page_size: PAGE_SIZE,
                current_offset: 0,
            },
            filings: Vec::new(),
            unfiltered_filings: Vec::new(),
            selected_index: 0,
            scroll_offset: 0,
            filter_form: None,
            input_mode: InputMode::SearchInput,
            search_input: String::new(),
            symbol_input: String::new(),
            error_message: None,
        }
    }

    /// A browser over the recent filings of `symbol`, the company that
    /// EDGAR names `company_name` under `cik`.
    pub fn new_symbol(
        symbol: String,
        company_name: Option<String>,
        cik: Option<String>,
        filings: Vec<Filing>,
    ) -> (app: Self)
        ensures
            app@ == (AppView {
                mode: AppModeView::Symbol {
                    symbol: symbol@,
                    company_name: opt_view(company_name),
                    cik: opt_view(cik),
                },
                filings: filings_view(filings@),
                unfiltered_filings: filings_view(filings@),
                selected_index: 0,
                scroll_offset: 0,
                filter_form: None,
                input_mode: InputMode::Normal,
                search_input: Seq::empty(),
                symbol_input: Seq::empty(),
                error_message: None,
            }),
    {
        let unfiltered = duplicate_filings(&filings);
        App {
            mode: AppMode::Symbol { symbol, company_name, cik },
            unfiltered_filings: unfiltered,
            filings,
            selected_index: 0,
            scroll_offset: 0,
            filter_form: None,
            input_mode: InputMode::Normal,
            search_input: String::new(),
            symbol_input: String::new(),
            error_message: None,
        }
    }

    /// A browser over the results of a full-text search for `query`.
    pub fn new_search(query: String, total: Option<u64>, hits: Vec<SearchHit>) -> (app: Self)
        ensures
            app@ == (AppView {
                mode: AppModeView::Search {
                    query: query@,
                    total_results: match total {
                        Some(t) => t as usize,
                        None => 0usize,
                    },
                    page_size: PAGE_SIZE,
                    current_offset: 0,
                },
                filings: Seq::new(hits@.len(), |i: int| hit_filing(hits@[i])),
                unfiltered_filings: Seq::new(hits@.len(), |i: int| hit_filing(hits@[i])),
                selected_index: 0,
                scroll_offset: 0,
                filter_form: None,
                input_mode: InputMode::Normal,
                search_input: Seq::empty(),
                symbol_input: Seq::empty(),
                error_message: None,
            }),
    {
        let total_results = total_results_of(total);
        let filings = filings_from_search_hits(hits);
        let unfiltered = duplicate_filings(&filings);
        App {
            mode: AppMode::Search { query, total_results, page_size: PAGE_SIZE, current_offset: 0 },
            unfiltered_filings: unfiltered,
            filings,
            selected_index: 0,
            scroll_offset: 0,
            filter_form: None,
            input_mode: InputMode::Normal,
            search_input: String::new(),
            symbol_input: String::new(),
            error_message: None,
        }
    }

    /// Moves the cursor down one filing, stopping at the last.
    pub fn next_filing(&mut self)
        ensures
            final(self)@ == next_filing_spec(old(self)@),
    {
        let last = if self.filings.len() > 0 {
            self.filings.len() - 1
        } else {
            0
        };
        if self.selected_index < last {
            self.selected_index = self.selected_index + 1;
        }
    }

    /// Moves the cursor up one filing, stopping at the first.
    pub fn prev_filing(&mut self)
        ensures
            final(self)@ == prev_filing_spec(old(self)@),
    {
        if self.selected_index > 0 {
            self.selected_index = self.selected_index - 1;
        }
    }

    /// Moves the cursor down `page_size` filings, stopping at the last.
    pub fn page_down(&mut self, page_size: usize)
        ensures
            final(self)@ == page_down_spec(old(self)@, page_size),
    {
        let last = if self.filings.len() > 0 {
            self.filings.len() - 1
        } else {
            0
        };
        self.selected_index = if self.selected_index >= last || page_size > last - self.selected_index {
            last
        } else {
            self.selected_index + page_size
        };
    }

    /// Moves the cursor up `page_size` filings, stopping at the first.
    pub fn page_up(&mut self, page_size: usize)
        ensures
            final(self)@ == page_up_spec(old(self)@, page_size),
    {
        self.selected_index = if self.selected_index >= page_size {
            self.selected_index - page_size
        } else {
            0
        };
    }

    pub fn jump_to_top(&mut self)
        ensures
            final(self)@ == (AppView { selected_index: 0, ..old(self)@ }),
    {
        self.selected_index = 0;
    }

    pub fn jump_to_bottom(&mut self)
        ensures
            final(self)@ == jump_to_bottom_spec(old(self)@),
    {
        self.selected_index = if self.filings.len() > 0 {
            self.filings.len() - 1
        } else {
            0
        };
    }

    /// The EDGAR URL of the filing under the cursor, if there is one.
    pub fn open_selected_filing(&self) -> (url: Option<String>)
        ensures
            match url {
                Some(u) => self.selected_index < self.filings@.len() && u@ == edgar_filing_url(
                    self@.filings[self.selected_index as int].accession_number,
                    self@.filings[self.selected_index as int].primary_document,
                ),
                None => self.selected_index >= self.filings@.len(),
            },
    {
        if self.selected_index < self.filings.len() {
            Some(filing_url(&self.filings[self.selected_index]))
        } else {
            None
        }
    }

    pub fn start_search_input(&mut self)
        ensures
            final(self)@ == (AppView {
                input_mode: InputMode::SearchInput,
                search_input: Seq::empty(),
                ..old(self)@
            }),
    {
        self.input_mode = InputMode::SearchInput;
        self.search_input = String::new();
    }

    pub fn start_symbol_input(&mut self)
        ensures
            final(self)@ == (AppView {
                input_mode: InputMode::SymbolInput,
                symbol_input: Seq::empty(),
                ..old(self)@
            }),
    {
        self.input_mode = InputMode::SymbolInput;
        self.symbol_input = String::new();
    }

    pub fn cancel_input(&mut self)
        ensures
            final(self)@ == cancel_input_spec(old(self)@),
    {
        self.input_mode = InputMode::Normal;
        self.search_input = String::new();
        self.symbol_input = String::new();
        self.error_message = None;
    }

    /// Types `c` into the active input; symbols are typed upper-case.
    pub fn push_input_char(&mut self, c: char)
        ensures
            final(self)@ == push_input_spec(old(self)@, c),
    {
        match self.input_mode {
            InputMode::SearchInput => push_char(&mut self.search_input, c),
            InputMode::SymbolInput => push_char(&mut self.symbol_input, char_first_uppercase(c)),
            InputMode::Normal => {},
        }
    }

    /// Deletes the last character of the active input.
    pub fn pop_input_char(&mut self)
        ensures
            final(self)@ == pop_input_spec(old(self)@),
    {
        match self.input_mode {
            InputMode::SearchInput => {
                let _ = pop_char(&mut self.search_input);
            },
            InputMode::SymbolInput => {
                let _ = pop_char(&mut self.symbol_input);
            },
            InputMode::Normal => {},
        }
    }

    /// Starts the search typed in the search input. With an empty input
    /// nothing happens (`None`); otherwise the error shown is cleared and the
    /// query to send to EDGAR full-text search is returned.
    pub fn execute_search_sync(&mut self) -> (query: Option<String>)
        ensures
            old(self)@.search_input.len() == 0 ==> query is None && final(self)@ == old(self)@,
            old(self)@.search_input.len() > 0 ==> (query matches Some(q) && q@ == old(
                self,
            )@.search_input && final(self)@ == (AppView { error_message: None, ..old(self)@ })),
    {
        if self.search_input.as_str().is_empty() {
            return None;
        }
        self.error_message = None;
        Some(self.search_input.clone())
    }

    /// Shows the results of the search started by [`App::execute_search_sync`]:
    /// the first page of results for the query in the search input, unfiltered,
    /// with the cursor at the top, back in normal mode with the input cleared.
    pub fn finish_search(&mut self, total: Option<u64>, hits: Vec<SearchHit>)
        ensures
            final(self)@ == (AppView {
                input_mode: InputMode::Normal,
                search_input: Seq::empty(),
                ..search_results_spec(old(self)@, old(self)@.search_input, total, hits@, 0)
            }),
    {
        let query = self.search_input.clone();
        self.show_search_page(query, total, hits, 0);
        self.input_mode = InputMode::Normal;
        self.search_input = String::new();
    }

    /// Records a failed search: the error is shown, and the search input is
    /// left and cleared.
    pub fn fail_search(&mut self, error: &str)
        ensures
            final(self)@ == (AppView {
                error_message: Some("Search failed: "@ + error@),
                input_mode: InputMode::Normal,
                search_input: Seq::empty(),
                ..old(self)@
            }),
    {
        let mut msg = string_of("Search failed: ");
        push_str(&mut msg, error);
        self.error_message = Some(msg);
        self.input_mode = InputMode::Normal;
        self.search_input = String::new();
    }

    /// Starts the lookup of the symbol typed in the symbol input. With an
    /// empty input nothing happens (`None`); otherwise the error shown is
    /// cleared and the symbol, upper-cased, is returned for the lookup of its
    /// CIK and submissions.
    pub fn execute_symbol_lookup(&mut self) -> (symbol: Option<String>)
        ensures
            old(self)@.symbol_input.len() == 0 ==> symbol is None && final(self)@ == old(self)@,
            old(self)@.symbol_input.len() > 0 ==> (symbol matches Some(s) && s@ == unicode_uppercase(
                old(self)@.symbol_input,
            ) && final(self)@ == (AppView { error_message: None, ..old(self)@ })),
    {
        if self.symbol_input.as_str().is_empty() {
            return None;
        }
        self.error_message = None;
        Some(str_to_uppercase(self.symbol_input.as_str()))
    }

    /// Shows the recent filings found for `symbol`, unfiltered, with the
    /// cursor at the top, back in normal mode with the symbol input cleared.
    pub fn finish_symbol_lookup(
        &mut self,
        symbol: String,
        company_name: Option<String>,
        cik: Option<String>,
        filings: Vec<Filing>,
    )
        ensures
            final(self)@ == (AppView {
                mode: AppModeView::Symbol {
                    symbol: symbol@,
                    company_name: opt_view(company_name),
                    cik: opt_view(cik),
                },
                filings: filings_view(filings@),
                unfiltered_filings: filings_view(filings@),
                selected_index: 0,
                scroll_offset: 0,
                filter_form: None,
                input_mode: InputMode::Normal,
                symbol_input: Seq::empty(),
                ..old(self)@
            }),
    {
        self.unfiltered_filings = duplicate_filings(&filings);
        self.filings = filings;
        self.mode = AppMode::Symbol { symbol, company_name, cik };
        self.selected_index = 0;
        self.scroll_offset = 0;
        self.filter_form = None;
        self.input_mode = InputMode::Normal;
        self.symbol_input = String::new();
    }

    /// Records a failed lookup: the error is shown, and the symbol input is
    /// left and cleared.
    pub fn fail_symbol_lookup(&mut self, error: &str)
        ensures
            final(self)@ == (AppView {
                error_message: Some("Symbol lookup failed: "@ + error@),
                input_mode: InputMode::Normal,
                symbol_input: Seq::empty(),
                ..old(self)@
            }),
    {
        let mut msg = string_of("Symbol lookup failed: ");
        push_str(&mut msg, error);
        self.error_message = Some(msg);
        self.input_mode = InputMode::Normal;
        self.symbol_input = String::new();
    }

    /// Shows the filings whose form contains `form_type` (ignoring case), or
    /// all of them for `None`; always filters the unfiltered list and moves
    /// the cursor to the top.
    pub fn apply_filter(&mut self, form_type: Option<String>)
        ensures
            final(self)@ == apply_filter_spec(old(self)@, opt_view(form_type)),
    {
        let filtered = match &form_type {
            Some(filter) => {
                let wanted = str_to_uppercase(filter.as_str());
                let mut out: Vec<Filing> = Vec::new();
                let mut i: usize = 0;
                while i < self.unfiltered_filings.len()
                    invariant
                        i <= self.unfiltered_filings.len(),
                        wanted@ == unicode_uppercase(filter@),
                        filings_view(out@) == filter_by_form(
                            filings_view(self.unfiltered_filings@).take(i as int),
                            filter@,
                        ),
                    decreases self.unfiltered_filings.len() - i,
                {
                    let ghost all = filings_view(self.unfiltered_filings@);
                    proof {
                        assert(all.take(i + 1).drop_last() =~= all.take(i as int));
                        assert(all.take(i + 1).last() == all[i as int]);
                    }
                    let f = &self.unfiltered_filings[i];
                    let form_up = str_to_uppercase(f.form.as_str());
                    if str_contains(form_up.as_str(), wanted.as_str()) {
                        let ghost before = filings_view(out@);
                        out.push(f.duplicate());
                        proof {
                            assert(filings_view(out@) =~= before.push(all[i as int]));
                        }
                    }
                    i = i + 1;
                }
                proof {
                    assert(filings_view(self.unfiltered_filings@).take(
                        self.unfiltered_filings.len() as int,
                    ) =~= filings_view(self.unfiltered_filings@));
                }
                out
            },
            None => duplicate_filings(&self.unfiltered_filings),
        };
        self.filter_form = form_type;
        self.filings = filtered;
        self.selected_index = 0;
        self.scroll_offset = 0;
    }

    /// Decides whether the next page of search results can be loaded: in
    /// search mode, when the next offset is still below the total; then the
    /// error shown is cleared and the query and offset to load are returned.
    pub fn load_next_page(&mut self) -> (page: Option<(String, usize)>)
        requires
            old(self)@.mode matches AppModeView::Search { page_size, current_offset, .. }
                ==> current_offset + page_size <= usize::MAX,
        ensures
            match next_page_spec(old(self)@.mode) {
                Some((q, off)) => page matches Some((pq, poff)) && pq@ == q && poff == off
                    && final(self)@ == (AppView { error_message: None, ..old(self)@ }),
                None => page is None && final(self)@ == old(self)@,
            },
    {
        let page = match &self.mode {
            AppMode::Search { query, total_results, page_size, current_offset } => {
                let new_offset = *current_offset + *page_size;
                if new_offset >= *total_results {
                    None
                } else {
                    Some((query.clone(), new_offset))
                }
            },
            AppMode::Symbol { .. } => None,
        };
        if page.is_some() {
            self.error_message = None;
        }
        page
    }

    /// Decides whether the previous page of search results can be loaded:
    /// in search mode, unless on the first page; the new offset goes back one
    /// page, not below zero. Then the error shown is cleared.
    pub fn load_prev_page(&mut self) -> (page: Option<(String, usize)>)
        ensures
            match prev_page_spec(old(self)@.mode) {
                Some((q, off)) => page matches Some((pq, poff)) && pq@ == q && poff == off
                    && final(self)@ == (AppView { error_message: None, ..old(self)@ }),
                None => page is None && final(self)@ == old(self)@,
            },
    {
        let page = match &self.mode {
            AppMode::Search { query, page_size, current_offset, .. } => {
                if *current_offset == 0 {
                    None
                } else {
                    let new_offset = if *current_offset >= *page_size {
                        *current_offset - *page_size
                    } else {
                        0
                    };
                    Some((query.clone(), new_offset))
                }
            },
            AppMode::Symbol { .. } => None,
        };
        if page.is_some() {
            self.error_message = None;
        }
        page
    }

    /// Shows a page of search results for `query` starting at `offset`,
    /// unfiltered, with the cursor at the top.
    pub fn finish_load_page(
        &mut self,
        query: String,
        offset: usize,
        total: Option<u64>,
        hits: Vec<SearchHit>,
    )
        ensures
            final(self)@ == search_results_spec(old(self)@, query@, total, hits@, offset),
    {
        self.show_search_page(query, total, hits, offset);
    }

    fn show_search_page(&mut self, query: String, total: Option<u64>, hits: Vec<SearchHit>, offset: usize)
        ensures
            final(self)@ == search_results_spec(old(self)@, query@, total, hits@, offset),
    {
        let total_results = total_results_of(total);
        let filings = filings_from_search_hits(hits);
        self.unfiltered_filings = duplicate_filings(&filings);
        self.filings = filings;
        self.mode = AppMode::Search {
            query,
            total_results,
            page_size: PAGE_SIZE,
            current_offset: offset,
        };
        self.selected_index = 0;
        self.scroll_offset = 0;
        self.filter_form = None;
    }

    /// Records a failed page load (`next` tells which direction): the error is shown.
    pub fn fail_load_page(&mut self, next: bool, error: &str)
        ensures
            final(self)@ == (AppView {
                error_message: Some(
                    (if next {
                        "Failed to load next page: "@
                    } else {
                        "Failed to load previous page: "@
                    }) + error@,
                ),
                ..old(self)@
            }),
    {
        let mut msg = if next {
            string_of("Failed to load next page: ")
        } else {
            string_of("Failed to load previous page: ")
        };
        push_str(&mut msg, error);
        self.error_message = Some(msg);
    }
}

// ── State transitions ───────────────────────────────────────────────────────

pub open spec fn last_index(app: AppView) -> int {
    if app.filings.len() > 0 {
        app.filings.len() - 1
    } else {
        0
    }
}

pub open spec fn next_filing_spec(app: AppView) -> AppView {
    AppView {
        selected_index: if app.selected_index + 1 < app.filings.len() {
            (app.selected_index + 1) as usize
        } else {
            app.selected_index
        },
        ..app
    }
}

pub open spec fn prev_filing_spec(app: AppView) -> AppView {
    AppView {
        selected_index: if app.selected_index > 0 {
            (app.selected_index - 1) as usize
        } else {
            0
        },
        ..app
    }
}

/// `min(selected + page_size, last)`.
pub open spec fn page_down_spec(app: AppView, page_size: usize) -> AppView {
    AppView {
        selected_index: if app.selected_index + page_size < last_index(app) {
            (app.selected_index + page_size) as usize
        } else {
            last_index(app) as usize
        },
        ..app
    }
}

pub open spec fn page_up_spec(app: AppView, page_size: usize) -> AppView {
    AppView {
        selected_index: if app.selected_index >= page_size {
            (app.selected_index - page_size) as usize
        } else {
            0
        },
        ..app
    }
}

pub open spec fn jump_to_bottom_spec(app: AppView) -> AppView {
    AppView { selected_index: last_index(app) as usize, ..app }
}

pub open spec fn cancel_input_spec(app: AppView) -> AppView {
    AppView {
        input_mode: InputMode::Normal,
        search_input: Seq::empty(),
        symbol_input: Seq::empty(),
        error_message: None,
        ..app
    }
}

pub open spec fn push_input_spec(app: AppView, c: char) -> AppView {
    match app.input_mode {
        InputMode::SearchInput => AppView { search_input: app.search_input.push(c), ..app },
        InputMode::SymbolInput => AppView {
            symbol_input: app.symbol_input.push(unicode_first_uppercase(c)),
            ..app
        },
        InputMode::Normal => app,
    }
}

pub open spec fn pop_input_spec(app: AppView) -> AppView {
    match app.input_mode {
        InputMode::SearchInput => AppView {
            search_input: drop_last_char(app.search_input),
            ..app
        },
        InputMode::SymbolInput => AppView {
            symbol_input: drop_last_char(app.symbol_input),
            ..app
        },
        InputMode::Normal => app,
    }
}

pub open spec fn apply_filter_spec(app: AppView, form_type: Option<Seq<char>>) -> AppView {
    AppView {
        filter_form: form_type,
        filings: match form_type {
            Some(f) => filter_by_form(app.unfiltered_filings, f),
            None => app.unfiltered_filings,
        },
        selected_index: 0,
        scroll_offset: 0,
        ..app
    }
}

/// A page of search results shown in place of whatever was shown.
pub open spec fn search_results_spec(
    app: AppView,
    query: Seq<char>,
    total: Option<u64>,
    hits: Seq<SearchHit>,
    offset: usize,
) -> AppView {
    AppView {
        mode: AppModeView::Search {
            query,
            total_results: match total {
                Some(t) => t as usize,
                None => 0usize,
            },
            page_size: PAGE_SIZE,
            current_offset: offset,
        },
        filings: Seq::new(hits.len(), |i: int| hit_filing(hits[i])),
        unfiltered_filings: Seq::new(hits.len(), |i: int| hit_filing(hits[i])),
        selected_index: 0,
        scroll_offset: 0,
        filter_form: None,
        ..app
    }
}

/// The query and offset of the next page, when there is one.
pub open spec fn next_page_spec(mode: AppModeView) -> Option<(Seq<char>, usize)> {
    match mode {
        AppModeView::Search { query, total_results, page_size, current_offset } => {
            if current_offset + page_size >= total_results {
                None
            } else {
                Some((query, (current_offset + page_size) as usize))
            }
        },
        AppModeView::Symbol { .. } => None,
    }
}

/// The query and offset of the previous page, when there is one.
pub open spec fn prev_page_spec(mode: AppModeView) -> Option<(Seq<char>, usize)> {
    match mode {
        AppModeView::Search { query, page_size, current_offset, .. } => {
            if current_offset == 0 {
                None
            } else if current_offset >= page_size {
                Some((query, (current_offset - page_size) as usize))
            } else {
                Some((query, 0usize))
            }
        },
        AppModeView::Symbol { .. } => None,
    }
}

// ── Form filter cycle ───────────────────────────────────────────────────────

/// The filter that the `f` key moves to from `current`: no filter, then
/// 10-K, 10-Q, 8-K, 4, S-1, DEF 14A, 10-K/A, 10-Q/A, S-3, 20-F, and back to
/// no filter; from any other filter, back to no filter.
pub open spec fn next_filter_spec(current: Option<Seq<char>>) -> Option<Seq<char>> {
    match current {
        None => Some("10-K"@),
        Some(f) => if f == "10-K"@ {
            Some("10-Q"@)
        } else if f == "10-Q"@ {
            Some("8-K"@)
        } else if f == "8-K"@ {
            Some("4"@)
        } else if f == "4"@ {
            Some("S-1"@)
        } else if f == "S-1"@ {
            Some("DEF 14A"@)
        } else if f == "DEF 14A"@ {
            Some("10-K/A"@)
        } else if f == "10-K/A"@ {
            Some("10-Q/A"@)
        } else if f == "10-Q/A"@ {
            Some("S-3"@)
        } else if f == "S-3"@ {
            Some("20-F"@)
        } else {
            None
        },
    }
}

/// The filter after `current` in the `f` key's cycle.
pub fn next_filter(current: &Option<String>) -> (next: Option<String>)
    ensures
        opt_view(next) == next_filter_spec(opt_view(*current)),
{
    match current {
        None => Some(string_of("10-K")),
        Some(f) => {
            let f = f.as_str();
            if str_eq(f, "10-K") {
                Some(string_of("10-Q"))
            } else if str_eq(f, "10-Q") {
                Some(string_of("8-K"))
            } else if str_eq(f, "8-K") {
                Some(string_of("4"))
            } else if str_eq(f, "4") {
                Some(string_of("S-1"))
            } else if str_eq(f, "S-1") {
                Some(string_of("DEF 14A"))
            } else if str_eq(f, "DEF 14A") {
                Some(string_of("10-K/A"))
            } else if str_eq(f, "10-K/A") {
                Some(string_of("10-Q/A"))
            } else if str_eq(f, "10-Q/A") {
                Some(string_of("S-3"))
            } else if str_eq(f, "S-3") {
                Some(string_of("20-F"))
            } else {
                None
            }
        },
    }
}

pub open spec fn next_filter_n(current: Option<Seq<char>>, n: nat) -> Option<Seq<char>>
    decreases n,
{
    if n == 0 {
        current
    } else {
        next_filter_spec(next_filter_n(current, (n - 1) as nat))
    }
}

/// Pressing `f` eleven times from no filter goes through the ten form types
/// of the `edgar` command, in their order, and comes back to no filter.
pub proof fn law_filter_cycle_period()
    ensures
        next_filter_n(None, 11) == None::<Seq<char>>,
        forall|n: nat|
            1 <= n <= 10 ==> #[trigger] next_filter_n(None, n) == Some(form_code(form_at(n - 1))),
{
    reveal_strlit("10-K");
    reveal_strlit("10-Q");
    reveal_strlit("8-K");
    reveal_strlit("4");
    reveal_strlit("S-1");
    reveal_strlit("DEF 14A");
    reveal_strlit("10-K/A");
    reveal_strlit("10-Q/A");
    reveal_strlit("S-3");
    reveal_strlit("20-F");
    assert(next_filter_n(None, 0) == None::<Seq<char>>);
    assert(next_filter_n(None, 1) == Some("10-K"@));
    assert(next_filter_n(None, 2) == Some("10-Q"@)) by {
        assert(next_filter_n(None, 2) == next_filter_spec(next_filter_n(None, 1)));
    }
    assert(next_filter_n(None, 3) == Some("8-K"@)) by {
        assert(next_filter_n(None, 3) == next_filter_spec(next_filter_n(None, 2)));
        assert("10-Q"@[3] != "10-K"@[3]);
    }
    assert(next_filter_n(None, 4) == Some("4"@)) by {
        assert(next_filter_n(None, 4) == next_filter_spec(next_filter_n(None, 3)));
        assert("8-K"@.len() != "10-K"@.len());
        assert("8-K"@.len() != "10-Q"@.len());
    }
    assert(next_filter_n(None, 5) == Some("S-1"@)) by {
        assert(next_filter_n(None, 5) == next_filter_spec(next_filter_n(None, 4)));
        assert("4"@.len() != "10-K"@.len());
        assert("4"@.len() != "10-Q"@.len());
        assert("4"@.len() != "8-K"@.len());
    }
    assert(next_filter_n(None, 6) == Some("DEF 14A"@)) by {
        assert(next_filter_n(None, 6) == next_filter_spec(next_filter_n(None, 5)));
        assert("S-1"@.len() != "10-K"@.len());
        assert("S-1"@.len() != "10-Q"@.len());
        assert("S-1"@[0] != "8-K"@[0]);
        assert("S-1"@.len() != "4"@.len());
    }
    assert(next_filter_n(None, 7) == Some("10-K/A"@)) by {
        assert(next_filter_n(None, 7) == next_filter_spec(next_filter_n(None, 6)));
        assert("DEF 14A"@.len() != "10-K"@.len());
        assert("DEF 14A"@.len() != "10-Q"@.len());
        assert("DEF 14A"@.len() != "8-K"@.len());
        assert("DEF 14A"@.len() != "4"@.len());
        assert("DEF 14A"@.len() != "S-1"@.len());
    }
    assert(next_filter_n(None, 8) == Some("10-Q/A"@)) by {
        assert(next_filter_n(None, 8) == next_filter_spec(next_filter_n(None, 7)));
        assert("10-K/A"@.len() != "10-K"@.len());
        assert("10-K/A"@.len() != "10-Q"@.len());
        assert("10-K/A"@.len() != "8-K"@.len());
        assert("10-K/A"@.len() != "4"@.len());
        assert("10-K/A"@.len() != "S-1"@.len());
        assert("10-K/A"@.len() != "DEF 14A"@.len());
    }
    assert(next_filter_n(None, 9) == Some("S-3"@)) by {
        assert(next_filter_n(None, 9) == next_filter_spec(next_filter_n(None, 8)));
        assert("10-Q/A"@.len() != "10-K"@.len());
        assert("10-Q/A"@.len() != "10-Q"@.len());
        assert("10-Q/A"@.len() != "8-K"@.len());
        assert("10-Q/A"@.len() != "4"@.len());
        assert("10-Q/A"@.len() != "S-1"@.len());
        assert("10-Q/A"@.len() != "DEF 14A"@.len());
        assert("10-Q/A"@[3] != "10-K/A"@[3]);
    }
    assert(next_filter_n(None, 10) == Some("20-F"@)) by {
        assert(next_filter_n(None, 10) == next_filter_spec(next_filter_n(None, 9)));
        assert("S-3"@.len() != "10-K"@.len());
        assert("S-3"@.len() != "10-Q"@.len());
        assert("S-3"@[0] != "8-K"@[0]);
        assert("S-3"@.len() != "4"@.len());
        assert("S-3"@[2] != "S-1"@[2]);
        assert("S-3"@.len() != "DEF 14A"@.len());
        assert("S-3"@.len() != "10-K/A"@.len());
        assert("S-3"@.len() != "10-Q/A"@.len());
    }
    assert(next_filter_n(None, 11) == None::<Seq<char>>) by {
        assert(next_filter_n(None, 11) == next_filter_spec(next_filter_n(None, 10)));
        assert("20-F"@[3] != "10-K"@[3]);
        assert("20-F"@[3] != "10-Q"@[3]);
        assert("20-F"@.len() != "8-K"@.len());
        assert("20-F"@.len() != "4"@.len());
        assert("20-F"@.len() != "S-1"@.len());
        assert("20-F"@.len() != "DEF 14A"@.len());
        assert("20-F"@.len() != "10-K/A"@.len());
        assert("20-F"@.len() != "10-Q/A"@.len());
        assert("20-F"@.len() != "S-3"@.len());
    }
    assert forall|n: nat| 1 <= n <= 10 implies #[trigger] next_filter_n(None, n) == Some(
        form_code(form_at(n - 1)),
    ) by {
        if n == 1 {
        } else if n == 2 {
        } else if n == 3 {
        } else if n == 4 {
        } else if n == 5 {
        } else if n == 6 {
        } else if n == 7 {
        } else if n == 8 {
        } else if n == 9 {
        } else {
        }
    }
}

// ── Keys ────────────────────────────────────────────────────────────────────

/// What the caller must do after a key press.
#[derive(Debug)]
pub enum EdgarAction {
    /// Nothing beyond redrawing.
    Continue,
    /// Leave the browser.
    Quit,
    /// Open the URL of [`App::open_selected_filing`] in a browser.
    OpenSelectedFiling,
    /// Run a full-text search for the query, then call
    /// [`App::finish_search`] or [`App::fail_search`].
    RunSearch(String),
    /// Look up the CIK and submissions of the symbol, then call
    /// [`App::finish_symbol_lookup`] or [`App::fail_symbol_lookup`].
    LookupSymbol(String),
    /// Load the search results for `query` from `offset`, then call
    /// [`App::finish_load_page`] or [`App::fail_load_page`] with `next`.
    LoadPage { query: String, offset: usize, next: bool },
}

pub enum EdgarActionView {
    Continue,
    Quit,
    OpenSelectedFiling,
    RunSearch(Seq<char>),
    LookupSymbol(Seq<char>),
    LoadPage { query: Seq<char>, offset: usize, next: bool },
}

impl View for EdgarAction {
    type V = EdgarActionView;

    open spec fn view(&self) -> EdgarActionView {
        match self {
            EdgarAction::Continue => EdgarActionView::Continue,
            EdgarAction::Quit => EdgarActionView::Quit,
            EdgarAction::OpenSelectedFiling => EdgarActionView::OpenSelectedFiling,
            EdgarAction::RunSearch(q) => EdgarActionView::RunSearch(q@),
            EdgarAction::LookupSymbol(s) => EdgarActionView::LookupSymbol(s@),
            EdgarAction::LoadPage { query, offset, next } => EdgarActionView::LoadPage {
                query: query@,
                offset: *offset,
                next: *next,
            },
        }
    }
}

/// A page to load, as the action that loads it.
pub open spec fn page_action(page: Option<(Seq<char>, usize)>, next: bool) -> (
    bool,
    EdgarActionView,
) {
    match page {
        Some((q, off)) => (true, EdgarActionView::LoadPage { query: q, offset: off, next }),
        None => (false, EdgarActionView::Continue),
    }
}

/// A key in normal mode, with no error shown.
pub open spec fn normal_key_spec(app: AppView, key: KeyEvent) -> (AppView, EdgarActionView) {
    let ctrl = key.modifiers.control;
    match key.code {
        KeyCode::Char('q') | KeyCode::Esc => (app, EdgarActionView::Quit),
        KeyCode::Char('c') if ctrl => (app, EdgarActionView::Quit),
        KeyCode::Up | KeyCode::Char('k') => (prev_filing_spec(app), EdgarActionView::Continue),
        KeyCode::Down | KeyCode::Char('j') => (next_filing_spec(app), EdgarActionView::Continue),
        KeyCode::PageDown if ctrl => (page_down_spec(app, 10), EdgarActionView::Continue),
        KeyCode::Char('d') if ctrl => (page_down_spec(app, 10), EdgarActionView::Continue),
        KeyCode::PageUp if ctrl => (page_up_spec(app, 10), EdgarActionView::Continue),
        KeyCode::Char('u') if ctrl => (page_up_spec(app, 10), EdgarActionView::Continue),
        KeyCode::Home | KeyCode::Char('g') => (
            AppView { selected_index: 0, ..app },
            EdgarActionView::Continue,
        ),
        KeyCode::End | KeyCode::Char('G') => (jump_to_bottom_spec(app), EdgarActionView::Continue),
        KeyCode::Enter | KeyCode::Char('o') => (app, EdgarActionView::OpenSelectedFiling),
        KeyCode::Char('f') => (
            apply_filter_spec(app, next_filter_spec(app.filter_form)),
            EdgarActionView::Continue,
        ),
        KeyCode::Char('r') => (apply_filter_spec(app, None), EdgarActionView::Continue),
        KeyCode::Char('/') => (
            AppView { input_mode: InputMode::SearchInput, search_input: Seq::empty(), ..app },
            EdgarActionView::Continue,
        ),
        KeyCode::Char('s') => (
            AppView { input_mode: InputMode::SymbolInput, symbol_input: Seq::empty(), ..app },
            EdgarActionView::Continue,
        ),
        KeyCode::Char('n') | KeyCode::Right => {
            let (found, action) = page_action(next_page_spec(app.mode), true);
            (if found {
                AppView { error_message: None, ..app }
            } else {
                app
            }, action)
        },
        KeyCode::Char('p') | KeyCode::Left => {
            let (found, action) = page_action(prev_page_spec(app.mode), false);
            (if found {
                AppView { error_message: None, ..app }
            } else {
                app
            }, action)
        },
        _ => (app, EdgarActionView::Continue),
    }
}

/// A key while typing a search query (`symbol` false) or a symbol.
pub open spec fn input_key_spec(app: AppView, key: KeyEvent, symbol: bool) -> (
    AppView,
    EdgarActionView,
) {
    let input = if symbol {
        app.symbol_input
    } else {
        app.search_input
    };
    match key.code {
        KeyCode::Esc => (cancel_input_spec(app), EdgarActionView::Continue),
        KeyCode::Enter => if input.len() == 0 {
            (app, EdgarActionView::Continue)
        } else if symbol {
            (
                AppView { error_message: None, ..app },
                EdgarActionView::LookupSymbol(unicode_uppercase(input)),
            )
        } else {
            (AppView { error_message: None, ..app }, EdgarActionView::RunSearch(input))
        },
        KeyCode::Backspace => (pop_input_spec(app), EdgarActionView::Continue),
        KeyCode::Char(c) => (push_input_spec(app, c), EdgarActionView::Continue),
        _ => (app, EdgarActionView::Continue),
    }
}

/// One key press of the browser: the new state and what the caller must do.
/// In normal mode, a shown error is dismissed by any key.
pub open spec fn edgar_key_spec(app: AppView, key: KeyEvent) -> (AppView, EdgarActionView) {
    match app.input_mode {
        InputMode::Normal => if app.error_message is Some {
            (AppView { error_message: None, ..app }, EdgarActionView::Continue)
        } else {
            normal_key_spec(app, key)
        },
        InputMode::SearchInput => input_key_spec(app, key, false),
        InputMode::SymbolInput => input_key_spec(app, key, true),
    }
}

impl App {
    fn normal_key(&mut self, key: KeyEvent) -> (action: EdgarAction)
        requires
            old(self)@.wf(),
            old(self)@.input_mode == InputMode::Normal,
            old(self)@.error_message is None,
        ensures
            final(self)@ == normal_key_spec(old(self)@, key).0,
            action@ == normal_key_spec(old(self)@, key).1,
    {
        let ctrl = key.modifiers.control;
        match key.code {
            KeyCode::Char('q') | KeyCode::Esc => EdgarAction::Quit,
            KeyCode::Char('c') if ctrl => EdgarAction::Quit,
            KeyCode::Up | KeyCode::Char('k') => {
                self.prev_filing();
                EdgarAction::Continue
            },
            KeyCode::Down | KeyCode::Char('j') => {
                self.next_filing();
                EdgarAction::Continue
            },
            KeyCode::PageDown if ctrl => {
                self.page_down(10);
                EdgarAction::Continue
            },
            KeyCode::Char('d') if ctrl => {
                self.page_down(10);
                EdgarAction::Continue
            },
            KeyCode::PageUp if ctrl => {
                self.page_up(10);
                EdgarAction::Continue
            },
            KeyCode::Char('u') if ctrl => {
                self.page_up(10);
                EdgarAction::Continue
            },
            KeyCode::Home | KeyCode::Char('g') => {
                self.jump_to_top();
                EdgarAction::Continue
            },
            KeyCode::End | KeyCode::Char('G') => {
                self.jump_to_bottom();
                EdgarAction::Continue
            },
            KeyCode::Enter | KeyCode::Char('o') => EdgarAction::OpenSelectedFiling,
            KeyCode::Char('f') => {
                let next = next_filter(&self.filter_form);
                self.apply_filter(next);
                EdgarAction::Continue
            },
            KeyCode::Char('r') => {
                self.apply_filter(None);
                EdgarAction::Continue
            },
            KeyCode::Char('/') => {
                self.start_search_input();
                EdgarAction::Continue
            },
            KeyCode::Char('s') => {
                self.start_symbol_input();
                EdgarAction::Continue
            },
            KeyCode::Char('n') | KeyCode::Right => match self.load_next_page() {
                Some((query, offset)) => EdgarAction::LoadPage { query, offset, next: true },
                None => EdgarAction::Continue,
            },
            KeyCode::Char('p') | KeyCode::Left => match self.load_prev_page() {
                Some((query, offset)) => EdgarAction::LoadPage { query, offset, next: false },
                None => EdgarAction::Continue,
            },
            _ => EdgarAction::Continue,
        }
    }

    fn input_key(&mut self, key: KeyEvent, symbol: bool) -> (action: EdgarAction)
        requires
            old(self)@.input_mode == (if symbol {
                InputMode::SymbolInput
            } else {
                InputMode::SearchInput
            }),
        ensures
            final(self)@ == input_key_spec(old(self)@, key, symbol).0,
            action@ == input_key_spec(old(self)@, key, symbol).1,
    {
        match key.code {
            KeyCode::Esc => {
                self.cancel_input();
                EdgarAction::Continue
            },
            KeyCode::Enter => if symbol {
                match self.execute_symbol_lookup() {
                    Some(s) => EdgarAction::LookupSymbol(s),
                    None => EdgarAction::Continue,
                }
            } else {
                match self.execute_search_sync() {
                    Some(q) => EdgarAction::RunSearch(q),
                    None => EdgarAction::Continue,
                }
            },
            KeyCode::Backspace => {
                self.pop_input_char();
                EdgarAction::Continue
            },
            KeyCode::Char(c) => {
                self.push_input_char(c);
                EdgarAction::Continue
            },
            _ => EdgarAction::Continue,
        }
    }

    /// Handles one key press: updates the state and returns what the caller
    /// must do (quit, open a filing, or run a search, lookup or page load).
    pub fn handle_key(&mut self, key: KeyEvent) -> (action: EdgarAction)
        requires
            old(self)@.wf(),
        ensures
            final(self)@ == edgar_key_spec(old(self)@, key).0,
            action@ == edgar_key_spec(old(self)@, key).1,
    {
        match self.input_mode {
            InputMode::Normal => {
                if self.error_message.is_some() {
                    self.error_message = None;
                    return EdgarAction::Continue;
                }
                self.normal_key(key)
            },
            InputMode::SearchInput => self.input_key(key, false),
            InputMode::SymbolInput => self.input_key(key, true),
        }
    }
}

// ── Laws ────────────────────────────────────────────────────────────────────

/// While an error is shown in normal mode, any key only dismisses it.
pub proof fn law_error_dismissed_by_any_key(app: AppView, key: KeyEvent)
    requires
        app.input_mode == InputMode::Normal,
        app.error_message is Some,
    ensures
        edgar_key_spec(app, key).0 == (AppView { error_message: None, ..app }),
        edgar_key_spec(app, key).1 == EdgarActionView::Continue,
{
}

/// Every key press keeps the cursor on a filing (or at the top of an empty
/// list) and the next page offset representable.
pub proof fn law_edgar_key_preserves_wf(app: AppView, key: KeyEvent)
    requires
        app.wf(),
    ensures
        edgar_key_spec(app, key).0.wf(),
{
}

/// A filter always applies to the unfiltered filings: filtering by `f`
/// after any other filter gives what filtering by `f` alone gives, and
/// resetting the filter shows every filing again.
pub proof fn law_filter_from_unfiltered(app: AppView, g: Option<Seq<char>>, f: Option<Seq<char>>)
    ensures
        apply_filter_spec(apply_filter_spec(app, g), f) == apply_filter_spec(app, f),
        apply_filter_spec(apply_filter_spec(app, g), None).filings == app.unfiltered_filings,
{
}

/// The filings shown under a filter are exactly those of the unfiltered
/// list whose form matches it, in their order.
pub proof fn law_filter_keeps_matching(fs: Seq<FilingView>, f: Seq<char>)
    ensures
        forall|i: int|
            0 <= i < filter_by_form(fs, f).len() ==> form_matches(
                #[trigger] filter_by_form(fs, f)[i],
                f,
            ),
        forall|i: int|
            0 <= i < fs.len() && form_matches(#[trigger] fs[i], f) ==> filter_by_form(
                fs,
                f,
            ).contains(fs[i]),
        filter_by_form(fs, f).len() <= fs.len(),
    decreases fs.len(),
{
    if fs.len() > 0 {
        law_filter_keeps_matching(fs.drop_last(), f);
        let rest = filter_by_form(fs.drop_last(), f);
        assert forall|i: int| 0 <= i < fs.len() && form_matches(#[trigger] fs[i], f) implies filter_by_form(
            fs,
            f,
        ).contains(fs[i]) by {
            if i < fs.len() - 1 {
                assert(fs.drop_last()[i] == fs[i]);
                let k = choose|k: int| 0 <= k < rest.len() && rest[k] == fs[i];
                if form_matches(fs.last(), f) {
                    assert(filter_by_form(fs, f)[k] == fs[i]);
                } else {
                    assert(filter_by_form(fs, f)[k] == fs[i]);
                }
            } else {
                assert(filter_by_form(fs, f)[filter_by_form(fs, f).len() - 1] == fs[i]);
            }
        }
    }
}

/// Typing a character and deleting it gives the input back.
pub proof fn law_backspace_undoes_typing(app: AppView, c: char)
    ensures
        pop_input_spec(push_input_spec(app, c)) == app,
{
    match app.input_mode {
        InputMode::SearchInput => assert(app.search_input.push(c).drop_last() =~= app.search_input),
        InputMode::SymbolInput => assert(app.symbol_input.push(unicode_first_uppercase(c)).drop_last()
            =~= app.symbol_input),
        InputMode::Normal => {},
    }
}

/// Going to the next page and back returns to the same offset, and the next
/// page is never beyond the reported number of results.
pub proof fn law_next_then_prev_page(
    query: Seq<char>,
    total_results: usize,
    page_size: usize,
    current_offset: usize,
)
    requires
        current_offset + page_size <= usize::MAX,
        page_size > 0,
    ensures
        ({
            let mode = AppModeView::Search { query, total_results, page_size, current_offset };
            match next_page_spec(mode) {
                Some((q, off)) => {
                    &&& off < total_results
                    &&& q == query
                    &&& prev_page_spec(
                        AppModeView::Search { query, total_results, page_size, current_offset: off },
                    ) == Some((query, current_offset))
                },
                None => current_offset + page_size >= total_results,
            }
        }),
{
}

pub open spec fn drop_last_char(s: Seq<char>) -> Seq<char> {
    if s.len() > 0 {
        s.drop_last()
    } else {
        s
    }
}

/// A filing made from a search hit is filed on the hit's file date and
/// reports on the hit's period ending (each empty when the hit has none);
/// the search results show the hits' filings in the hits' order.
pub proof fn law_search_hit_dates(
    app: AppView,
    query: Seq<char>,
    total: Option<u64>,
    hits: Seq<SearchHit>,
    offset: usize,
)
    ensures
        forall|i: int|
            0 <= i < hits.len() ==> {
                let f = #[trigger] search_results_spec(app, query, total, hits, offset).filings[i];
                &&& hits[i].file_date matches Some(d) ==> f.filing_date == d@
                &&& hits[i].file_date is None ==> f.filing_date.len() == 0
                &&& hits[i].period_ending matches Some(d) ==> f.report_date == d@
                &&& hits[i].period_ending is None ==> f.report_date.len() == 0
                &&& hits[i].adsh matches Some(a) ==> f.accession_number == a@
                &&& hits[i].form matches Some(m) ==> f.form == m@
            },
        search_results_spec(app, query, total, hits, offset).filings.len() == hits.len(),
{
}

} // verus!
