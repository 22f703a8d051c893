//! The `edgar` command: SEC form types and how the command starts the
//! filings browser from its arguments.
use vstd::prelude::*;

use crate::config::{CliError, CliErrorView};
use crate::text::string_of;

verus! {

/// SEC form types that searches can be limited to.
#[derive(Debug, Clone, Copy, PartialEq, Eq, Structural)]
pub enum FormType {
    /// Annual report (10-K)
    TenK,
    /// Quarterly report (10-Q)
    TenQ,
    /// Current report (8-K)
    EightK,
    /// Statement of changes in beneficial ownership (Form 4)
    Four,
    /// Registration statement for IPOs (S-1)
    SOne,
    /// Proxy statement (DEF 14A)
    Def14A,
    /// Amendment to annual report (10-K/A)
    TenKA,
    /// Amendment to quarterly report (10-Q/A)
    TenQA,
    /// Registration statement (S-3)
    SThree,
    /// Foreign private issuer annual report (20-F)
    TwentyF,
}

/// The form types in the order the command lists them.
pub open spec fn form_at(i: int) -> FormType {
    if i == 0 {
        FormType::TenK
    } else if i == 1 {
        FormType::TenQ
    } else if i == 2 {
        FormType::EightK
    } else if i == 3 {
        FormType::Four
    } else if i == 4 {
        FormType::SOne
    } else if i == 5 {
        FormType::Def14A
    } else if i == 6 {
        FormType::TenKA
    } else if i == 7 {
        FormType::TenQA
    } else if i == 8 {
        FormType::SThree
    } else {
        FormType::TwentyF
    }
}

/// The SEC's name of a form type.
pub open spec fn form_code(f: FormType) -> Seq<char> {
    match f {
        FormType::TenK => "10-K"@,
        FormType::TenQ => "10-Q"@,
        FormType::EightK => "8-K"@,
        FormType::Four => "4"@,
        FormType::SOne => "S-1"@,
        FormType::Def14A => "DEF 14A"@,
        FormType::TenKA => "10-K/A"@,
        FormType::TenQA => "10-Q/A"@,
        FormType::SThree => "S-3"@,
        FormType::TwentyF => "20-F"@,
    }
}

impl FormType {
    pub fn as_str(&self) -> (s: &'static str)
        ensures
            s@ == form_code(*self),
    {
        match self {
            FormType::TenK => "10-K",
            FormType::TenQ => "10-Q",
            FormType::EightK => "8-K",
            FormType::Four => "4",
            FormType::SOne => "S-1",
            FormType::Def14A => "DEF 14A",
            FormType::TenKA => "10-K/A",
            FormType::TenQA => "10-Q/A",
            FormType::SThree => "S-3",
            FormType::TwentyF => "20-F",
        }
    }
}

/// Arguments of the `edgar` command.
pub struct EdgarArgs {
    /// Stock symbol to browse SEC filings for (none: start in search mode).
    pub symbol: Option<String>,
    /// Full-text search query across all SEC filings.
    pub search: Option<String>,
    /// Form types to limit the search to.
    pub form_type: Option<Vec<FormType>>,
    /// Start date of the search (YYYY-MM-DD).
    pub start_date: Option<String>,
    /// End date of the search (YYYY-MM-DD).
    pub end_date: Option<String>,
    /// Email address for the SEC EDGAR User-Agent.
    pub email: Option<String>,
}

/// How the filings browser starts.
#[derive(Debug)]
pub enum EdgarStart {
    /// Browse the filings of a company, found by its symbol.
    Symbol(String),
    /// Browse the results of a full-text search, limited to the given forms.
    Search { query: String, forms: Option<Vec<&'static str>> },
    /// Start empty, ready for a search.
    Empty,
}

pub open spec fn codes_of(types: Seq<FormType>) -> Seq<Seq<char>> {
    Seq::new(types.len(), |i: int| form_code(types[i]))
}

pub open spec fn strs_view(v: Seq<&'static str>) -> Seq<Seq<char>> {
    Seq::new(v.len(), |i: int| v[i]@)
}

/// The SEC names of the given form types, in order.
pub fn form_codes(types: &Vec<FormType>) -> (codes: Vec<&'static str>)
    ensures
        strs_view(codes@) == codes_of(types@),
{
    let mut codes: Vec<&'static str> = Vec::new();
    let mut i: usize = 0;
    while i < types.len()
        invariant
            i <= types.len(),
            codes@.len() == i,
            strs_view(codes@) == codes_of(types@.take(i as int)),
        decreases types.len() - i,
    {
        let ghost before = codes@;
        let code = types[i].as_str();
        codes.push(code);
        proof {
            assert forall|k: int| 0 <= k < i + 1 implies #[trigger] strs_view(codes@)[k] == codes_of(
                types@.take(i + 1),
            )[k] by {
                if k < i {
                    assert(strs_view(before)[k] == codes_of(types@.take(i as int))[k]);
                }
            }
            assert(strs_view(codes@) =~= codes_of(types@.take(i + 1)));
        }
        i = i + 1;
    }
    proof {
        assert(types@.take(types.len() as int) =~= types@);
    }
    codes
}

impl EdgarArgs {
    /// Decides how the browser starts: a symbol alone browses that company,
    /// a search alone browses its results, neither starts empty; both at
    /// once is refused.
    pub fn start(&self) -> (r: Result<EdgarStart, CliError>)
        ensures
            match (self.symbol, self.search) {
                (Some(s), None) => r matches Ok(EdgarStart::Symbol(t)) && t@ == s@,
                (None, Some(q)) => r matches Ok(EdgarStart::Search { query, forms }) && query@
                    == q@ && match self.form_type {
                    Some(types) => forms matches Some(f) && strs_view(f@) == codes_of(types@),
                    None => forms is None,
                },
                (None, None) => r matches Ok(EdgarStart::Empty),
                (Some(_), Some(_)) => r matches Err(e) && e@ == CliErrorView::InvalidArgument(
                    "Cannot specify both symbol and search"@,
                ),
            },
    {
        match (&self.symbol, &self.search) {
            (Some(s), None) => Ok(EdgarStart::Symbol(s.clone())),
            (None, Some(q)) => {
                let forms = match &self.form_type {
                    Some(types) => Some(form_codes(types)),
                    None => None,
                };
                Ok(EdgarStart::Search { query: q.clone(), forms })
            },
            (None, None) => Ok(EdgarStart::Empty),
            (Some(_), Some(_)) => Err(
                CliError::InvalidArgument(string_of("Cannot specify both symbol and search")),
            ),
        }
    }
}

} // verus!
