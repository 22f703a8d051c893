//! Watchlists: a named, ordered list of ticker symbols, and the rules by
//! which symbols are added (upper-cased, never twice) and removed (ignoring
//! ASCII case). Persisting a watchlist is the caller's business.
use vstd::prelude::*;

use crate::config::{CliError, CliErrorView};
use crate::text::{
    eq_ignore_ascii_case, eq_ignore_ascii_case_spec, str_to_uppercase, string_of,
    unicode_uppercase,
};

verus! {

pub struct Watchlist {
    pub id: i64,
    pub name: String,
    pub symbols: Vec<String>,
}

#[verifier::ext_equal]
pub struct WatchlistView {
    pub id: i64,
    pub name: Seq<char>,
    pub symbols: Seq<Seq<char>>,
}

impl View for Watchlist {
    type V = WatchlistView;

    open spec fn view(&self) -> WatchlistView {
        WatchlistView { id: self.id, name: self.name@, symbols: self.symbols.deep_view() }
    }
}

/// No symbol occurs twice.
pub open spec fn no_duplicates(s: Seq<Seq<char>>) -> bool {
    forall|i: int, j: int| 0 <= i < j < s.len() ==> s[i] != s[j]
}

/// `s` without the symbols equal to `sym` up to ASCII case, order kept.
pub open spec fn without_symbol(s: Seq<Seq<char>>, sym: Seq<char>) -> Seq<Seq<char>>
    decreases s.len(),
{
    if s.len() == 0 {
        s
    } else {
        let rest = without_symbol(s.drop_last(), sym);
        if eq_ignore_ascii_case_spec(s.last(), sym) {
            rest
        } else {
            rest.push(s.last())
        }
    }
}

/// The symbols after adding `symbol`: its Unicode upper-case form is appended
/// unless already present.
pub open spec fn with_symbol(s: Seq<Seq<char>>, symbol: Seq<char>) -> Seq<Seq<char>> {
    let up = unicode_uppercase(symbol);
    if s.contains(up) {
        s
    } else {
        s.push(up)
    }
}

impl Watchlist {
    /// Whether `symbol` is in the list (exact match).
    pub fn contains_symbol(&self, symbol: &String) -> (r: bool)
        ensures
            r == self@.symbols.contains(symbol@),
    {
        let mut i: usize = 0;
        while i < self.symbols.len()
            invariant
                i <= self.symbols.len(),
                forall|j: int| 0 <= j < i ==> self@.symbols[j] != symbol@,
            decreases self.symbols.len() - i,
        {
            if self.symbols[i] == *symbol {
                proof {
                    assert(self@.symbols[i as int] == symbol@);
                }
                return true;
            }
            i = i + 1;
        }
        proof {
            if self@.symbols.contains(symbol@) {
                let k = choose|k: int| 0 <= k < self@.symbols.len() && self@.symbols[k] == symbol@;
                assert(self@.symbols[k] != symbol@);
            }
        }
        false
    }

    /// Adds `symbol` in upper case unless it is already present. Returns
    /// whether the list changed (and so needs to be persisted).
    pub fn add_symbol(&mut self, symbol: &str) -> (changed: bool)
        ensures
            final(self)@.id == old(self)@.id,
            final(self)@.name == old(self)@.name,
            changed == !old(self)@.symbols.contains(unicode_uppercase(symbol@)),
            final(self)@.symbols == with_symbol(old(self)@.symbols, symbol@),
    {
        let symbol_upper = str_to_uppercase(symbol);
        if !self.contains_symbol(&symbol_upper) {
            let ghost old_syms = self@.symbols;
            self.symbols.push(symbol_upper);
            proof {
                assert(self@.symbols =~= old_syms.push(unicode_uppercase(symbol@)));
            }
            true
        } else {
            false
        }
    }

    /// Removes every symbol equal to `symbol` up to ASCII case.
    pub fn remove_symbol(&mut self, symbol: &str)
        ensures
            final(self)@.id == old(self)@.id,
            final(self)@.name == old(self)@.name,
            final(self)@.symbols == without_symbol(old(self)@.symbols, symbol@),
    {
        let ghost old_syms = self@.symbols;
        let mut kept: Vec<String> = Vec::new();
        let n = self.symbols.len();
        let mut i: usize = 0;
        while i < n
            invariant
                n == self.symbols.len(),
                i <= n,
                self@.symbols == old_syms,
                kept.deep_view() == without_symbol(old_syms.take(i as int), symbol@),
            decreases n - i,
        {
            let ghost before = kept.deep_view();
            proof {
                assert(old_syms.take(i + 1).drop_last() =~= old_syms.take(i as int));
                assert(old_syms.take(i + 1).last() == old_syms[i as int]);
            }
            if !eq_ignore_ascii_case(self.symbols[i].as_str(), symbol) {
                kept.push(self.symbols[i].clone());
                proof {
                    assert(kept.deep_view() =~= before.push(old_syms[i as int]));
                }
            }
            i = i + 1;
        }
        proof {
            assert(old_syms.take(n as int) =~= old_syms);
        }
        self.symbols = kept;
    }
}

/// Adding a symbol never creates a duplicate.
pub proof fn law_add_keeps_no_duplicates(s: Seq<Seq<char>>, symbol: Seq<char>)
    requires
        no_duplicates(s),
    ensures
        no_duplicates(with_symbol(s, symbol)),
        with_symbol(s, symbol).contains(unicode_uppercase(symbol)),
{
    let up = unicode_uppercase(symbol);
    if !s.contains(up) {
        let t = s.push(up);
        assert forall|i: int, j: int| 0 <= i < j < t.len() implies t[i] != t[j] by {
            if j == s.len() {
                assert(t[i] == s[i]);
                if s[i] == up {
                    assert(s.contains(up));
                }
            }
        }
        assert(t[s.len() as int] == up);
    }
}

/// Adding the same symbol twice is the same as adding it once.
pub proof fn law_add_idempotent(s: Seq<Seq<char>>, symbol: Seq<char>)
    ensures
        with_symbol(with_symbol(s, symbol), symbol) == with_symbol(s, symbol),
{
    let up = unicode_uppercase(symbol);
    if !s.contains(up) {
        assert(s.push(up)[s.len() as int] == up);
    }
}

/// After removal no remaining symbol matches, every remaining symbol was in
/// the list before, and the list never grows.
pub proof fn law_remove_clears_symbol(s: Seq<Seq<char>>, symbol: Seq<char>)
    ensures
        forall|i: int|
            0 <= i < without_symbol(s, symbol).len() ==> !eq_ignore_ascii_case_spec(
                #[trigger] without_symbol(s, symbol)[i],
                symbol,
            ),
        forall|i: int|
            0 <= i < without_symbol(s, symbol).len() ==> s.contains(
                #[trigger] without_symbol(s, symbol)[i],
            ),
        without_symbol(s, symbol).len() <= s.len(),
    decreases s.len(),
{
    if s.len() > 0 {
        law_remove_clears_symbol(s.drop_last(), symbol);
        let rest = without_symbol(s.drop_last(), symbol);
        let r = without_symbol(s, symbol);
        assert forall|i: int| 0 <= i < r.len() implies s.contains(#[trigger] r[i]) by {
            if i < rest.len() {
                assert(s.drop_last().contains(rest[i]));
                let k = choose|k: int| 0 <= k < s.drop_last().len() && s.drop_last()[k] == rest[i];
                assert(s[k] == rest[i]);
            } else {
                assert(r[i] == s[s.len() - 1]);
            }
        }
    }
}

/// Removing a symbol twice is the same as removing it once.
pub proof fn law_remove_idempotent(s: Seq<Seq<char>>, symbol: Seq<char>)
    ensures
        without_symbol(without_symbol(s, symbol), symbol) == without_symbol(s, symbol),
    decreases s.len(),
{
    if s.len() > 0 {
        law_remove_idempotent(s.drop_last(), symbol);
        let rest = without_symbol(s.drop_last(), symbol);
        if !eq_ignore_ascii_case_spec(s.last(), symbol) {
            let r = rest.push(s.last());
            assert(r.drop_last() =~= rest);
            assert(r.last() == s.last());
        }
    }
}

/// Adds `symbol` to the stored watchlist read back for an id (`found`):
/// an error when no watchlist has that id, and nothing is to be written;
/// otherwise the watchlist to write back, or none when the symbol (upper
/// case) was already there and nothing changes.
pub fn add_symbol_to_watchlist(found: Option<Watchlist>, symbol: &str) -> (r: Result<
    Option<Watchlist>,
    CliError,
>)
    ensures
        match found {
            None => r matches Err(e) && e@ == CliErrorView::Other("Watchlist not found"@),
            Some(w) => r matches Ok(o) && if w@.symbols.contains(unicode_uppercase(symbol@)) {
                o is None
            } else {
                o matches Some(n) && n@ == (WatchlistView {
                    symbols: with_symbol(w@.symbols, symbol@),
                    ..w@
                })
            },
        },
{
    match found {
        None => Err(CliError::Other(string_of("Watchlist not found"))),
        Some(mut w) => {
            if w.add_symbol(symbol) {
                Ok(Some(w))
            } else {
                Ok(None)
            }
        },
    }
}

/// Removes `symbol` (ignoring ASCII case) from the stored watchlist read
/// back for an id (`found`): an error when no watchlist has that id, and
/// nothing is to be written; otherwise the watchlist to write back.
pub fn remove_symbol_from_watchlist(found: Option<Watchlist>, symbol: &str) -> (r: Result<
    Watchlist,
    CliError,
>)
    ensures
        match found {
            None => r matches Err(e) && e@ == CliErrorView::Other("Watchlist not found"@),
            Some(w) => r matches Ok(n) && n@ == (WatchlistView {
                symbols: without_symbol(w@.symbols, symbol@),
                ..w@
            }),
        },
{
    match found {
        None => Err(CliError::Other(string_of("Watchlist not found"))),
        Some(mut w) => {
            w.remove_symbol(symbol);
            Ok(w)
        },
    }
}

// ── Stored form ─────────────────────────────────────────────────────────────

/// The list of strings that a JSON text denotes, as `serde_json` reads a
/// `Vec<String>` (`None` when the text is not a JSON array of strings).
pub uninterp spec fn json_string_array(text: Seq<char>) -> Option<Seq<Seq<char>>>;

/// The JSON text that `serde_json` writes for a list of strings.
pub uninterp spec fn json_of_strings(items: Seq<Seq<char>>) -> Seq<char>;

/// Calls `serde_json::from_str::<Vec<String>>`; the reading of JSON is not
/// restated, it is named `json_string_array`.
#[verifier::external_body]
fn parse_string_array(text: &str) -> (r: Option<Vec<String>>)
    ensures
        match r {
            Some(v) => json_string_array(text@) == Some(v.deep_view()),
            None => json_string_array(text@) is None,
        },
{
    serde_json::from_str::<Vec<String>>(text).ok()
}

/// Calls `serde_json::to_string` on a list of strings; the text is named
/// `json_of_strings`. Its documentation lets it fail only for a `Serialize`
/// impl that fails or a map with non-string keys, neither of which a list of
/// strings has. Reading the text back with `serde_json::from_str` gives the
/// same list: each string is written between quotes with the escapes
/// (`\"`, `\\`, control characters) that the reader undoes.
#[verifier::external_body]
fn string_array_json(items: &Vec<String>) -> (text: String)
    ensures
        text@ == json_of_strings(items.deep_view()),
        json_string_array(text@) == Some(items.deep_view()),
{
    serde_json::to_string(items).unwrap_or_default()
}

impl Watchlist {
    /// A watchlist read back from its stored row; symbols that cannot be
    /// read as a JSON list of strings are taken as none.
    pub fn from_row(id: i64, name: String, symbols_json: &str) -> (w: Watchlist)
        ensures
            w@ == (WatchlistView {
                id: id,
                name: name@,
                symbols: match json_string_array(symbols_json@) {
                    Some(v) => v,
                    None => Seq::empty(),
                },
            }),
    {
        let symbols = match parse_string_array(symbols_json) {
            Some(v) => v,
            None => {
                let e: Vec<String> = Vec::new();
                proof {
                    assert(e.deep_view() =~= Seq::<Seq<char>>::empty());
                }
                e
            },
        };
        Watchlist { id, name, symbols }
    }

    /// The symbols as they are stored: a JSON list of strings, which reads
    /// back as the same symbols.
    pub fn symbols_json(&self) -> (text: String)
        ensures
            text@ == json_of_strings(self@.symbols),
            json_string_array(text@) == Some(self@.symbols),
    {
        string_array_json(&self.symbols)
    }
}

} // verus!
