//! The filings the `filings` command shows: filtered by their type and cut
//! to a limit. The filings themselves are carried along untouched.
use vstd::prelude::*;

use super::grades::opt_chars;
use crate::text::{contains_sub, str_contains, str_to_uppercase, unicode_uppercase};

verus! {

/// A filing as the selection reads it: its type, and the filing itself.
pub type Typed<T> = (Option<String>, T);

/// A field matches a filter when it contains the filter, both upper-cased.
pub open spec fn matches_upper(field: Option<Seq<char>>, filter: Seq<char>) -> bool {
    match field {
        Some(a) => contains_sub(unicode_uppercase(a), unicode_uppercase(filter)),
        None => false,
    }
}

/// The filings whose type matches the filter, in order.
pub open spec fn filter_types<T>(s: Seq<Typed<T>>, filter: Seq<char>) -> Seq<Typed<T>>
    decreases s.len(),
{
    if s.len() == 0 {
        s
    } else {
        let rest = filter_types(s.drop_last(), filter);
        if matches_upper(opt_chars(s.last().0), filter) {
            rest.push(s.last())
        } else {
            rest
        }
    }
}

/// The filings the `filings` command shows: those whose type contains the
/// filter (ignoring case) when one is given, the first `limit` of them.
pub fn select_filings<T>(items: Vec<Typed<T>>, filing_type: Option<&str>, limit: usize) -> (r: Vec<
    Typed<T>,
>)
    ensures
        ({
            let kept = match filing_type {
                Some(f) => filter_types(items@, f@),
                None => items@,
            };
            r@ == (if kept.len() > limit {
                kept.take(limit as int)
            } else {
                kept
            })
        }),
{
    let mut kept = match filing_type {
        Some(f) => {
            let wanted = str_to_uppercase(f);
            let ghost all = items@;
            let mut items = items;
            let mut rev: Vec<Typed<T>> = Vec::new();
            while items.len() > 0
                invariant
                    items@.len() + rev@.len() == all.len(),
                    items@ == all.take(items@.len() as int),
                    forall|i: int|
                        0 <= i < rev@.len() ==> #[trigger] rev@[i] == all[all.len() - 1 - i],
                decreases items.len(),
            {
                let g = items.pop().unwrap();
                rev.push(g);
                proof {
                    assert(items@ =~= all.take(items@.len() as int));
                }
            }
            let mut out: Vec<Typed<T>> = Vec::new();
            while rev.len() > 0
                invariant
                    rev@.len() <= all.len(),
                    wanted@ == unicode_uppercase(f@),
                    forall|i: int|
                        0 <= i < rev@.len() ==> #[trigger] rev@[i] == all[all.len() - 1 - i],
                    out@ == filter_types(all.take(all.len() - rev@.len()), f@),
                decreases rev.len(),
            {
                let ghost m = all.len() - rev@.len();
                let g = rev.pop().unwrap();
                proof {
                    assert(g == all[m]);
                    assert(all.take(m + 1).drop_last() =~= all.take(m));
                    assert(all.take(m + 1).last() == all[m]);
                }
                let keep = match &g.0 {
                    Some(t) => {
                        let upper = str_to_uppercase(t.as_str());
                        str_contains(upper.as_str(), wanted.as_str())
                    },
                    None => false,
                };
                if keep {
                    out.push(g);
                }
            }
            proof {
                assert(all.take(all.len() as int) =~= all);
            }
            out
        },
        None => items,
    };
    kept.truncate(limit);
    kept
}


/// Every filing kept by a type filter has a matching type and is one of the
/// filings given, and no more are kept than were given.
pub proof fn law_filings_kept_match<T>(s: Seq<Typed<T>>, filter: Seq<char>)
    ensures
        filter_types(s, filter).len() <= s.len(),
        forall|i: int|
            0 <= i < filter_types(s, filter).len() ==> matches_upper(
                opt_chars((#[trigger] filter_types(s, filter)[i]).0),
                filter,
            ),
        forall|i: int|
            0 <= i < filter_types(s, filter).len() ==> s.contains(
                #[trigger] filter_types(s, filter)[i],
            ),
    decreases s.len(),
{
    if s.len() > 0 {
        law_filings_kept_match(s.drop_last(), filter);
        let rest = filter_types(s.drop_last(), filter);
        assert forall|i: int| 0 <= i < filter_types(s, filter).len() implies matches_upper(
            opt_chars((#[trigger] filter_types(s, filter)[i]).0),
            filter,
        ) && s.contains(filter_types(s, filter)[i]) by {
            if i < rest.len() {
                assert(filter_types(s, filter)[i] == rest[i]);
                let k = choose|k: int| 0 <= k < s.drop_last().len() && s.drop_last()[k] == rest[i];
                assert(s[k] == rest[i]);
            } else {
                assert(filter_types(s, filter)[i] == s[s.len() - 1]);
            }
        }
    }
}

} // verus!
