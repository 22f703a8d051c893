//! The selection of analyst grades that the `grades` command shows:
//! filtered by their action, ordered by date, and cut to a limit. The grades
//! themselves are carried along untouched.
use vstd::prelude::*;

use super::timeline::{date_pattern, utc_date, utc_formatted};
use crate::text::{contains_sub, str_contains, str_eq, str_to_lowercase, unicode_lowercase};

verus! {

/// A grade as the selection reads it: its action, its date (seconds since
/// the epoch) and the grade itself.
pub type Graded<T> = (Option<String>, Option<i64>, T);

pub open spec fn opt_chars(o: Option<String>) -> Option<Seq<char>> {
    match o {
        Some(s) => Some(s@),
        None => None,
    }
}

/// A field matches a filter when it contains the filter, both lower-cased;
/// a missing field matches no filter.
pub open spec fn matches_lower(field: Option<Seq<char>>, filter: Seq<char>) -> bool {
    match field {
        Some(a) => contains_sub(unicode_lowercase(a), unicode_lowercase(filter)),
        None => false,
    }
}

/// The grades whose action matches the filter, in order.
pub open spec fn filter_actions<T>(s: Seq<Graded<T>>, filter: Seq<char>) -> Seq<Graded<T>>
    decreases s.len(),
{
    if s.len() == 0 {
        s
    } else {
        let rest = filter_actions(s.drop_last(), filter);
        if matches_lower(opt_chars(s.last().0), filter) {
            rest.push(s.last())
        } else {
            rest
        }
    }
}

/// The date a grade is ordered by (a missing date counts as zero).
pub open spec fn date_key<T>(g: Graded<T>) -> int {
    match g.1 {
        Some(d) => d as int,
        None => 0,
    }
}

/// `x` inserted into `s` after the last element (from the end) whose date is
/// not later than its own.
pub open spec fn insert_by_date<T>(s: Seq<Graded<T>>, x: Graded<T>) -> Seq<Graded<T>>
    decreases s.len(),
{
    if s.len() == 0 {
        seq![x]
    } else if date_key(s.last()) <= date_key(x) {
        s.push(x)
    } else {
        insert_by_date(s.drop_last(), x).push(s.last())
    }
}

/// The grades ordered by date, oldest first; grades of the same date keep
/// their order (a stable sort).
pub open spec fn sort_by_date<T>(s: Seq<Graded<T>>) -> Seq<Graded<T>>
    decreases s.len(),
{
    if s.len() == 0 {
        s
    } else {
        insert_by_date(sort_by_date(s.drop_last()), s.last())
    }
}

/// The last `limit` elements.
pub open spec fn last_n<A>(s: Seq<A>, limit: int) -> Seq<A> {
    if s.len() > limit {
        s.skip(s.len() - limit)
    } else {
        s
    }
}

/// The grades the `grades` command shows.
pub open spec fn grades_shown<T>(s: Seq<Graded<T>>, action: Option<Seq<char>>, limit: int) -> Seq<
    Graded<T>,
> {
    let filtered = match action {
        Some(f) => filter_actions(s, f),
        None => s,
    };
    last_n(sort_by_date(filtered), limit)
}

fn date_of<T>(g: &Graded<T>) -> (d: i64)
    ensures
        d == date_key(*g),
{
    match g.1 {
        Some(d) => d,
        None => 0,
    }
}

proof fn lemma_insert_position<T>(s: Seq<Graded<T>>, x: Graded<T>, j: int)
    requires
        0 <= j <= s.len(),
        j == 0 || date_key(s[j - 1]) <= date_key(x),
        forall|k: int| j <= k < s.len() ==> date_key(#[trigger] s[k]) > date_key(x),
    ensures
        insert_by_date(s, x) == s.take(j).push(x) + s.skip(j),
    decreases s.len(),
{
    if s.len() == 0 {
        assert(s.take(j).push(x) + s.skip(j) =~= seq![x]);
    } else if j == s.len() {
        assert(s.last() == s[j - 1]);
        assert(s.take(j).push(x) + s.skip(j) =~= s.push(x));
    } else {
        assert(date_key(s[s.len() - 1]) > date_key(x));
        assert forall|k: int| j <= k < s.drop_last().len() implies date_key(
            #[trigger] s.drop_last()[k],
        ) > date_key(x) by {
            assert(s.drop_last()[k] == s[k]);
        }
        if j > 0 {
            assert(s.drop_last()[j - 1] == s[j - 1]);
        }
        lemma_insert_position(s.drop_last(), x, j);
        assert(s.drop_last().take(j) =~= s.take(j));
        assert(s.take(j).push(x) + s.skip(j) =~= (s.drop_last().take(j).push(x)
            + s.drop_last().skip(j)).push(s.last()));
    }
}

/// Orders the grades by date, oldest first, keeping the order of grades of
/// the same date.
pub fn sort_grades_by_date<T>(items: Vec<Graded<T>>) -> (r: Vec<Graded<T>>)
    ensures
        r@ == sort_by_date(items@),
{
    let ghost all = items@;
    let mut items = items;
    let mut rev: Vec<Graded<T>> = Vec::new();
    while items.len() > 0
        invariant
            items@.len() + rev@.len() == all.len(),
            items@ == all.take(items@.len() as int),
            forall|i: int| 0 <= i < rev@.len() ==> #[trigger] rev@[i] == all[all.len() - 1 - i],
        decreases items.len(),
    {
        let g = items.pop().unwrap();
        rev.push(g);
        proof {
            assert(items@ =~= all.take(items@.len() as int));
        }
    }
    let mut out: Vec<Graded<T>> = Vec::new();
    while rev.len() > 0
        invariant
            rev@.len() <= all.len(),
            forall|i: int| 0 <= i < rev@.len() ==> #[trigger] rev@[i] == all[all.len() - 1 - i],
            out@ == sort_by_date(all.take(all.len() - rev@.len())),
            forall|a: int, b: int|
                0 <= a <= b < out@.len() ==> date_key(#[trigger] out@[a]) <= date_key(
                    #[trigger] out@[b],
                ),
        decreases rev.len(),
    {
        let ghost m = all.len() - rev@.len();
        let x = rev.pop().unwrap();
        proof {
            assert(x == all[m]);
            assert(all.take(m + 1).drop_last() =~= all.take(m));
            assert(all.take(m + 1).last() == all[m]);
        }
        let kx = date_of(&x);
        let mut j: usize = out.len();
        while j > 0 && date_of(&out[j - 1]) > kx
            invariant
                j <= out@.len(),
                kx == date_key(x),
                forall|k: int| j <= k < out@.len() ==> date_key(#[trigger] out@[k]) > kx,
            decreases j,
        {
            j = j - 1;
        }
        let ghost before = out@;
        proof {
            assert forall|k: int| j <= k < before.len() implies date_key(#[trigger] before[k])
                > date_key(x) by {}
            lemma_insert_position(before, x, j as int);
        }
        out.insert(j, x);
        proof {
            assert(out@ =~= before.take(j as int).push(x) + before.skip(j as int));
            assert forall|a: int, b: int| 0 <= a <= b < out@.len() implies date_key(
                #[trigger] out@[a],
            ) <= date_key(#[trigger] out@[b]) by {
                if a < j && b < j {
                    assert(out@[a] == before[a] && out@[b] == before[b]);
                } else if a < j && b == j {
                    assert(out@[a] == before[a]);
                    if j > 0 {
                        assert(date_key(before[a]) <= date_key(before[j - 1]));
                    }
                } else if a < j && b > j {
                    assert(out@[a] == before[a] && out@[b] == before[b - 1]);
                } else if a == j && b > j {
                    assert(out@[b] == before[b - 1]);
                } else if a > j {
                    assert(out@[a] == before[a - 1] && out@[b] == before[b - 1]);
                }
            }
        }
    }
    proof {
        assert(all.take(all.len() as int) =~= all);
    }
    out
}

/// The grades whose action contains `filter`, ignoring case.
pub fn filter_grades_by_action<T>(items: Vec<Graded<T>>, filter: &str) -> (r: Vec<Graded<T>>)
    ensures
        r@ == filter_actions(items@, filter@),
{
    let wanted = str_to_lowercase(filter);
    let ghost all = items@;
    let mut items = items;
    let mut rev: Vec<Graded<T>> = Vec::new();
    while items.len() > 0
        invariant
            items@.len() + rev@.len() == all.len(),
            items@ == all.take(items@.len() as int),
            forall|i: int| 0 <= i < rev@.len() ==> #[trigger] rev@[i] == all[all.len() - 1 - i],
        decreases items.len(),
    {
        let g = items.pop().unwrap();
        rev.push(g);
        proof {
            assert(items@ =~= all.take(items@.len() as int));
        }
    }
    let mut out: Vec<Graded<T>> = Vec::new();
    while rev.len() > 0
        invariant
            rev@.len() <= all.len(),
            wanted@ == unicode_lowercase(filter@),
            forall|i: int| 0 <= i < rev@.len() ==> #[trigger] rev@[i] == all[all.len() - 1 - i],
            out@ == filter_actions(all.take(all.len() - rev@.len()), filter@),
        decreases rev.len(),
    {
        let ghost m = all.len() - rev@.len();
        let g = rev.pop().unwrap();
        proof {
            assert(g == all[m]);
            assert(all.take(m + 1).drop_last() =~= all.take(m));
            assert(all.take(m + 1).last() == all[m]);
        }
        let keep = match &g.0 {
            Some(a) => {
                let lower = str_to_lowercase(a.as_str());
                str_contains(lower.as_str(), wanted.as_str())
            },
            None => false,
        };
        if keep {
            out.push(g);
        }
    }
    proof {
        assert(all.take(all.len() as int) =~= all);
    }
    out
}

/// The grades the `grades` command shows: those whose action contains the
/// filter (ignoring case) when one is given, ordered by date, the last
/// `limit` of them.
pub fn select_grades<T>(items: Vec<Graded<T>>, action: Option<&str>, limit: usize) -> (r: Vec<
    Graded<T>,
>)
    ensures
        r@ == grades_shown(
            items@,
            match action {
                Some(a) => Some(a@),
                None => None,
            },
            limit as int,
        ),
{
    let filtered = match action {
        Some(a) => filter_grades_by_action(items, a),
        None => items,
    };
    super::args::keep_last(sort_grades_by_date(filtered), limit)
}

/// An upgrade: the action `up`, `init-upgrade` or `reit-up`.
pub open spec fn is_upgrade_action(action: Option<Seq<char>>) -> bool {
    action == Some("up"@) || action == Some("init-upgrade"@) || action == Some("reit-up"@)
}

/// A downgrade: the action `down`, `init-downgrade` or `reit-down`.
pub open spec fn is_downgrade_action(action: Option<Seq<char>>) -> bool {
    action == Some("down"@) || action == Some("init-downgrade"@) || action == Some("reit-down"@)
}

/// Whether a grade with this action is an upgrade (the rule of
/// finance-query's `GradeChange::is_upgrade`).
pub fn is_upgrade(action: &Option<String>) -> (r: bool)
    ensures
        r == is_upgrade_action(opt_chars(*action)),
{
    match action {
        Some(a) => str_eq(a.as_str(), "up") || str_eq(a.as_str(), "init-upgrade") || str_eq(
            a.as_str(),
            "reit-up",
        ),
        None => false,
    }
}

/// Whether a grade with this action is a downgrade (the rule of
/// finance-query's `GradeChange::is_downgrade`).
pub fn is_downgrade(action: &Option<String>) -> (r: bool)
    ensures
        r == is_downgrade_action(opt_chars(*action)),
{
    match action {
        Some(a) => str_eq(a.as_str(), "down") || str_eq(a.as_str(), "init-downgrade") || str_eq(
            a.as_str(),
            "reit-down",
        ),
        None => false,
    }
}

/// How many of the grades are upgrades, and how many downgrades.
pub open spec fn grade_counts<T>(s: Seq<Graded<T>>) -> (nat, nat)
    decreases s.len(),
{
    if s.len() == 0 {
        (0, 0)
    } else {
        let (up, down) = grade_counts(s.drop_last());
        let a = opt_chars(s.last().0);
        (
            if is_upgrade_action(a) {
                up + 1
            } else {
                up
            },
            if is_downgrade_action(a) {
                down + 1
            } else {
                down
            },
        )
    }
}

proof fn lemma_grade_counts_bounded<T>(s: Seq<Graded<T>>)
    ensures
        grade_counts(s).0 <= s.len(),
        grade_counts(s).1 <= s.len(),
    decreases s.len(),
{
    if s.len() > 0 {
        lemma_grade_counts_bounded(s.drop_last());
    }
}

/// The summary under the grades table: how many upgrades and how many
/// downgrades are shown.
pub fn grade_summary<T>(grades: &Vec<Graded<T>>) -> (r: (usize, usize))
    ensures
        r.0 == grade_counts(grades@).0,
        r.1 == grade_counts(grades@).1,
{
    let mut up: usize = 0;
    let mut down: usize = 0;
    let mut i: usize = 0;
    while i < grades.len()
        invariant
            i <= grades@.len(),
            up == grade_counts(grades@.take(i as int)).0,
            down == grade_counts(grades@.take(i as int)).1,
        decreases grades@.len() - i,
    {
        proof {
            assert(grades@.take(i + 1).drop_last() =~= grades@.take(i as int));
            lemma_grade_counts_bounded(grades@.take(i as int));
        }
        if is_upgrade(&grades[i].0) {
            up = up + 1;
        }
        if is_downgrade(&grades[i].0) {
            down = down + 1;
        }
        i = i + 1;
    }
    proof {
        assert(grades@.take(grades@.len() as int) =~= grades@);
    }
    (up, down)
}

/// How the grades table colours an action.
#[derive(Debug, Clone, Copy, PartialEq, Eq, Structural)]
pub enum ActionStyle {
    /// An action that mentions `up`.
    Up,
    /// An action that mentions `down` (and not `up`).
    Down,
    /// A first rating.
    Init,
    /// A maintained rating.
    Main,
    /// Anything else.
    Plain,
}

/// The style of an action: by the first of these that holds, it contains
/// `up`, contains `down`, is `init`, is `main`.
pub fn action_style(action: &str) -> (r: ActionStyle)
    ensures
        r == (if contains_sub(action@, "up"@) {
            ActionStyle::Up
        } else if contains_sub(action@, "down"@) {
            ActionStyle::Down
        } else if action@ == "init"@ {
            ActionStyle::Init
        } else if action@ == "main"@ {
            ActionStyle::Main
        } else {
            ActionStyle::Plain
        }),
{
    if str_contains(action, "up") {
        ActionStyle::Up
    } else if str_contains(action, "down") {
        ActionStyle::Down
    } else if str_eq(action, "init") {
        ActionStyle::Init
    } else if str_eq(action, "main") {
        ActionStyle::Main
    } else {
        ActionStyle::Plain
    }
}

proof fn lemma_filter_actions_match<T>(s: Seq<Graded<T>>, filter: Seq<char>)
    ensures
        forall|i: int|
            0 <= i < filter_actions(s, filter).len() ==> matches_lower(
                opt_chars((#[trigger] filter_actions(s, filter)[i]).0),
                filter,
            ),
    decreases s.len(),
{
    if s.len() > 0 {
        lemma_filter_actions_match(s.drop_last(), filter);
        let rest = filter_actions(s.drop_last(), filter);
        assert forall|i: int|
            0 <= i < filter_actions(s, filter).len() implies matches_lower(
            opt_chars((#[trigger] filter_actions(s, filter)[i]).0),
            filter,
        ) by {
            if i < rest.len() {
                assert(filter_actions(s, filter)[i] == rest[i]);
            }
        }
    }
}

proof fn lemma_insert_by_date_from<T>(s: Seq<Graded<T>>, x: Graded<T>)
    ensures
        insert_by_date(s, x).len() == s.len() + 1,
        forall|i: int|
            0 <= i < insert_by_date(s, x).len() ==> #[trigger] insert_by_date(s, x)[i] == x
                || s.contains(insert_by_date(s, x)[i]),
    decreases s.len(),
{
    if s.len() > 0 && date_key(s.last()) > date_key(x) {
        lemma_insert_by_date_from(s.drop_last(), x);
        let r = insert_by_date(s, x);
        let t = insert_by_date(s.drop_last(), x);
        assert forall|i: int| 0 <= i < r.len() implies #[trigger] r[i] == x || s.contains(r[i]) by {
            if i < t.len() {
                assert(r[i] == t[i]);
                if t[i] != x {
                    let k = choose|k: int| 0 <= k < s.drop_last().len() && s.drop_last()[k] == t[i];
                    assert(s[k] == t[i]);
                }
            } else {
                assert(r[i] == s[s.len() - 1]);
            }
        }
    } else if s.len() > 0 {
        let r = s.push(x);
        assert forall|i: int| 0 <= i < r.len() implies #[trigger] r[i] == x || s.contains(r[i]) by {
            if i < s.len() {
                assert(r[i] == s[i]);
            }
        }
    }
}

proof fn lemma_sort_by_date_from<T>(s: Seq<Graded<T>>)
    ensures
        sort_by_date(s).len() == s.len(),
        forall|i: int| 0 <= i < sort_by_date(s).len() ==> s.contains(#[trigger] sort_by_date(s)[i]),
    decreases s.len(),
{
    if s.len() > 0 {
        lemma_sort_by_date_from(s.drop_last());
        let t = sort_by_date(s.drop_last());
        lemma_insert_by_date_from(t, s.last());
        assert forall|i: int| 0 <= i < sort_by_date(s).len() implies s.contains(
            #[trigger] sort_by_date(s)[i],
        ) by {
            let y = sort_by_date(s)[i];
            if y == s.last() {
                assert(s[s.len() - 1] == y);
            } else {
                let k = choose|k: int| 0 <= k < t.len() && t[k] == y;
                let j = choose|j: int| 0 <= j < s.drop_last().len() && s.drop_last()[j] == t[k];
                assert(s[j] == y);
            }
        }
    }
}

/// The grades shown with an action filter all have a matching action, are
/// ordered oldest first, and are at most `limit` of them.
pub proof fn law_grades_shown<T>(s: Seq<Graded<T>>, filter: Seq<char>, limit: nat)
    ensures
        grades_shown(s, Some(filter), limit as int).len() <= limit,
        forall|i: int|
            0 <= i < grades_shown(s, Some(filter), limit as int).len() ==> matches_lower(
                opt_chars((#[trigger] grades_shown(s, Some(filter), limit as int)[i]).0),
                filter,
            ),
        forall|a: int, b: int|
            0 <= a <= b < grades_shown(s, Some(filter), limit as int).len() ==> date_key(
                #[trigger] grades_shown(s, Some(filter), limit as int)[a],
            ) <= date_key(#[trigger] grades_shown(s, Some(filter), limit as int)[b]),
{
    let f = filter_actions(s, filter);
    let sorted = sort_by_date(f);
    let r = grades_shown(s, Some(filter), limit as int);
    lemma_filter_actions_match(s, filter);
    lemma_sort_by_date_from(f);
    law_sorted_by_date(f);
    let d: int = if sorted.len() > limit { sorted.len() - limit } else { 0 };
    assert forall|i: int| 0 <= i < r.len() implies #[trigger] r[i] == sorted[i + d] by {}
    assert forall|i: int| 0 <= i < r.len() implies matches_lower(
        opt_chars((#[trigger] r[i]).0),
        filter,
    ) by {
        assert(r[i] == sorted[i + d]);
        assert(f.contains(sorted[i + d]));
        let k = choose|k: int| 0 <= k < f.len() && f[k] == sorted[i + d];
        assert(matches_lower(opt_chars(f[k].0), filter));
    }
    assert forall|a: int, b: int| 0 <= a <= b < r.len() implies date_key(#[trigger] r[a])
        <= date_key(#[trigger] r[b]) by {
        assert(r[a] == sorted[a + d] && r[b] == sorted[b + d]);
    }
}

/// The date a grade's table row and records show: its date written
/// `YYYY-MM-DD` in UTC, none when it has no date or one chrono cannot
/// represent.
pub fn grade_date(date: Option<i64>) -> (r: Option<String>)
    ensures
        match date {
            Some(d) => match r {
                Some(t) => utc_formatted(d, date_pattern()) == Some(t@),
                None => utc_formatted(d, date_pattern()) is None,
            },
            None => r is None,
        },
{
    match date {
        Some(d) => utc_date(d),
        None => None,
    }
}

/// Ordering by date gives the grades oldest first.
pub proof fn law_sorted_by_date<T>(s: Seq<Graded<T>>)
    ensures
        forall|a: int, b: int|
            0 <= a <= b < sort_by_date(s).len() ==> date_key(#[trigger] sort_by_date(s)[a])
                <= date_key(#[trigger] sort_by_date(s)[b]),
        sort_by_date(s).len() == s.len(),
    decreases s.len(),
{
    if s.len() > 0 {
        law_sorted_by_date(s.drop_last());
        let t = sort_by_date(s.drop_last());
        let x = s.last();
        let j = first_later(t, x, t.len() as int);
        lemma_first_later(t, x, t.len() as int);
        lemma_insert_position(t, x, j);
        let r = t.take(j).push(x) + t.skip(j);
        assert forall|a: int, b: int| 0 <= a <= b < r.len() implies date_key(#[trigger] r[a])
            <= date_key(#[trigger] r[b]) by {
            if a < j && b < j {
                assert(r[a] == t[a] && r[b] == t[b]);
            } else if a < j && b == j {
                assert(r[a] == t[a]);
                assert(date_key(t[a]) <= date_key(t[j - 1]));
            } else if a < j && b > j {
                assert(r[a] == t[a] && r[b] == t[b - 1]);
            } else if a == j && b > j {
                assert(r[b] == t[b - 1]);
            } else if a > j {
                assert(r[a] == t[a - 1] && r[b] == t[b - 1]);
            }
        }
    }
}

/// Where `x` goes in the sorted `t` when scanning back from index `j`.
spec fn first_later<T>(t: Seq<Graded<T>>, x: Graded<T>, j: int) -> int
    decreases j,
{
    if j <= 0 {
        0
    } else if date_key(t[j - 1]) <= date_key(x) {
        j
    } else {
        first_later(t, x, j - 1)
    }
}

proof fn lemma_first_later<T>(t: Seq<Graded<T>>, x: Graded<T>, j: int)
    requires
        0 <= j <= t.len(),
        forall|k: int| j <= k < t.len() ==> date_key(#[trigger] t[k]) > date_key(x),
    ensures
        0 <= first_later(t, x, j) <= j,
        first_later(t, x, j) == 0 || date_key(t[first_later(t, x, j) - 1]) <= date_key(x),
        forall|k: int|
            first_later(t, x, j) <= k < t.len() ==> date_key(#[trigger] t[k]) > date_key(x),
    decreases j,
{
    if j > 0 && date_key(t[j - 1]) > date_key(x) {
        lemma_first_later(t, x, j - 1);
    }
}

} // verus!
