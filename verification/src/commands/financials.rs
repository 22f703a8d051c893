//! The financial statements command: the order in which its periods and
//! metrics are shown, and how its interactive view moves between periods and
//! rows.
use vstd::prelude::*;

use super::facts::strings_view;
use crate::keys::{KeyCode, KeyEvent};
use crate::text::{
    chars_less, chars_lt, lemma_chars_lt_irreflexive, lemma_chars_lt_total,
    lemma_chars_lt_transitive, split_once_char, split_once_seq, str_chars, str_eq, string_of,
};

verus! {

/// The interactive view's position: which period is shown, and which metric
/// row is selected, among `periods` periods and `metrics` rows.
#[derive(Debug, Clone, Copy, PartialEq, Eq, Structural)]
pub struct FinancialsView {
    pub period: usize,
    pub periods: usize,
    pub selected: usize,
    pub metrics: usize,
}

/// The last row of a table of `metrics` rows (the first one when it has
/// none).
pub open spec fn last_row(metrics: usize) -> usize {
    if metrics == 0 {
        0
    } else {
        (metrics - 1) as usize
    }
}

/// The last row of a table of `metrics` rows (the first one when it has
/// none).
pub fn last_row_of(metrics: usize) -> (r: usize)
    ensures
        r == last_row(metrics),
{
    if metrics == 0 {
        0
    } else {
        metrics - 1
    }
}

impl FinancialsView {
    /// There is a period to show, and the position lies inside the table.
    pub open spec fn wf(self) -> bool {
        &&& self.periods > 0
        &&& self.period < self.periods
        &&& self.selected <= last_row(self.metrics)
    }

    /// The view at its start: period `start`, first row selected.
    pub fn new(periods: usize, metrics: usize, start: usize) -> (v: Self)
        requires
            start < periods,
        ensures
            v == (FinancialsView { period: start, periods, selected: 0, metrics }),
            v.wf(),
    {
        FinancialsView { period: start, periods, selected: 0, metrics }
    }
}

/// The period before `p`, wrapping around to the last.
pub open spec fn prev_period(p: usize, periods: usize) -> usize {
    if p > 0 {
        (p - 1) as usize
    } else {
        (periods - 1) as usize
    }
}

/// The period after `p`, wrapping around to the first.
pub open spec fn next_period(p: usize, periods: usize) -> usize {
    if p < periods - 1 {
        (p + 1) as usize
    } else {
        0
    }
}

/// What a key press does to the view, and whether it closes it.
pub open spec fn financials_key(v: FinancialsView, key: KeyEvent) -> (FinancialsView, bool) {
    let last = last_row(v.metrics);
    match key.code {
        KeyCode::Char('q') | KeyCode::Esc => (v, true),
        KeyCode::Char('c') if key.modifiers.control => (v, true),
        KeyCode::Up | KeyCode::Char('k') => (
            FinancialsView {
                selected: if v.selected > 0 {
                    (v.selected - 1) as usize
                } else {
                    v.selected
                },
                ..v
            },
            false,
        ),
        KeyCode::Down | KeyCode::Char('j') => (
            FinancialsView {
                selected: if v.selected < last {
                    (v.selected + 1) as usize
                } else {
                    v.selected
                },
                ..v
            },
            false,
        ),
        KeyCode::PageUp => (
            FinancialsView {
                selected: if v.selected >= 10 {
                    (v.selected - 10) as usize
                } else {
                    0
                },
                ..v
            },
            false,
        ),
        KeyCode::PageDown => (
            FinancialsView {
                selected: if v.selected + 10 <= last {
                    (v.selected + 10) as usize
                } else {
                    last
                },
                ..v
            },
            false,
        ),
        KeyCode::Home | KeyCode::Char('g') => (FinancialsView { selected: 0, ..v }, false),
        KeyCode::End | KeyCode::Char('G') => (FinancialsView { selected: last, ..v }, false),
        KeyCode::Left | KeyCode::Char('h') | KeyCode::BackTab => (
            FinancialsView { period: prev_period(v.period, v.periods), ..v },
            false,
        ),
        KeyCode::Right | KeyCode::Char('l') | KeyCode::Tab => (
            FinancialsView { period: next_period(v.period, v.periods), ..v },
            false,
        ),
        _ => (v, false),
    }
}

impl FinancialsView {
    /// Applies a key press: `q`, Esc and Ctrl-C close the view (the result
    /// is `true`); the arrows, `j`/`k`, Page Up/Down, Home/End and `g`/`G`
    /// move the selected row within the table; Left/Right, `h`/`l` and
    /// (Back)Tab step through the periods, wrapping around.
    pub fn handle_key(&mut self, key: KeyEvent) -> (quit: bool)
        requires
            old(self).wf(),
        ensures
            *final(self) == financials_key(*old(self), key).0,
            quit == financials_key(*old(self), key).1,
    {
        let last = last_row_of(self.metrics);
        match key.code {
            KeyCode::Char('q') | KeyCode::Esc => true,
            KeyCode::Char('c') if key.modifiers.control => true,
            KeyCode::Up | KeyCode::Char('k') => {
                if self.selected > 0 {
                    self.selected = self.selected - 1;
                }
                false
            },
            KeyCode::Down | KeyCode::Char('j') => {
                if self.selected < last {
                    self.selected = self.selected + 1;
                }
                false
            },
            KeyCode::PageUp => {
                self.selected = self.selected.saturating_sub(10);
                false
            },
            KeyCode::PageDown => {
                self.selected = if self.selected <= last && last - self.selected >= 10 {
                    self.selected + 10
                } else {
                    last
                };
                false
            },
            KeyCode::Home | KeyCode::Char('g') => {
                self.selected = 0;
                false
            },
            KeyCode::End | KeyCode::Char('G') => {
                self.selected = last;
                false
            },
            KeyCode::Left | KeyCode::Char('h') | KeyCode::BackTab => {
                self.period = if self.period > 0 {
                    self.period - 1
                } else {
                    self.periods - 1
                };
                false
            },
            KeyCode::Right | KeyCode::Char('l') | KeyCode::Tab => {
                self.period = if self.period < self.periods - 1 {
                    self.period + 1
                } else {
                    0
                };
                false
            },
            _ => false,
        }
    }
}

/// Every key press keeps the view's position inside the table.
pub proof fn law_financials_key_keeps_wf(v: FinancialsView, key: KeyEvent)
    requires
        v.wf(),
    ensures
        financials_key(v, key).0.wf(),
        financials_key(v, key).0.periods == v.periods,
        financials_key(v, key).0.metrics == v.metrics,
{
}

/// Stepping to the next period and back again, or back and then forward,
/// returns to the period shown.
pub proof fn law_period_steps_undo(v: FinancialsView)
    requires
        v.wf(),
    ensures
        next_period(prev_period(v.period, v.periods), v.periods) == v.period,
        prev_period(next_period(v.period, v.periods), v.periods) == v.period,
{
}

/// The periods newest first, each once: strictly descending in the order of
/// their text (dates written `YYYY-MM-DD` sort by date).
pub open spec fn newest_first_once(r: Seq<Seq<char>>) -> bool {
    forall|i: int, j: int| 0 <= i < j < r.len() ==> chars_lt(#[trigger] r[j], #[trigger] r[i])
}

/// The periods of a statement, newest first, each once: all the periods
/// given, and no other.
pub fn financial_dates(dates: &Vec<String>) -> (r: Vec<String>)
    ensures
        newest_first_once(strings_view(r@)),
        forall|x: Seq<char>| strings_view(r@).contains(x) <==> strings_view(dates@).contains(x),
{
    let mut out: Vec<String> = Vec::new();
    let mut i: usize = 0;
    while i < dates.len()
        invariant
            i <= dates@.len(),
            newest_first_once(strings_view(out@)),
            forall|x: Seq<char>|
                strings_view(out@).contains(x) <==> strings_view(dates@.take(i as int)).contains(x),
        decreases dates@.len() - i,
    {
        let d = dates[i].clone();
        let dc = str_chars(d.as_str());
        let ghost ov = strings_view(out@);
        let mut j: usize = 0;
        while j < out.len() && chars_less(&dc, &str_chars(out[j].as_str()))
            invariant
                j <= out@.len(),
                ov == strings_view(out@),
                dc@ == d@,
                forall|k: int| 0 <= k < j ==> chars_lt(d@, #[trigger] ov[k]),
            decreases out@.len() - j,
        {
            proof {
                assert(ov[j as int] == out@[j as int]@);
            }
            j = j + 1;
        }
        let present = j < out.len() && str_eq(out[j].as_str(), d.as_str());
        proof {
            assert(dates@.take(i + 1) =~= dates@.take(i as int).push(dates@[i as int]));
            assert(strings_view(dates@.take(i + 1)) =~= strings_view(dates@.take(i as int)).push(d@));
            lemma_push_contains(strings_view(dates@.take(i as int)), d@);
        }
        if present {
            proof {
                assert(ov[j as int] == d@);
                assert forall|x: Seq<char>| strings_view(out@).contains(x) <==> strings_view(
                    dates@.take(i + 1),
                ).contains(x) by {
                    if x == d@ {
                        assert(ov[j as int] == x);
                    }
                }
            }
        } else {
            proof {
                if j < ov.len() {
                    assert(ov[j as int] == out@[j as int]@);
                    assert(!chars_lt(d@, ov[j as int]));
                    assert(ov[j as int] != d@);
                    lemma_chars_lt_total(d@, ov[j as int]);
                }
            }
            out.insert(j, d);
            proof {
                let nv = strings_view(out@);
                assert(nv =~= ov.take(j as int).push(d@) + ov.skip(j as int));
                assert forall|a: int, b: int| 0 <= a < b < nv.len() implies chars_lt(
                    #[trigger] nv[b],
                    #[trigger] nv[a],
                ) by {
                    if b < j {
                        assert(nv[a] == ov[a] && nv[b] == ov[b]);
                    } else if b == j {
                        assert(nv[a] == ov[a]);
                    } else if a < j {
                        assert(nv[a] == ov[a] && nv[b] == ov[b - 1]);
                        assert(chars_lt(ov[j as int], d@));
                        if b - 1 > j {
                            assert(chars_lt(ov[b - 1], ov[j as int]));
                            lemma_chars_lt_transitive(ov[b - 1], ov[j as int], d@);
                        }
                        lemma_chars_lt_transitive(ov[b - 1], d@, ov[a]);
                    } else if a == j {
                        assert(nv[b] == ov[b - 1]);
                        if b - 1 > j {
                            assert(chars_lt(ov[b - 1], ov[j as int]));
                            lemma_chars_lt_transitive(ov[b - 1], ov[j as int], d@);
                        }
                    } else {
                        assert(nv[a] == ov[a - 1] && nv[b] == ov[b - 1]);
                    }
                }
                assert forall|x: Seq<char>| nv.contains(x) <==> strings_view(
                    dates@.take(i + 1),
                ).contains(x) by {
                    if nv.contains(x) {
                        let k = choose|k: int| 0 <= k < nv.len() && nv[k] == x;
                        if k < j {
                            assert(ov[k] == x);
                        } else if k > j {
                            assert(ov[k - 1] == x);
                        }
                    }
                    if ov.contains(x) {
                        let k = choose|k: int| 0 <= k < ov.len() && ov[k] == x;
                        if k < j {
                            assert(nv[k] == x);
                        } else {
                            assert(nv[k + 1] == x);
                        }
                    }
                    if x == d@ {
                        assert(nv[j as int] == x);
                    }
                }
            }
        }
        i = i + 1;
    }
    proof {
        assert(dates@.take(dates@.len() as int) =~= dates@);
    }
    out
}

proof fn lemma_push_contains(s: Seq<Seq<char>>, y: Seq<char>)
    ensures
        forall|x: Seq<char>| #[trigger] s.push(y).contains(x) <==> (s.contains(x) || x == y),
{
    assert forall|x: Seq<char>| #[trigger] s.push(y).contains(x) <==> (s.contains(x) || x == y) by {
        if s.contains(x) {
            let k = choose|k: int| 0 <= k < s.len() && s[k] == x;
            assert(s.push(y)[k] == x);
        }
        if x == y {
            assert(s.push(y)[s.len() as int] == x);
        }
        if s.push(y).contains(x) {
            let k = choose|k: int| 0 <= k < s.push(y).len() && s.push(y)[k] == x;
            if k < s.len() {
                assert(s[k] == x);
            }
        }
    }
}

/// The period shown first: the `date`-th newest (counting from one, the
/// newest for zero), or the oldest when there are fewer.
pub fn start_period(date: usize, periods: usize) -> (r: usize)
    requires
        periods > 0,
    ensures
        r == (if date == 0 {
            0
        } else if date - 1 < periods - 1 {
            date - 1
        } else {
            periods - 1
        }),
        r < periods,
{
    let d = date.saturating_sub(1);
    if d < periods - 1 {
        d
    } else {
        periods - 1
    }
}

/// The year of a date written `YYYY-MM-DD`: the text before its first `-`,
/// or the whole text when it has none.
pub fn year_of(date: &str) -> (r: String)
    ensures
        r@ == match split_once_seq(date@, '-') {
            Some((year, _)) => year,
            None => date@,
        },
{
    match split_once_char(date, '-') {
        Some((year, _)) => year,
        None => string_of(date),
    }
}

/// `x` inserted into the name-ordered `s` after the last element (from the
/// end) whose name does not come after its own.
pub open spec fn insert_metric<T>(s: Seq<(String, T)>, x: (String, T)) -> Seq<(String, T)>
    decreases s.len(),
{
    if s.len() == 0 {
        seq![x]
    } else if !chars_lt(x.0@, s.last().0@) {
        s.push(x)
    } else {
        insert_metric(s.drop_last(), x).push(s.last())
    }
}

/// The metrics ordered by name; metrics of the same name keep their order
/// (a stable sort).
pub open spec fn sort_metrics<T>(s: Seq<(String, T)>) -> Seq<(String, T)>
    decreases s.len(),
{
    if s.len() == 0 {
        s
    } else {
        insert_metric(sort_metrics(s.drop_last()), s.last())
    }
}

/// The metrics shown: ordered by name, the first `limit` of them (all of
/// them for a limit of zero).
pub open spec fn metrics_shown<T>(s: Seq<(String, T)>, limit: int) -> Seq<(String, T)> {
    let sorted = sort_metrics(s);
    if limit == 0 || sorted.len() <= limit {
        sorted
    } else {
        sorted.take(limit)
    }
}

proof fn lemma_insert_metric_position<T>(s: Seq<(String, T)>, x: (String, T), j: int)
    requires
        0 <= j <= s.len(),
        j == 0 || !chars_lt(x.0@, s[j - 1].0@),
        forall|k: int| j <= k < s.len() ==> chars_lt(x.0@, (#[trigger] s[k]).0@),
    ensures
        insert_metric(s, x) == s.take(j).push(x) + s.skip(j),
    decreases s.len(),
{
    if s.len() == 0 {
        assert(s.take(j).push(x) + s.skip(j) =~= seq![x]);
    } else if j == s.len() {
        assert(s.last() == s[j - 1]);
        assert(s.take(j).push(x) + s.skip(j) =~= s.push(x));
    } else {
        assert(chars_lt(x.0@, s[s.len() - 1].0@));
        assert forall|k: int| j <= k < s.drop_last().len() implies chars_lt(
            x.0@,
            (#[trigger] s.drop_last()[k]).0@,
        ) by {
            assert(s.drop_last()[k] == s[k]);
        }
        if j > 0 {
            assert(s.drop_last()[j - 1] == s[j - 1]);
        }
        lemma_insert_metric_position(s.drop_last(), x, j);
        assert(s.drop_last().take(j) =~= s.take(j));
        assert(s.take(j).push(x) + s.skip(j) =~= (s.drop_last().take(j).push(x)
            + s.drop_last().skip(j)).push(s.last()));
    }
}

/// The metrics of a statement as shown: ordered by name (metrics of the
/// same name keep their order), the first `limit` of them, or all of them
/// for a limit of zero.
pub fn financial_metrics<T>(metrics: Vec<(String, T)>, limit: usize) -> (r: Vec<(String, T)>)
    ensures
        r@ == metrics_shown(metrics@, limit as int),
{
    let ghost all = metrics@;
    let mut rev: Vec<(String, T)> = Vec::new();
    let mut metrics = metrics;
    while metrics.len() > 0
        invariant
            metrics@.len() + rev@.len() == all.len(),
            metrics@ == all.take(metrics@.len() as int),
            forall|i: int| 0 <= i < rev@.len() ==> #[trigger] rev@[i] == all[all.len() - 1 - i],
        decreases metrics.len(),
    {
        let m = metrics.pop().unwrap();
        rev.push(m);
        proof {
            assert(metrics@ =~= all.take(metrics@.len() as int));
        }
    }
    let mut out: Vec<(String, T)> = Vec::new();
    while rev.len() > 0
        invariant
            rev@.len() <= all.len(),
            forall|i: int| 0 <= i < rev@.len() ==> #[trigger] rev@[i] == all[all.len() - 1 - i],
            out@ == sort_metrics(all.take(all.len() - rev@.len())),
        decreases rev.len(),
    {
        let ghost m = all.len() - rev@.len();
        let x = rev.pop().unwrap();
        proof {
            assert(x == all[m]);
            assert(all.take(m + 1).drop_last() =~= all.take(m));
            assert(all.take(m + 1).last() == all[m]);
        }
        let xc = str_chars(x.0.as_str());
        let mut j: usize = out.len();
        while j > 0 && chars_less(&xc, &str_chars(out[j - 1].0.as_str()))
            invariant
                j <= out@.len(),
                xc@ == x.0@,
                forall|k: int| j <= k < out@.len() ==> chars_lt(x.0@, (#[trigger] out@[k]).0@),
            decreases j,
        {
            j = j - 1;
        }
        let ghost before = out@;
        proof {
            lemma_insert_metric_position(before, x, j as int);
        }
        out.insert(j, x);
        proof {
            assert(out@ =~= before.take(j as int).push(x) + before.skip(j as int));
        }
    }
    proof {
        assert(all.take(all.len() as int) =~= all);
    }
    if limit > 0 {
        out.truncate(limit);
    }
    out
}

/// The metrics come out ordered by name, none lost.
pub proof fn law_metrics_by_name<T>(s: Seq<(String, T)>)
    ensures
        sort_metrics(s).len() == s.len(),
        forall|a: int, b: int|
            0 <= a <= b < sort_metrics(s).len() ==> !chars_lt(
                (#[trigger] sort_metrics(s)[b]).0@,
                (#[trigger] sort_metrics(s)[a]).0@,
            ),
    decreases s.len(),
{
    if s.len() > 0 {
        law_metrics_by_name(s.drop_last());
        let t = sort_metrics(s.drop_last());
        let x = s.last();
        let j = metric_slot(t, x, t.len() as int);
        lemma_metric_slot(t, x, t.len() as int);
        lemma_insert_metric_position(t, x, j);
        let r = t.take(j).push(x) + t.skip(j);
        assert forall|a: int, b: int| 0 <= a <= b < r.len() implies !chars_lt(
            (#[trigger] r[b]).0@,
            (#[trigger] r[a]).0@,
        ) by {
            if a == b {
                lemma_chars_lt_irreflexive(r[a].0@);
            } else if a < j && b < j {
                assert(r[a] == t[a] && r[b] == t[b]);
            } else if a < j && b == j {
                assert(r[a] == t[a]);
                lemma_not_after_chain(t[a].0@, t[j - 1].0@, x.0@);
            } else if a < j && b > j {
                assert(r[a] == t[a] && r[b] == t[b - 1]);
            } else if a == j && b > j {
                assert(r[b] == t[b - 1]);
                assert(chars_lt(x.0@, t[b - 1].0@));
                if chars_lt(t[b - 1].0@, x.0@) {
                    lemma_chars_lt_transitive(x.0@, t[b - 1].0@, x.0@);
                    lemma_chars_lt_irreflexive(x.0@);
                }
            } else if a > j {
                assert(r[a] == t[a - 1] && r[b] == t[b - 1]);
            }
        }
    }
}

/// Names in order form a chain: `a` not after `b`, and `b` not after `c`,
/// puts `a` not after `c`.
proof fn lemma_not_after_chain(a: Seq<char>, b: Seq<char>, c: Seq<char>)
    requires
        !chars_lt(b, a),
        !chars_lt(c, b),
    ensures
        !chars_lt(c, a),
{
    if chars_lt(c, a) {
        if a != b {
            lemma_chars_lt_total(a, b);
            lemma_chars_lt_transitive(c, a, b);
        }
    }
}

/// Where `x` goes in `t` when scanning back from index `j`.
spec fn metric_slot<T>(t: Seq<(String, T)>, x: (String, T), j: int) -> int
    decreases j,
{
    if j <= 0 {
        0
    } else if !chars_lt(x.0@, t[j - 1].0@) {
        j
    } else {
        metric_slot(t, x, j - 1)
    }
}

proof fn lemma_metric_slot<T>(t: Seq<(String, T)>, x: (String, T), j: int)
    requires
        0 <= j <= t.len(),
        forall|k: int| j <= k < t.len() ==> chars_lt(x.0@, (#[trigger] t[k]).0@),
    ensures
        0 <= metric_slot(t, x, j) <= j,
        metric_slot(t, x, j) == 0 || !chars_lt(x.0@, t[metric_slot(t, x, j) - 1].0@),
        forall|k: int| metric_slot(t, x, j) <= k < t.len() ==> chars_lt(x.0@, (#[trigger] t[k]).0@),
    decreases j,
{
    if j > 0 && chars_lt(x.0@, t[j - 1].0@) {
        lemma_metric_slot(t, x, j - 1);
    }
}

} // verus!
