//! The listings of the `dividends` and `splits` commands: events oldest
//! first, by their time, and the dates they are shown with. The events
//! themselves are carried along untouched.
use vstd::prelude::*;

verus! {

/// An event as the listing reads it: its time (seconds since the epoch) and
/// the event itself.
pub type Timed<T> = (i64, T);

/// `x` inserted into `s` after the last element (from the end) whose time is
/// not later than its own.
pub open spec fn insert_by_time<T>(s: Seq<Timed<T>>, x: Timed<T>) -> Seq<Timed<T>>
    decreases s.len(),
{
    if s.len() == 0 {
        seq![x]
    } else if s.last().0 <= x.0 {
        s.push(x)
    } else {
        insert_by_time(s.drop_last(), x).push(s.last())
    }
}

/// The events ordered by time, oldest first; events of the same time keep
/// their order (a stable sort).
pub open spec fn sort_by_time<T>(s: Seq<Timed<T>>) -> Seq<Timed<T>>
    decreases s.len(),
{
    if s.len() == 0 {
        s
    } else {
        insert_by_time(sort_by_time(s.drop_last()), s.last())
    }
}

proof fn lemma_insert_by_time_position<T>(s: Seq<Timed<T>>, x: Timed<T>, j: int)
    requires
        0 <= j <= s.len(),
        j == 0 || s[j - 1].0 <= x.0,
        forall|k: int| j <= k < s.len() ==> (#[trigger] s[k]).0 > x.0,
    ensures
        insert_by_time(s, x) == s.take(j).push(x) + s.skip(j),
    decreases s.len(),
{
    if s.len() == 0 {
        assert(s.take(j).push(x) + s.skip(j) =~= seq![x]);
    } else if j == s.len() {
        assert(s.last() == s[j - 1]);
        assert(s.take(j).push(x) + s.skip(j) =~= s.push(x));
    } else {
        assert(s[s.len() - 1].0 > x.0);
        assert forall|k: int| j <= k < s.drop_last().len() implies (
        #[trigger] s.drop_last()[k]).0 > x.0 by {
            assert(s.drop_last()[k] == s[k]);
        }
        if j > 0 {
            assert(s.drop_last()[j - 1] == s[j - 1]);
        }
        lemma_insert_by_time_position(s.drop_last(), x, j);
        assert(s.drop_last().take(j) =~= s.take(j));
        assert(s.take(j).push(x) + s.skip(j) =~= (s.drop_last().take(j).push(x)
            + s.drop_last().skip(j)).push(s.last()));
    }
}

/// Orders the events oldest first, keeping the order of events of the same
/// time.
pub fn sort_by_timestamp<T>(events: Vec<Timed<T>>) -> (r: Vec<Timed<T>>)
    ensures
        r@ == sort_by_time(events@),
{
    let ghost all = events@;
    let mut events = events;
    let mut rev: Vec<Timed<T>> = Vec::new();
    while events.len() > 0
        invariant
            events@.len() + rev@.len() == all.len(),
            events@ == all.take(events@.len() as int),
            forall|i: int| 0 <= i < rev@.len() ==> #[trigger] rev@[i] == all[all.len() - 1 - i],
        decreases events.len(),
    {
        let e = events.pop().unwrap();
        rev.push(e);
        proof {
            assert(events@ =~= all.take(events@.len() as int));
        }
    }
    let mut out: Vec<Timed<T>> = Vec::new();
    while rev.len() > 0
        invariant
            rev@.len() <= all.len(),
            forall|i: int| 0 <= i < rev@.len() ==> #[trigger] rev@[i] == all[all.len() - 1 - i],
            out@ == sort_by_time(all.take(all.len() - rev@.len())),
        decreases rev.len(),
    {
        let ghost m = all.len() - rev@.len();
        let x = rev.pop().unwrap();
        proof {
            assert(x == all[m]);
            assert(all.take(m + 1).drop_last() =~= all.take(m));
            assert(all.take(m + 1).last() == all[m]);
        }
        let t = x.0;
        let mut j: usize = out.len();
        while j > 0 && out[j - 1].0 > t
            invariant
                j <= out@.len(),
                t == x.0,
                forall|k: int| j <= k < out@.len() ==> (#[trigger] out@[k]).0 > t,
            decreases j,
        {
            j = j - 1;
        }
        let ghost before = out@;
        proof {
            lemma_insert_by_time_position(before, x, j as int);
        }
        out.insert(j, x);
        proof {
            assert(out@ =~= before.take(j as int).push(x) + before.skip(j as int));
        }
    }
    proof {
        assert(all.take(all.len() as int) =~= all);
    }
    out
}

/// The pattern of a date: year, month and day.
pub open spec fn date_pattern() -> Seq<char> {
    "%Y-%m-%d"@
}

/// A time given in seconds since the epoch, as chrono writes it in UTC with
/// a strftime-style pattern, or none when chrono cannot represent it.
pub uninterp spec fn utc_formatted(seconds: i64, pattern: Seq<char>) -> Option<Seq<char>>;

/// Calls chrono's `DateTime::from_timestamp` with `seconds` (and no
/// nanoseconds) and, when the time is representable, writes it with
/// `DateTime::format` and `pattern`. What the text is is not restated: the
/// result is named by `utc_formatted`. Writing with a malformed pattern
/// fails inside `to_string`, so the pattern is the one of dates, which chrono
/// accepts.
#[verifier::external_body]
fn format_utc(seconds: i64, pattern: &str) -> (r: Option<String>)
    requires
        pattern@ == date_pattern(),
    ensures
        match r {
            Some(t) => utc_formatted(seconds, pattern@) == Some(t@),
            None => utc_formatted(seconds, pattern@) is None,
        },
{
    match chrono::DateTime::from_timestamp(seconds, 0) {
        Some(dt) => Some(dt.format(pattern).to_string()),
        None => None,
    }
}

/// A time given in seconds since the epoch as its UTC date, written
/// `YYYY-MM-DD`, or none when chrono cannot represent the time.
pub fn utc_date(seconds: i64) -> (r: Option<String>)
    ensures
        match r {
            Some(t) => utc_formatted(seconds, date_pattern()) == Some(t@),
            None => utc_formatted(seconds, date_pattern()) is None,
        },
{
    format_utc(seconds, "%Y-%m-%d")
}

/// Where `x` goes in `t` when scanning back from index `j`.
spec fn time_slot<T>(t: Seq<Timed<T>>, x: Timed<T>, j: int) -> int
    decreases j,
{
    if j <= 0 {
        0
    } else if t[j - 1].0 <= x.0 {
        j
    } else {
        time_slot(t, x, j - 1)
    }
}

proof fn lemma_time_slot<T>(t: Seq<Timed<T>>, x: Timed<T>, j: int)
    requires
        0 <= j <= t.len(),
        forall|k: int| j <= k < t.len() ==> (#[trigger] t[k]).0 > x.0,
    ensures
        0 <= time_slot(t, x, j) <= j,
        time_slot(t, x, j) == 0 || t[time_slot(t, x, j) - 1].0 <= x.0,
        forall|k: int| time_slot(t, x, j) <= k < t.len() ==> (#[trigger] t[k]).0 > x.0,
    decreases j,
{
    if j > 0 && t[j - 1].0 > x.0 {
        lemma_time_slot(t, x, j - 1);
    }
}

/// Ordering by time gives the events oldest first, and keeps all of them.
pub proof fn law_oldest_first<T>(s: Seq<Timed<T>>)
    ensures
        sort_by_time(s).len() == s.len(),
        forall|a: int, b: int|
            0 <= a <= b < sort_by_time(s).len() ==> (#[trigger] sort_by_time(s)[a]).0 <= (
            #[trigger] sort_by_time(s)[b]).0,
    decreases s.len(),
{
    if s.len() > 0 {
        law_oldest_first(s.drop_last());
        let t = sort_by_time(s.drop_last());
        let x = s.last();
        let j = time_slot(t, x, t.len() as int);
        lemma_time_slot(t, x, t.len() as int);
        lemma_insert_by_time_position(t, x, j);
        let r = t.take(j).push(x) + t.skip(j);
        assert forall|a: int, b: int| 0 <= a <= b < r.len() implies (#[trigger] r[a]).0 <= (
        #[trigger] r[b]).0 by {
            if a < j && b < j {
                assert(r[a] == t[a] && r[b] == t[b]);
            } else if a < j && b == j {
                assert(r[a] == t[a]);
                assert(t[a].0 <= t[j - 1].0);
            } else if a < j && b > j {
                assert(r[a] == t[a] && r[b] == t[b - 1]);
            } else if a == j && b > j {
                assert(r[b] == t[b - 1]);
            } else if a > j {
                assert(r[a] == t[a - 1] && r[b] == t[b - 1]);
            }
        }
    }
}

} // verus!
