//! The XBRL facts the `facts` command shows: which concepts are looked up,
//! which units are kept, and the most recent data points of each, newest
//! fiscal year and period first. The data points themselves are carried
//! along untouched.
use vstd::prelude::*;

use super::args::FactsArgs;
use super::grades::opt_chars;
use crate::config::{CliError, CliErrorView};
use crate::text::{
    chars_less, chars_lt, lemma_chars_lt_irreflexive, lemma_chars_lt_total,
    lemma_chars_lt_transitive, str_chars, str_eq, string_of,
};

verus! {

/// A data point as the selection reads it: its fiscal year, its fiscal
/// period, and the point itself.
pub type FactPoint<T> = (Option<i32>, Option<String>, T);

/// The order of fiscal years: a missing year before every year.
pub open spec fn year_lt(a: Option<i32>, b: Option<i32>) -> bool {
    match (a, b) {
        (None, Some(_)) => true,
        (Some(x), Some(y)) => x < y,
        _ => false,
    }
}

/// The order of fiscal periods: a missing period before every period,
/// periods by their text.
pub open spec fn period_lt(a: Option<Seq<char>>, b: Option<Seq<char>>) -> bool {
    match (a, b) {
        (None, Some(_)) => true,
        (Some(x), Some(y)) => chars_lt(x, y),
        _ => false,
    }
}

/// What a data point is ordered by.
pub open spec fn fact_key<T>(p: FactPoint<T>) -> (Option<i32>, Option<Seq<char>>) {
    (p.0, opt_chars(p.1))
}

/// The order of keys: by fiscal year, then by fiscal period.
pub open spec fn key_lt(a: (Option<i32>, Option<Seq<char>>), b: (Option<i32>, Option<Seq<char>>)) -> bool {
    year_lt(a.0, b.0) || (a.0 == b.0 && period_lt(a.1, b.1))
}

proof fn lemma_key_lt_irreflexive(a: (Option<i32>, Option<Seq<char>>))
    ensures
        !key_lt(a, a),
{
    if let Some(x) = a.1 {
        lemma_chars_lt_irreflexive(x);
    }
}

proof fn lemma_key_lt_transitive(
    a: (Option<i32>, Option<Seq<char>>),
    b: (Option<i32>, Option<Seq<char>>),
    c: (Option<i32>, Option<Seq<char>>),
)
    requires
        key_lt(a, b),
        key_lt(b, c),
    ensures
        key_lt(a, c),
{
    if a.0 == b.0 && b.0 == c.0 {
        if a.1 is Some && b.1 is Some && c.1 is Some {
            lemma_chars_lt_transitive(a.1->0, b.1->0, c.1->0);
        }
    }
}

proof fn lemma_key_lt_total(a: (Option<i32>, Option<Seq<char>>), b: (Option<i32>, Option<Seq<char>>))
    requires
        a != b,
    ensures
        key_lt(a, b) || key_lt(b, a),
{
    if a.0 == b.0 {
        if a.1 is Some && b.1 is Some {
            lemma_chars_lt_total(a.1->0, b.1->0);
        }
    }
}

/// `x` inserted into the newest-first `s` after the last element (from the
/// end) whose key is not below its own.
pub open spec fn insert_fact<T>(s: Seq<FactPoint<T>>, x: FactPoint<T>) -> Seq<FactPoint<T>>
    decreases s.len(),
{
    if s.len() == 0 {
        seq![x]
    } else if !key_lt(fact_key(s.last()), fact_key(x)) {
        s.push(x)
    } else {
        insert_fact(s.drop_last(), x).push(s.last())
    }
}

/// The data points newest first: by fiscal year, then by fiscal period, both
/// descending; points with the same key keep their order (a stable sort).
pub open spec fn sort_facts<T>(s: Seq<FactPoint<T>>) -> Seq<FactPoint<T>>
    decreases s.len(),
{
    if s.len() == 0 {
        s
    } else {
        insert_fact(sort_facts(s.drop_last()), s.last())
    }
}

fn fact_key_less<T>(a: &FactPoint<T>, b: &FactPoint<T>) -> (r: bool)
    ensures
        r == key_lt(fact_key(*a), fact_key(*b)),
{
    let year_less = match (a.0, b.0) {
        (None, Some(_)) => true,
        (Some(x), Some(y)) => x < y,
        _ => false,
    };
    let same_year = match (a.0, b.0) {
        (None, None) => true,
        (Some(x), Some(y)) => x == y,
        _ => false,
    };
    if year_less {
        true
    } else if !same_year {
        false
    } else {
        match (&a.1, &b.1) {
            (None, Some(_)) => true,
            (Some(x), Some(y)) => {
                let xc = str_chars(x.as_str());
                let yc = str_chars(y.as_str());
                chars_less(&xc, &yc)
            },
            _ => false,
        }
    }
}

proof fn lemma_insert_fact_position<T>(s: Seq<FactPoint<T>>, x: FactPoint<T>, j: int)
    requires
        0 <= j <= s.len(),
        j == 0 || !key_lt(fact_key(s[j - 1]), fact_key(x)),
        forall|k: int| j <= k < s.len() ==> key_lt(fact_key(#[trigger] s[k]), fact_key(x)),
    ensures
        insert_fact(s, x) == s.take(j).push(x) + s.skip(j),
    decreases s.len(),
{
    if s.len() == 0 {
        assert(s.take(j).push(x) + s.skip(j) =~= seq![x]);
    } else if j == s.len() {
        assert(s.last() == s[j - 1]);
        assert(s.take(j).push(x) + s.skip(j) =~= s.push(x));
    } else {
        assert(key_lt(fact_key(s[s.len() - 1]), fact_key(x)));
        assert forall|k: int| j <= k < s.drop_last().len() implies key_lt(
            fact_key(#[trigger] s.drop_last()[k]),
            fact_key(x),
        ) by {
            assert(s.drop_last()[k] == s[k]);
        }
        if j > 0 {
            assert(s.drop_last()[j - 1] == s[j - 1]);
        }
        lemma_insert_fact_position(s.drop_last(), x, j);
        assert(s.drop_last().take(j) =~= s.take(j));
        assert(s.take(j).push(x) + s.skip(j) =~= (s.drop_last().take(j).push(x)
            + s.drop_last().skip(j)).push(s.last()));
    }
}

/// The elements of `v` in reverse order, so that popping them gives them
/// back in their first order.
fn reversed<A>(v: Vec<A>) -> (r: Vec<A>)
    ensures
        r@.len() == v@.len(),
        forall|i: int| 0 <= i < r@.len() ==> #[trigger] r@[i] == v@[v@.len() - 1 - i],
{
    let ghost all = v@;
    let mut v = v;
    let mut rev: Vec<A> = Vec::new();
    while v.len() > 0
        invariant
            v@.len() + rev@.len() == all.len(),
            v@ == all.take(v@.len() as int),
            forall|i: int| 0 <= i < rev@.len() ==> #[trigger] rev@[i] == all[all.len() - 1 - i],
        decreases v.len(),
    {
        let x = v.pop().unwrap();
        rev.push(x);
        proof {
            assert(v@ =~= all.take(v@.len() as int));
        }
    }
    rev
}

/// Orders the data points newest first: by fiscal year, then by fiscal
/// period, both descending, keeping the order of points with the same key.
pub fn sort_fact_points<T>(points: Vec<FactPoint<T>>) -> (r: Vec<FactPoint<T>>)
    ensures
        r@ == sort_facts(points@),
{
    let ghost all = points@;
    let mut rev = reversed(points);
    let mut out: Vec<FactPoint<T>> = Vec::new();
    while rev.len() > 0
        invariant
            rev@.len() <= all.len(),
            forall|i: int| 0 <= i < rev@.len() ==> #[trigger] rev@[i] == all[all.len() - 1 - i],
            out@ == sort_facts(all.take(all.len() - rev@.len())),
        decreases rev.len(),
    {
        let ghost m = all.len() - rev@.len();
        let x = rev.pop().unwrap();
        proof {
            assert(x == all[m]);
            assert(all.take(m + 1).drop_last() =~= all.take(m));
            assert(all.take(m + 1).last() == all[m]);
        }
        let mut j: usize = out.len();
        while j > 0 && fact_key_less(&out[j - 1], &x)
            invariant
                j <= out@.len(),
                forall|k: int|
                    j <= k < out@.len() ==> key_lt(fact_key(#[trigger] out@[k]), fact_key(x)),
            decreases j,
        {
            j = j - 1;
        }
        let ghost before = out@;
        proof {
            lemma_insert_fact_position(before, x, j as int);
        }
        out.insert(j, x);
        proof {
            assert(out@ =~= before.take(j as int).push(x) + before.skip(j as int));
        }
    }
    proof {
        assert(all.take(all.len() as int) =~= all);
    }
    out
}

/// The first `n` elements, or all of them when there are fewer.
pub open spec fn take_n<A>(s: Seq<A>, n: int) -> Seq<A> {
    if s.len() > n {
        s.take(n)
    } else {
        s
    }
}

/// The `limit` most recent data points, newest first.
pub fn latest_fact_points<T>(points: Vec<FactPoint<T>>, limit: usize) -> (r: Vec<FactPoint<T>>)
    ensures
        r@ == take_n(sort_facts(points@), limit as int),
{
    let mut sorted = sort_fact_points(points);
    sorted.truncate(limit);
    sorted
}

/// Ordering the data points gives them newest first, and keeps all of them.
pub proof fn law_facts_newest_first<T>(s: Seq<FactPoint<T>>)
    ensures
        sort_facts(s).len() == s.len(),
        forall|a: int, b: int|
            0 <= a <= b < sort_facts(s).len() ==> !key_lt(
                fact_key(#[trigger] sort_facts(s)[a]),
                fact_key(#[trigger] sort_facts(s)[b]),
            ),
    decreases s.len(),
{
    if s.len() > 0 {
        law_facts_newest_first(s.drop_last());
        let t = sort_facts(s.drop_last());
        let x = s.last();
        let j = first_below(t, x, t.len() as int);
        lemma_first_below(t, x, t.len() as int);
        lemma_insert_fact_position(t, x, j);
        let r = t.take(j).push(x) + t.skip(j);
        assert forall|a: int, b: int| 0 <= a <= b < r.len() implies !key_lt(
            fact_key(#[trigger] r[a]),
            fact_key(#[trigger] r[b]),
        ) by {
            if a == b {
                lemma_key_lt_irreflexive(fact_key(r[a]));
            } else if a < j && b < j {
                assert(r[a] == t[a] && r[b] == t[b]);
            } else if a < j && b == j {
                assert(r[a] == t[a]);
                lemma_not_lt_chain(fact_key(t[a]), fact_key(t[j - 1]), fact_key(x));
            } else if a < j && b > j {
                assert(r[a] == t[a] && r[b] == t[b - 1]);
            } else if a == j && b > j {
                assert(r[b] == t[b - 1]);
                assert(key_lt(fact_key(t[b - 1]), fact_key(x)));
                if key_lt(fact_key(x), fact_key(t[b - 1])) {
                    lemma_key_lt_transitive(fact_key(x), fact_key(t[b - 1]), fact_key(x));
                    lemma_key_lt_irreflexive(fact_key(x));
                }
            } else if a > j {
                assert(r[a] == t[a - 1] && r[b] == t[b - 1]);
            }
        }
    }
}

/// Not below is a chain: a key not below a second, itself not below a third,
/// is not below the third.
proof fn lemma_not_lt_chain(
    a: (Option<i32>, Option<Seq<char>>),
    b: (Option<i32>, Option<Seq<char>>),
    c: (Option<i32>, Option<Seq<char>>),
)
    requires
        !key_lt(a, b),
        !key_lt(b, c),
    ensures
        !key_lt(a, c),
{
    if key_lt(a, c) {
        if a != b {
            lemma_key_lt_total(a, b);
            lemma_key_lt_transitive(b, a, c);
        }
    }
}

/// Where `x` goes in `t` when scanning back from index `j`.
spec fn first_below<T>(t: Seq<FactPoint<T>>, x: FactPoint<T>, j: int) -> int
    decreases j,
{
    if j <= 0 {
        0
    } else if !key_lt(fact_key(t[j - 1]), fact_key(x)) {
        j
    } else {
        first_below(t, x, j - 1)
    }
}

proof fn lemma_first_below<T>(t: Seq<FactPoint<T>>, x: FactPoint<T>, j: int)
    requires
        0 <= j <= t.len(),
        forall|k: int| j <= k < t.len() ==> key_lt(fact_key(#[trigger] t[k]), fact_key(x)),
    ensures
        0 <= first_below(t, x, j) <= j,
        first_below(t, x, j) == 0 || !key_lt(fact_key(t[first_below(t, x, j) - 1]), fact_key(x)),
        forall|k: int|
            first_below(t, x, j) <= k < t.len() ==> key_lt(fact_key(#[trigger] t[k]), fact_key(x)),
    decreases j,
{
    if j > 0 && key_lt(fact_key(t[j - 1]), fact_key(x)) {
        lemma_first_below(t, x, j - 1);
    }
}

/// The concepts looked up when no concept is asked for: the most common
/// US-GAAP financial concepts.
pub open spec fn default_concepts() -> Seq<Seq<char>> {
    seq![
        "Revenue"@,
        "GrossProfit"@,
        "OperatingIncomeLoss"@,
        "NetIncomeLoss"@,
        "EarningsPerShareBasic"@,
        "Assets"@,
        "Liabilities"@,
        "StockholdersEquity"@,
        "CashAndCashEquivalentsAtCarryingValue"@,
        "RetainedEarningsAccumulatedDeficit"@,
    ]
}

pub open spec fn strings_view(s: Seq<String>) -> Seq<Seq<char>> {
    s.map_values(|x: String| x@)
}

/// The concepts to look up: the one asked for, or the common ones.
pub fn fact_concepts(concept: Option<&str>) -> (r: Vec<String>)
    ensures
        strings_view(r@) == match concept {
            Some(c) => seq![c@],
            None => default_concepts(),
        },
{
    let r = match concept {
        Some(c) => vec![string_of(c)],
        None => vec![
            string_of("Revenue"),
            string_of("GrossProfit"),
            string_of("OperatingIncomeLoss"),
            string_of("NetIncomeLoss"),
            string_of("EarningsPerShareBasic"),
            string_of("Assets"),
            string_of("Liabilities"),
            string_of("StockholdersEquity"),
            string_of("CashAndCashEquivalentsAtCarryingValue"),
            string_of("RetainedEarningsAccumulatedDeficit"),
        ],
    };
    proof {
        assert(strings_view(r@) =~= match concept {
            Some(c) => seq![c@],
            None => default_concepts(),
        });
    }
    r
}

/// A unit is kept when no unit is asked for, or when it is the one asked for.
pub open spec fn unit_kept(unit: Seq<char>, filter: Option<Seq<char>>) -> bool {
    match filter {
        Some(f) => unit == f,
        None => true,
    }
}

/// Whether the data points of `unit` are shown.
pub fn unit_selected(unit: &str, unit_filter: Option<&str>) -> (r: bool)
    ensures
        r == unit_kept(
            unit@,
            match unit_filter {
                Some(f) => Some(f@),
                None => None,
            },
        ),
{
    match unit_filter {
        Some(f) => str_eq(unit, f),
        None => true,
    }
}

/// A row of the facts table before its fields are formatted: the concept,
/// the unit and the data point.
pub type FactRow<T> = (String, String, FactPoint<T>);

/// The units of a concept as the selection reads them: each unit's name and
/// its data points.
pub type ConceptUnits<T> = Vec<(String, Vec<FactPoint<T>>)>;

pub open spec fn row_view<T>(r: FactRow<T>) -> (Seq<char>, Seq<char>, FactPoint<T>) {
    (r.0@, r.1@, r.2)
}

pub open spec fn rows_view<T>(s: Seq<FactRow<T>>) -> Seq<(Seq<char>, Seq<char>, FactPoint<T>)> {
    s.map_values(|x: FactRow<T>| row_view(x))
}

/// The rows of the data points of one unit of one concept.
pub open spec fn point_rows<T>(concept: Seq<char>, unit: Seq<char>, pts: Seq<FactPoint<T>>) -> Seq<
    (Seq<char>, Seq<char>, FactPoint<T>),
> {
    pts.map_values(|p: FactPoint<T>| (concept, unit, p))
}

/// The rows of one concept: for each kept unit in turn, its `limit` most
/// recent data points.
pub open spec fn unit_rows<T>(
    concept: Seq<char>,
    units: Seq<(String, Vec<FactPoint<T>>)>,
    filter: Option<Seq<char>>,
    limit: int,
) -> Seq<(Seq<char>, Seq<char>, FactPoint<T>)>
    decreases units.len(),
{
    if units.len() == 0 {
        Seq::empty()
    } else {
        let prev = unit_rows(concept, units.drop_last(), filter, limit);
        let u = units.last();
        if unit_kept(u.0@, filter) {
            prev + point_rows(concept, u.0@, take_n(sort_facts(u.1@), limit))
        } else {
            prev
        }
    }
}

/// The rows of the facts table: for each concept looked up that the company
/// has, in turn, the rows of its units.
pub open spec fn fact_rows<T>(
    found: Seq<(String, Option<ConceptUnits<T>>)>,
    filter: Option<Seq<char>>,
    limit: int,
) -> Seq<(Seq<char>, Seq<char>, FactPoint<T>)>
    decreases found.len(),
{
    if found.len() == 0 {
        Seq::empty()
    } else {
        let prev = fact_rows(found.drop_last(), filter, limit);
        match found.last().1 {
            Some(units) => prev + unit_rows(found.last().0@, units@, filter, limit),
            None => prev,
        }
    }
}

fn push_point_rows<T>(out: &mut Vec<FactRow<T>>, concept: &String, unit: &String, pts: Vec<FactPoint<T>>)
    ensures
        rows_view(final(out)@) == rows_view(old(out)@) + point_rows(concept@, unit@, pts@),
{
    let ghost start = rows_view(out@);
    let ghost all = pts@;
    let mut rev = reversed(pts);
    while rev.len() > 0
        invariant
            rev@.len() <= all.len(),
            forall|i: int| 0 <= i < rev@.len() ==> #[trigger] rev@[i] == all[all.len() - 1 - i],
            rows_view(out@) == start + point_rows(concept@, unit@, all.take(all.len() - rev@.len())),
        decreases rev.len(),
    {
        let ghost m = all.len() - rev@.len();
        let ghost before = out@;
        let p = rev.pop().unwrap();
        proof {
            assert(p == all[m]);
        }
        let row = (concept.clone(), unit.clone(), p);
        out.push(row);
        proof {
            assert(rows_view(out@) =~= rows_view(before).push(row_view(row)));
            assert(point_rows(concept@, unit@, all.take(m + 1)) =~= point_rows(
                concept@,
                unit@,
                all.take(m),
            ).push((concept@, unit@, p)));
        }
    }
    proof {
        assert(all.take(all.len() as int) =~= all);
    }
}

fn push_unit_rows<T>(
    out: &mut Vec<FactRow<T>>,
    concept: &String,
    units: ConceptUnits<T>,
    unit_filter: Option<&str>,
    limit: usize,
)
    ensures
        rows_view(final(out)@) == rows_view(old(out)@) + unit_rows(
            concept@,
            units@,
            match unit_filter {
                Some(f) => Some(f@),
                None => None,
            },
            limit as int,
        ),
{
    let ghost filter = match unit_filter {
        Some(f) => Some(f@),
        None => None,
    };
    let ghost start = rows_view(out@);
    let ghost all = units@;
    let mut rev = reversed(units);
    while rev.len() > 0
        invariant
            rev@.len() <= all.len(),
            filter == match unit_filter {
                Some(f) => Some(f@),
                None => None::<Seq<char>>,
            },
            forall|i: int| 0 <= i < rev@.len() ==> #[trigger] rev@[i] == all[all.len() - 1 - i],
            rows_view(out@) == start + unit_rows(
                concept@,
                all.take(all.len() - rev@.len()),
                filter,
                limit as int,
            ),
        decreases rev.len(),
    {
        let ghost m = all.len() - rev@.len();
        let ghost before = rows_view(out@);
        let u = rev.pop().unwrap();
        proof {
            assert(u == all[m]);
            assert(all.take(m + 1).drop_last() =~= all.take(m));
            assert(all.take(m + 1).last() == all[m]);
        }
        let (name, pts) = u;
        if unit_selected(name.as_str(), unit_filter) {
            let latest = latest_fact_points(pts, limit);
            push_point_rows(out, concept, &name, latest);
            proof {
                assert(before + point_rows(concept@, name@, take_n(sort_facts(all[m].1@), limit as int))
                    =~= start + unit_rows(concept@, all.take(m + 1), filter, limit as int));
            }
        }
    }
    proof {
        assert(all.take(all.len() as int) =~= all);
    }
}

/// The rows of the facts table. `found` lists the concepts looked up, in
/// order, each with its units (each unit's name and data points) where the
/// company's US-GAAP facts hold it. For each concept found, for each of its
/// units that the unit filter keeps, the `limit` most recent data points
/// (newest fiscal year, then period, first) give a row each.
pub fn extract_fact_rows<T>(
    found: Vec<(String, Option<ConceptUnits<T>>)>,
    unit_filter: Option<&str>,
    limit: usize,
) -> (r: Vec<FactRow<T>>)
    ensures
        rows_view(r@) == fact_rows(
            found@,
            match unit_filter {
                Some(f) => Some(f@),
                None => None,
            },
            limit as int,
        ),
{
    let ghost filter = match unit_filter {
        Some(f) => Some(f@),
        None => None,
    };
    let ghost all = found@;
    let mut rev = reversed(found);
    let mut out: Vec<FactRow<T>> = Vec::new();
    proof {
        assert(rows_view(out@) =~= Seq::empty());
    }
    while rev.len() > 0
        invariant
            rev@.len() <= all.len(),
            filter == match unit_filter {
                Some(f) => Some(f@),
                None => None::<Seq<char>>,
            },
            forall|i: int| 0 <= i < rev@.len() ==> #[trigger] rev@[i] == all[all.len() - 1 - i],
            rows_view(out@) == fact_rows(all.take(all.len() - rev@.len()), filter, limit as int),
        decreases rev.len(),
    {
        let ghost m = all.len() - rev@.len();
        let c = rev.pop().unwrap();
        proof {
            assert(c == all[m]);
            assert(all.take(m + 1).drop_last() =~= all.take(m));
            assert(all.take(m + 1).last() == all[m]);
        }
        let (concept, units) = c;
        match units {
            Some(units) => {
                push_unit_rows(&mut out, &concept, units, unit_filter, limit);
            },
            None => {},
        }
    }
    proof {
        assert(all.take(all.len() as int) =~= all);
    }
    out
}

impl FactsArgs {
    /// The contact email the SEC asks for: the one given (by `--email` or
    /// the `EDGAR_EMAIL` variable), else an error that says how to give one.
    pub fn required_email(&self) -> (r: Result<String, CliError>)
        ensures
            match self.email {
                Some(e) => r matches Ok(s) && s@ == e@,
                None => r matches Err(err) && err@ == CliErrorView::InvalidArgument(
                    "EDGAR email required. Provide via --email or set EDGAR_EMAIL environment variable"@,
                ),
            },
    {
        match &self.email {
            Some(e) => Ok(e.clone()),
            None => Err(
                CliError::InvalidArgument(
                    string_of(
                        "EDGAR email required. Provide via --email or set EDGAR_EMAIL environment variable",
                    ),
                ),
            ),
        }
    }
}

proof fn lemma_unit_rows_kept<T>(
    concept: Seq<char>,
    units: Seq<(String, Vec<FactPoint<T>>)>,
    filter: Option<Seq<char>>,
    limit: int,
)
    ensures
        forall|i: int|
            0 <= i < unit_rows(concept, units, filter, limit).len() ==> {
                let row = #[trigger] unit_rows(concept, units, filter, limit)[i];
                row.0 == concept && unit_kept(row.1, filter)
            },
    decreases units.len(),
{
    if units.len() > 0 {
        lemma_unit_rows_kept(concept, units.drop_last(), filter, limit);
        let prev = unit_rows(concept, units.drop_last(), filter, limit);
        let u = units.last();
        if unit_kept(u.0@, filter) {
            let pts = take_n(sort_facts(u.1@), limit);
            assert forall|i: int|
                0 <= i < unit_rows(concept, units, filter, limit).len() implies {
                let row = #[trigger] unit_rows(concept, units, filter, limit)[i];
                row.0 == concept && unit_kept(row.1, filter)
            } by {
                if i < prev.len() {
                    assert(unit_rows(concept, units, filter, limit)[i] == prev[i]);
                } else {
                    assert(unit_rows(concept, units, filter, limit)[i] == point_rows(
                        concept,
                        u.0@,
                        pts,
                    )[i - prev.len()]);
                }
            }
        }
    }
}

/// Every row of the facts table belongs to a concept that was looked up and
/// found, and to a unit that the unit filter keeps.
pub proof fn law_fact_rows_kept<T>(
    found: Seq<(String, Option<ConceptUnits<T>>)>,
    filter: Option<Seq<char>>,
    limit: int,
)
    ensures
        forall|i: int|
            0 <= i < fact_rows(found, filter, limit).len() ==> {
                let row = #[trigger] fact_rows(found, filter, limit)[i];
                unit_kept(row.1, filter) && exists|k: int|
                    0 <= k < found.len() && found[k].1 is Some && found[k].0@ == row.0
            },
    decreases found.len(),
{
    if found.len() > 0 {
        law_fact_rows_kept(found.drop_last(), filter, limit);
        let prev = fact_rows(found.drop_last(), filter, limit);
        let last = found.last();
        if let Some(units) = last.1 {
            lemma_unit_rows_kept(last.0@, units@, filter, limit);
        }
        assert forall|i: int| 0 <= i < fact_rows(found, filter, limit).len() implies {
            let row = #[trigger] fact_rows(found, filter, limit)[i];
            unit_kept(row.1, filter) && exists|k: int|
                0 <= k < found.len() && found[k].1 is Some && found[k].0@ == row.0
        } by {
            let row = fact_rows(found, filter, limit)[i];
            if i < prev.len() {
                assert(row == prev[i]);
                let k = choose|k: int|
                    0 <= k < found.drop_last().len() && found.drop_last()[k].1 is Some
                        && found.drop_last()[k].0@ == prev[i].0;
                assert(found[k] == found.drop_last()[k]);
            } else {
                let units = last.1->0;
                assert(row == unit_rows(last.0@, units@, filter, limit)[i - prev.len()]);
                assert(found[found.len() - 1] == last);
            }
        }
    }
}

} // verus!
