//! The table of the `hours` command: one row per market, with its status
//! and opening and closing times (the time of day of each RFC 3339
//! timestamp).
use vstd::prelude::*;

use crate::format::{is_boundary, truncate_with_dots, truncated_with_dots};
use crate::text::{byte_len, push_char, push_str, str_chars, str_eq, string_of};

verus! {

/// How a market's status is shown.
pub open spec fn status_shown(status: Seq<char>) -> Seq<char> {
    if status == "open"@ {
        "🟢 OPEN"@
    } else if status == "closed"@ {
        "🔴 CLOSED"@
    } else {
        status
    }
}

/// The shown form of a market's status.
pub fn market_status_label(status: &str) -> (r: String)
    ensures
        r@ == status_shown(status@),
{
    if str_eq(status, "open") {
        string_of("🟢 OPEN")
    } else if str_eq(status, "closed") {
        string_of("🔴 CLOSED")
    } else {
        string_of(status)
    }
}

/// `s` padded with spaces to `width` characters (`{:<width}`).
pub open spec fn padded(s: Seq<char>, width: int) -> Seq<char> {
    if s.len() < width {
        s + Seq::new((width - s.len()) as nat, |i: int| ' ')
    } else {
        s
    }
}

/// Appends `s` padded with spaces to `width` characters.
pub fn push_padded(out: &mut String, s: &str, width: usize)
    ensures
        final(out)@ == old(out)@ + padded(s@, width as int),
{
    push_str(out, s);
    let n = str_chars(s).len();
    if n < width {
        let mut k: usize = n;
        while k < width
            invariant
                n <= k <= width,
                n == s@.len(),
                out@ == old(out)@ + s@ + Seq::new((k - n) as nat, |i: int| ' '),
            decreases width - k,
        {
            push_char(out, ' ');
            proof {
                assert(Seq::new((k - n) as nat, |i: int| ' ').push(' ') =~= Seq::new(
                    (k + 1 - n) as nat,
                    |i: int| ' ',
                ));
            }
            k = k + 1;
        }
        proof {
            assert(out@ =~= old(out)@ + padded(s@, width as int));
        }
    } else {
        proof {
            assert(out@ =~= old(out)@ + padded(s@, width as int));
        }
    }
}

/// The pattern of a market time: hours, minutes and the zone offset.
pub open spec fn short_time_pattern() -> Seq<char> {
    "%H:%M %Z"@
}

/// An RFC 3339 timestamp as chrono writes it with a strftime-style pattern,
/// or none when the text is not an RFC 3339 timestamp.
pub uninterp spec fn rfc3339_formatted(s: Seq<char>, pattern: Seq<char>) -> Option<Seq<char>>;

/// Calls chrono's `DateTime::parse_from_rfc3339` on `s` and, when it parses,
/// writes the time with `DateTime::format` and `pattern`. What the text is
/// is not restated: the result is named by `rfc3339_formatted`. Writing with
/// a malformed pattern fails inside `to_string`, so the pattern is the one
/// of market times, which chrono accepts.
#[verifier::external_body]
fn format_rfc3339(s: &str, pattern: &str) -> (r: Option<String>)
    requires
        pattern@ == short_time_pattern(),
    ensures
        match r {
            Some(t) => rfc3339_formatted(s@, pattern@) == Some(t@),
            None => rfc3339_formatted(s@, pattern@) is None,
        },
{
    match chrono::DateTime::parse_from_rfc3339(s) {
        Ok(dt) => Some(dt.format(pattern).to_string()),
        Err(_) => None,
    }
}

/// The text of an optional time (`N/A` when missing).
pub open spec fn time_shown(t: Option<Seq<char>>) -> Seq<char> {
    match t {
        Some(s) => s,
        None => "N/A"@,
    }
}

/// The text of a formatted time, `N/A` when there is none.
pub fn time_or_na(t: Option<String>) -> (r: String)
    ensures
        r@ == time_shown(
            match t {
                Some(x) => Some(x@),
                None => None,
            },
        ),
{
    match t {
        Some(x) => x,
        None => string_of("N/A"),
    }
}

/// The time shown for a market's opening or closing timestamp: its time of
/// day, or `N/A` when it is missing or not an RFC 3339 timestamp.
pub open spec fn market_time_shown(t: Option<Seq<char>>) -> Seq<char> {
    match t {
        Some(s) => time_shown(rfc3339_formatted(s, short_time_pattern())),
        None => "N/A"@,
    }
}

/// The time shown for a market's opening or closing timestamp.
pub fn market_time(t: Option<&str>) -> (r: String)
    ensures
        r@ == market_time_shown(opt_text(t)),
{
    match t {
        Some(s) => time_or_na(format_rfc3339(s, "%H:%M %Z")),
        None => string_of("N/A"),
    }
}

pub open spec fn opt_text(o: Option<&str>) -> Option<Seq<char>> {
    match o {
        Some(s) => Some(s@),
        None => None,
    }
}

/// A row of the market-hours table.
pub open spec fn hours_row_text(
    id: Seq<char>,
    name: Seq<char>,
    status: Seq<char>,
    open: Option<Seq<char>>,
    close: Option<Seq<char>>,
) -> Seq<char> {
    padded(id, 15) + " "@ + padded(truncated_with_dots(name, 25), 25) + " "@ + padded(
        status_shown(status),
        10,
    ) + " "@ + padded(market_time_shown(open), 20) + " "@ + padded(market_time_shown(close), 20)
}

/// The row of a market: id, name (cut to 25 bytes), status, and the time of
/// day of its opening and closing timestamps. A name cut must fall between
/// characters.
pub fn hours_row(id: &str, name: &str, status: &str, open: Option<&str>, close: Option<&str>) -> (r:
    String)
    requires
        byte_len(name@) > 25 ==> is_boundary(name@, 22),
    ensures
        r@ == hours_row_text(id@, name@, status@, opt_text(open), opt_text(close)),
{
    let mut r = String::new();
    push_padded(&mut r, id, 15);
    push_str(&mut r, " ");
    push_padded(&mut r, truncate_with_dots(name, 25).as_str(), 25);
    push_str(&mut r, " ");
    push_padded(&mut r, market_status_label(status).as_str(), 10);
    push_str(&mut r, " ");
    push_padded(&mut r, market_time(open).as_str(), 20);
    push_str(&mut r, " ");
    push_padded(&mut r, market_time(close).as_str(), 20);
    proof {
        assert(r@ =~= hours_row_text(id@, name@, status@, opt_text(open), opt_text(close)));
    }
    r
}

} // verus!
