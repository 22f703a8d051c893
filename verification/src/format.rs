//! Text shaping for the command output: truncating to a byte budget, CSV
//! quoting, spacing out CamelCase names, joining address parts, word
//! wrapping, and grouping the digits of whole numbers.
use vstd::prelude::*;

use crate::text::{
    byte_len, char_is_uppercase, lemma_byte_len_concat, utf8_width, char_is_whitespace, char_utf8_width, is_whitespace,
    lemma_byte_len_take_mono, push_char, push_str, str_byte_len, str_chars, string_from_chars,
    string_of, unicode_is_uppercase,
};

verus! {

// ── Truncation ──────────────────────────────────────────────────────────────

/// Byte offset `k` of `s` falls between two characters.
pub open spec fn is_boundary(s: Seq<char>, k: int) -> bool {
    exists|i: int| 0 <= i <= s.len() && byte_len(s.take(i)) == k
}

/// The characters of `s` that fill its first `k` bytes.
pub open spec fn byte_prefix(s: Seq<char>, k: int) -> Seq<char> {
    s.take(choose|i: int| 0 <= i <= s.len() && byte_len(s.take(i)) == k)
}

proof fn lemma_boundary_index_unique(s: Seq<char>, i: int, j: int)
    requires
        0 <= i <= s.len(),
        0 <= j <= s.len(),
        byte_len(s.take(i)) == byte_len(s.take(j)),
    ensures
        i == j,
{
    if i < j {
        lemma_byte_len_take_mono(s, i, j);
    }
    if j < i {
        lemma_byte_len_take_mono(s, j, i);
    }
}

/// The first `k` bytes of `s`, where `k` is a character boundary.
pub(crate) fn take_bytes(s: &str, k: usize) -> (r: String)
    requires
        is_boundary(s@, k as int),
    ensures
        r@ == byte_prefix(s@, k as int),
{
    let v = str_chars(s);
    let ghost target = choose|i: int| 0 <= i <= s@.len() && byte_len(s@.take(i)) == k;
    let mut i: usize = 0;
    let mut acc: usize = 0;
    proof {
        assert(s@.take(0).len() == 0);
    }
    while acc < k
        invariant
            v@ == s@,
            0 <= target <= s@.len(),
            byte_len(s@.take(target)) == k,
            i <= v.len(),
            acc == byte_len(s@.take(i as int)),
            acc <= k,
            i <= target,
        decreases k - acc,
    {
        proof {
            assert(i < target);
            assert(s@.take(i + 1).drop_last() =~= s@.take(i as int));
            assert(s@.take(i + 1).last() == s@[i as int]);
            lemma_byte_len_take_mono(s@, i + 1, target);
        }
        acc = acc + char_utf8_width(v[i]);
        i = i + 1;
    }
    proof {
        lemma_boundary_index_unique(s@, i as int, target);
    }
    string_from_chars(&v, 0, i)
}

/// A text cut to at most `max_len` bytes: longer texts keep their first
/// `max_len - 1` bytes followed by `…`.
pub open spec fn truncated(s: Seq<char>, max_len: int) -> Seq<char> {
    if byte_len(s) <= max_len {
        s
    } else {
        byte_prefix(s, max_len - 1) + "…"@
    }
}

/// Cuts `s` to `max_len` bytes with a trailing `…` (the table columns of the
/// grades, holders and profile commands, and the dashboard's lists). The cut
/// must fall between characters.
pub fn truncate(s: &str, max_len: usize) -> (r: String)
    requires
        byte_len(s@) > max_len ==> max_len >= 1 && is_boundary(s@, max_len - 1),
    ensures
        r@ == truncated(s@, max_len as int),
{
    if str_byte_len(s) <= max_len {
        string_of(s)
    } else {
        let mut r = take_bytes(s, max_len - 1);
        push_str(&mut r, "…");
        r
    }
}

/// A text cut to `max_len` bytes with `...`: longer texts keep their first
/// `max_len - 3` bytes followed by `...`.
pub open spec fn truncated_with_dots(s: Seq<char>, max_len: int) -> Seq<char> {
    if byte_len(s) <= max_len {
        s
    } else {
        byte_prefix(s, max_len - 3) + "..."@
    }
}

/// Cuts `s` to `max_len` bytes with a trailing `...` (the hours and indices
/// commands). The cut must fall between characters.
pub fn truncate_with_dots(s: &str, max_len: usize) -> (r: String)
    requires
        byte_len(s@) > max_len ==> max_len >= 3 && is_boundary(s@, max_len - 3),
    ensures
        r@ == truncated_with_dots(s@, max_len as int),
{
    if str_byte_len(s) <= max_len {
        string_of(s)
    } else {
        let mut r = take_bytes(s, max_len - 3);
        push_str(&mut r, "...");
        r
    }
}

// ── CSV ────────────────────────────────────────────────────────────────────

/// `s` with every `"` doubled.
pub open spec fn double_quotes(s: Seq<char>) -> Seq<char>
    decreases s.len(),
{
    if s.len() == 0 {
        s
    } else if s.last() == '"' {
        double_quotes(s.drop_last()) + seq!['"', '"']
    } else {
        double_quotes(s.drop_last()).push(s.last())
    }
}

/// A CSV field: quoted, with inner quotes doubled, when it holds a comma, a
/// quote or a newline; as it is otherwise.
pub open spec fn csv_field(s: Seq<char>) -> Seq<char> {
    if s.contains(',') || s.contains('"') || s.contains('\n') {
        seq!['"'] + double_quotes(s) + seq!['"']
    } else {
        s
    }
}

/// Quotes `s` for a CSV field.
pub fn escape_csv(s: &str) -> (r: String)
    ensures
        r@ == csv_field(s@),
{
    let v = str_chars(s);
    let mut special = false;
    let mut body = String::new();
    let mut i: usize = 0;
    while i < v.len()
        invariant
            v@ == s@,
            i <= v.len(),
            body@ == double_quotes(s@.take(i as int)),
            special == (s@.take(i as int).contains(',') || s@.take(i as int).contains('"')
                || s@.take(i as int).contains('\n')),
        decreases v.len() - i,
    {
        let c = v[i];
        proof {
            let t = s@.take(i + 1);
            assert(t.drop_last() =~= s@.take(i as int));
            assert(t.last() == c);
            assert(t =~= s@.take(i as int).push(c));
            assert forall|x: char| t.contains(x) <==> (s@.take(i as int).contains(x) || x == c) by {
                if t.contains(x) {
                    let k = choose|k: int| 0 <= k < t.len() && t[k] == x;
                    if k < i {
                        assert(s@.take(i as int)[k] == x);
                    }
                }
                if s@.take(i as int).contains(x) {
                    let k = choose|k: int| 0 <= k < i && s@.take(i as int)[k] == x;
                    assert(t[k] == x);
                }
                if x == c {
                    assert(t[i as int] == x);
                }
            }
        }
        if c == ',' || c == '"' || c == '\n' {
            special = true;
        }
        if c == '"' {
            push_str(&mut body, "\"\"");
            proof {
                reveal_strlit("\"\"");
                assert(body@ =~= double_quotes(s@.take(i + 1)));
            }
        } else {
            push_char(&mut body, c);
        }
        i = i + 1;
    }
    proof {
        assert(s@.take(v.len() as int) =~= s@);
    }
    if special {
        let mut r = string_of("\"");
        push_str(&mut r, body.as_str());
        push_str(&mut r, "\"");
        proof {
            reveal_strlit("\"");
            assert(r@ =~= seq!['"'] + double_quotes(s@) + seq!['"']);
        }
        r
    } else {
        string_of(s)
    }
}

// ── Names and addresses ─────────────────────────────────────────────────────

/// A CamelCase name spaced out: a space goes before every upper-case
/// character but the first.
pub open spec fn humanized(s: Seq<char>) -> Seq<char>
    decreases s.len(),
{
    if s.len() == 0 {
        s
    } else if s.len() > 1 && unicode_is_uppercase(s.last()) {
        humanized(s.drop_last()) + seq![' ', s.last()]
    } else {
        humanized(s.drop_last()).push(s.last())
    }
}

/// Spaces out a CamelCase metric name, e.g. `TotalRevenue` as `Total Revenue`.
pub fn humanize_metric_name(name: &str) -> (r: String)
    ensures
        r@ == humanized(name@),
{
    let v = str_chars(name);
    let mut out = String::new();
    let mut i: usize = 0;
    while i < v.len()
        invariant
            v@ == name@,
            i <= v.len(),
            out@ == humanized(name@.take(i as int)),
        decreases v.len() - i,
    {
        let c = v[i];
        proof {
            assert(name@.take(i + 1).drop_last() =~= name@.take(i as int));
            assert(name@.take(i + 1).last() == c);
        }
        if i > 0 && char_is_uppercase(c) {
            push_char(&mut out, ' ');
        }
        push_char(&mut out, c);
        proof {
            assert(out@ =~= humanized(name@.take(i + 1)));
        }
        i = i + 1;
    }
    proof {
        assert(name@.take(v.len() as int) =~= name@);
    }
    out
}

/// The given parts joined by `", "`.
pub open spec fn joined(parts: Seq<Seq<char>>) -> Seq<char>
    decreases parts.len(),
{
    if parts.len() == 0 {
        Seq::empty()
    } else if parts.len() == 1 {
        parts[0]
    } else {
        joined(parts.drop_last()) + ", "@ + parts.last()
    }
}

pub open spec fn present(o: Option<&String>) -> Seq<Seq<char>> {
    match o {
        Some(s) => seq![s@],
        None => Seq::empty(),
    }
}

/// City, state and country, those present, joined by `", "`.
pub fn build_address(city: Option<&String>, state: Option<&String>, country: Option<&String>) -> (r:
    String)
    ensures
        r@ == joined(present(city) + present(state) + present(country)),
{
    let mut out = String::new();
    let mut count: usize = 0;
    let ghost parts: Seq<Seq<char>> = Seq::empty();
    let items = [city, state, country];
    let mut k: usize = 0;
    while k < 3
        invariant
            items@ == seq![city, state, country],
            k <= 3,
            count == parts.len(),
            out@ == joined(parts),
            parts == (if k == 0 {
                Seq::empty()
            } else if k == 1 {
                present(city)
            } else if k == 2 {
                present(city) + present(state)
            } else {
                present(city) + present(state) + present(country)
            }),
        decreases 3 - k,
    {
        let item = items[k];
        if let Some(s) = item {
            if count > 0 {
                push_str(&mut out, ", ");
            }
            push_str(&mut out, s.as_str());
            proof {
                let np = parts.push(s@);
                assert(np.drop_last() =~= parts);
                if count == 0 {
                    assert(out@ =~= s@);
                }
                parts = np;
            }
            count = count + 1;
        }
        proof {
            if k == 0 {
                assert(parts =~= present(city));
            } else if k == 1 {
                assert(parts =~= present(city) + present(state));
            } else {
                assert(parts =~= present(city) + present(state) + present(country));
            }
        }
        k = k + 1;
    }
    out
}

// ── Word wrapping ───────────────────────────────────────────────────────────

/// The words of `s`: its maximal runs of non-whitespace characters, in order
/// (`str::split_whitespace`).
pub open spec fn words_of(s: Seq<char>) -> Seq<Seq<char>>
    decreases s.len(),
{
    if s.len() == 0 {
        Seq::empty()
    } else {
        let ws = words_of(s.drop_last());
        if is_whitespace(s.last()) {
            ws
        } else if s.len() > 1 && !is_whitespace(s[s.len() - 2]) {
            ws.update(ws.len() - 1, ws.last().push(s.last()))
        } else {
            ws.push(seq![s.last()])
        }
    }
}

proof fn lemma_words_nonempty(s: Seq<char>)
    ensures
        forall|i: int| 0 <= i < words_of(s).len() ==> (#[trigger] words_of(s)[i]).len() > 0,
        s.len() > 0 && !is_whitespace(s.last()) ==> words_of(s).len() > 0,
    decreases s.len(),
{
    if s.len() > 0 {
        lemma_words_nonempty(s.drop_last());
        if !is_whitespace(s.last()) && s.len() > 1 && !is_whitespace(s[s.len() - 2]) {
            assert(s.drop_last().last() == s[s.len() - 2]);
        }
    }
}

pub open spec fn strings_view(v: Seq<String>) -> Seq<Seq<char>> {
    Seq::new(v.len(), |i: int| v[i]@)
}

/// The words of `s`.
pub fn split_whitespace(s: &str) -> (words: Vec<String>)
    ensures
        strings_view(words@) == words_of(s@),
{
    let v = str_chars(s);
    let mut words: Vec<String> = Vec::new();
    let mut cur = String::new();
    let mut i: usize = 0;
    while i < v.len()
        invariant
            v@ == s@,
            i <= v.len(),
            cur@.len() > 0 ==> i > 0 && !is_whitespace(s@[i - 1]),
            cur@.len() == 0 ==> (i == 0 || is_whitespace(s@[i - 1])),
            (if cur@.len() > 0 {
                strings_view(words@).push(cur@)
            } else {
                strings_view(words@)
            }) == words_of(s@.take(i as int)),
        decreases v.len() - i,
    {
        let c = v[i];
        proof {
            assert(s@.take(i + 1).drop_last() =~= s@.take(i as int));
            assert(s@.take(i + 1).last() == c);
            if i > 0 {
                assert(s@.take(i + 1)[i - 1] == s@[i - 1]);
            }
            lemma_words_nonempty(s@.take(i as int));
        }
        let ghost before = words@;
        let ghost cur_before = cur@;
        if char_is_whitespace(c) {
            if !cur.as_str().is_empty() {
                let w = cur;
                words.push(w);
                cur = String::new();
                proof {
                    assert(strings_view(words@) =~= strings_view(before).push(cur_before));
                }
            }
        } else {
            push_char(&mut cur, c);
            proof {
                if cur_before.len() > 0 {
                    assert(strings_view(words@).push(cur@) =~= strings_view(before).push(
                        cur_before,
                    ).update(strings_view(before).len() as int, cur_before.push(c)));
                } else {
                    assert(cur_before =~= Seq::<char>::empty());
                    assert(cur@ =~= seq![c]);
                    assert(strings_view(words@) =~= strings_view(before));
                    assert(strings_view(words@).push(cur@) =~= strings_view(before).push(seq![c]));
                }
            }
        }
        i = i + 1;
    }
    proof {
        assert(s@.take(v.len() as int) =~= s@);
    }
    if !cur.as_str().is_empty() {
        let ghost before = words@;
        words.push(cur);
        proof {
            assert(strings_view(words@) =~= strings_view(before).push(cur@));
        }
    }
    words
}

/// Greedy wrapping of words into lines of at most `width` bytes: the lines
/// completed so far and the line being filled.
pub open spec fn wrap_state(words: Seq<Seq<char>>, width: int) -> (Seq<Seq<char>>, Seq<char>)
    decreases words.len(),
{
    if words.len() == 0 {
        (Seq::empty(), Seq::empty())
    } else {
        let (lines, cur) = wrap_state(words.drop_last(), width);
        let w = words.last();
        if cur.len() == 0 {
            (lines, w)
        } else if byte_len(cur) + 1 + byte_len(w) <= width {
            (lines, cur + seq![' '] + w)
        } else {
            (lines.push(cur), w)
        }
    }
}

/// The lines of `text` wrapped at `width` bytes. A word longer than the
/// width stands on a line of its own.
pub open spec fn wrapped(text: Seq<char>, width: int) -> Seq<Seq<char>> {
    let (lines, cur) = wrap_state(words_of(text), width);
    if cur.len() > 0 {
        lines.push(cur)
    } else {
        lines
    }
}

/// Wraps `text` into lines of at most `width` bytes, breaking between words
/// (the description in the profile command).
pub fn textwrap(text: &str, width: usize) -> (lines: Vec<String>)
    ensures
        strings_view(lines@) == wrapped(text@, width as int),
{
    let words = split_whitespace(text);
    let ghost ws = words_of(text@);
    let mut lines: Vec<String> = Vec::new();
    let mut cur = String::new();
    let mut i: usize = 0;
    proof {
        lemma_words_nonempty(text@);
    }
    while i < words.len()
        invariant
            strings_view(words@) == ws,
            ws == words_of(text@),
            forall|k: int| 0 <= k < ws.len() ==> (#[trigger] ws[k]).len() > 0,
            i <= words.len(),
            (strings_view(lines@), cur@) == wrap_state(ws.take(i as int), width as int),
        decreases words.len() - i,
    {
        let w = words[i].as_str();
        proof {
            assert(ws.take(i + 1).drop_last() =~= ws.take(i as int));
            assert(ws.take(i + 1).last() == ws[i as int]);
            assert(w@ == ws[i as int]);
        }
        let cur_len = str_byte_len(cur.as_str());
        let w_len = str_byte_len(w);
        if cur.as_str().is_empty() {
            cur = string_of(w);
        } else if w_len <= width && cur_len < width && cur_len + 1 <= width - w_len {
            push_char(&mut cur, ' ');
            push_str(&mut cur, w);
            proof {
                assert(cur@ =~= (wrap_state(ws.take(i as int), width as int).1 + seq![' ']) + w@);
            }
        } else {
            let ghost before = lines@;
            let done = cur;
            lines.push(done);
            cur = string_of(w);
            proof {
                assert(strings_view(lines@) =~= strings_view(before).push(
                    wrap_state(ws.take(i as int), width as int).1,
                ));
            }
        }
        i = i + 1;
    }
    proof {
        assert(ws.take(words.len() as int) =~= ws);
    }
    if !cur.as_str().is_empty() {
        let ghost before = lines@;
        lines.push(cur);
        proof {
            assert(strings_view(lines@) =~= strings_view(before).push(cur@));
        }
    }
    lines
}

/// Greedy wrapping as the info command prints a description: a word goes
/// to a new line when the line, a space and the word exceed `max_width`
/// bytes; the line being filled then ends, even when it is empty.
pub open spec fn print_wrap_state(words: Seq<Seq<char>>, max_width: int) -> (
    Seq<Seq<char>>,
    Seq<char>,
)
    decreases words.len(),
{
    if words.len() == 0 {
        (Seq::empty(), Seq::empty())
    } else {
        let (lines, line) = print_wrap_state(words.drop_last(), max_width);
        let w = words.last();
        if byte_len(line) + byte_len(w) + 1 > max_width {
            (lines.push(line), w)
        } else if line.len() == 0 {
            (lines, w)
        } else {
            (lines, line + seq![' '] + w)
        }
    }
}

/// The lines that the info command prints for a description, at most
/// `min(width - 4, 76)` bytes wide.
pub open spec fn printed_lines(text: Seq<char>, width: int) -> Seq<Seq<char>> {
    let max_width = if width >= 4 {
        if width - 4 < 76 {
            width - 4
        } else {
            76
        }
    } else {
        0
    };
    let (lines, line) = print_wrap_state(words_of(text), max_width);
    if line.len() > 0 {
        lines.push(line)
    } else {
        lines
    }
}

/// The lines of a description as the info command prints them, each then
/// printed indented.
pub fn wrapped_lines(text: &str, width: usize) -> (lines: Vec<String>)
    ensures
        strings_view(lines@) == printed_lines(text@, width as int),
{
    let max_width: usize = if width >= 4 {
        if width - 4 < 76 {
            width - 4
        } else {
            76
        }
    } else {
        0
    };
    let words = split_whitespace(text);
    let ghost ws = words_of(text@);
    let mut lines: Vec<String> = Vec::new();
    let mut line = String::new();
    let mut i: usize = 0;
    while i < words.len()
        invariant
            strings_view(words@) == ws,
            ws == words_of(text@),
            i <= words.len(),
            max_width <= 76,
            (strings_view(lines@), line@) == print_wrap_state(ws.take(i as int), max_width as int),
        decreases words.len() - i,
    {
        let w = words[i].as_str();
        proof {
            assert(ws.take(i + 1).drop_last() =~= ws.take(i as int));
            assert(ws.take(i + 1).last() == ws[i as int]);
            assert(w@ == ws[i as int]);
        }
        let line_len = str_byte_len(line.as_str());
        let w_len = str_byte_len(w);
        if line_len > max_width || w_len > max_width - line_len || w_len + 1 > max_width - line_len {
            let ghost before = lines@;
            let done = line;
            lines.push(done);
            line = string_of(w);
            proof {
                assert(strings_view(lines@) =~= strings_view(before).push(
                    print_wrap_state(ws.take(i as int), max_width as int).1,
                ));
            }
        } else if line.as_str().is_empty() {
            line = string_of(w);
        } else {
            push_char(&mut line, ' ');
            push_str(&mut line, w);
            proof {
                assert(line@ =~= (print_wrap_state(ws.take(i as int), max_width as int).1 + seq![
                    ' ',
                ]) + w@);
            }
        }
        i = i + 1;
    }
    proof {
        assert(ws.take(words.len() as int) =~= ws);
    }
    if !line.as_str().is_empty() {
        let ghost before = lines@;
        lines.push(line);
        proof {
            assert(strings_view(lines@) =~= strings_view(before).push(line@));
        }
    }
    lines
}

// ── Whole numbers ───────────────────────────────────────────────────────────

pub open spec fn digit_char(d: int) -> char {
    (('0' as int) + d) as char
}

/// The decimal digits of `n`, without leading zeros.
pub open spec fn nat_text(n: nat) -> Seq<char>
    decreases n,
{
    if n < 10 {
        seq![digit_char(n as int)]
    } else {
        nat_text(n / 10).push(digit_char((n % 10) as int))
    }
}

/// The decimal text of `n` (what `to_string` gives for an integer).
pub open spec fn int_text(n: int) -> Seq<char> {
    if n < 0 {
        seq!['-'] + nat_text((-n) as nat)
    } else {
        nat_text(n as nat)
    }
}

/// The decimal digits of `m`.
fn digits_of(m: u64) -> (v: Vec<char>)
    ensures
        v@ == nat_text(m as nat),
{
    let ghost total: nat = m as nat;
    let mut m = m;
    let mut out: Vec<char> = Vec::new();
    while m >= 10
        invariant
            nat_text(total) == nat_text(m as nat) + out@,
        decreases m,
    {
        let d = m % 10;
        let c = crate::text::char_from_ascii((48 + d) as u32);
        proof {
            assert(nat_text(m as nat) == nat_text((m / 10) as nat).push(digit_char((m % 10) as int)));
        }
        let ghost before = out@;
        out.insert(0, c);
        m = m / 10;
        proof {
            assert(out@ =~= seq![c] + before);
            assert(nat_text(total) =~= nat_text(m as nat) + out@);
        }
    }
    out.insert(0, crate::text::char_from_ascii((48 + m) as u32));
    proof {
        assert(nat_text(total) =~= out@);
    }
    out
}

/// Appends the characters of `v` to `s`.
fn push_chars(s: &mut String, v: &Vec<char>)
    ensures
        final(s)@ == old(s)@ + v@,
{
    let mut i: usize = 0;
    while i < v.len()
        invariant
            i <= v.len(),
            s@ == old(s)@ + v@.take(i as int),
        decreases v.len() - i,
    {
        push_char(s, v[i]);
        proof {
            assert(v@.take(i + 1) =~= v@.take(i as int).push(v@[i as int]));
        }
        i = i + 1;
    }
    proof {
        assert(v@.take(v.len() as int) =~= v@);
    }
}

/// The decimal text of `n`.
pub fn u64_text(n: u64) -> (s: String)
    ensures
        s@ == nat_text(n as nat),
{
    let mut s = String::new();
    push_chars(&mut s, &digits_of(n));
    s
}

/// The decimal text of `n`.
pub fn usize_text(n: usize) -> (s: String)
    ensures
        s@ == nat_text(n as nat),
{
    u64_text(n as u64)
}

/// The decimal text of `n`.
pub fn i64_text(n: i64) -> (s: String)
    ensures
        s@ == int_text(n as int),
{
    let m: u64 = if n < 0 {
        (0i128 - (n as i128)) as u64
    } else {
        n as u64
    };
    let mut s = String::new();
    if n < 0 {
        push_char(&mut s, '-');
    }
    push_chars(&mut s, &digits_of(m));
    s
}

/// `s` with a comma before every group of three characters counted from the
/// right.
pub open spec fn grouped(s: Seq<char>) -> Seq<char>
    decreases s.len(),
{
    if s.len() <= 3 {
        s
    } else {
        grouped(s.take(s.len() - 3)) + seq![','] + s.skip(s.len() - 3)
    }
}

/// A whole number with its digits grouped in threes by commas, the sign in
/// front: `1,234,567`, `-123,456`.
pub open spec fn number_text(n: int) -> Seq<char> {
    if n < 0 {
        seq!['-'] + grouped(nat_text((-n) as nat))
    } else {
        grouped(nat_text(n as nat))
    }
}

/// A whole number with thousands separators, as the info command shows
/// volumes and counts, e.g. `1,234,567` or `-123,456`.
pub fn format_number(n: i64) -> (r: String)
    ensures
        r@ == number_text(n as int),
{
    let m: u64 = if n < 0 {
        (0i128 - (n as i128)) as u64
    } else {
        n as u64
    };
    let text = u64_text(m);
    let v = str_chars(text.as_str());
    let ghost t = v@;
    let mut k: usize = v.len();
    let mut tail: Vec<char> = Vec::new();
    proof {
        assert(t.take(k as int) =~= t);
        assert(t.take(k as int) + tail@ =~= t);
    }
    while k > 3
        invariant
            v@ == t,
            k <= v.len(),
            grouped(t) == grouped(t.take(k as int)) + tail@,
        decreases k,
    {
        let ghost before = tail@;
        proof {
            assert(t.take(k as int).take(k - 3) =~= t.take(k - 3));
            assert(t.take(k as int).skip(k - 3) =~= t.subrange(k - 3, k as int));
        }
        let mut chunk: Vec<char> = Vec::new();
        chunk.push(',');
        chunk.push(v[k - 3]);
        chunk.push(v[k - 2]);
        chunk.push(v[k - 1]);
        let mut j: usize = 0;
        while j < tail.len()
            invariant
                3 < k <= t.len(),
                j <= tail.len(),
                chunk@ == seq![',', t[k - 3], t[k - 2], t[k - 1]] + tail@.take(j as int),
            decreases tail.len() - j,
        {
            chunk.push(tail[j]);
            proof {
                assert(tail@.take(j + 1) =~= tail@.take(j as int).push(tail@[j as int]));
            }
            j = j + 1;
        }
        proof {
            assert(tail@.take(tail.len() as int) =~= tail@);
            assert(t.subrange(k - 3, k as int) =~= seq![t[k - 3], t[k - 2], t[k - 1]]);
        }
        tail = chunk;
        k = k - 3;
        proof {
            assert(tail@ =~= seq![','] + t.subrange(k as int, k + 3) + before);
        }
    }
    proof {
        assert(t.take(k as int).len() <= 3);
    }
    let ghost sign: Seq<char> = if n < 0 {
        seq!['-']
    } else {
        Seq::empty()
    };
    let mut out = if n < 0 {
        string_of("-")
    } else {
        String::new()
    };
    let head = string_from_chars(&v, 0, k);
    push_str(&mut out, head.as_str());
    proof {
        reveal_strlit("-");
        assert(out@ =~= sign + t.take(k as int) + tail@.take(0));
    }
    let mut j: usize = 0;
    while j < tail.len()
        invariant
            j <= tail.len(),
            out@ == sign + t.take(k as int) + tail@.take(j as int),
        decreases tail.len() - j,
    {
        push_char(&mut out, tail[j]);
        proof {
            assert(tail@.take(j + 1) =~= tail@.take(j as int).push(tail@[j as int]));
        }
        j = j + 1;
    }
    proof {
        assert(tail@.take(tail.len() as int) =~= tail@);
        assert(t.subrange(0, k as int) =~= t.take(k as int));
        assert(out@ =~= sign + (t.take(k as int) + tail@));
    }
    out
}

// ── Laws ────────────────────────────────────────────────────────────────────

/// `s` without its commas.
pub open spec fn without_commas(s: Seq<char>) -> Seq<char>
    decreases s.len(),
{
    if s.len() == 0 {
        s
    } else if s.last() == ',' {
        without_commas(s.drop_last())
    } else {
        without_commas(s.drop_last()).push(s.last())
    }
}

proof fn lemma_without_commas_concat(a: Seq<char>, b: Seq<char>)
    ensures
        without_commas(a + b) == without_commas(a) + without_commas(b),
    decreases b.len(),
{
    if b.len() == 0 {
        assert(a + b =~= a);
        assert(without_commas(a) + without_commas(b) =~= without_commas(a));
    } else {
        assert((a + b).drop_last() =~= a + b.drop_last());
        assert((a + b).last() == b.last());
        lemma_without_commas_concat(a, b.drop_last());
        if b.last() != ',' {
            assert(without_commas(a) + without_commas(b.drop_last()).push(b.last()) =~= (
            without_commas(a) + without_commas(b.drop_last())).push(b.last()));
        }
    }
}

proof fn lemma_without_commas_none(s: Seq<char>)
    requires
        !s.contains(','),
    ensures
        without_commas(s) == s,
    decreases s.len(),
{
    if s.len() > 0 {
        assert(!s.drop_last().contains(',')) by {
            if s.drop_last().contains(',') {
                let k = choose|k: int| 0 <= k < s.drop_last().len() && s.drop_last()[k] == ',';
                assert(s[k] == ',');
            }
        }
        lemma_without_commas_none(s.drop_last());
        assert(s.last() == s[s.len() - 1]);
        assert(s.drop_last().push(s.last()) =~= s);
    }
}

/// Grouping digits only adds commas: taking them out again gives the text back.
pub proof fn law_grouping_keeps_text(s: Seq<char>)
    requires
        !s.contains(','),
    ensures
        without_commas(grouped(s)) == s,
    decreases s.len(),
{
    if s.len() <= 3 {
        lemma_without_commas_none(s);
    } else {
        let head = s.take(s.len() - 3);
        let tail = s.skip(s.len() - 3);
        assert(!head.contains(',')) by {
            if head.contains(',') {
                let k = choose|k: int| 0 <= k < head.len() && head[k] == ',';
                assert(s[k] == ',');
            }
        }
        assert(!tail.contains(',')) by {
            if tail.contains(',') {
                let k = choose|k: int| 0 <= k < tail.len() && tail[k] == ',';
                assert(s[s.len() - 3 + k] == ',');
            }
        }
        law_grouping_keeps_text(head);
        lemma_without_commas_concat(grouped(head) + seq![','], tail);
        lemma_without_commas_concat(grouped(head), seq![',']);
        assert(seq![','].drop_last() =~= Seq::<char>::empty());
        assert(seq![','].last() == ',');
        assert(without_commas(Seq::<char>::empty()) =~= Seq::<char>::empty());
        assert(without_commas(seq![',']) =~= Seq::<char>::empty());
        lemma_without_commas_none(tail);
        assert(head + tail =~= s);
    }
}

/// The decimal text of a number holds no comma.
pub proof fn lemma_nat_text_no_comma(n: nat)
    ensures
        !nat_text(n).contains(','),
    decreases n,
{
    if n >= 10 {
        lemma_nat_text_no_comma(n / 10);
        let t = nat_text(n);
        if t.contains(',') {
            let k = choose|k: int| 0 <= k < t.len() && t[k] == ',';
            if k < t.len() - 1 {
                assert(nat_text(n / 10)[k] == ',');
            }
        }
    }
}

/// Taking the thousands separators out of a formatted number gives its
/// decimal text back.
pub proof fn law_format_number_digits(n: int)
    ensures
        without_commas(number_text(n)) == int_text(n),
{
    if n < 0 {
        let d = nat_text((-n) as nat);
        lemma_nat_text_no_comma((-n) as nat);
        law_grouping_keeps_text(d);
        lemma_without_commas_concat(seq!['-'], grouped(d));
        assert(seq!['-'].drop_last() =~= Seq::<char>::empty());
        assert(without_commas(Seq::<char>::empty()) =~= Seq::<char>::empty());
        assert(without_commas(seq!['-']) =~= seq!['-']);
    } else {
        lemma_nat_text_no_comma(n as nat);
        law_grouping_keeps_text(nat_text(n as nat));
    }
}

/// Greedy wrapping keeps every line within the width, except a line that
/// holds a single word longer than the width.
pub proof fn law_wrapped_lines_fit(words: Seq<Seq<char>>, width: int)
    ensures
        forall|i: int|
            0 <= i < wrap_state(words, width).0.len() ==> byte_len(
                #[trigger] wrap_state(words, width).0[i],
            ) <= width || words.contains(wrap_state(words, width).0[i]),
        byte_len(wrap_state(words, width).1) <= width || words.contains(
            wrap_state(words, width).1,
        ) || wrap_state(words, width).1.len() == 0,
    decreases words.len(),
{
    if words.len() > 0 {
        let prev = words.drop_last();
        law_wrapped_lines_fit(prev, width);
        let (lines, cur) = wrap_state(prev, width);
        let w = words.last();
        assert(words.contains(w)) by {
            assert(words[words.len() - 1] == w);
        }
        assert forall|x: Seq<char>| prev.contains(x) implies words.contains(x) by {
            let k = choose|k: int| 0 <= k < prev.len() && prev[k] == x;
            assert(words[k] == x);
        }
        if cur.len() != 0 && byte_len(cur) + 1 + byte_len(w) <= width {
            lemma_byte_len_concat(cur + seq![' '], w);
            lemma_byte_len_concat(cur, seq![' ']);
            assert(seq![' '].drop_last() =~= Seq::<char>::empty());
            assert(seq![' '].last() == ' ');
            assert(byte_len(Seq::<char>::empty()) == 0);
            assert(utf8_width(' ') == 1);
            assert(byte_len(seq![' ']) == 1);
        }
    }
}

/// Lines (or words) joined by single spaces.
pub open spec fn space_joined(s: Seq<Seq<char>>) -> Seq<char>
    decreases s.len(),
{
    if s.len() == 0 {
        Seq::empty()
    } else if s.len() == 1 {
        s[0]
    } else {
        space_joined(s.drop_last()) + seq![' '] + s.last()
    }
}

/// The text of a line up to its first space.
pub open spec fn first_word(l: Seq<char>) -> Seq<char>
    decreases l.len(),
{
    if l.len() == 0 {
        l
    } else if l[0] == ' ' {
        Seq::empty()
    } else {
        seq![l[0]] + first_word(l.drop_first())
    }
}

/// A line that is not empty and neither starts nor ends with whitespace.
pub open spec fn trimmed_line(l: Seq<char>) -> bool {
    l.len() > 0 && !is_whitespace(l[0]) && !is_whitespace(l.last())
}

/// No character of `w` is whitespace.
pub open spec fn no_whitespace(w: Seq<char>) -> bool {
    forall|c: int| 0 <= c < w.len() ==> !is_whitespace(#[trigger] w[c])
}

proof fn lemma_words_no_whitespace(s: Seq<char>)
    ensures
        forall|i: int| 0 <= i < words_of(s).len() ==> no_whitespace(#[trigger] words_of(s)[i]),
    decreases s.len(),
{
    if s.len() > 0 {
        lemma_words_no_whitespace(s.drop_last());
        let ws = words_of(s.drop_last());
        let c = s.last();
        if !is_whitespace(c) && s.len() > 1 && !is_whitespace(s[s.len() - 2]) {
            lemma_words_nonempty(s.drop_last());
            assert(s.drop_last().last() == s[s.len() - 2]);
            let nw = ws.last().push(c);
            assert(no_whitespace(ws[ws.len() - 1]));
            assert forall|k: int| 0 <= k < nw.len() implies !is_whitespace(#[trigger] nw[k]) by {
                if k < ws.last().len() {
                    assert(nw[k] == ws[ws.len() - 1][k]);
                }
            }
            assert forall|i: int| 0 <= i < words_of(s).len() implies no_whitespace(
                #[trigger] words_of(s)[i],
            ) by {
                if i < ws.len() - 1 {
                    assert(words_of(s)[i] == ws[i]);
                }
            }
        } else if !is_whitespace(c) {
            assert forall|i: int| 0 <= i < words_of(s).len() implies no_whitespace(
                #[trigger] words_of(s)[i],
            ) by {
                if i < ws.len() {
                    assert(words_of(s)[i] == ws[i]);
                } else {
                    assert(words_of(s)[i] == seq![c]);
                }
            }
        }
    }
}

proof fn lemma_first_word_before_space(a: Seq<char>, b: Seq<char>)
    ensures
        first_word(a + (seq![' '] + b)) == first_word(a),
    decreases a.len(),
{
    if a.len() > 0 && a[0] != ' ' {
        lemma_first_word_before_space(a.drop_first(), b);
        assert((a + (seq![' '] + b)).drop_first() =~= a.drop_first() + (seq![' '] + b));
    }
}

proof fn lemma_first_word_whole(a: Seq<char>)
    requires
        no_whitespace(a),
    ensures
        first_word(a) == a,
    decreases a.len(),
{
    if a.len() > 0 {
        assert(!is_whitespace(a[0]));
        assert forall|c: int| 0 <= c < a.drop_first().len() implies !is_whitespace(
            #[trigger] a.drop_first()[c],
        ) by {
            assert(a.drop_first()[c] == a[c + 1]);
        }
        lemma_first_word_whole(a.drop_first());
        assert(seq![a[0]] + a.drop_first() =~= a);
    }
}

proof fn lemma_joined_extend(s: Seq<Seq<char>>, x: Seq<char>, w: Seq<char>)
    ensures
        space_joined(s.push(x + seq![' '] + w)) == space_joined(s.push(x)) + seq![' '] + w,
{
    assert(s.push(x + seq![' '] + w).drop_last() =~= s);
    assert(s.push(x).drop_last() =~= s);
    if s.len() > 0 {
        assert(space_joined(s) + seq![' '] + (x + seq![' '] + w) =~= space_joined(s) + seq![' '] + x
            + seq![' '] + w);
    }
}

/// The completed lines of a wrap followed by the line being filled, if any.
pub open spec fn flushed(st: (Seq<Seq<char>>, Seq<char>)) -> Seq<Seq<char>> {
    if st.1.len() > 0 {
        st.0.push(st.1)
    } else {
        st.0
    }
}

proof fn lemma_wrap_state_props(ws: Seq<Seq<char>>, width: int)
    requires
        forall|k: int| 0 <= k < ws.len() ==> (#[trigger] ws[k]).len() > 0 && no_whitespace(ws[k]),
    ensures
        ({
            let (lines, cur) = wrap_state(ws, width);
            &&& ws.len() > 0 ==> cur.len() > 0
            &&& ws.len() == 0 ==> lines.len() == 0 && cur.len() == 0
            &&& forall|i: int| 0 <= i < lines.len() ==> trimmed_line(#[trigger] lines[i])
            &&& cur.len() > 0 ==> trimmed_line(cur)
            &&& forall|i: int, j: int|
                0 <= i && j == i + 1 && j < lines.len() ==> byte_len(#[trigger] lines[i]) + 1
                    + byte_len(first_word(#[trigger] lines[j])) > width
            &&& lines.len() > 0 ==> byte_len(lines.last()) + 1 + byte_len(first_word(cur)) > width
            &&& space_joined(flushed(wrap_state(ws, width))) == space_joined(ws)
        }),
    decreases ws.len(),
{
    if ws.len() > 0 {
        let prev = ws.drop_last();
        assert forall|k: int| 0 <= k < prev.len() implies (#[trigger] prev[k]).len() > 0
            && no_whitespace(prev[k]) by {
            assert(prev[k] == ws[k]);
        }
        lemma_wrap_state_props(prev, width);
        let (lines, cur) = wrap_state(prev, width);
        let w = ws.last();
        assert(w == ws[ws.len() - 1]);
        assert(w.len() > 0 && no_whitespace(w));
        assert(!is_whitespace(w[0]) && !is_whitespace(w[w.len() - 1]));
        assert(trimmed_line(w));
        if cur.len() == 0 {
            assert(prev.len() == 0);
            assert(flushed(wrap_state(ws, width)) =~= seq![w]);
            assert(ws =~= seq![w]);
        } else if byte_len(cur) + 1 + byte_len(w) <= width {
            let nc = cur + seq![' '] + w;
            assert(nc[0] == cur[0]);
            assert(nc.last() == w.last());
            assert(trimmed_line(nc));
            lemma_first_word_before_space(cur, w);
            assert(cur + seq![' '] + w =~= cur + (seq![' '] + w));
            lemma_joined_extend(lines, cur, w);
            assert(ws.drop_last() == prev);
        } else {
            lemma_first_word_whole(w);
            let nl = lines.push(cur);
            assert forall|i: int| 0 <= i < nl.len() implies trimmed_line(#[trigger] nl[i]) by {
                if i < lines.len() {
                    assert(nl[i] == lines[i]);
                }
            }
            assert forall|i: int, j: int|
                0 <= i && j == i + 1 && j < nl.len() implies byte_len(#[trigger] nl[i]) + 1
                + byte_len(first_word(#[trigger] nl[j])) > width by {
                if j < lines.len() {
                    assert(nl[i] == lines[i] && nl[j] == lines[j]);
                } else {
                    assert(nl[i] == lines.last() && nl[j] == cur);
                }
            }
            assert(nl.last() == cur);
            assert(nl.push(w).drop_last() =~= nl);
            assert(ws.drop_last() == prev);
        }
    }
}

/// Wrapping loses, splits and reorders no word: the lines joined by single
/// spaces are the words of the text joined by single spaces, and every line
/// is non-empty and neither starts nor ends with whitespace.
pub proof fn law_wrapped_keeps_words(text: Seq<char>, width: int)
    ensures
        space_joined(wrapped(text, width)) == space_joined(words_of(text)),
        forall|i: int|
            0 <= i < wrapped(text, width).len() ==> trimmed_line(#[trigger] wrapped(text, width)[i]),
{
    lemma_words_nonempty(text);
    lemma_words_no_whitespace(text);
    let ws = words_of(text);
    lemma_wrap_state_props(ws, width);
    let (lines, cur) = wrap_state(ws, width);
    assert(wrapped(text, width) == flushed(wrap_state(ws, width)));
    assert forall|i: int| 0 <= i < wrapped(text, width).len() implies trimmed_line(
        #[trigger] wrapped(text, width)[i],
    ) by {
        if i < lines.len() {
            assert(wrapped(text, width)[i] == lines[i]);
        }
    }
}

/// Wrapping is greedy: no line could have taken the first word of the line
/// after it, since that line, a space and the word exceed the width.
pub proof fn law_wrapping_is_greedy(text: Seq<char>, width: int)
    ensures
        forall|i: int, j: int|
            0 <= i && j == i + 1 && j < wrapped(text, width).len() ==> byte_len(
                #[trigger] wrapped(text, width)[i],
            ) + 1 + byte_len(first_word(#[trigger] wrapped(text, width)[j])) > width,
{
    lemma_words_nonempty(text);
    lemma_words_no_whitespace(text);
    let ws = words_of(text);
    lemma_wrap_state_props(ws, width);
    let (lines, cur) = wrap_state(ws, width);
    let r = wrapped(text, width);
    assert forall|i: int, j: int|
        0 <= i && j == i + 1 && j < r.len() implies byte_len(#[trigger] r[i]) + 1 + byte_len(
        first_word(#[trigger] r[j]),
    ) > width by {
        if j < lines.len() {
            assert(r[i] == lines[i] && r[j] == lines[j]);
        } else {
            assert(cur.len() > 0);
            assert(r[i] == lines.last() && r[j] == cur);
        }
    }
}

} // verus!
