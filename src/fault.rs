//! Formatting of fault reports: a fault's location, message and backtrace
//! become the text of one `Error` event.
use vstd::prelude::*;
use crate::format::{paint, painted, Color};

verus! {

/// Index of the first line break in `s` at or after `i`, or `s.len()`.
pub open spec fn newline_from(s: Seq<char>, i: int) -> int
    decreases s.len() - i,
{
    if i < 0 || i >= s.len() {
        s.len() as int
    } else if s[i] == '\n' {
        i
    } else {
        newline_from(s, i + 1)
    }
}

/// A line without the carriage return that ended it.
pub open spec fn chomp(line: Seq<char>) -> Seq<char> {
    if line.len() > 0 && line.last() == '\r' {
        line.drop_last()
    } else {
        line
    }
}

/// The lines of `s` from `start` on: split at `'\n'`, a `'\r'` before the
/// break dropped, and no empty line after a final break.
pub open spec fn lines_from(s: Seq<char>, start: int) -> Seq<Seq<char>>
    decreases s.len() - start,
{
    if start < 0 || start >= s.len() {
        Seq::empty()
    } else {
        let k = newline_from(s, start);
        if start <= k < s.len() {
            seq![chomp(s.subrange(start, k))] + lines_from(s, k + 1)
        } else {
            seq![s.subrange(start, s.len() as int)]
        }
    }
}

pub open spec fn lines_of(s: Seq<char>) -> Seq<Seq<char>> {
    lines_from(s, 0)
}

/// The lines joined with `'\n'` between them.
pub open spec fn joined(parts: Seq<Seq<char>>) -> Seq<char>
    decreases parts.len(),
{
    if parts.len() == 0 {
        Seq::empty()
    } else if parts.len() == 1 {
        parts[0]
    } else {
        joined(parts.drop_last()) + seq!['\n'] + parts.last()
    }
}

/// The Unicode `White_Space` characters.
pub open spec fn white_space(c: char) -> bool {
    ('\u{9}' <= c && c <= '\u{d}') || c == ' ' || c == '\u{85}' || c == '\u{a0}' || c == '\u{1680}'
        || ('\u{2000}' <= c && c <= '\u{200a}') || c == '\u{2028}' || c == '\u{2029}' || c
        == '\u{202f}' || c == '\u{205f}' || c == '\u{3000}'
}

pub open spec fn blank(line: Seq<char>) -> bool {
    forall|i: int| 0 <= i < line.len() ==> white_space(#[trigger] line[i])
}

pub open spec fn payload_mark() -> Seq<char> {
    seq!['\t', '\t', '|', '|', ' ', ' ']
}

pub open spec fn trace_mark() -> Seq<char> {
    seq!['\t', '\t', '|']
}

/// Index of the first character of `s` at or after `i` that is not white
/// space, or `s.len()` if there is none.
pub open spec fn text_from(s: Seq<char>, i: int) -> int
    decreases s.len() - i,
{
    if i < 0 || i >= s.len() {
        s.len() as int
    } else if !white_space(s[i]) {
        i
    } else {
        text_from(s, i + 1)
    }
}

/// A line without its leading white space.
pub open spec fn trim_start(line: Seq<char>) -> Seq<char> {
    line.subrange(text_from(line, 0), line.len() as int)
}

/// The payload lines from index `i` on: blank lines dropped, the others
/// without their leading white space, the first line of the payload
/// unprefixed and every later line after the payload mark.
pub open spec fn payload_lines(ls: Seq<Seq<char>>, i: int) -> Seq<Seq<char>>
    decreases ls.len() - i,
{
    if i < 0 || i >= ls.len() {
        Seq::empty()
    } else if blank(ls[i]) {
        payload_lines(ls, i + 1)
    } else if i == 0 {
        seq![trim_start(ls[i])] + payload_lines(ls, i + 1)
    } else {
        seq![payload_mark() + trim_start(ls[i])] + payload_lines(ls, i + 1)
    }
}

/// The payload re-indented as a pseudo stack trace.
pub open spec fn indented_payload(payload: Seq<char>) -> Seq<char> {
    joined(payload_lines(lines_of(payload), 0))
}

/// Every line of the backtrace after the trace mark.
pub open spec fn indented_trace(trace: Seq<char>) -> Seq<char> {
    joined(lines_of(trace).map_values(|l: Seq<char>| trace_mark() + l))
}

/// Whether `c` has the Unicode `White_Space` property.
pub fn is_white_space(c: char) -> (r: bool)
    ensures
        r == white_space(c),
{
    ('\u{9}' <= c && c <= '\u{d}') || c == ' ' || c == '\u{85}' || c == '\u{a0}' || c == '\u{1680}'
        || ('\u{2000}' <= c && c <= '\u{200a}') || c == '\u{2028}' || c == '\u{2029}' || c
        == '\u{202f}' || c == '\u{205f}' || c == '\u{3000}'
}

proof fn lemma_text_bounds(s: Seq<char>, i: int)
    requires
        0 <= i <= s.len(),
    ensures
        i <= text_from(s, i) <= s.len(),
    decreases s.len() - i,
{
    if i < s.len() && white_space(s[i]) {
        lemma_text_bounds(s, i + 1);
    }
}

/// `line` without its leading white space.
pub fn trim_leading(line: &str) -> (r: &str)
    ensures
        r@ == trim_start(line@),
{
    let n = line.unicode_len();
    let mut i: usize = 0;
    while i < n && is_white_space(line.get_char(i))
        invariant
            n == line@.len(),
            i <= n,
            text_from(line@, 0) == text_from(line@, i as int),
        decreases n - i,
    {
        i = i + 1;
    }
    proof {
        lemma_text_bounds(line@, i as int);
    }
    line.substring_char(i, n)
}

/// Whether `line` holds only white space.
pub fn is_blank(line: &str) -> (r: bool)
    ensures
        r == blank(line@),
{
    let n = line.unicode_len();
    let mut i: usize = 0;
    while i < n
        invariant
            n == line@.len(),
            i <= n,
            forall|j: int| 0 <= j < i ==> white_space(#[trigger] line@[j]),
        decreases n - i,
    {
        if !is_white_space(line.get_char(i)) {
            return false;
        }
        i = i + 1;
    }
    true
}

/// The lines of `text`, as `str::lines` gives them.
pub fn split_lines(text: &str) -> (r: Vec<String>)
    ensures
        r@.len() == lines_of(text@).len(),
        forall|i: int| 0 <= i < r@.len() ==> #[trigger] r@[i]@ == lines_of(text@)[i],
{
    let ghost s = text@;
    let n = text.unicode_len();
    let mut out: Vec<String> = Vec::new();
    let ghost mut done: Seq<Seq<char>> = Seq::empty();
    let mut start: usize = 0;
    while start < n
        invariant
            n == s.len(),
            s == text@,
            start <= n,
            out@.len() == done.len(),
            forall|i: int| 0 <= i < out@.len() ==> #[trigger] out@[i]@ == done[i],
            lines_of(s) == done + lines_from(s, start as int),
        decreases n - start,
    {
        let mut k: usize = start;
        while k < n && text.get_char(k) != '\n'
            invariant
                n == s.len(),
                s == text@,
                start <= k <= n,
                newline_from(s, start as int) == newline_from(s, k as int),
            decreases n - k,
        {
            k = k + 1;
        }
        let ghost before = done;
        if k < n {
            let end: usize = if k > start && text.get_char(k - 1) == '\r' {
                k - 1
            } else {
                k
            };
            let line = text.substring_char(start, end);
            proof {
                let full = s.subrange(start as int, k as int);
                if k > start && s[k - 1] == '\r' {
                    assert(full.drop_last() =~= s.subrange(start as int, end as int));
                } else {
                    assert(full =~= s.subrange(start as int, end as int));
                }
                done = done.push(chomp(full));
            }
            out.push(line.to_owned());
            start = k + 1;
        } else {
            let line = text.substring_char(start, n);
            proof {
                done = done.push(s.subrange(start as int, n as int));
            }
            out.push(line.to_owned());
            start = n;
        }
        assert(lines_of(s) =~= done + lines_from(s, start as int));
    }
    assert(done + lines_from(s, start as int) =~= done);
    out
}

/// Joins the payload lines: blank ones dropped, the first line of the
/// payload unchanged, each later line after the payload mark.
pub fn indent_payload(payload: &str) -> (r: String)
    ensures
        r@ == indented_payload(payload@),
{
    let lines = split_lines(payload);
    let ghost ls = lines_of(payload@);
    let mut out = String::new();
    let ghost mut done: Seq<Seq<char>> = Seq::empty();
    let mut any = false;
    let mut i: usize = 0;
    while i < lines.len()
        invariant
            any == (done.len() > 0),
            lines@.len() == ls.len(),
            forall|j: int| 0 <= j < lines@.len() ==> #[trigger] lines@[j]@ == ls[j],
            i <= lines@.len(),
            out@ == joined(done),
            payload_lines(ls, 0) == done + payload_lines(ls, i as int),
        decreases lines.len() - i,
    {
        let line = lines[i].as_str();
        if !is_blank(line) {
            let ghost piece = if i == 0 {
                trim_start(ls[i as int])
            } else {
                payload_mark() + trim_start(ls[i as int])
            };
            if any {
                out.append("\n");
            }
            any = true;
            if i > 0 {
                out.append("\t\t||  ");
            }
            out.append(trim_leading(line));
            proof {
                reveal_strlit("\n");
                reveal_strlit("\t\t||  ");
                assert(done.push(piece).drop_last() =~= done);
                done = done.push(piece);
            }
            assert(out@ =~= joined(done));
        }
        assert(payload_lines(ls, 0) =~= done + payload_lines(ls, i + 1));
        i = i + 1;
    }
    assert(done + payload_lines(ls, i as int) =~= done);
    out
}

/// Puts the trace mark before every line of `trace`.
pub fn indent_trace(trace: &str) -> (r: String)
    ensures
        r@ == indented_trace(trace@),
{
    let lines = split_lines(trace);
    let ghost ls = lines_of(trace@);
    let ghost marked = ls.map_values(|l: Seq<char>| trace_mark() + l);
    let mut out = String::new();
    let mut i: usize = 0;
    while i < lines.len()
        invariant
            lines@.len() == ls.len(),
            forall|j: int| 0 <= j < lines@.len() ==> #[trigger] lines@[j]@ == ls[j],
            marked == ls.map_values(|l: Seq<char>| trace_mark() + l),
            marked.len() == ls.len(),
            i <= lines@.len(),
            out@ == joined(marked.take(i as int)),
        decreases lines.len() - i,
    {
        if i > 0 {
            out.append("\n");
        }
        out.append("\t\t|");
        out.append(lines[i].as_str());
        proof {
            reveal_strlit("\n");
            reveal_strlit("\t\t|");
            assert(marked.take(i + 1).drop_last() =~= marked.take(i as int));
        }
        assert(out@ =~= joined(marked.take(i + 1)));
        i = i + 1;
    }
    assert(marked.take(i as int) =~= marked);
    out
}

/// What stands for a missing location.
pub open spec fn unknown_location() -> Seq<char> {
    "Unknown location"@
}

/// What stands for a payload that is not text.
pub open spec fn unknown_payload() -> Seq<char> {
    "Unknown Payload"@
}

/// What stands for a backtrace that was not asked for.
pub open spec fn backtrace_hint() -> Seq<char> {
    "  Run with RUST_BACKTRACE=1 environment variable to display backtrace"@
}

pub open spec fn or_else(text: Option<&str>, fallback: Seq<char>) -> Seq<char> {
    match text {
        Some(t) => t@,
        None => fallback,
    }
}

/// The layout of a fault report.
pub open spec fn report_of(location: Seq<char>, payload: Seq<char>, trace: Seq<char>) -> Seq<char> {
    "Panic occurred at: "@ + location + "\n\t\t-----------------> "@ + payload + "\n"@ + trace
}

/// The message of the `Error` event that reports a fault. A missing
/// location, a payload that is not text and a backtrace that was not
/// captured are each replaced by their placeholder; the location is painted
/// black and the re-indented payload bright red.
pub fn fault_report(location: Option<&str>, payload: Option<&str>, backtrace: Option<&str>) -> (r:
    String)
    ensures
        exists|a: Seq<char>, b: Seq<char>|
            painted(Color::Black, or_else(location, unknown_location()), a) && painted(
                Color::BrightRed,
                indented_payload(or_else(payload, unknown_payload())),
                b,
            ) && r@ == report_of(
                a,
                b,
                indented_trace(or_else(backtrace, backtrace_hint())),
            ),
{
    let place: &str = match location {
        Some(l) => l,
        None => "Unknown location",
    };
    let text: &str = match payload {
        Some(p) => p,
        None => "Unknown Payload",
    };
    let trace: &str = match backtrace {
        Some(t) => t,
        None => "  Run with RUST_BACKTRACE=1 environment variable to display backtrace",
    };
    let a = paint(place, Color::Black);
    let body = indent_payload(text);
    let b = paint(body.as_str(), Color::BrightRed);
    let t = indent_trace(trace);
    let mut out = String::from_str("Panic occurred at: ");
    out.append(a.as_str());
    out.append("\n\t\t-----------------> ");
    out.append(b.as_str());
    out.append("\n");
    out.append(t.as_str());
    assert(out@ =~= report_of(a@, b@, t@));
    assert(painted(Color::Black, or_else(location, unknown_location()), a@) && painted(
        Color::BrightRed,
        indented_payload(or_else(payload, unknown_payload())),
        b@,
    ) && out@ == report_of(a@, b@, indented_trace(or_else(backtrace, backtrace_hint()))));
    out
}

/// The decimal digit for `d < 10`.
pub open spec fn digit(d: nat) -> char {
    (('0' as u32) + d) as char
}

/// The decimal numeral of `n`, without leading zeros.
pub open spec fn decimal(n: nat) -> Seq<char>
    decreases n,
{
    if n < 10 {
        seq![digit(n)]
    } else {
        decimal(n / 10).push(digit(n % 10))
    }
}

/// The call-site text `"{file}:{line}:{column}"`.
pub open spec fn location_of(file: Seq<char>, line: nat, column: nat) -> Seq<char> {
    file + seq![':'] + decimal(line) + seq![':'] + decimal(column)
}

fn digit_text(d: u32) -> (r: &'static str)
    requires
        d < 10,
    ensures
        r@ == seq![digit(d as nat)],
{
    proof {
        reveal_strlit("0");
        reveal_strlit("1");
        reveal_strlit("2");
        reveal_strlit("3");
        reveal_strlit("4");
        reveal_strlit("5");
        reveal_strlit("6");
        reveal_strlit("7");
        reveal_strlit("8");
        reveal_strlit("9");
    }
    let r = match d {
        0 => "0",
        1 => "1",
        2 => "2",
        3 => "3",
        4 => "4",
        5 => "5",
        6 => "6",
        7 => "7",
        8 => "8",
        _ => "9",
    };
    assert(r@ =~= seq![digit(d as nat)]);
    r
}

fn append_decimal(out: &mut String, n: u32)
    ensures
        final(out)@ == old(out)@ + decimal(n as nat),
    decreases n,
{
    if n >= 10 {
        append_decimal(out, n / 10);
    }
    out.append(digit_text(n % 10));
    assert(out@ =~= old(out)@ + decimal(n as nat));
}

/// The call-site text of a fault: `"{file}:{line}:{column}"`.
pub fn location_text(file: &str, line: u32, column: u32) -> (r: String)
    ensures
        r@ == location_of(file@, line as nat, column as nat),
{
    let mut out = file.to_owned();
    out.append(":");
    append_decimal(&mut out, line);
    out.append(":");
    append_decimal(&mut out, column);
    proof {
        reveal_strlit(":");
    }
    assert(out@ =~= location_of(file@, line as nat, column as nat));
    out
}

} // verus!
