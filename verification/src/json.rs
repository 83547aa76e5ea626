//! Parser for the results file the external cleaning script writes.
//!
//! The wire format is one UTF-8 JSON object with exactly the five fields of
//! a cleaning report: `status` (string), `message` (string), `details`
//! (array of strings), `cleaned_count` and `processed_count` (non-negative
//! integers that fit a 32-bit count). The fields may come in any order and
//! with any interleaving whitespace, but each must appear exactly once and
//! no other field may appear. The whole grammar is given as spec functions,
//! and the executable parser returns exactly what they denote.

use vstd::prelude::*;
use vstd::string::StrSliceExecFns;

use crate::report::CleaningResult;
use crate::report::CleaningResultV;

verus! {

// ---------------------------------------------------------------------------
// Character classes and small decoding helpers
// ---------------------------------------------------------------------------
/// JSON insignificant whitespace.
pub open spec fn is_json_ws(c: char) -> bool {
    c == ' ' || c == '\t' || c == '\n' || c == '\r'
}

/// An ASCII decimal digit.
pub open spec fn is_digit_char(c: char) -> bool {
    0x30 <= c as u32 && c as u32 <= 0x39
}

/// The value of an ASCII decimal digit.
pub open spec fn digit_value(c: char) -> int {
    c as u32 - 0x30
}

/// The value of an ASCII hexadecimal digit, either case.
pub open spec fn hex_value(c: char) -> Option<int> {
    if is_digit_char(c) {
        Some(c as u32 - 0x30)
    } else if 0x61 <= c as u32 && c as u32 <= 0x66 {
        Some(c as u32 - 0x61 + 10)
    } else if 0x41 <= c as u32 && c as u32 <= 0x46 {
        Some(c as u32 - 0x41 + 10)
    } else {
        None
    }
}

/// What a single-character escape stands for, or nothing if the character
/// may not follow a backslash.
pub open spec fn simple_escape(c: char) -> Option<char> {
    if c == '"' {
        Some('"')
    } else if c == '\\' {
        Some('\\')
    } else if c == '/' {
        Some('/')
    } else if c == 'b' {
        Some('\u{8}')
    } else if c == 'f' {
        Some('\u{c}')
    } else if c == 'n' {
        Some('\n')
    } else if c == 'r' {
        Some('\r')
    } else if c == 't' {
        Some('\t')
    } else {
        None
    }
}

/// The position of the first non-whitespace character at or after `i`.
pub open spec fn skip_ws(s: Seq<char>, i: int) -> int
    decreases s.len() - i,
{
    if 0 <= i && i < s.len() && is_json_ws(s[i]) {
        skip_ws(s, i + 1)
    } else {
        i
    }
}

/// The value of the four hexadecimal digits at `i`, or nothing if any of
/// the four positions is missing or not a hexadecimal digit.
pub open spec fn hex4_at(s: Seq<char>, i: int) -> Option<int> {
    if 0 <= i && i + 4 <= s.len() && hex_value(s[i]) is Some && hex_value(s[i + 1]) is Some
        && hex_value(s[i + 2]) is Some && hex_value(s[i + 3]) is Some {
        Some(
            hex_value(s[i])->0 * 0x1000 + hex_value(s[i + 1])->0 * 0x100 + hex_value(
                s[i + 2],
            )->0 * 0x10 + hex_value(s[i + 3])->0,
        )
    } else {
        None
    }
}

/// Decodes the `\u` escape whose backslash stands at `i`: four hexadecimal
/// digits give a character directly, unless they name a high surrogate, in
/// which case a second `\u` escape with a low surrogate must follow and the
/// pair gives one supplementary character. A lone surrogate is refused.
pub open spec fn unicode_escape_at(s: Seq<char>, i: int) -> Option<(char, int)> {
    match hex4_at(s, i + 2) {
        Some(h) => {
            if h < 0xD800 || 0xE000 <= h {
                Some((h as char, i + 6))
            } else if h < 0xDC00 {
                if i + 8 <= s.len() && s[i + 6] == '\\' && s[i + 7] == 'u' {
                    match hex4_at(s, i + 8) {
                        Some(l) => {
                            if 0xDC00 <= l && l < 0xE000 {
                                Some(
                                    ((0x10000 + (h - 0xD800) * 0x400 + (l - 0xDC00)) as char, i
                                        + 12),
                                )
                            } else {
                                None
                            }
                        },
                        None => None,
                    }
                } else {
                    None
                }
            } else {
                None
            }
        },
        None => None,
    }
}

// ---------------------------------------------------------------------------
// Strings
// ---------------------------------------------------------------------------
/// Puts one decoded character in front of a partial string parse.
pub open spec fn prepend_char(c: char, r: Option<(Seq<char>, int)>) -> Option<(Seq<char>, int)> {
    match r {
        Some(p) => Some((seq![c] + p.0, p.1)),
        None => None,
    }
}

/// The decoded contents of a string literal whose opening quote has already
/// been consumed, together with the position after the closing quote.
/// Control characters below 0x20 must be escaped.
pub open spec fn parse_string_body(s: Seq<char>, i: int) -> Option<(Seq<char>, int)>
    decreases s.len() - i,
{
    if !(0 <= i && i < s.len()) {
        None
    } else if s[i] == '"' {
        Some((Seq::empty(), i + 1))
    } else if s[i] == '\\' {
        if i + 1 < s.len() {
            if s[i + 1] == 'u' {
                match unicode_escape_at(s, i) {
                    Some(p) => {
                        if i < p.1 && p.1 <= s.len() {
                            prepend_char(p.0, parse_string_body(s, p.1))
                        } else {
                            None
                        }
                    },
                    None => None,
                }
            } else {
                match simple_escape(s[i + 1]) {
                    Some(c) => prepend_char(c, parse_string_body(s, i + 2)),
                    None => None,
                }
            }
        } else {
            None
        }
    } else if 0x20 <= s[i] as u32 {
        prepend_char(s[i], parse_string_body(s, i + 1))
    } else {
        None
    }
}

/// A whole string literal at `i`: an opening quote, its body, the closing
/// quote. Yields the decoded contents and the position after the literal.
pub open spec fn parse_string_at(s: Seq<char>, i: int) -> Option<(Seq<char>, int)> {
    if 0 <= i && i < s.len() && s[i] == '"' {
        parse_string_body(s, i + 1)
    } else {
        None
    }
}

// ---------------------------------------------------------------------------
// Counts
// ---------------------------------------------------------------------------
/// Accumulates decimal digits from `i` onto `acc`, refusing values that do
/// not fit a 32-bit count. Stops at the first non-digit.
pub open spec fn parse_digits(s: Seq<char>, i: int, acc: int) -> Option<(int, int)>
    decreases s.len() - i,
{
    if 0 <= i && i < s.len() && is_digit_char(s[i]) {
        let v = acc * 10 + digit_value(s[i]);
        if v <= 0xFFFF_FFFF {
            parse_digits(s, i + 1, v)
        } else {
            None
        }
    } else {
        Some((acc, i))
    }
}

/// A count at `i`: a non-negative decimal integer without a leading zero,
/// a sign, a fraction or an exponent, small enough for a 32-bit count.
pub open spec fn parse_count_at(s: Seq<char>, i: int) -> Option<(int, int)> {
    if 0 <= i && i < s.len() && is_digit_char(s[i]) {
        let first = if s[i] == '0' {
            Some((0int, i + 1))
        } else {
            parse_digits(s, i + 1, digit_value(s[i]))
        };
        match first {
            Some(p) => {
                if p.1 < s.len() && (is_digit_char(s[p.1]) || s[p.1] == '.' || s[p.1] == 'e'
                    || s[p.1] == 'E') {
                    None
                } else {
                    Some(p)
                }
            },
            None => None,
        }
    } else {
        None
    }
}

// ---------------------------------------------------------------------------
// The details array
// ---------------------------------------------------------------------------
/// One or more string literals separated by commas, up to and including the
/// closing bracket.
pub open spec fn parse_detail_items(s: Seq<char>, i: int) -> Option<(Seq<Seq<char>>, int)>
    decreases s.len() - i,
{
    match parse_string_at(s, i) {
        Some(p) => {
            let k = skip_ws(s, p.1);
            if k < s.len() && s[k] == ',' {
                let m = skip_ws(s, k + 1);
                if i < m && m <= s.len() {
                    match parse_detail_items(s, m) {
                        Some(q) => Some((seq![p.0] + q.0, q.1)),
                        None => None,
                    }
                } else {
                    None
                }
            } else if k < s.len() && s[k] == ']' {
                Some((seq![p.0], k + 1))
            } else {
                None
            }
        },
        None => None,
    }
}

/// The array of per-item notes at `i`: brackets around zero or more string
/// literals.
pub open spec fn parse_details_at(s: Seq<char>, i: int) -> Option<(Seq<Seq<char>>, int)> {
    if 0 <= i && i < s.len() && s[i] == '[' {
        let j = skip_ws(s, i + 1);
        if j < s.len() && s[j] == ']' {
            Some((Seq::empty(), j + 1))
        } else {
            parse_detail_items(s, j)
        }
    } else {
        None
    }
}

// ---------------------------------------------------------------------------
// Members of the report object
// ---------------------------------------------------------------------------
/// One parsed field of the report object.
pub ghost enum MemberV {
    Status(Seq<char>),
    Message(Seq<char>),
    Details(Seq<Seq<char>>),
    Cleaned(int),
    Processed(int),
}

/// One `"key": value` pair at `i`. The key picks the value's grammar; a key
/// that is not one of the report's five fields refuses the whole document.
pub open spec fn parse_member_at(s: Seq<char>, i: int) -> Option<(MemberV, int)> {
    match parse_string_at(s, i) {
        Some(p) => {
            let k = skip_ws(s, p.1);
            if k < s.len() && s[k] == ':' {
                let m = skip_ws(s, k + 1);
                if p.0 == "status"@ {
                    match parse_string_at(s, m) {
                        Some(q) => Some((MemberV::Status(q.0), q.1)),
                        None => None,
                    }
                } else if p.0 == "message"@ {
                    match parse_string_at(s, m) {
                        Some(q) => Some((MemberV::Message(q.0), q.1)),
                        None => None,
                    }
                } else if p.0 == "details"@ {
                    match parse_details_at(s, m) {
                        Some(q) => Some((MemberV::Details(q.0), q.1)),
                        None => None,
                    }
                } else if p.0 == "cleaned_count"@ {
                    match parse_count_at(s, m) {
                        Some(q) => Some((MemberV::Cleaned(q.0), q.1)),
                        None => None,
                    }
                } else if p.0 == "processed_count"@ {
                    match parse_count_at(s, m) {
                        Some(q) => Some((MemberV::Processed(q.0), q.1)),
                        None => None,
                    }
                } else {
                    None
                }
            } else {
                None
            }
        },
        None => None,
    }
}

/// The fields collected so far while walking the object's members.
pub ghost struct PartialV {
    pub status: Option<Seq<char>>,
    pub message: Option<Seq<char>>,
    pub details: Option<Seq<Seq<char>>>,
    pub cleaned: Option<int>,
    pub processed: Option<int>,
}

/// No field collected yet.
pub open spec fn empty_partial() -> PartialV {
    PartialV { status: None, message: None, details: None, cleaned: None, processed: None }
}

/// Records one member, refusing a field that was already seen.
pub open spec fn set_field(acc: PartialV, m: MemberV) -> Option<PartialV> {
    match m {
        MemberV::Status(v) => if acc.status is None {
            Some(PartialV { status: Some(v), ..acc })
        } else {
            None
        },
        MemberV::Message(v) => if acc.message is None {
            Some(PartialV { message: Some(v), ..acc })
        } else {
            None
        },
        MemberV::Details(v) => if acc.details is None {
            Some(PartialV { details: Some(v), ..acc })
        } else {
            None
        },
        MemberV::Cleaned(v) => if acc.cleaned is None {
            Some(PartialV { cleaned: Some(v), ..acc })
        } else {
            None
        },
        MemberV::Processed(v) => if acc.processed is None {
            Some(PartialV { processed: Some(v), ..acc })
        } else {
            None
        },
    }
}

/// Folds the object's members from `i` into `acc`, one `"key": value` pair
/// after another, up to and including the closing brace.
pub open spec fn parse_members_into(s: Seq<char>, i: int, acc: PartialV) -> Option<(PartialV, int)>
    decreases s.len() - i,
{
    match parse_member_at(s, i) {
        Some(p) => {
            match set_field(acc, p.0) {
                Some(a2) => {
                    let k = skip_ws(s, p.1);
                    if k < s.len() && s[k] == ',' {
                        let m = skip_ws(s, k + 1);
                        if i < m && m <= s.len() {
                            parse_members_into(s, m, a2)
                        } else {
                            None
                        }
                    } else if k < s.len() && s[k] == '}' {
                        Some((a2, k + 1))
                    } else {
                        None
                    }
                },
                None => None,
            }
        },
        None => None,
    }
}

/// The finished report, if every one of the five fields was seen.
pub open spec fn report_of(acc: PartialV) -> Option<CleaningResultV> {
    if acc.status is Some && acc.message is Some && acc.details is Some && acc.cleaned is Some
        && acc.processed is Some {
        Some(
            CleaningResultV {
                status: acc.status->0,
                message: acc.message->0,
                details: acc.details->0,
                cleaned_count: acc.cleaned->0 as u32,
                processed_count: acc.processed->0 as u32,
            },
        )
    } else {
        None
    }
}

/// The report object at `i`: a brace, the five members in any order, the
/// closing brace. Yields the report and the position after the object.
pub open spec fn parse_report_at(s: Seq<char>, i: int) -> Option<(CleaningResultV, int)> {
    if 0 <= i && i < s.len() && s[i] == '{' {
        let j = skip_ws(s, i + 1);
        match parse_members_into(s, j, empty_partial()) {
            Some(p) => {
                match report_of(p.0) {
                    Some(v) => Some((v, p.1)),
                    None => None,
                }
            },
            None => None,
        }
    } else {
        None
    }
}

/// What a whole results document denotes: one report object, surrounded by
/// nothing but whitespace, holding exactly the five fields of a cleaning
/// report.
pub open spec fn parse_report(s: Seq<char>) -> Option<CleaningResultV> {
    match parse_report_at(s, skip_ws(s, 0)) {
        Some(p) => {
            if skip_ws(s, p.1) == s.len() {
                Some(p.0)
            } else {
                None
            }
        },
        None => None,
    }
}

// ---------------------------------------------------------------------------
// The executable parser
// ---------------------------------------------------------------------------
/// Relies on char::from_u32: `Some` exactly for Unicode scalar values
/// (codes below 0xD800 or from 0xE000 through 0x10FFFF), and then the
/// character with that code.
#[verifier::external_body]
fn char_from_u32(u: u32) -> (r: Option<char>)
    ensures
        r is Some <==> (u < 0xD800 || (0xE000 <= u && u <= 0x10FFFF)),
        r matches Some(c) ==> c == u as char && c as u32 == u,
{
    char::from_u32(u)
}

/// Relies on String::push: appends exactly one character.
#[verifier::external_body]
fn push_char(s: &mut String, c: char)
    ensures
        final(s)@ == old(s)@.push(c),
{
    s.push(c)
}

/// Decides [`skip_ws`] on a real string.
fn skip_ws_at(s: &str, i: usize) -> (r: usize)
    requires
        i <= s@.len(),
    ensures
        r == skip_ws(s@, i as int),
        i <= r <= s@.len(),
    decreases s@.len() - i,
{
    if i < s.unicode_len() {
        let c = s.get_char(i);
        if c == ' ' || c == '\t' || c == '\n' || c == '\r' {
            return skip_ws_at(s, i + 1);
        }
    }
    i
}

/// Decides [`hex_value`] on a real character.
fn hex_digit(c: char) -> (r: Option<u32>)
    ensures
        match r {
            Some(v) => hex_value(c) == Some(v as int),
            None => hex_value(c) is None,
        },
{
    let u = c as u32;
    if 0x30 <= u && u <= 0x39 {
        Some(u - 0x30)
    } else if 0x61 <= u && u <= 0x66 {
        Some(u - 0x61 + 10)
    } else if 0x41 <= u && u <= 0x46 {
        Some(u - 0x41 + 10)
    } else {
        None
    }
}

/// Decides [`hex4_at`] on a real string.
fn hex4(s: &str, i: usize) -> (r: Option<u32>)
    requires
        i <= s@.len(),
    ensures
        match r {
            Some(v) => hex4_at(s@, i as int) == Some(v as int) && v <= 0xFFFF,
            None => hex4_at(s@, i as int) is None,
        },
{
    let n = s.unicode_len();
    if n - i < 4 {
        return None;
    }
    let h0 = hex_digit(s.get_char(i));
    let h1 = hex_digit(s.get_char(i + 1));
    let h2 = hex_digit(s.get_char(i + 2));
    let h3 = hex_digit(s.get_char(i + 3));
    match (h0, h1, h2, h3) {
        (Some(a), Some(b), Some(c), Some(d)) => Some(a * 0x1000 + b * 0x100 + c * 0x10 + d),
        _ => None,
    }
}

/// Decides [`unicode_escape_at`] on a real string; `i` points at the
/// backslash.
fn unicode_escape(s: &str, i: usize) -> (r: Option<(char, usize)>)
    requires
        i <= s@.len(),
    ensures
        match r {
            Some(p) => unicode_escape_at(s@, i as int) == Some((p.0, p.1 as int)) && i < p.1
                <= s@.len(),
            None => unicode_escape_at(s@, i as int) is None,
        },
{
    let n = s.unicode_len();
    if n - i < 6 {
        return None;
    }
    match hex4(s, i + 2) {
        Some(h) => {
            if h < 0xD800 || 0xE000 <= h {
                match char_from_u32(h) {
                    Some(c) => Some((c, i + 6)),
                    None => None,
                }
            } else if h < 0xDC00 {
                if n - i >= 8 {
                    let b = s.get_char(i + 6);
                    let u = s.get_char(i + 7);
                    if b == '\\' && u == 'u' {
                        match hex4(s, i + 8) {
                            Some(l) => {
                                if 0xDC00 <= l && l < 0xE000 {
                                    let code = 0x10000 + (h - 0xD800) * 0x400 + (l - 0xDC00);
                                    match char_from_u32(code) {
                                        Some(c) => Some((c, i + 12)),
                                        None => None,
                                    }
                                } else {
                                    None
                                }
                            },
                            None => None,
                        }
                    } else {
                        None
                    }
                } else {
                    None
                }
            } else {
                None
            }
        },
        None => None,
    }
}

/// Decides [`parse_string_body`] on a real string, appending the decoded
/// characters onto `out`.
fn string_body(s: &str, i: usize, out: &mut String) -> (r: Option<usize>)
    requires
        i <= s@.len(),
    ensures
        match r {
            Some(j) => parse_string_body(s@, i as int) matches Some(p) && p.1 == j as int
                && final(out)@ == old(out)@ + p.0 && i < j <= s@.len(),
            None => parse_string_body(s@, i as int) is None,
        },
    decreases s@.len() - i,
{
    let n = s.unicode_len();
    if i >= n {
        return None;
    }
    let c = s.get_char(i);
    if c == '"' {
        proof {
            assert(old(out)@ + Seq::<char>::empty() =~= old(out)@);
        }
        return Some(i + 1);
    }
    if c == '\\' {
        if i + 1 >= n {
            return None;
        }
        let e = s.get_char(i + 1);
        if e == 'u' {
            match unicode_escape(s, i) {
                Some((c2, j)) => {
                    push_char(out, c2);
                    match string_body(s, j, out) {
                        Some(k) => {
                            proof {
                                let p = parse_string_body(s@, j as int)->0;
                                assert(out@ =~= old(out)@ + (seq![c2] + p.0));
                            }
                            Some(k)
                        },
                        None => None,
                    }
                },
                None => None,
            }
        } else {
            let dec = match e {
                '"' => Some('"'),
                '\\' => Some('\\'),
                '/' => Some('/'),
                'b' => Some('\u{8}'),
                'f' => Some('\u{c}'),
                'n' => Some('\n'),
                'r' => Some('\r'),
                't' => Some('\t'),
                _ => None,
            };
            match dec {
                Some(c2) => {
                    push_char(out, c2);
                    match string_body(s, i + 2, out) {
                        Some(k) => {
                            proof {
                                let p = parse_string_body(s@, i as int + 2)->0;
                                assert(out@ =~= old(out)@ + (seq![c2] + p.0));
                            }
                            Some(k)
                        },
                        None => None,
                    }
                },
                None => None,
            }
        }
    } else if c as u32 >= 0x20 {
        push_char(out, c);
        match string_body(s, i + 1, out) {
            Some(k) => {
                proof {
                    let p = parse_string_body(s@, i as int + 1)->0;
                    assert(out@ =~= old(out)@ + (seq![c] + p.0));
                }
                Some(k)
            },
            None => None,
        }
    } else {
        None
    }
}

/// Decides [`parse_string_at`] on a real string.
fn parse_string(s: &str, i: usize) -> (r: Option<(String, usize)>)
    requires
        i <= s@.len(),
    ensures
        match r {
            Some(p) => parse_string_at(s@, i as int) == Some((p.0@, p.1 as int)) && i < p.1
                <= s@.len(),
            None => parse_string_at(s@, i as int) is None,
        },
{
    if i < s.unicode_len() && s.get_char(i) == '"' {
        let mut out = String::new();
        match string_body(s, i + 1, &mut out) {
            Some(j) => {
                proof {
                    let p = parse_string_body(s@, i as int + 1)->0;
                    assert(out@ =~= Seq::<char>::empty() + p.0);
                    assert(out@ =~= p.0);
                }
                Some((out, j))
            },
            None => None,
        }
    } else {
        None
    }
}

/// Decides [`parse_digits`] on a real string.
fn digits(s: &str, i: usize, acc: u32) -> (r: Option<(u32, usize)>)
    requires
        i <= s@.len(),
    ensures
        match r {
            Some(p) => parse_digits(s@, i as int, acc as int) == Some((p.0 as int, p.1 as int))
                && i <= p.1 <= s@.len(),
            None => parse_digits(s@, i as int, acc as int) is None,
        },
    decreases s@.len() - i,
{
    let n = s.unicode_len();
    if i < n {
        let c = s.get_char(i);
        let u = c as u32;
        if 0x30 <= u && u <= 0x39 {
            let d = u - 0x30;
            let wide: u64 = acc as u64 * 10 + d as u64;
            if wide <= 0xFFFF_FFFF {
                return digits(s, i + 1, wide as u32);
            } else {
                return None;
            }
        }
    }
    Some((acc, i))
}

/// Decides [`parse_count_at`] on a real string.
fn parse_count(s: &str, i: usize) -> (r: Option<(u32, usize)>)
    requires
        i <= s@.len(),
    ensures
        match r {
            Some(p) => parse_count_at(s@, i as int) == Some((p.0 as int, p.1 as int)) && i < p.1
                <= s@.len(),
            None => parse_count_at(s@, i as int) is None,
        },
{
    let n = s.unicode_len();
    if i >= n {
        return None;
    }
    let c = s.get_char(i);
    let u = c as u32;
    if !(0x30 <= u && u <= 0x39) {
        return None;
    }
    let first = if c == '0' {
        Some((0u32, i + 1))
    } else {
        digits(s, i + 1, u - 0x30)
    };
    match first {
        Some((v, j)) => {
            if j < n {
                let t = s.get_char(j);
                let tu = t as u32;
                if (0x30 <= tu && tu <= 0x39) || t == '.' || t == 'e' || t == 'E' {
                    return None;
                }
            }
            Some((v, j))
        },
        None => None,
    }
}

/// Decides [`parse_detail_items`] on a real string.
fn detail_items(s: &str, i: usize) -> (r: Option<(Vec<String>, usize)>)
    requires
        i <= s@.len(),
    ensures
        match r {
            Some(p) => parse_detail_items(s@, i as int) == Some((p.0.deep_view(), p.1 as int))
                && p.1 <= s@.len(),
            None => parse_detail_items(s@, i as int) is None,
        },
    decreases s@.len() - i,
{
    let n = s.unicode_len();
    match parse_string(s, i) {
        Some((v, j)) => {
            let k = skip_ws_at(s, j);
            if k < n && s.get_char(k) == ',' {
                let m = skip_ws_at(s, k + 1);
                if i < m {
                    match detail_items(s, m) {
                        Some((rest, e)) => {
                            let ghost sv = v@;
                            let ghost rv = rest.deep_view();
                            let ghost ro = rest@;
                            let mut out: Vec<String> = Vec::new();
                            out.push(v);
                            let mut rest = rest;
                            out.append(&mut rest);
                            proof {
                                assert forall|x: int| 0 <= x < out.deep_view().len() implies out.deep_view()[x]
                                    == (seq![sv] + rv)[x] by {
                                    if x > 0 {
                                        assert(out@[x] == ro[x - 1]);
                                        assert(rv[x - 1] == ro[x - 1]@);
                                    }
                                }
                                assert(out.deep_view() =~= seq![sv] + rv);
                            }
                            Some((out, e))
                        },
                        None => None,
                    }
                } else {
                    None
                }
            } else if k < n && s.get_char(k) == ']' {
                let mut out: Vec<String> = Vec::new();
                out.push(v);
                proof {
                    assert(out.deep_view() =~= seq![v@]);
                }
                Some((out, k + 1))
            } else {
                None
            }
        },
        None => None,
    }
}

/// Decides [`parse_details_at`] on a real string.
fn parse_details(s: &str, i: usize) -> (r: Option<(Vec<String>, usize)>)
    requires
        i <= s@.len(),
    ensures
        match r {
            Some(p) => parse_details_at(s@, i as int) == Some((p.0.deep_view(), p.1 as int)) && p.1
                <= s@.len(),
            None => parse_details_at(s@, i as int) is None,
        },
{
    let n = s.unicode_len();
    if i < n && s.get_char(i) == '[' {
        let j = skip_ws_at(s, i + 1);
        if j < n && s.get_char(j) == ']' {
            let out: Vec<String> = Vec::new();
            proof {
                assert(out.deep_view() =~= Seq::<Seq<char>>::empty());
            }
            Some((out, j + 1))
        } else {
            detail_items(s, j)
        }
    } else {
        None
    }
}

/// One parsed field of the report object, as the executable parser carries
/// it.
enum Member {
    Status(String),
    Message(String),
    Details(Vec<String>),
    Cleaned(u32),
    Processed(u32),
}

impl View for Member {
    type V = MemberV;

    closed spec fn view(&self) -> MemberV {
        match self {
            Member::Status(v) => MemberV::Status(v@),
            Member::Message(v) => MemberV::Message(v@),
            Member::Details(v) => MemberV::Details(v.deep_view()),
            Member::Cleaned(v) => MemberV::Cleaned(*v as int),
            Member::Processed(v) => MemberV::Processed(*v as int),
        }
    }
}

/// Decides [`parse_member_at`] on a real string.
fn parse_member(s: &str, i: usize) -> (r: Option<(Member, usize)>)
    requires
        i <= s@.len(),
    ensures
        match r {
            Some(p) => parse_member_at(s@, i as int) == Some((p.0@, p.1 as int)) && p.1
                <= s@.len(),
            None => parse_member_at(s@, i as int) is None,
        },
{
    let n = s.unicode_len();
    match parse_string(s, i) {
        Some((key, j)) => {
            let k = skip_ws_at(s, j);
            if k < n && s.get_char(k) == ':' {
                let m = skip_ws_at(s, k + 1);
                if key.eq(&"status".to_owned()) {
                    match parse_string(s, m) {
                        Some((v, e)) => Some((Member::Status(v), e)),
                        None => None,
                    }
                } else if key.eq(&"message".to_owned()) {
                    match parse_string(s, m) {
                        Some((v, e)) => Some((Member::Message(v), e)),
                        None => None,
                    }
                } else if key.eq(&"details".to_owned()) {
                    match parse_details(s, m) {
                        Some((v, e)) => Some((Member::Details(v), e)),
                        None => None,
                    }
                } else if key.eq(&"cleaned_count".to_owned()) {
                    match parse_count(s, m) {
                        Some((v, e)) => Some((Member::Cleaned(v), e)),
                        None => None,
                    }
                } else if key.eq(&"processed_count".to_owned()) {
                    match parse_count(s, m) {
                        Some((v, e)) => Some((Member::Processed(v), e)),
                        None => None,
                    }
                } else {
                    None
                }
            } else {
                None
            }
        },
        None => None,
    }
}

/// The fields collected so far, as the executable parser carries them.
struct PartialAcc {
    status: Option<String>,
    message: Option<String>,
    details: Option<Vec<String>>,
    cleaned: Option<u32>,
    processed: Option<u32>,
}

impl View for PartialAcc {
    type V = PartialV;

    closed spec fn view(&self) -> PartialV {
        PartialV {
            status: match &self.status {
                Some(v) => Some(v@),
                None => None,
            },
            message: match &self.message {
                Some(v) => Some(v@),
                None => None,
            },
            details: match &self.details {
                Some(v) => Some(v.deep_view()),
                None => None,
            },
            cleaned: match self.cleaned {
                Some(v) => Some(v as int),
                None => None,
            },
            processed: match self.processed {
                Some(v) => Some(v as int),
                None => None,
            },
        }
    }
}

/// Decides [`set_field`] on real values.
fn set_field_exec(acc: PartialAcc, m: Member) -> (r: Option<PartialAcc>)
    ensures
        match r {
            Some(a) => set_field(acc@, m@) == Some(a@),
            None => set_field(acc@, m@) is None,
        },
{
    match m {
        Member::Status(v) => {
            if acc.status.is_none() {
                Some(PartialAcc { status: Some(v), ..acc })
            } else {
                None
            }
        },
        Member::Message(v) => {
            if acc.message.is_none() {
                Some(PartialAcc { message: Some(v), ..acc })
            } else {
                None
            }
        },
        Member::Details(v) => {
            if acc.details.is_none() {
                Some(PartialAcc { details: Some(v), ..acc })
            } else {
                None
            }
        },
        Member::Cleaned(v) => {
            if acc.cleaned.is_none() {
                Some(PartialAcc { cleaned: Some(v), ..acc })
            } else {
                None
            }
        },
        Member::Processed(v) => {
            if acc.processed.is_none() {
                Some(PartialAcc { processed: Some(v), ..acc })
            } else {
                None
            }
        },
    }
}

/// Decides [`parse_members_into`] on a real string.
fn members_into(s: &str, i: usize, acc: PartialAcc) -> (r: Option<(PartialAcc, usize)>)
    requires
        i <= s@.len(),
    ensures
        match r {
            Some(p) => parse_members_into(s@, i as int, acc@) == Some((p.0@, p.1 as int)) && p.1
                <= s@.len(),
            None => parse_members_into(s@, i as int, acc@) is None,
        },
    decreases s@.len() - i,
{
    let n = s.unicode_len();
    match parse_member(s, i) {
        Some((m, j)) => {
            match set_field_exec(acc, m) {
                Some(a2) => {
                    let k = skip_ws_at(s, j);
                    if k < n && s.get_char(k) == ',' {
                        let m2 = skip_ws_at(s, k + 1);
                        if i < m2 {
                            members_into(s, m2, a2)
                        } else {
                            None
                        }
                    } else if k < n && s.get_char(k) == '}' {
                        Some((a2, k + 1))
                    } else {
                        None
                    }
                },
                None => None,
            }
        },
        None => None,
    }
}

/// Decides [`parse_report_at`] on a real string.
fn report_at(s: &str, i: usize) -> (r: Option<(CleaningResult, usize)>)
    requires
        i <= s@.len(),
    ensures
        match r {
            Some(p) => parse_report_at(s@, i as int) == Some((p.0@, p.1 as int)) && p.1
                <= s@.len(),
            None => parse_report_at(s@, i as int) is None,
        },
{
    let n = s.unicode_len();
    if i < n && s.get_char(i) == '{' {
        let j = skip_ws_at(s, i + 1);
        let start = PartialAcc {
            status: None,
            message: None,
            details: None,
            cleaned: None,
            processed: None,
        };
        match members_into(s, j, start) {
            Some((acc, e)) => {
                match acc {
                    PartialAcc {
                        status: Some(status),
                        message: Some(message),
                        details: Some(details),
                        cleaned: Some(cleaned),
                        processed: Some(processed),
                    } => {
                        let out = CleaningResult {
                            status,
                            message,
                            details,
                            cleaned_count: cleaned,
                            processed_count: processed,
                        };
                        Some((out, e))
                    },
                    _ => None,
                }
            },
            None => None,
        }
    } else {
        None
    }
}

/// Parses a whole results document: returns the report it denotes under the
/// grammar [`parse_report`], or nothing when the document does not match
/// it.
pub fn parse_cleaning_report(s: &str) -> (r: Option<CleaningResult>)
    ensures
        match r {
            Some(c) => parse_report(s@) == Some(c@),
            None => parse_report(s@) is None,
        },
{
    let i = skip_ws_at(s, 0);
    match report_at(s, i) {
        Some((c, j)) => {
            let e = skip_ws_at(s, j);
            if e == s.unicode_len() {
                Some(c)
            } else {
                None
            }
        },
        None => None,
    }
}

} // verus!
