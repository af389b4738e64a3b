//! A JSON reader for completion responses. The grammar is written as
//! spec functions over the characters of the body, one per construct,
//! and every executable function returns exactly what its spec
//! function says; the response module builds on the value skipper and
//! the string reader defined here.
//!
//! The reader accepts standard JSON with two noted liberties: number
//! lexing allows leading zeros, and object walkers let the first
//! occurrence of a key win, later duplicates being skipped.

use vstd::prelude::*;

verus! {

/// JSON whitespace.
pub open spec fn is_json_ws(c: char) -> bool {
    c == ' ' || c == '\t' || c == '\n' || c == '\r'
}

/// The first position at or after `i` that holds no whitespace.
pub open spec fn spec_ws(s: Seq<char>, i: int) -> int
    decreases s.len() - i,
{
    if 0 <= i && i < s.len() && is_json_ws(s[i]) {
        spec_ws(s, i + 1)
    } else {
        i
    }
}

/// An ASCII decimal digit.
pub open spec fn is_digit(c: char) -> bool {
    '0' <= c && c <= '9'
}

/// The first position at or after `i` that holds no digit.
pub open spec fn spec_skip_digits(s: Seq<char>, i: int) -> int
    decreases s.len() - i,
{
    if 0 <= i && i < s.len() && is_digit(s[i]) {
        spec_skip_digits(s, i + 1)
    } else {
        i
    }
}

/// The value of a hexadecimal digit.
pub open spec fn spec_hex_val(c: char) -> Option<nat> {
    if c == '0' { Some(0nat) }
    else if c == '1' { Some(1nat) }
    else if c == '2' { Some(2nat) }
    else if c == '3' { Some(3nat) }
    else if c == '4' { Some(4nat) }
    else if c == '5' { Some(5nat) }
    else if c == '6' { Some(6nat) }
    else if c == '7' { Some(7nat) }
    else if c == '8' { Some(8nat) }
    else if c == '9' { Some(9nat) }
    else if c == 'a' || c == 'A' { Some(10nat) }
    else if c == 'b' || c == 'B' { Some(11nat) }
    else if c == 'c' || c == 'C' { Some(12nat) }
    else if c == 'd' || c == 'D' { Some(13nat) }
    else if c == 'e' || c == 'E' { Some(14nat) }
    else if c == 'f' || c == 'F' { Some(15nat) }
    else { None }
}

/// The value of the four hexadecimal digits at `i`, if they stand there.
pub open spec fn spec_hex4(s: Seq<char>, i: int) -> Option<nat> {
    if 0 <= i && i + 4 <= s.len() && spec_hex_val(s[i]) is Some && spec_hex_val(s[i + 1]) is Some
        && spec_hex_val(s[i + 2]) is Some && spec_hex_val(s[i + 3]) is Some {
        Some(
            4096 * spec_hex_val(s[i])->Some_0 + 256 * spec_hex_val(s[i + 1])->Some_0 + 16
                * spec_hex_val(s[i + 2])->Some_0 + spec_hex_val(s[i + 3])->Some_0,
        )
    } else {
        None
    }
}

/// Reads a string body from `i` (just past the opening quote), the
/// decoded characters so far in `acc`: either the decoded text and the
/// position after the closing quote, or nothing on malformed input.
pub open spec fn spec_string_body(s: Seq<char>, i: int, acc: Seq<char>) -> Option<
    (Seq<char>, int),
>
    decreases s.len() - i, 0int,
{
    if i < 0 || i >= s.len() {
        None
    } else if s[i] == '"' {
        Some((acc, i + 1))
    } else if s[i] == '\\' {
        spec_string_escape(s, i + 1, acc)
    } else if (s[i] as u32) < 32 {
        None
    } else {
        spec_string_body(s, i + 1, acc.push(s[i]))
    }
}

/// Reads one escape, `i` just past the backslash.
pub open spec fn spec_string_escape(s: Seq<char>, i: int, acc: Seq<char>) -> Option<
    (Seq<char>, int),
>
    decreases s.len() - i, 1int,
{
    if i < 0 || i >= s.len() {
        None
    } else if s[i] == '"' {
        spec_string_body(s, i + 1, acc.push('"'))
    } else if s[i] == '\\' {
        spec_string_body(s, i + 1, acc.push('\\'))
    } else if s[i] == '/' {
        spec_string_body(s, i + 1, acc.push('/'))
    } else if s[i] == 'b' {
        spec_string_body(s, i + 1, acc.push('\u{8}'))
    } else if s[i] == 'f' {
        spec_string_body(s, i + 1, acc.push('\u{c}'))
    } else if s[i] == 'n' {
        spec_string_body(s, i + 1, acc.push('\n'))
    } else if s[i] == 'r' {
        spec_string_body(s, i + 1, acc.push('\r'))
    } else if s[i] == 't' {
        spec_string_body(s, i + 1, acc.push('\t'))
    } else if s[i] == 'u' {
        spec_unicode_escape(s, i + 1, acc)
    } else {
        None
    }
}

/// Reads a `\u` escape, `i` at the first of four hexadecimal digits; a
/// high surrogate must be followed by a second `\u` escape holding the
/// low half, the pair denoting one supplementary-plane character.
pub open spec fn spec_unicode_escape(s: Seq<char>, i: int, acc: Seq<char>) -> Option<
    (Seq<char>, int),
>
    decreases s.len() - i, 2int,
{
    match spec_hex4(s, i) {
        None => None,
        Some(code) => if code < 0xD800 || code >= 0xE000 {
            spec_string_body(s, i + 4, acc.push(code as char))
        } else if code < 0xDC00 {
            if i + 6 <= s.len() && s[i + 4] == '\\' && s[i + 5] == 'u' {
                match spec_hex4(s, i + 6) {
                    None => None,
                    Some(low) => if 0xDC00 <= low && low < 0xE000 {
                        spec_string_body(
                            s,
                            i + 10,
                            acc.push((0x10000 + (code - 0xD800) * 0x400 + (low - 0xDC00)) as char),
                        )
                    } else {
                        None
                    },
                }
            } else {
                None
            }
        } else {
            None
        },
    }
}

/// Reads the string whose opening quote stands at `i`.
pub open spec fn spec_parse_string(s: Seq<char>, i: int) -> Option<(Seq<char>, int)> {
    if 0 <= i && i < s.len() && s[i] == '"' {
        spec_string_body(s, i + 1, Seq::empty())
    } else {
        None
    }
}

/// The position after the optional fraction part at `k`.
pub open spec fn spec_after_frac(s: Seq<char>, k: int) -> Option<int> {
    if 0 <= k && k < s.len() && s[k] == '.' {
        let m = spec_skip_digits(s, k + 1);
        if m == k + 1 {
            None
        } else {
            Some(m)
        }
    } else {
        Some(k)
    }
}

/// The position after the optional exponent part at `k`.
pub open spec fn spec_after_exp(s: Seq<char>, k: int) -> Option<int> {
    if 0 <= k && k < s.len() && (s[k] == 'e' || s[k] == 'E') {
        let e0 = if k + 1 < s.len() && (s[k + 1] == '+' || s[k + 1] == '-') {
            k + 2
        } else {
            k + 1
        };
        let m = spec_skip_digits(s, e0);
        if m == e0 {
            None
        } else {
            Some(m)
        }
    } else {
        Some(k)
    }
}

/// The position after the number starting at `i` (leading zeros are
/// accepted), or nothing when no number stands there.
pub open spec fn spec_skip_number(s: Seq<char>, i: int) -> Option<int> {
    let j = if 0 <= i && i < s.len() && s[i] == '-' {
        i + 1
    } else {
        i
    };
    let k = spec_skip_digits(s, j);
    if k == j {
        None
    } else {
        match spec_after_frac(s, k) {
            None => None,
            Some(k2) => spec_after_exp(s, k2),
        }
    }
}

/// Whether the word `w` stands at `i`.
pub open spec fn spec_lit_at(s: Seq<char>, i: int, w: Seq<char>) -> bool {
    0 <= i && i + w.len() <= s.len() && s.subrange(i, i + w.len()) == w
}

/// The position after the JSON value starting at `i`, whatever its
/// shape, or nothing when none stands there.
pub open spec fn spec_skip_value(s: Seq<char>, i: int) -> Option<int>
    decreases s.len() - i, 0int,
{
    if i < 0 || i >= s.len() {
        None
    } else if s[i] == '"' {
        match spec_parse_string(s, i) {
            Some((_t, j)) => Some(j),
            None => None,
        }
    } else if s[i] == '{' {
        spec_skip_members(s, i + 1, true)
    } else if s[i] == '[' {
        spec_skip_elements(s, i + 1, true)
    } else if s[i] == 't' {
        if spec_lit_at(s, i, seq!['t', 'r', 'u', 'e']) {
            Some(i + 4)
        } else {
            None
        }
    } else if s[i] == 'f' {
        if spec_lit_at(s, i, seq!['f', 'a', 'l', 's', 'e']) {
            Some(i + 5)
        } else {
            None
        }
    } else if s[i] == 'n' {
        if spec_lit_at(s, i, seq!['n', 'u', 'l', 'l']) {
            Some(i + 4)
        } else {
            None
        }
    } else if s[i] == '-' || is_digit(s[i]) {
        spec_skip_number(s, i)
    } else {
        None
    }
}

/// The position after the element list and closing bracket, `i` just
/// past the opening bracket or past the previous element.
pub open spec fn spec_skip_elements(s: Seq<char>, i: int, first: bool) -> Option<int>
    decreases s.len() - i, 1int,
{
    let j = spec_ws(s, i);
    if j < i || j >= s.len() {
        None
    } else if s[j] == ']' {
        Some(j + 1)
    } else {
        let v = if first {
            j
        } else if s[j] == ',' {
            spec_ws(s, j + 1)
        } else {
            -1
        };
        if v < i || v > s.len() {
            None
        } else {
            match spec_skip_value(s, v) {
                None => None,
                Some(end) => if end > i && end <= s.len() {
                    spec_skip_elements(s, end, false)
                } else {
                    None
                },
            }
        }
    }
}

/// The position after the member list and closing brace, `i` just past
/// the opening brace or past the previous member.
pub open spec fn spec_skip_members(s: Seq<char>, i: int, first: bool) -> Option<int>
    decreases s.len() - i, 1int,
{
    let j = spec_ws(s, i);
    if j < i || j >= s.len() {
        None
    } else if s[j] == '}' {
        Some(j + 1)
    } else {
        match spec_member_key(s, j, first) {
            None => None,
            Some((_key, v)) => if v < i || v > s.len() {
                None
            } else {
                match spec_skip_value(s, v) {
                    None => None,
                    Some(end) => if end > i && end <= s.len() {
                        spec_skip_members(s, end, false)
                    } else {
                        None
                    },
                }
            },
        }
    }
}

/// Reads one member header at `j` (a position with no leading
/// whitespace): the comma when not first, the key string, the colon;
/// gives the key and the position of the member's value.
pub open spec fn spec_member_key(s: Seq<char>, j: int, first: bool) -> Option<(Seq<char>, int)> {
    let p = if first {
        j
    } else if 0 <= j && j < s.len() && s[j] == ',' {
        spec_ws(s, j + 1)
    } else {
        -1
    };
    if p < 0 {
        None
    } else {
        match spec_parse_string(s, p) {
            None => None,
            Some((key, a)) => {
                let b = spec_ws(s, a);
                if 0 <= b && b < s.len() && s[b] == ':' {
                    Some((key, spec_ws(s, b + 1)))
                } else {
                    None
                }
            },
        }
    }
}

/// Relies on `char::from_u32`: it gives back exactly the character of
/// any value that is a Unicode scalar value, which the contract demands.
#[verifier::external_body]
fn char_from_u32(u: u32) -> (r: char)
    requires
        u < 0xD800 || (0xE000 <= u && u <= 0x10FFFF),
    ensures
        r == u as char,
{
    char::from_u32(u).unwrap()
}

/// The first position at or after `i` with no whitespace; see [`spec_ws`].
pub(crate) fn ws(s: &Vec<char>, i: usize) -> (r: usize)
    requires
        i <= s.len(),
    ensures
        r as int == spec_ws(s@, i as int),
        i <= r <= s.len(),
{
    let mut j: usize = i;
    while j < s.len() && (s[j] == ' ' || s[j] == '\t' || s[j] == '\n' || s[j] == '\r')
        invariant
            i <= j <= s.len(),
            spec_ws(s@, i as int) == spec_ws(s@, j as int),
        decreases s.len() - j,
    {
        j = j + 1;
    }
    j
}

/// The first position at or after `i` with no digit; see
/// [`spec_skip_digits`].
fn digits_end(s: &Vec<char>, i: usize) -> (r: usize)
    requires
        i <= s.len(),
    ensures
        r as int == spec_skip_digits(s@, i as int),
        i <= r <= s.len(),
{
    let mut j: usize = i;
    while j < s.len() && s[j] >= '0' && s[j] <= '9'
        invariant
            i <= j <= s.len(),
            spec_skip_digits(s@, i as int) == spec_skip_digits(s@, j as int),
        decreases s.len() - j,
    {
        j = j + 1;
    }
    j
}

/// The value of one hexadecimal digit; see [`spec_hex_val`].
fn hex_val(c: char) -> (r: Option<u32>)
    ensures
        match r {
            Some(v) => spec_hex_val(c) == Some(v as nat) && v < 16,
            None => spec_hex_val(c) is None,
        },
{
    if c >= '0' && c <= '9' {
        Some(c as u32 - '0' as u32)
    } else if c >= 'a' && c <= 'f' {
        Some(c as u32 - 'a' as u32 + 10)
    } else if c >= 'A' && c <= 'F' {
        Some(c as u32 - 'A' as u32 + 10)
    } else {
        None
    }
}

/// The value of four hexadecimal digits at `i`; see [`spec_hex4`].
fn hex4(s: &Vec<char>, i: usize) -> (r: Option<u32>)
    requires
        i <= s.len(),
    ensures
        match r {
            Some(v) => spec_hex4(s@, i as int) == Some(v as nat) && v < 0x10000,
            None => spec_hex4(s@, i as int) is None,
        },
{
    if s.len() - i < 4 {
        return None;
    }
    let a = match hex_val(s[i]) {
        Some(v) => v,
        None => {
            return None;
        },
    };
    let b = match hex_val(s[i + 1]) {
        Some(v) => v,
        None => {
            return None;
        },
    };
    let c = match hex_val(s[i + 2]) {
        Some(v) => v,
        None => {
            return None;
        },
    };
    let d = match hex_val(s[i + 3]) {
        Some(v) => v,
        None => {
            return None;
        },
    };
    Some(4096 * a + 256 * b + 16 * c + d)
}

/// Reads the string whose opening quote stands at `i`; see
/// [`spec_parse_string`]: the decoded text and the position after the
/// closing quote.
pub(crate) fn parse_string_at(s: &Vec<char>, i: usize) -> (r: Option<(Vec<char>, usize)>)
    requires
        i <= s.len(),
    ensures
        match r {
            Some(t) => spec_parse_string(s@, i as int) == Some((t.0@, t.1 as int)) && i < t.1
                <= s.len(),
            None => spec_parse_string(s@, i as int) is None,
        },
{
    if !(i < s.len() && s[i] == '"') {
        return None;
    }
    let mut acc: Vec<char> = Vec::new();
    let mut p: usize = i + 1;
    while p < s.len()
        invariant
            i + 1 <= p <= s.len(),
            spec_parse_string(s@, i as int) == spec_string_body(s@, p as int, acc@),
        decreases s.len() - p,
    {
        let c: char = s[p];
        if c == '"' {
            return Some((acc, p + 1));
        } else if c == '\\' {
            proof {
                assert(spec_string_body(s@, p as int, acc@) == spec_string_escape(
                    s@,
                    p as int + 1,
                    acc@,
                ));
            }
            if s.len() - p < 2 {
                return None;
            }
            let e: char = s[p + 1];
            if e == '"' {
                acc.push('"');
                p = p + 2;
            } else if e == '\\' {
                acc.push('\\');
                p = p + 2;
            } else if e == '/' {
                acc.push('/');
                p = p + 2;
            } else if e == 'b' {
                acc.push('\u{8}');
                p = p + 2;
            } else if e == 'f' {
                acc.push('\u{c}');
                p = p + 2;
            } else if e == 'n' {
                acc.push('\n');
                p = p + 2;
            } else if e == 'r' {
                acc.push('\r');
                p = p + 2;
            } else if e == 't' {
                acc.push('\t');
                p = p + 2;
            } else if e == 'u' {
                proof {
                    assert(spec_string_escape(s@, p as int + 1, acc@) == spec_unicode_escape(
                        s@,
                        p as int + 2,
                        acc@,
                    ));
                }
                match hex4(s, p + 2) {
                    None => {
                        return None;
                    },
                    Some(code) => {
                        if code < 0xD800 || code >= 0xE000 {
                            acc.push(char_from_u32(code));
                            p = p + 6;
                        } else if code < 0xDC00 {
                            if !(s.len() - p >= 8 && s[p + 6] == '\\' && s[p + 7] == 'u') {
                                return None;
                            }
                            match hex4(s, p + 8) {
                                None => {
                                    return None;
                                },
                                Some(low) => {
                                    if 0xDC00 <= low && low < 0xE000 {
                                        let combined: u32 = 0x10000 + (code - 0xD800) * 0x400 + (
                                        low - 0xDC00);
                                        acc.push(char_from_u32(combined));
                                        p = p + 12;
                                    } else {
                                        return None;
                                    }
                                },
                            }
                        } else {
                            return None;
                        }
                    },
                }
            } else {
                return None;
            }
        } else if (c as u32) < 32 {
            return None;
        } else {
            acc.push(c);
            p = p + 1;
        }
    }
    None
}

/// The position after the number at `i`; see [`spec_skip_number`].
fn skip_number_at(s: &Vec<char>, i: usize) -> (r: Option<usize>)
    requires
        i <= s.len(),
    ensures
        match r {
            Some(end) => spec_skip_number(s@, i as int) == Some(end as int) && i < end <= s.len(),
            None => spec_skip_number(s@, i as int) is None,
        },
{
    let j: usize = if i < s.len() && s[i] == '-' {
        i + 1
    } else {
        i
    };
    let k: usize = digits_end(s, j);
    if k == j {
        return None;
    }
    let k2: usize = if k < s.len() && s[k] == '.' {
        let m: usize = digits_end(s, k + 1);
        if m == k + 1 {
            return None;
        }
        m
    } else {
        k
    };
    if k2 < s.len() && (s[k2] == 'e' || s[k2] == 'E') {
        let e0: usize = if k2 + 1 < s.len() && (s[k2 + 1] == '+' || s[k2 + 1] == '-') {
            k2 + 2
        } else {
            k2 + 1
        };
        let m2: usize = digits_end(s, e0);
        if m2 == e0 {
            None
        } else {
            Some(m2)
        }
    } else {
        Some(k2)
    }
}

/// Whether the word `w` stands at `i`; see [`spec_lit_at`].
fn lit_at(s: &Vec<char>, i: usize, w: &Vec<char>) -> (r: bool)
    requires
        i <= s.len(),
    ensures
        r == spec_lit_at(s@, i as int, w@),
{
    if s.len() - i < w.len() {
        return false;
    }
    let mut k: usize = 0;
    while k < w.len()
        invariant
            k <= w.len(),
            i + w.len() <= s.len(),
            forall|t: int| 0 <= t < k ==> s@[i + t] == w@[t],
        decreases w.len() - k,
    {
        if s[i + k] != w[k] {
            proof {
                assert(s@.subrange(i as int, i + w@.len())[k as int] != w@[k as int]);
            }
            return false;
        }
        k = k + 1;
    }
    proof {
        assert(s@.subrange(i as int, i + w@.len()) =~= w@);
    }
    true
}

/// The position after the value at `i`; see [`spec_skip_value`].
pub(crate) fn skip_value_at(s: &Vec<char>, i: usize) -> (r: Option<usize>)
    requires
        i <= s.len(),
    ensures
        match r {
            Some(end) => spec_skip_value(s@, i as int) == Some(end as int) && end <= s.len(),
            None => spec_skip_value(s@, i as int) is None,
        },
    decreases s.len() - i, 0int,
{
    if i >= s.len() {
        return None;
    }
    let c: char = s[i];
    if c == '"' {
        match parse_string_at(s, i) {
            Some(t) => Some(t.1),
            None => None,
        }
    } else if c == '{' {
        skip_members_at(s, i + 1, true)
    } else if c == '[' {
        skip_elements_at(s, i + 1, true)
    } else if c == 't' {
        let w: Vec<char> = vec!['t', 'r', 'u', 'e'];
        proof {
            assert(w@ =~= seq!['t', 'r', 'u', 'e']);
        }
        if lit_at(s, i, &w) {
            Some(i + 4)
        } else {
            None
        }
    } else if c == 'f' {
        let w: Vec<char> = vec!['f', 'a', 'l', 's', 'e'];
        proof {
            assert(w@ =~= seq!['f', 'a', 'l', 's', 'e']);
        }
        if lit_at(s, i, &w) {
            Some(i + 5)
        } else {
            None
        }
    } else if c == 'n' {
        let w: Vec<char> = vec!['n', 'u', 'l', 'l'];
        proof {
            assert(w@ =~= seq!['n', 'u', 'l', 'l']);
        }
        if lit_at(s, i, &w) {
            Some(i + 4)
        } else {
            None
        }
    } else if c == '-' || (c >= '0' && c <= '9') {
        skip_number_at(s, i)
    } else {
        None
    }
}

/// The position after the element list and bracket; see
/// [`spec_skip_elements`].
fn skip_elements_at(s: &Vec<char>, i: usize, first: bool) -> (r: Option<usize>)
    requires
        i <= s.len(),
    ensures
        match r {
            Some(end) => spec_skip_elements(s@, i as int, first) == Some(end as int) && end
                <= s.len(),
            None => spec_skip_elements(s@, i as int, first) is None,
        },
    decreases s.len() - i, 1int,
{
    let j: usize = ws(s, i);
    if j >= s.len() {
        return None;
    }
    if s[j] == ']' {
        return Some(j + 1);
    }
    let v: usize = if first {
        j
    } else if s[j] == ',' {
        ws(s, j + 1)
    } else {
        return None;
    };
    match skip_value_at(s, v) {
        None => None,
        Some(end) => {
            if end > i {
                skip_elements_at(s, end, false)
            } else {
                None
            }
        },
    }
}

/// Reads one member header; see [`spec_member_key`].
pub(crate) fn member_key_at(s: &Vec<char>, j: usize, first: bool) -> (r: Option<(Vec<char>, usize)>)
    requires
        j <= s.len(),
    ensures
        match r {
            Some(t) => spec_member_key(s@, j as int, first) == Some((t.0@, t.1 as int)) && t.1
                <= s.len(),
            None => spec_member_key(s@, j as int, first) is None,
        },
{
    let p: usize = if first {
        j
    } else if j < s.len() && s[j] == ',' {
        ws(s, j + 1)
    } else {
        return None;
    };
    match parse_string_at(s, p) {
        None => None,
        Some(t) => {
            let b: usize = ws(s, t.1);
            if b < s.len() && s[b] == ':' {
                let v: usize = ws(s, b + 1);
                Some((t.0, v))
            } else {
                None
            }
        },
    }
}

/// The position after the member list and brace; see
/// [`spec_skip_members`].
fn skip_members_at(s: &Vec<char>, i: usize, first: bool) -> (r: Option<usize>)
    requires
        i <= s.len(),
    ensures
        match r {
            Some(end) => spec_skip_members(s@, i as int, first) == Some(end as int) && end
                <= s.len(),
            None => spec_skip_members(s@, i as int, first) is None,
        },
    decreases s.len() - i, 1int,
{
    let j: usize = ws(s, i);
    if j >= s.len() {
        return None;
    }
    if s[j] == '}' {
        return Some(j + 1);
    }
    match member_key_at(s, j, first) {
        None => None,
        Some(t) => {
            if t.1 < i {
                return None;
            }
            match skip_value_at(s, t.1) {
                None => None,
                Some(end) => {
                    if end > i {
                        skip_members_at(s, end, false)
                    } else {
                        None
                    }
                },
            }
        },
    }
}

} // verus!
