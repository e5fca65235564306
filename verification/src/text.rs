//! Character and string primitives of std that the domain rules rely on,
//! with the behaviour std documents for them.
use vstd::prelude::*;

verus! {

/// Unicode `White_Space`: the characters that `char::is_whitespace` and
/// `str::trim` treat as whitespace.
pub open spec fn is_white_space(c: char) -> bool {
    ||| ('\u{9}' <= c && c <= '\u{d}')
    ||| c == ' '
    ||| c == '\u{85}'
    ||| c == '\u{a0}'
    ||| c == '\u{1680}'
    ||| ('\u{2000}' <= c && c <= '\u{200a}')
    ||| c == '\u{2028}'
    ||| c == '\u{2029}'
    ||| c == '\u{202f}'
    ||| c == '\u{205f}'
    ||| c == '\u{3000}'
}

/// `s` without its leading whitespace.
pub open spec fn trim_start_spec(s: Seq<char>) -> Seq<char>
    decreases s.len(),
{
    if s.len() > 0 && is_white_space(s[0]) {
        trim_start_spec(s.drop_first())
    } else {
        s
    }
}

/// `s` without its trailing whitespace.
pub open spec fn trim_end_spec(s: Seq<char>) -> Seq<char>
    decreases s.len(),
{
    if s.len() > 0 && is_white_space(s.last()) {
        trim_end_spec(s.drop_last())
    } else {
        s
    }
}

/// `s` without leading and trailing whitespace.
pub open spec fn trim_spec(s: Seq<char>) -> Seq<char> {
    trim_end_spec(trim_start_spec(s))
}

/// The lowercase mapping of Unicode (the `Lowercase` derived property)
/// applied to every character of a string; `str::to_lowercase` computes it.
pub uninterp spec fn unicode_lowercase(s: Seq<char>) -> Seq<char>;

/// `str::trim`: std documents that it removes leading and trailing
/// characters with the Unicode `White_Space` property.
#[verifier::external_body]
pub(crate) fn trim(s: &str) -> (trimmed: &str)
    ensures
        trimmed@ == trim_spec(s@),
{
    s.trim()
}

/// `str::to_lowercase`; the result is named, the Unicode case tables are not restated.
#[verifier::external_body]
pub(crate) fn to_lowercase(s: &str) -> (lower: String)
    ensures
        lower@ == unicode_lowercase(s@),
{
    s.to_lowercase()
}

pub open spec fn is_ascii_digit(c: char) -> bool {
    '0' <= c && c <= '9'
}

/// The value of a string of decimal digits.
pub open spec fn digits_value(digits: Seq<char>) -> int
    decreases digits.len(),
{
    if digits.len() == 0 {
        0
    } else {
        digits_value(digits.drop_last()) * 10 + (digits.last() as int - '0' as int)
    }
}

/// The text after an optional leading `+`.
pub open spec fn unsigned_digits(s: Seq<char>) -> Seq<char> {
    if s.len() > 0 && s[0] == '+' {
        s.drop_first()
    } else {
        s
    }
}

/// Every character is an ASCII digit.
pub open spec fn all_ascii_digits(digits: Seq<char>) -> bool {
    forall|i: int| 0 <= i < digits.len() ==> is_ascii_digit(#[trigger] digits[i])
}

/// What `str::parse` gives for an unsigned integer type whose largest value is `max`:
/// an optional `+`, then one or more ASCII digits whose value fits.
pub open spec fn parse_unsigned_spec(s: Seq<char>, max: int) -> Option<int> {
    let digits = unsigned_digits(s);
    if digits.len() == 0 || !all_ascii_digits(digits) || digits_value(digits) > max {
        None
    } else {
        Some(digits_value(digits))
    }
}

/// `<u64 as FromStr>::from_str`: std accepts an optional `+` followed by decimal digits,
/// and refuses an empty string, any other character and values above `u64::MAX`.
#[verifier::external_body]
pub(crate) fn parse_u64(s: &str) -> (value: Option<u64>)
    ensures
        match value {
            Some(v) => parse_unsigned_spec(s@, u64::MAX as int) == Some(v as int),
            None => parse_unsigned_spec(s@, u64::MAX as int) is None,
        },
{
    s.parse::<u64>().ok()
}

/// ASCII-case-insensitive equality of two strings.
pub open spec fn ascii_lower_char(c: char) -> char {
    if 'A' <= c && c <= 'Z' {
        ((c as u32) + 32) as char
    } else {
        c
    }
}

pub open spec fn equal_ignoring_ascii_case(a: Seq<char>, b: Seq<char>) -> bool {
    a.len() == b.len() && forall|i: int| 0 <= i < a.len() ==> ascii_lower_char(#[trigger] a[i]) == ascii_lower_char(b[i])
}

/// `String::push`.
#[verifier::external_body]
pub(crate) fn push_char(s: &mut String, c: char)
    ensures
        final(s)@ == old(s)@.push(c),
{
    s.push(c)
}

/// The first `n` characters of `s`, or all of it when it is shorter.
pub fn take_chars(s: &str, n: usize) -> (prefix: String)
    ensures
        prefix@ == if s@.len() <= n { s@ } else { s@.take(n as int) },
{
    broadcast use vstd::string::axiom_spec_iter;
    let ghost chars = s@;
    let mut prefix = String::new();
    let mut taken: usize = 0;
    for x in it: s.chars()
        invariant
            chars == s@,
            it.seq() == chars,
            taken <= n,
            taken == if it.index() <= n { it.index() as int } else { n as int },
            prefix@ == chars.take(taken as int),
    {
        if taken < n {
            assert(0 <= it.index() < chars.len());
            assert(chars[it.index() as int] == x);
            assert(chars.take(taken + 1) == chars.take(taken as int).push(x));
            push_char(&mut prefix, x);
            taken = taken + 1;
        }
    }
    proof {
        if chars.len() <= n {
            assert(chars.take(chars.len() as int) == chars);
        }
    }
    prefix
}

/// Whether `c` occurs in `s`.
pub fn contains_char(s: &str, c: char) -> (found: bool)
    ensures
        found == s@.contains(c),
{
    broadcast use vstd::string::axiom_spec_iter;
    let ghost chars = s@;
    for x in it: s.chars()
        invariant
            chars == s@,
            it.seq() == chars,
            forall|j: int| 0 <= j < it.index() ==> chars[j] != c,
    {
        if x == c {
            assert(0 <= it.index() < chars.len());
            assert(chars[it.index() as int] == x);
            return true;
        }
    }
    false
}

/// `lookup` may answer `value` for a name spelled `name`.
pub open spec fn called_with<F: Fn(&str) -> Option<String>>(lookup: F, name: Seq<char>, value: Option<String>) -> bool {
    exists|key: &str| key@ == name && #[trigger] lookup.ensures((key,), value)
}


pub open spec fn string_option_view(value: Option<String>) -> Option<Seq<char>> {
    match value {
        Some(text) => Some(text@),
        None => None,
    }
}

/// `String::push_str`.
#[verifier::external_body]
pub(crate) fn push_str(s: &mut String, tail: &str)
    ensures
        final(s)@ == old(s)@ + tail@,
{
    s.push_str(tail)
}

/// The decimal digit for `d` in 0 to 9.
pub open spec fn digit_char(d: int) -> char {
    (48 + d) as char
}

/// The decimal digits of `n`, most significant first, without leading zeros.
pub open spec fn decimal(n: nat) -> Seq<char>
    decreases n,
{
    if n < 10 {
        seq![digit_char(n as int)]
    } else {
        decimal(n / 10).push(digit_char((n % 10) as int))
    }
}

/// A signed integer in decimal, with `-` before a negative one.
pub open spec fn signed_decimal(n: int) -> Seq<char> {
    if n < 0 {
        seq!['-'] + decimal((-n) as nat)
    } else {
        decimal(n as nat)
    }
}

/// `u32::to_string`: std's `Display` for integers writes the decimal digits.
#[verifier::external_body]
pub(crate) fn u32_to_decimal(n: u32) -> (text: String)
    ensures
        text@ == decimal(n as nat),
{
    n.to_string()
}

/// `i32::to_string`: std's `Display` for integers writes `-` for a negative value, then
/// the decimal digits of its magnitude.
#[verifier::external_body]
pub(crate) fn i32_to_decimal(n: i32) -> (text: String)
    ensures
        text@ == signed_decimal(n as int),
{
    n.to_string()
}

} // verus!
