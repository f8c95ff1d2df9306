//! Text: what the standard library's conversions between bytes, numbers and
//! strings do, stated over sequences of characters.

use crate::ctl_error::{ErrorView, SysctlError};
use vstd::prelude::*;
use vstd::slice::*;
use vstd::utf8::*;

verus! {

/// The character of the digit `d`.
pub open spec fn digit_char(d: nat) -> char {
    if d == 0 {
        '0'
    } else if d == 1 {
        '1'
    } else if d == 2 {
        '2'
    } else if d == 3 {
        '3'
    } else if d == 4 {
        '4'
    } else if d == 5 {
        '5'
    } else if d == 6 {
        '6'
    } else if d == 7 {
        '7'
    } else if d == 8 {
        '8'
    } else {
        '9'
    }
}

/// The character of the digit `d`.
pub fn digit_to_char(d: u8) -> (res: char)
    requires
        d < 10,
    ensures
        res == digit_char(d as nat),
{
    match d {
        0 => '0',
        1 => '1',
        2 => '2',
        3 => '3',
        4 => '4',
        5 => '5',
        6 => '6',
        7 => '7',
        8 => '8',
        _ => '9',
    }
}

/// Whether `c` is one of the ten digits.
pub open spec fn is_digit(c: char) -> bool {
    '0' <= c && c <= '9'
}

/// The number that the digit `c` stands for.
pub open spec fn digit_value(c: char) -> nat {
    (c as u32 - '0' as u32) as nat
}

/// `n` in decimal digits, without leading zeros.
pub open spec fn digits(n: nat) -> Seq<char>
    decreases n,
{
    if n < 10 {
        seq![digit_char(n)]
    } else {
        digits(n / 10).push(digit_char(n % 10))
    }
}

/// `v` in decimal, with a minus sign before a negative number.
pub open spec fn decimal(v: int) -> Seq<char> {
    if v < 0 {
        seq!['-'] + digits((-v) as nat)
    } else {
        digits(v as nat)
    }
}

/// The number that a run of digits spells; zero for the empty run.
pub open spec fn digits_value(s: Seq<char>) -> nat
    decreases s.len(),
{
    if s.len() == 0 {
        0
    } else {
        10 * digits_value(s.drop_last()) + digit_value(s.last())
    }
}

/// Whether `s` is a run of at least one digit.
pub open spec fn all_digits(s: Seq<char>) -> bool {
    s.len() > 0 && forall|i: int| 0 <= i < s.len() ==> is_digit(#[trigger] s[i])
}

/// The number that `s` spells in decimal: an optional sign, then digits and
/// nothing else. `None` where `s` has another shape.
pub open spec fn decimal_value(s: Seq<char>) -> Option<int> {
    if s.len() > 0 && s[0] == '-' {
        if all_digits(s.drop_first()) {
            Some(-(digits_value(s.drop_first()) as int))
        } else {
            None
        }
    } else if s.len() > 0 && s[0] == '+' {
        if all_digits(s.drop_first()) {
            Some(digits_value(s.drop_first()) as int)
        } else {
            None
        }
    } else if all_digits(s) {
        Some(digits_value(s) as int)
    } else {
        None
    }
}

/// The `i32` that `s` spells: `None` where it spells no number, or one out of
/// range.
pub open spec fn parsed_i32(s: Seq<char>) -> Option<i32> {
    match decimal_value(s) {
        Some(v) => if i32::MIN <= v <= i32::MAX {
            Some(v as i32)
        } else {
            None
        },
        None => None,
    }
}

/// `s` with `to` in the place of each `from`.
pub open spec fn replaced(s: Seq<char>, from: char, to: char) -> Seq<char> {
    Seq::new(
        s.len(),
        |i: int|
            if s[i] == from {
                to
            } else {
                s[i]
            },
    )
}

/// Whether `c` is white space, as Unicode defines it.
pub open spec fn is_whitespace(c: char) -> bool {
    let code = c as u32;
    ||| 0x0009 <= code <= 0x000D
    ||| code == 0x0020
    ||| code == 0x0085
    ||| code == 0x00A0
    ||| code == 0x1680
    ||| 0x2000 <= code <= 0x200A
    ||| code == 0x2028
    ||| code == 0x2029
    ||| code == 0x202F
    ||| code == 0x205F
    ||| code == 0x3000
}

/// `s` without the white space at its start.
pub open spec fn trimmed_start(s: Seq<char>) -> Seq<char>
    decreases s.len(),
{
    if s.len() > 0 && is_whitespace(s[0]) {
        trimmed_start(s.drop_first())
    } else {
        s
    }
}

/// `s` without the white space at its end.
pub open spec fn trimmed_end(s: Seq<char>) -> Seq<char>
    decreases s.len(),
{
    if s.len() > 0 && is_whitespace(s.last()) {
        trimmed_end(s.drop_last())
    } else {
        s
    }
}

/// `s` without the white space at its start and at its end.
pub open spec fn trimmed(s: Seq<char>) -> Seq<char> {
    trimmed_end(trimmed_start(s))
}

/// Whether `s` starts with `prefix`.
pub open spec fn has_prefix(s: Seq<char>, prefix: Seq<char>) -> bool {
    prefix.len() <= s.len() && s.subrange(0, prefix.len() as int) == prefix
}

/// The length of the longest prefix of `bytes` that is well-formed UTF-8.
pub open spec fn valid_prefix_len(bytes: Seq<u8>) -> nat
    decreases bytes.len(),
{
    if bytes.len() == 0 || valid_utf8(bytes) {
        bytes.len()
    } else {
        valid_prefix_len(bytes.drop_last())
    }
}

/// The text that `bytes` encode in UTF-8, or the error that says how far
/// they are well-formed.
pub open spec fn spec_utf8(bytes: Seq<u8>) -> Result<Seq<char>, ErrorView> {
    if valid_utf8(bytes) {
        Ok(decode_utf8(bytes))
    } else {
        Err(ErrorView::Utf8Error { valid_up_to: valid_prefix_len(bytes) as usize })
    }
}

/// The text of a buffer that ends in a NUL byte: all bytes but the last one,
/// read as UTF-8. An empty buffer holds the empty text.
pub open spec fn spec_text_before_nul(bytes: Seq<u8>) -> Result<Seq<char>, ErrorView> {
    if bytes.len() == 0 {
        Ok(Seq::<char>::empty())
    } else {
        spec_utf8(bytes.drop_last())
    }
}

/// What an operation that gives text gave, seen through views.
pub open spec fn text_outcome(res: Result<String, SysctlError>) -> Result<Seq<char>, ErrorView> {
    match res {
        Ok(text) => Ok(text@),
        Err(error) => Err(error@),
    }
}

/// Decodes `bytes` as UTF-8.
///
/// Trusted: `std::str::from_utf8` succeeds on well-formed UTF-8 and on nothing
/// else, and the text it gives has these bytes as its encoding. The error's
/// `valid_up_to` is the length of the longest prefix that is well-formed.
#[verifier::external_body]
pub(crate) fn from_utf8(bytes: &[u8]) -> (res: Result<String, usize>)
    ensures
        res is Ok <==> valid_utf8(bytes@),
        res matches Ok(s) ==> s@ == decode_utf8(bytes@),
        res matches Err(n) ==> n == valid_prefix_len(bytes@),
{
    match std::str::from_utf8(bytes) {
        Ok(s) => Ok(s.to_owned()),
        Err(e) => Err(e.valid_up_to()),
    }
}

/// Writes `v` in decimal.
///
/// Trusted: the standard library formats an integer with `{}` as its decimal
/// digits, with a minus sign before a negative number.
#[verifier::external_body]
pub(crate) fn format_int(v: i128) -> (res: String)
    ensures
        res@ == decimal(v as int),
{
    format!("{}", v)
}

/// Reads `s` as a decimal `i32`.
///
/// Trusted: `str::parse::<i32>` takes an optional sign and then digits only,
/// at least one, and fails on a number that `i32` cannot hold.
#[verifier::external_body]
pub(crate) fn parse_i32(s: &str) -> (res: Option<i32>)
    ensures
        res == parsed_i32(s@),
{
    s.parse::<i32>().ok()
}

/// Whether `s` starts with `prefix`.
///
/// Trusted: `str::starts_with` with a string for its pattern.
#[verifier::external_body]
pub(crate) fn starts_with(s: &str, prefix: &str) -> (res: bool)
    ensures
        res == has_prefix(s@, prefix@),
{
    s.starts_with(prefix)
}

/// Whether `c` occurs in `s`.
///
/// Trusted: `str::contains` with a character for its pattern.
#[verifier::external_body]
pub(crate) fn contains_char(s: &str, c: char) -> (res: bool)
    ensures
        res == s@.contains(c),
{
    s.contains(c)
}

/// Puts `c` behind `s`.
///
/// Trusted: `String::push` appends the character.
#[verifier::external_body]
pub(crate) fn push_char(s: &mut String, c: char)
    ensures
        final(s)@ == old(s)@.push(c),
{
    s.push(c)
}

/// `s` with `to` in the place of each `from`.
///
/// Trusted: `str::replace` puts the replacement in place of each match of the
/// pattern; with a character for the pattern and one for the replacement, the
/// other characters stay where they are.
#[verifier::external_body]
pub(crate) fn replace_char(s: &str, from: char, to: char) -> (res: String)
    ensures
        res@ == replaced(s@, from, to),
{
    s.replace(from, to.encode_utf8(&mut [0u8; 4]))
}

/// `s` without the white space at its start and at its end.
///
/// Trusted: `str::trim` removes leading and trailing white space, which is
/// what the Unicode property `White_Space` names.
#[verifier::external_body]
pub(crate) fn trim(s: &str) -> (res: String)
    ensures
        res@ == trimmed(s@),
{
    s.trim().to_owned()
}

/// Reads `bytes` as UTF-8 text.
pub fn utf8_text(bytes: &[u8]) -> (res: Result<String, SysctlError>)
    ensures
        text_outcome(res) == spec_utf8(bytes@),
{
    match from_utf8(bytes) {
        Ok(text) => Ok(text),
        Err(valid_up_to) => Err(SysctlError::Utf8Error { valid_up_to }),
    }
}

/// Reads the text of a buffer that ends in a NUL byte.
pub fn text_before_nul(bytes: &Vec<u8>) -> (res: Result<String, SysctlError>)
    ensures
        text_outcome(res) == spec_text_before_nul(bytes@),
{
    if bytes.len() == 0 {
        Ok(String::new())
    } else {
        let body = slice_subrange(bytes.as_slice(), 0, bytes.len() - 1);
        assert(body@ =~= bytes@.drop_last());
        utf8_text(body)
    }
}

} // verus!
