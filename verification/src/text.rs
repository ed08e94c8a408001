//! Small facts about strings that the rest of the crate leans on.
use vstd::prelude::*;

verus! {

/// Whether two strings hold the same characters.
pub fn str_eq(a: &str, b: &str) -> (r: bool)
    ensures
        r == (a@ == b@),
{
    let x = a.to_owned();
    let y = b.to_owned();
    x == y
}

} // verus!

verus! {

/// An ASCII decimal digit.
pub open spec fn is_digit(c: char) -> bool {
    '0' <= c && c <= '9'
}

/// The number that a run of decimal digits writes.
pub open spec fn digits_value(s: Seq<char>) -> int
    decreases s.len(),
{
    if s.len() == 0 {
        0
    } else {
        digits_value(s.drop_last()) * 10 + (s.last() as int - '0' as int)
    }
}

/// A non-empty run of decimal digits.
pub open spec fn all_digits(s: Seq<char>) -> bool {
    s.len() > 0 && forall|i: int| 0 <= i < s.len() ==> is_digit(#[trigger] s[i])
}

/// What `str::parse::<i64>` reads from a text: an optional `+` or `-` sign
/// and then decimal digits only, whose value must fit in an `i64`.
pub open spec fn i64_from_text(s: Seq<char>) -> Option<i64> {
    let negative = s.len() > 0 && s[0] == '-';
    let digits = if s.len() > 0 && (s[0] == '-' || s[0] == '+') {
        s.drop_first()
    } else {
        s
    };
    let v = if negative {
        -digits_value(digits)
    } else {
        digits_value(digits)
    };
    if all_digits(digits) && i64::MIN <= v <= i64::MAX {
        Some(v as i64)
    } else {
        None
    }
}

/// What `str::parse::<u16>` reads from a text: an optional `+` sign and then
/// decimal digits only, whose value must fit in a `u16`.
pub open spec fn u16_from_text(s: Seq<char>) -> Option<u16> {
    let digits = if s.len() > 0 && s[0] == '+' {
        s.drop_first()
    } else {
        s
    };
    let v = digits_value(digits);
    if all_digits(digits) && v <= u16::MAX {
        Some(v as u16)
    } else {
        None
    }
}

/// Calls `str::parse::<i64>`. Its documentation: an optional sign followed
/// by digits only, in range; anything else is an error.
#[verifier::external_body]
pub(crate) fn parse_i64(s: &str) -> (r: Option<i64>)
    ensures
        r == i64_from_text(s@),
{
    s.parse::<i64>().ok()
}

/// Calls `str::parse::<u16>`. Its documentation: an optional `+` followed by
/// digits only, in range; anything else is an error.
#[verifier::external_body]
pub(crate) fn parse_u16(s: &str) -> (r: Option<u16>)
    ensures
        r == u16_from_text(s@),
{
    s.parse::<u16>().ok()
}

} // verus!

verus! {

/// A decimal digit as a one-character string.
fn digit_str(d: u32) -> (r: &'static str)
    requires
        d < 10,
    ensures
        r@ == seq![crate::validation::digit_char(d as int)],
{
    proof {
        reveal_strlit("0");
        reveal_strlit("1");
        reveal_strlit("2");
        reveal_strlit("3");
        reveal_strlit("4");
        reveal_strlit("5");
        reveal_strlit("6");
        reveal_strlit("7");
        reveal_strlit("8");
        reveal_strlit("9");
    }
    if d == 0 {
        "0"
    } else if d == 1 {
        "1"
    } else if d == 2 {
        "2"
    } else if d == 3 {
        "3"
    } else if d == 4 {
        "4"
    } else if d == 5 {
        "5"
    } else if d == 6 {
        "6"
    } else if d == 7 {
        "7"
    } else if d == 8 {
        "8"
    } else {
        "9"
    }
}

/// A number in decimal, as `Display` prints it.
pub fn u32_to_decimal(n: u32) -> (r: String)
    ensures
        r@ == crate::validation::decimal(n as nat),
    decreases n,
{
    if n < 10 {
        String::from_str(digit_str(n))
    } else {
        let mut s = u32_to_decimal(n / 10);
        s.append(digit_str(n % 10));
        s
    }
}

} // verus!
