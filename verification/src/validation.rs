//! Field validation through garde's rules, and the report text that the
//! domain builds from their outcomes.
//!
//! Each rule is one garde function called on one value. A rule answers `None`
//! when the value passes and `Some(message)` with garde's message when it
//! does not. A report joins the failed checks as `path:message;`, in the
//! order in which the fields are checked.
use vstd::prelude::*;
use vstd::string::*;

verus! {

/// A decimal digit as a character.
pub open spec fn digit_char(d: int) -> char {
    if d == 0 {
        '0'
    } else if d == 1 {
        '1'
    } else if d == 2 {
        '2'
    } else if d == 3 {
        '3'
    } else if d == 4 {
        '4'
    } else if d == 5 {
        '5'
    } else if d == 6 {
        '6'
    } else if d == 7 {
        '7'
    } else if d == 8 {
        '8'
    } else {
        '9'
    }
}

/// The decimal digits of a natural number, without leading zeros.
pub open spec fn decimal(n: nat) -> Seq<char>
    decreases n,
{
    if n < 10 {
        seq![digit_char(n as int)]
    } else {
        decimal(n / 10) + seq![digit_char((n % 10) as int)]
    }
}

/// An integer as `Display` prints it: a `-` before negative numbers.
pub open spec fn signed_decimal(i: int) -> Seq<char> {
    if i < 0 {
        seq!['-'] + decimal((-i) as nat)
    } else {
        decimal(i as nat)
    }
}

/// The view of an optional string.
pub open spec fn opt_text(o: Option<String>) -> Option<Seq<char>> {
    match o {
        Some(s) => Some(s@),
        None => None,
    }
}

/// garde's `length` rule in its default (byte) mode: what it answers for a
/// value of `len` bytes and the bounds `min` and `max`.
pub open spec fn length_rejection(len: int, min: int, max: int) -> Option<Seq<char>> {
    if len < min {
        Some("length is lower than "@ + decimal(min as nat))
    } else if len > max {
        Some("length is greater than "@ + decimal(max as nat))
    } else {
        None
    }
}

/// garde's `range` rule on an integer: what it answers for `v` and the bounds.
pub open spec fn range_rejection(v: int, min: int, max: int) -> Option<Seq<char>> {
    if v < min {
        Some("lower than "@ + signed_decimal(min))
    } else if v > max {
        Some("greater than "@ + signed_decimal(max))
    } else {
        None
    }
}

/// What garde's `email` rule answers for a value: `None` when it accepts it,
/// else its message.
pub uninterp spec fn garde_email_rejection(value: Seq<char>) -> Option<Seq<char>>;

/// What garde's `url` rule answers for a value: `None` when it accepts it,
/// else its message.
pub uninterp spec fn garde_url_rejection(value: Seq<char>) -> Option<Seq<char>>;

/// Byte length of a string in UTF-8, which is what garde measures by default.
pub open spec fn utf8_len(s: Seq<char>) -> int {
    vstd::utf8::encode_utf8(s).len() as int
}

/// Calls `garde::rules::length::simple::apply` on `value` with `(min, max)`.
/// garde compares the byte length with the bounds and, with its default
/// English messages (the library installs no other), says
/// `length is lower than {min}` or `length is greater than {max}`.
#[verifier::external_body]
fn garde_length(value: &str, min: usize, max: usize) -> (r: Option<String>)
    ensures
        opt_text(r) == length_rejection(utf8_len(value@), min as int, max as int),
{
    match garde::rules::length::simple::apply(&value, (min, max)) {
        Ok(()) => None,
        Err(e) => Some(e.message().to_string()),
    }
}

/// Calls `garde::rules::range::apply` on `value` with `(Some(min), Some(max))`.
/// garde answers `lower than {min}` or `greater than {max}` with its default
/// messages.
#[verifier::external_body]
fn garde_range_i32(value: i32, min: i32, max: i32) -> (r: Option<String>)
    ensures
        opt_text(r) == range_rejection(value as int, min as int, max as int),
{
    match garde::rules::range::apply(&value, (Some(min), Some(max))) {
        Ok(()) => None,
        Err(e) => Some(e.message().to_string()),
    }
}

/// Calls `garde::rules::email::apply` on `value`. garde's email parser decides;
/// its source shows that an empty value is refused and that every message
/// begins with `not a valid email: `. Which other values pass is left to the
/// name `garde_email_rejection`.
#[verifier::external_body]
fn garde_email(value: &str) -> (r: Option<String>)
    ensures
        opt_text(r) == garde_email_rejection(value@),
        value@.len() == 0 ==> r is Some,
        r matches Some(m) ==> "not a valid email: "@.is_prefix_of(m@),
{
    match garde::rules::email::apply(&value, ()) {
        Ok(()) => None,
        Err(e) => Some(e.message().to_string()),
    }
}

/// Calls `garde::rules::url::apply` on `value`, which parses it with the `url`
/// crate. Every message begins with `not a valid url: `; which values pass is
/// left to the name `garde_url_rejection`.
#[verifier::external_body]
fn garde_url(value: &str) -> (r: Option<String>)
    ensures
        opt_text(r) == garde_url_rejection(value@),
        r matches Some(m) ==> "not a valid url: "@.is_prefix_of(m@),
{
    match garde::rules::url::apply(&value, ()) {
        Ok(()) => None,
        Err(e) => Some(e.message().to_string()),
    }
}

/// The `length` rule on a string.
pub fn check_length(value: &str, min: usize, max: usize) -> (r: Option<String>)
    ensures
        opt_text(r) == length_rejection(utf8_len(value@), min as int, max as int),
{
    garde_length(value, min, max)
}

/// The `length` rule on an optional string: `None` always passes.
pub fn check_length_opt(value: &Option<String>, min: usize, max: usize) -> (r: Option<String>)
    ensures
        opt_text(r) == match value {
            Some(v) => length_rejection(utf8_len(v@), min as int, max as int),
            None => None,
        },
{
    match value {
        Some(v) => garde_length(v.as_str(), min, max),
        None => None,
    }
}

/// The `range` rule on an integer.
pub fn check_range(value: i32, min: i32, max: i32) -> (r: Option<String>)
    ensures
        opt_text(r) == range_rejection(value as int, min as int, max as int),
{
    garde_range_i32(value, min, max)
}

/// The `range` rule on an optional integer: `None` always passes.
pub fn check_range_opt(value: Option<i32>, min: i32, max: i32) -> (r: Option<String>)
    ensures
        opt_text(r) == match value {
            Some(v) => range_rejection(v as int, min as int, max as int),
            None => None,
        },
{
    match value {
        Some(v) => garde_range_i32(v, min, max),
        None => None,
    }
}

/// The `email` rule on a string.
pub fn check_email(value: &str) -> (r: Option<String>)
    ensures
        opt_text(r) == garde_email_rejection(value@),
        value@.len() == 0 ==> r is Some,
        r matches Some(m) ==> "not a valid email: "@.is_prefix_of(m@),
{
    garde_email(value)
}

/// The `email` rule on an optional string: `None` always passes.
pub fn check_email_opt(value: &Option<String>) -> (r: Option<String>)
    ensures
        opt_text(r) == match value {
            Some(v) => garde_email_rejection(v@),
            None => None,
        },
        value matches Some(v) && v@.len() == 0 ==> r is Some,
        r matches Some(m) ==> "not a valid email: "@.is_prefix_of(m@),
{
    match value {
        Some(v) => garde_email(v.as_str()),
        None => None,
    }
}

/// The `url` rule on a string.
pub fn check_url(value: &str) -> (r: Option<String>)
    ensures
        opt_text(r) == garde_url_rejection(value@),
        r matches Some(m) ==> "not a valid url: "@.is_prefix_of(m@),
{
    garde_url(value)
}

/// The `url` rule on an optional string: `None` always passes.
pub fn check_url_opt(value: &Option<String>) -> (r: Option<String>)
    ensures
        opt_text(r) == match value {
            Some(v) => garde_url_rejection(v@),
            None => None,
        },
        r matches Some(m) ==> "not a valid url: "@.is_prefix_of(m@),
{
    match value {
        Some(v) => garde_url(v.as_str()),
        None => None,
    }
}

/// The outcome of one rule on one field: the field's path and, when the
/// value failed, the rule's message.
#[derive(Clone, Debug, PartialEq, Eq)]
pub struct FieldCheck {
    pub path: String,
    pub error: Option<String>,
}

impl View for FieldCheck {
    type V = (Seq<char>, Option<Seq<char>>);

    open spec fn view(&self) -> (Seq<char>, Option<Seq<char>>) {
        (self.path@, opt_text(self.error))
    }
}

/// The report entry of one check: `path:message;` for a failure, nothing for a pass.
pub open spec fn report_entry(check: (Seq<char>, Option<Seq<char>>)) -> Seq<char> {
    match check.1 {
        Some(m) => check.0 + seq![':'] + m + seq![';'],
        None => Seq::empty(),
    }
}

/// The report of a sequence of checks: their entries, in order.
pub open spec fn report_text(checks: Seq<(Seq<char>, Option<Seq<char>>)>) -> Seq<char>
    decreases checks.len(),
{
    if checks.len() == 0 {
        Seq::empty()
    } else {
        report_text(checks.drop_last()) + report_entry(checks.last())
    }
}

/// Some check in the sequence failed.
pub open spec fn any_failed(checks: Seq<(Seq<char>, Option<Seq<char>>)>) -> bool {
    exists|i: int| 0 <= i < checks.len() && (#[trigger] checks[i]).1 is Some
}

/// The views of a vector of checks.
pub open spec fn checks_view(checks: Seq<FieldCheck>) -> Seq<(Seq<char>, Option<Seq<char>>)> {
    checks.map_values(|c: FieldCheck| c@)
}

/// A report is empty exactly when no check failed.
pub proof fn lemma_report_empty_iff_all_pass(checks: Seq<(Seq<char>, Option<Seq<char>>)>)
    ensures
        report_text(checks).len() == 0 <==> !any_failed(checks),
    decreases checks.len(),
{
    if checks.len() > 0 {
        let init = checks.drop_last();
        lemma_report_empty_iff_all_pass(init);
        if any_failed(init) {
            let i = choose|i: int| 0 <= i < init.len() && (#[trigger] init[i]).1 is Some;
            assert(checks[i] == init[i]);
        }
        if any_failed(checks) {
            let i = choose|i: int| 0 <= i < checks.len() && (#[trigger] checks[i]).1 is Some;
            if i < init.len() {
                assert(init[i] == checks[i]);
            }
        }
        if checks.last().1 is Some {
            assert(checks[checks.len() - 1].1 is Some);
        }
    }
}

/// Joins the failed checks as `path:message;`, in order.
pub fn validation_report(checks: &Vec<FieldCheck>) -> (r: String)
    ensures
        r@ == report_text(checks_view(checks@)),
{
    let mut out = String::new();
    let mut i: usize = 0;
    proof {
        reveal_strlit(":");
        reveal_strlit(";");
    }
    while i < checks.len()
        invariant
            i <= checks.len(),
            out@ == report_text(checks_view(checks@.subrange(0, i as int))),
            ":"@ == seq![':'],
            ";"@ == seq![';'],
        decreases checks.len() - i,
    {
        let ghost before = out@;
        let check = &checks[i];
        match &check.error {
            Some(m) => {
                out.append(check.path.as_str());
                out.append(":");
                out.append(m.as_str());
                out.append(";");
            },
            None => {},
        }
        proof {
            let s = checks_view(checks@.subrange(0, i + 1));
            assert(s.drop_last() =~= checks_view(checks@.subrange(0, i as int)));
            assert(s.last() == check@);
        }
        i = i + 1;
    }
    proof {
        assert(checks@.subrange(0, checks@.len() as int) =~= checks@);
    }
    out
}

} // verus!
