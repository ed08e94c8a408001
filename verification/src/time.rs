//! Points in time as the domain sees them, and the clock that reads them.
//!
//! A `Timestamp` is a UTC instant held as whole seconds since the Unix epoch
//! and a sub-second nanosecond part. Only values that chrono can represent as
//! a `DateTime<Utc>` are ever built, so every stored instant can be printed.
use vstd::prelude::*;

verus! {

/// Whether `chrono::DateTime::<Utc>::from_timestamp(secs, nanos)` yields a
/// value. chrono's source takes the day from `secs` and needs it to lie
/// between its first date, -262143-01-01, and its last, 262142-12-31: the
/// seconds from the first second of the one to the last second of the other.
/// A nanosecond part of a whole second or more is a leap second, allowed
/// only up to two seconds and only in the last second of a minute.
pub open spec fn chrono_accepts_timestamp(secs: i64, nanos: u32) -> bool {
    &&& -8334601228800 <= secs <= 8210266876799
    &&& (nanos < 1_000_000_000 || (nanos < 2_000_000_000 && secs % 60 == 59))
}

/// The text that chrono prints for `from_timestamp(secs, nanos)` with the
/// format pattern `pattern`.
pub uninterp spec fn chrono_datetime_text(secs: i64, nanos: u32, pattern: Seq<char>) -> Seq<char>;

/// The pattern in which the domain writes date and time.
pub open spec fn datetime_pattern() -> Seq<char> {
    "%Y-%m-%d %H:%M:%S"@
}

/// Calls `chrono::DateTime::<Utc>::from_timestamp` and reports whether chrono
/// accepted the pair, which its source decides by the range of days and the
/// leap-second rule that `chrono_accepts_timestamp` states.
#[verifier::external_body]
fn chrono_from_timestamp_is_some(secs: i64, nanos: u32) -> (r: bool)
    ensures
        r == chrono_accepts_timestamp(secs, nanos),
{
    match chrono::DateTime::<chrono::Utc>::from_timestamp(secs, nanos) {
        Some(_) => true,
        None => false,
    }
}

/// Calls `chrono::DateTime::<Utc>::from_timestamp` and then
/// `format(pattern).to_string()` on the result. The claim is that the text
/// depends on the pair and the pattern alone. The `requires` rules out the
/// pairs that chrono refuses, and admits only the domain's pattern: with a
/// pattern that chrono cannot read, `to_string` panics.
#[verifier::external_body]
fn chrono_format_datetime(secs: i64, nanos: u32, pattern: &str) -> (r: String)
    requires
        chrono_accepts_timestamp(secs, nanos),
        pattern@ == datetime_pattern(),
    ensures
        r@ == chrono_datetime_text(secs, nanos, pattern@),
{
    match chrono::DateTime::<chrono::Utc>::from_timestamp(secs, nanos) {
        Some(dt) => dt.format(pattern).to_string(),
        None => String::new(),
    }
}

/// A UTC instant: seconds since the Unix epoch and nanoseconds within the second.
#[derive(Clone, Copy, Debug, PartialEq, Eq, Hash)]
pub struct Timestamp {
    secs: i64,
    nanos: u32,
}

impl Timestamp {
    #[verifier::type_invariant]
    spec fn representable(self) -> bool {
        chrono_accepts_timestamp(self.secs, self.nanos)
    }

    /// Seconds since the Unix epoch.
    pub closed spec fn spec_secs(self) -> i64 {
        self.secs
    }

    /// Nanoseconds within the second.
    pub closed spec fn spec_nanos(self) -> u32 {
        self.nanos
    }

    /// Builds the instant `secs` seconds and `nanos` nanoseconds after the
    /// Unix epoch, or `None` where chrono cannot represent it.
    pub fn from_unix(secs: i64, nanos: u32) -> (r: Option<Timestamp>)
        ensures
            r is Some <==> chrono_accepts_timestamp(secs, nanos),
            r matches Some(t) ==> t.spec_secs() == secs && t.spec_nanos() == nanos,
    {
        if chrono_from_timestamp_is_some(secs, nanos) {
            Some(Timestamp { secs, nanos })
        } else {
            None
        }
    }

    pub fn secs(&self) -> (r: i64)
        ensures
            r == self.spec_secs(),
    {
        self.secs
    }

    pub fn nanos(&self) -> (r: u32)
        ensures
            r == self.spec_nanos(),
    {
        self.nanos
    }

    /// Whether `self` comes strictly before `other`.
    pub fn is_before(&self, other: &Timestamp) -> (r: bool)
        ensures
            r == before(*self, *other),
    {
        self.secs < other.secs || (self.secs == other.secs && self.nanos < other.nanos)
    }

    /// The instant printed as `YYYY-MM-DD HH:MM:SS`.
    pub fn format_datetime(&self) -> (r: String)
        ensures
            r@ == chrono_datetime_text(self.spec_secs(), self.spec_nanos(), datetime_pattern()),
    {
        proof {
            use_type_invariant(self);
        }
        chrono_format_datetime(self.secs, self.nanos, "%Y-%m-%d %H:%M:%S")
    }
}

/// `a` comes strictly before `b`: earlier second, or same second and fewer nanoseconds.
pub open spec fn before(a: Timestamp, b: Timestamp) -> bool {
    a.spec_secs() < b.spec_secs() || (a.spec_secs() == b.spec_secs() && a.spec_nanos()
        < b.spec_nanos())
}

/// Where the current time comes from. Each call may give another instant.
pub trait Clock {
    fn now(&self) -> Timestamp;
}

/// `before` is a strict order: never reflexive.
pub proof fn lemma_before_irreflexive(a: Timestamp)
    ensures
        !before(a, a),
{
}

/// `before` is a strict order: transitive.
pub proof fn lemma_before_transitive(a: Timestamp, b: Timestamp, c: Timestamp)
    requires
        before(a, b),
        before(b, c),
    ensures
        before(a, c),
{
}

/// Of two distinct instants, one comes before the other.
pub proof fn lemma_before_total(a: Timestamp, b: Timestamp)
    requires
        a.spec_secs() != b.spec_secs() || a.spec_nanos() != b.spec_nanos(),
    ensures
        before(a, b) || before(b, a),
{
}

} // verus!
