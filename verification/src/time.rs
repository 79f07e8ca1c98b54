//! Instants of the UTC time line, and the clock that gives them.

use vstd::prelude::*;

verus! {

/// An instant: whole seconds since 1970-01-01T00:00:00Z and the
/// nanoseconds into that second.
#[derive(Clone, Copy, Debug, PartialEq, Eq, Structural)]
pub struct Timestamp {
    pub secs: i64,
    pub nanos: u32,
}

/// The bound of the nanoseconds of an instant that a clock gives: a
/// second has a thousand million, and a leap second is counted as the
/// second thousand million of the second before it.
pub const NANOS_LIMIT: u32 = 2_000_000_000;

/// The pattern of the time stamps that file names carry.
pub const STAMP_PATTERN: &'static str = "%Y%m%d-%H%M%S";

impl Timestamp {
    /// Whether `self` lies strictly before `other`.
    pub open spec fn before(self, other: Timestamp) -> bool {
        self.secs < other.secs || (self.secs == other.secs && self.nanos < other.nanos)
    }

    /// Whether `self` is `other` or lies after it.
    pub open spec fn not_before(self, other: Timestamp) -> bool {
        !self.before(other)
    }

    /// Whether `self` lies strictly before `other`.
    pub fn is_before(&self, other: &Timestamp) -> (r: bool)
        ensures
            r == self.before(*other),
    {
        self.secs < other.secs || (self.secs == other.secs && self.nanos < other.nanos)
    }

    /// The time of the Unix epoch.
    pub fn epoch() -> (r: Timestamp)
        ensures
            r == (Timestamp { secs: 0, nanos: 0 }),
    {
        Timestamp { secs: 0, nanos: 0 }
    }

    /// Whether the instant is one that a clock gives: its nanoseconds
    /// are below the bound.
    pub open spec fn is_reading(self) -> bool {
        self.nanos < NANOS_LIMIT
    }

    /// The present instant, as the system clock gives it. It is a
    /// reading of the clock; which one, the clock decides.
    pub fn now() -> (r: Timestamp)
        ensures
            r.is_reading(),
    {
        utc_now()
    }
}

/// `chrono::Utc::now`, with `DateTime::timestamp` and
/// `DateTime::timestamp_subsec_nanos` to take the instant apart. The
/// nanoseconds are below two thousand million, the range that chrono
/// gives for them. Nothing else is claimed of the instant that comes
/// back.
#[verifier::external_body]
fn utc_now() -> (r: Timestamp)
    ensures
        r.is_reading(),
{
    let t = chrono::Utc::now();
    Timestamp { secs: t.timestamp(), nanos: t.timestamp_subsec_nanos() }
}

/// `chrono::Utc::now` and `DateTime::format`, rendered with `to_string`.
/// The pattern is fixed to one that chrono accepts, since rendering an
/// invalid pattern panics. Nothing is claimed of the text that comes back.
#[verifier::external_body]
fn clock_stamp(pattern: &str) -> String
    requires
        pattern@ == STAMP_PATTERN@,
{
    chrono::Utc::now().format(pattern).to_string()
}

/// The present instant as year, month, day, a hyphen, hour, minute and
/// second, in UTC.
pub fn current_stamp() -> String {
    clock_stamp(STAMP_PATTERN)
}

/// Transitivity of the order of instants.
pub proof fn before_is_transitive(a: Timestamp, b: Timestamp, c: Timestamp)
    requires
        a.before(b),
        b.before(c),
    ensures
        a.before(c),
{
}

} // verus!
