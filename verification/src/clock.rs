//! Instants on the UTC time line, read from the system clock and shifted
//! by whole seconds.

use vstd::prelude::*;

verus! {

/// Nanoseconds in one second.
pub const NANOS_PER_SEC: u32 = 1_000_000_000;

/// Seconds in one day.
pub const SECS_PER_DAY: i64 = 86_400;

/// The first day that `chrono` can represent, counted from 1970-01-01:
/// the first of January of the year -262143.
pub const MIN_DAY: i64 = -96_465_292;

/// The last day that `chrono` can represent, counted from 1970-01-01:
/// the last of December of the year 262142.
pub const MAX_DAY: i64 = 95_026_236;

/// The longest distance in seconds that `chrono` can represent: as many
/// milliseconds as 64 bits hold.
pub const MAX_SHIFT: i64 = 9_223_372_036_854_775;

/// An instant without a time zone: whole seconds since 1970-01-01 00:00:00 UTC
/// and the nanoseconds since the last whole second.
#[derive(Clone, Copy, Debug, PartialEq, Eq, Structural)]
pub struct Timestamp {
    pub secs: i64,
    pub nanos: u32,
}

impl Timestamp {
    /// The fraction stays below one second.
    pub open spec fn well_formed(&self) -> bool {
        self.nanos < NANOS_PER_SEC
    }

    /// `self` is not later than `other`.
    pub open spec fn spec_not_after(&self, other: &Timestamp) -> bool {
        self.secs < other.secs || (self.secs == other.secs && self.nanos <= other.nanos)
    }

    #[verifier::when_used_as_spec(spec_not_after)]
    pub fn not_after(&self, other: &Timestamp) -> (r: bool)
        ensures
            r == self.spec_not_after(other),
    {
        self.secs < other.secs || (self.secs == other.secs && self.nanos <= other.nanos)
    }
}

/// The second `secs` lies on a day that `chrono` can represent.
pub open spec fn representable(secs: int) -> bool {
    MIN_DAY <= secs / (SECS_PER_DAY as int) <= MAX_DAY
}

/// The instant is one that the clock can read: it has a proper fraction
/// and lies on a day that `chrono` can represent.
pub open spec fn readable(now: Timestamp) -> bool {
    now.well_formed() && representable(now.secs as int)
}

/// The instant `by` seconds from `at`, with the fraction of `at`. There is
/// one where start and end lie on days that `chrono` can represent and
/// the distance is one that it can represent.
pub open spec fn shifted(at: Timestamp, by: int) -> Option<Timestamp> {
    if representable(at.secs as int) && representable(at.secs + by) && -MAX_SHIFT <= by
        <= MAX_SHIFT {
        Some(Timestamp { secs: (at.secs + by) as i64, nanos: at.nanos })
    } else {
        None
    }
}

/// An instant in range of `chrono` fits the seconds of a `Timestamp`.
pub proof fn lemma_representable_fits(secs: int)
    requires
        representable(secs),
    ensures
        i64::MIN <= secs <= i64::MAX,
{
}

/// Reads the system clock with `std::time::SystemTime::now` and makes an
/// instant of it with `chrono`'s `DateTime::<Utc>::from`.
///
/// Nothing is claimed of the instant but that it is one of `chrono`'s:
/// its fraction is below one second, which `chrono` takes from
/// `Duration::subsec_nanos`, also for a clock that stands before 1970,
/// and its day is one that `chrono` can represent, since the conversion
/// goes through `DateTime::from_timestamp`. The conversion panics only
/// where the clock stands outside the years that `chrono` can represent.
#[verifier::external_body]
pub(crate) fn utc_now() -> (now: Timestamp)
    ensures
        readable(now),
{
    let now = chrono::DateTime::<chrono::Utc>::from(std::time::SystemTime::now());
    Timestamp { secs: now.timestamp(), nanos: now.timestamp_subsec_nanos() }
}

/// Moves `at` by `by` seconds with `chrono::DateTime::checked_add_signed`,
/// on an instant made by `DateTime::from_timestamp` and over a distance
/// made by `TimeDelta::try_seconds`.
///
/// The result is `shifted`: `from_timestamp` refuses a day outside
/// `NaiveDate::MIN..=MAX`, `try_seconds` a distance beyond `i64::MAX / 1000`,
/// and `checked_add_signed` an end outside the same days; to an instant
/// with a fraction below one second it adds the whole seconds and leaves
/// the fraction alone.
#[verifier::external_body]
pub(crate) fn shift(at: Timestamp, by: i64) -> (r: Option<Timestamp>)
    requires
        at.well_formed(),
    ensures
        r == shifted(at, by as int),
{
    let start = chrono::DateTime::from_timestamp(at.secs, at.nanos)?;
    let end = start.checked_add_signed(chrono::TimeDelta::try_seconds(by)?)?;
    Some(Timestamp { secs: end.timestamp(), nanos: end.timestamp_subsec_nanos() })
}

} // verus!
