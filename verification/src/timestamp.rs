//! Instants in UTC, held as nanoseconds since the Unix epoch, with the
//! calendar, RFC 3339 and clock services of the `time` crate.
use vstd::prelude::*;

verus! {

/// The first instant the `time` crate represents: -9999-01-01T00:00:00Z.
pub const MIN_UNIX_NANOS: i128 = -377_705_116_800_000_000_000i128;

/// The last instant the `time` crate represents: 9999-12-31T23:59:59.999999999Z.
pub const MAX_UNIX_NANOS: i128 = 253_402_300_799_999_999_999i128;

/// Nanoseconds in one hour.
pub const NANOS_PER_HOUR: i128 = 3_600_000_000_000i128;

/// Nanoseconds in one day.
pub const NANOS_PER_DAY: i128 = 86_400_000_000_000i128;

/// A point in time that the `time` crate can represent, in UTC.
pub struct Timestamp {
    unix_nanos: i128,
    /// Whether this value is a reading of the system clock.
    from_clock: Ghost<bool>,
}

/// The instant cannot be written in RFC 3339 (its year is before 0000).
#[derive(Debug, Clone, Copy, PartialEq, Eq)]
pub struct TimestampFormatError;

/// The text is not an RFC 3339 date and time.
#[derive(Debug, Clone, Copy, PartialEq, Eq)]
pub struct TimestampParseError;

#[verifier::external_type_specification]
#[verifier::external_body]
pub struct ExTimeParseError(time::error::Parse);

#[verifier::external_type_specification]
#[verifier::external_body]
pub struct ExTimeFormatError(time::error::Format);

/// Whether `n` nanoseconds after the epoch lies in the range of the `time` crate.
pub open spec fn representable(n: int) -> bool {
    MIN_UNIX_NANOS <= n <= MAX_UNIX_NANOS
}

/// The proleptic Gregorian date (year, month 1-12, day 1-31) of the day
/// `days` days after 1970-01-01, as the `time` crate computes it.
pub uninterp spec fn civil_date_of_day(days: int) -> (int, int, int);

/// The UTC calendar date of the instant `unix_nanos`: the date of the day it
/// falls in (days are counted with floor division, so instants before the
/// epoch fall in earlier days).
pub open spec fn utc_calendar_date(unix_nanos: int) -> (int, int, int) {
    civil_date_of_day(unix_nanos / (NANOS_PER_DAY as int))
}

/// The RFC 3339 text that the `time` crate writes for the UTC instant
/// `unix_nanos`, or `None` where it refuses to write one.
pub uninterp spec fn rfc3339_utc_text(unix_nanos: int) -> Option<Seq<char>>;

/// The instant (nanoseconds since the epoch) that the `time` crate reads from
/// the RFC 3339 text `text`, or `None` where it rejects the text.
pub uninterp spec fn rfc3339_instant(text: Seq<char>) -> Option<int>;

/// Reads the system clock through `time::OffsetDateTime::now_utc` and takes
/// `unix_timestamp_nanos` of it. Claimed: the value lies in the range that an
/// `OffsetDateTime` can hold. Nothing else is claimed of it.
#[verifier::external_body]
fn clock_now_unix_nanos() -> (n: i128)
    ensures
        representable(n as int),
{
    time::OffsetDateTime::now_utc().unix_timestamp_nanos()
}

/// Builds the UTC `OffsetDateTime` of `unix_nanos`
/// (`OffsetDateTime::from_unix_timestamp_nanos`, which succeeds on this range)
/// and reads its `year`, `month` and `day`. Claimed: the triple is the date
/// named `civil_date_of_day` of the day the instant falls in (the crate
/// derives the date from the floor of the seconds divided by 86400); the month lies in 1..=12 (the `Month` enum), the
/// day in 1..=31 (documented) and the year in -9999..=9999 (`Date::MIN` and
/// `Date::MAX` without the `large-dates` feature).
#[verifier::external_body]
fn calendar_date_of(unix_nanos: i128) -> (ymd: (i32, u8, u8))
    requires
        representable(unix_nanos as int),
    ensures
        (ymd.0 as int, ymd.1 as int, ymd.2 as int) == civil_date_of_day(
            unix_nanos as int / (NANOS_PER_DAY as int),
        ),
        -9999 <= ymd.0 <= 9999,
        1 <= ymd.1 <= 12,
        1 <= ymd.2 <= 31,
{
    let t = time::OffsetDateTime::from_unix_timestamp_nanos(unix_nanos).unwrap();
    (t.year(), u8::from(t.month()), t.day())
}

/// Formats the UTC `OffsetDateTime` of `unix_nanos` with
/// `time::format_description::well_known::Rfc3339`. Claimed: the text is the
/// one named `rfc3339_utc_text`, the call fails exactly when the year is
/// outside 0..=9999 (the only check the formatter makes on a UTC value), and
/// the text reads back with the same crate's RFC 3339 parser as the same
/// instant (the formatter writes every non-zero nanosecond digit and `Z`).
#[verifier::external_body]
fn format_rfc3339_utc(unix_nanos: i128) -> (r: Result<String, time::error::Format>)
    requires
        representable(unix_nanos as int),
    ensures
        r is Ok <==> rfc3339_utc_text(unix_nanos as int) is Some,
        r matches Ok(s) ==> rfc3339_utc_text(unix_nanos as int) == Some(s@),
        r is Ok <==> 0 <= utc_calendar_date(unix_nanos as int).0,
        r matches Ok(s) ==> rfc3339_instant(s@) == Some(unix_nanos as int),
{
    let t = time::OffsetDateTime::from_unix_timestamp_nanos(unix_nanos).unwrap();
    t.format(&time::format_description::well_known::Rfc3339)
}

/// Parses `text` with `time::OffsetDateTime::parse` and the well-known
/// `Rfc3339` description, and takes `unix_timestamp_nanos` of the result.
/// Claimed: the instant is the one named `rfc3339_instant`.
#[verifier::external_body]
fn parse_rfc3339_unix_nanos(text: &str) -> (r: Result<i128, time::error::Parse>)
    ensures
        r is Ok <==> rfc3339_instant(text@) is Some,
        r matches Ok(n) ==> rfc3339_instant(text@) == Some(n as int),
{
    match time::OffsetDateTime::parse(text, &time::format_description::well_known::Rfc3339) {
        Ok(t) => Ok(t.unix_timestamp_nanos()),
        Err(e) => Err(e),
    }
}

impl View for Timestamp {
    type V = int;

    /// Nanoseconds since 1970-01-01T00:00:00Z.
    closed spec fn view(&self) -> int {
        self.unix_nanos as int
    }
}

impl Timestamp {
    #[verifier::type_invariant]
    spec fn in_range(self) -> bool {
        representable(self.unix_nanos as int)
    }

    /// Whether this instant was read from the system clock by
    /// `Timestamp::now`, rather than built or computed from a number.
    pub closed spec fn is_clock_reading(&self) -> bool {
        self.from_clock@
    }

    /// The current time: a reading of the system clock.
    pub fn now() -> (t: Timestamp)
        ensures
            representable(t@),
            t.is_clock_reading(),
    {
        Timestamp { unix_nanos: clock_now_unix_nanos(), from_clock: Ghost(true) }
    }

    /// The instant `unix_nanos` nanoseconds after the epoch, where the `time`
    /// crate can represent it.
    pub fn from_unix_nanos(unix_nanos: i128) -> (t: Option<Timestamp>)
        ensures
            t is Some <==> representable(unix_nanos as int),
            t matches Some(t) ==> t@ == unix_nanos,
            t matches Some(t) ==> !t.is_clock_reading(),
    {
        if MIN_UNIX_NANOS <= unix_nanos && unix_nanos <= MAX_UNIX_NANOS {
            Some(Timestamp { unix_nanos, from_clock: Ghost(false) })
        } else {
            None
        }
    }

    /// Nanoseconds since the epoch.
    pub fn unix_nanos(&self) -> (n: i128)
        ensures
            n == self@,
            representable(n as int),
    {
        proof {
            use_type_invariant(self);
        }
        self.unix_nanos
    }

    /// Every timestamp lies in the representable range.
    pub fn check_range(&self)
        ensures
            representable(self@),
    {
        proof {
            use_type_invariant(self);
        }
    }

    /// This instant plus `hours` hours, where that is still representable
    /// (adding a `time::Duration` of whole hours to a UTC `OffsetDateTime`).
    pub fn checked_add_hours(&self, hours: u32) -> (t: Option<Timestamp>)
        ensures
            t is Some <==> representable(self@ + hours * NANOS_PER_HOUR),
            t matches Some(t) ==> t@ == self@ + hours * NANOS_PER_HOUR,
            t matches Some(t) ==> !t.is_clock_reading(),
    {
        proof {
            use_type_invariant(self);
        }
        let step: i128 = hours as i128 * NANOS_PER_HOUR;
        if self.unix_nanos <= MAX_UNIX_NANOS - step {
            Some(Timestamp { unix_nanos: self.unix_nanos + step, from_clock: Ghost(false) })
        } else {
            None
        }
    }

    /// Whether `self` is strictly earlier than `other`.
    pub fn is_before(&self, other: &Timestamp) -> (b: bool)
        ensures
            b == (self@ < other@),
    {
        self.unix_nanos < other.unix_nanos
    }

    /// The UTC calendar date of this instant.
    pub fn calendar_date(&self) -> (ymd: (i32, u8, u8))
        ensures
            (ymd.0 as int, ymd.1 as int, ymd.2 as int) == utc_calendar_date(self@),
            -9999 <= ymd.0 <= 9999,
            1 <= ymd.1 <= 12,
            1 <= ymd.2 <= 31,
    {
        proof {
            use_type_invariant(self);
        }
        calendar_date_of(self.unix_nanos)
    }

    /// The RFC 3339 text of this instant in UTC.
    pub fn format_rfc3339(&self) -> (r: Result<String, TimestampFormatError>)
        ensures
            r is Ok <==> 0 <= utc_calendar_date(self@).0,
            r is Ok <==> rfc3339_utc_text(self@) is Some,
            r matches Ok(s) ==> rfc3339_utc_text(self@) == Some(s@),
            r matches Ok(s) ==> rfc3339_instant(s@) == Some(self@),
    {
        proof {
            use_type_invariant(self);
        }
        match format_rfc3339_utc(self.unix_nanos) {
            Ok(s) => Ok(s),
            Err(_) => Err(TimestampFormatError),
        }
    }
}

/// The instant that the RFC 3339 text `text` denotes, in nanoseconds since the
/// epoch (its offset taken into account).
pub fn parse_rfc3339(text: &str) -> (r: Result<i128, TimestampParseError>)
    ensures
        r is Ok <==> rfc3339_instant(text@) is Some,
        r matches Ok(n) ==> rfc3339_instant(text@) == Some(n as int),
{
    match parse_rfc3339_unix_nanos(text) {
        Ok(n) => Ok(n),
        Err(_) => Err(TimestampParseError),
    }
}

} // verus!
