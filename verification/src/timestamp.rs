//! Timestamps with a UTC offset. Reading, writing and calendar arithmetic are
//! chrono's; this module holds what the library knows of a timestamp as plain
//! numbers, and says what it relies on chrono for.

use vstd::prelude::*;
use vstd::arithmetic::div_mod::lemma_mod_multiples_vanish;

verus! {

/// First second that a `Timestamp` can hold, counted from
/// 1970-01-01T00:00:00Z. chrono's own range, which ends in the years -262143
/// and 262142, reaches further on both sides.
pub const MIN_UNIX_SECONDS: i64 = -8_000_000_000_000;

/// Last second that a `Timestamp` can hold.
pub const MAX_UNIX_SECONDS: i64 = 8_000_000_000_000;

/// 0000-01-01T00:00:00Z less one day: no RFC 3339 text names an earlier second.
pub const FIRST_RFC3339_SECOND: i64 = -62_167_305_600;

/// 9999-12-31T23:59:59Z and one day: no RFC 3339 text names a later second.
pub const LAST_RFC3339_SECOND: i64 = 253_402_387_199;

pub const SECONDS_PER_HOUR: i64 = 3_600;

pub const NANOS_PER_SECOND: u32 = 1_000_000_000;

/// An offset is less than this many seconds, east or west.
pub const SECONDS_PER_DAY: i32 = 86_400;

/// An instant and the UTC offset it is written in.
///
/// `nanos` counts from the start of the second. Inside a leap second, which
/// is written as second 60, it runs from 1,000,000,000 up and `unix_seconds`
/// stays on second 59.
#[derive(Clone, Copy, Debug, PartialEq, Eq)]
pub struct Timestamp {
    unix_seconds: i64,
    nanos: u32,
    offset_seconds: i32,
}

/// The numbers of a `Timestamp` as the contracts see them.
pub struct TimestampView {
    pub unix_seconds: int,
    pub nanos: int,
    pub offset_seconds: int,
}

/// The values that a `Timestamp` can hold: a second within reach, a fraction
/// that leaves the second only inside a leap second, an offset of less than
/// a day.
pub open spec fn representable(t: TimestampView) -> bool {
    &&& MIN_UNIX_SECONDS <= t.unix_seconds <= MAX_UNIX_SECONDS
    &&& 0 <= t.nanos < 2 * NANOS_PER_SECOND
    &&& t.nanos >= NANOS_PER_SECOND ==> t.unix_seconds % 60 == 59
    &&& -SECONDS_PER_DAY < t.offset_seconds < SECONDS_PER_DAY
}

/// The instant one hour on, at the same offset. An hour that starts inside a
/// leap second ends outside one, so the fraction falls back below a second.
pub open spec fn hour_after(t: TimestampView) -> TimestampView {
    TimestampView {
        unix_seconds: t.unix_seconds + SECONDS_PER_HOUR,
        nanos: if t.nanos >= NANOS_PER_SECOND {
            t.nanos - NANOS_PER_SECOND
        } else {
            t.nanos
        },
        offset_seconds: t.offset_seconds,
    }
}

/// What chrono reads an RFC 3339 text as, or `None` where it rejects the text.
pub uninterp spec fn rfc3339_reading(text: Seq<char>) -> Option<TimestampView>;

/// The RFC 3339 text that chrono writes for a timestamp.
pub uninterp spec fn rfc3339_text(t: TimestampView) -> Seq<char>;

/// chrono's reason for rejecting a text. Nothing is read from it.
#[verifier::external_type_specification]
#[verifier::external_body]
pub struct ExParseError(chrono::ParseError);

impl View for Timestamp {
    type V = TimestampView;

    closed spec fn view(&self) -> TimestampView {
        TimestampView {
            unix_seconds: self.unix_seconds as int,
            nanos: self.nanos as int,
            offset_seconds: self.offset_seconds as int,
        }
    }
}

impl DeepView for Timestamp {
    type V = TimestampView;

    open spec fn deep_view(&self) -> TimestampView {
        self@
    }
}

/// Calls `chrono::DateTime::parse_from_rfc3339` and takes the result apart
/// with `timestamp`, `timestamp_subsec_nanos` and `local_minus_utc`.
///
/// Not proved, and taken from chrono:
/// - the outcome depends on the text alone, which is why it has a name;
/// - a text that chrono accepts has a year from 0000 to 9999 and an offset
///   of less than a day, so the instant lies between `FIRST_RFC3339_SECOND`
///   and `LAST_RFC3339_SECOND`;
/// - second 60 is read as second 59 with a fraction of a second or more, the
///   offset counts whole minutes, and so such a fraction stands only in
///   second 59 of a minute in UTC too.
#[verifier::external_body]
fn parse_with_chrono(text: &str) -> (parsed: Result<Timestamp, chrono::ParseError>)
    ensures
        match parsed {
            Ok(timestamp) => {
                &&& rfc3339_reading(text@) == Some(timestamp@)
                &&& representable(timestamp@)
                &&& FIRST_RFC3339_SECOND <= timestamp@.unix_seconds <= LAST_RFC3339_SECOND
            },
            Err(_) => rfc3339_reading(text@) is None,
        },
{
    let parsed = chrono::DateTime::parse_from_rfc3339(text)?;
    Ok(
        Timestamp {
            unix_seconds: parsed.timestamp(),
            nanos: parsed.timestamp_subsec_nanos(),
            offset_seconds: parsed.offset().local_minus_utc(),
        },
    )
}

/// Adds `chrono::Duration::hours(1)` with `+` to the timestamp, which it puts
/// together as a `chrono::DateTime<chrono::FixedOffset>` and takes apart again.
///
/// Not proved, and taken from chrono: the sum is 3,600 seconds on and keeps
/// the offset; and where the start lies inside a leap second, the sum lies in
/// an ordinary second, with the fraction less the one second of the leap.
/// What is required keeps the call from panicking: chrono can hold both the
/// start and the sum.
#[verifier::external_body]
fn add_hour_with_chrono(start: Timestamp) -> (end: Timestamp)
    requires
        representable(start@),
        representable(hour_after(start@)),
    ensures
        end@ == hour_after(start@),
{
    let utc = chrono::DateTime::from_timestamp(start.unix_seconds, start.nanos).unwrap();
    let zone = chrono::FixedOffset::east_opt(start.offset_seconds).unwrap();
    let end = utc.with_timezone(&zone) + chrono::Duration::hours(1);
    Timestamp {
        unix_seconds: end.timestamp(),
        nanos: end.timestamp_subsec_nanos(),
        offset_seconds: end.offset().local_minus_utc(),
    }
}

/// Calls `to_rfc3339` on the timestamp, which it puts together as a
/// `chrono::DateTime<chrono::FixedOffset>`.
///
/// Not proved, and taken from chrono: the text depends on the timestamp
/// alone, which is why it has a name. What is required keeps the call from
/// panicking: chrono can hold the timestamp.
#[verifier::external_body]
fn write_with_chrono(timestamp: Timestamp) -> (text: String)
    requires
        representable(timestamp@),
    ensures
        text@ == rfc3339_text(timestamp@),
{
    let utc = chrono::DateTime::from_timestamp(timestamp.unix_seconds, timestamp.nanos).unwrap();
    let zone = chrono::FixedOffset::east_opt(timestamp.offset_seconds).unwrap();
    utc.with_timezone(&zone).to_rfc3339()
}

/// Whether a second is second 59 of its minute.
fn is_last_second_of_minute(unix_seconds: i64) -> (last: bool)
    requires
        MIN_UNIX_SECONDS <= unix_seconds <= MAX_UNIX_SECONDS,
    ensures
        last == (unix_seconds % 60 == 59),
{
    // 133,333,333,334 minutes, which reach past `MAX_UNIX_SECONDS`, make the
    // dividend positive and leave the remainder as it is
    let shifted: i64 = unix_seconds + 8_000_000_000_040;
    proof {
        lemma_mod_multiples_vanish(133_333_333_334, unix_seconds as int, 60);
    }
    shifted % 60 == 59
}

impl Timestamp {
    #[verifier::type_invariant]
    spec fn well_formed(self) -> bool {
        representable(self@)
    }

    /// A timestamp from its parts, where they are representable.
    pub fn new(unix_seconds: i64, nanos: u32, offset_seconds: i32) -> (made: Option<Timestamp>)
        ensures
            match made {
                Some(timestamp) => {
                    &&& timestamp@ == (TimestampView {
                        unix_seconds: unix_seconds as int,
                        nanos: nanos as int,
                        offset_seconds: offset_seconds as int,
                    })
                    &&& representable(timestamp@)
                },
                None => !representable(
                    TimestampView {
                        unix_seconds: unix_seconds as int,
                        nanos: nanos as int,
                        offset_seconds: offset_seconds as int,
                    },
                ),
            },
    {
        if unix_seconds < MIN_UNIX_SECONDS || unix_seconds > MAX_UNIX_SECONDS {
            return None;
        }
        if offset_seconds <= -SECONDS_PER_DAY || offset_seconds >= SECONDS_PER_DAY {
            return None;
        }
        if nanos >= 2 * NANOS_PER_SECOND {
            return None;
        }
        if nanos >= NANOS_PER_SECOND && !is_last_second_of_minute(unix_seconds) {
            return None;
        }
        Some(Timestamp { unix_seconds, nanos, offset_seconds })
    }

    /// Whole seconds since 1970-01-01T00:00:00Z, leap seconds not counted.
    pub fn unix_seconds(&self) -> (seconds: i64)
        ensures
            seconds == self@.unix_seconds,
            MIN_UNIX_SECONDS <= seconds <= MAX_UNIX_SECONDS,
    {
        proof {
            use_type_invariant(self);
        }
        self.unix_seconds
    }

    /// Nanoseconds since the start of the second: a second or more only
    /// inside a leap second.
    pub fn subsec_nanos(&self) -> (nanos: u32)
        ensures
            nanos == self@.nanos,
            nanos < 2 * NANOS_PER_SECOND,
            nanos >= NANOS_PER_SECOND ==> self@.unix_seconds % 60 == 59,
    {
        proof {
            use_type_invariant(self);
        }
        self.nanos
    }

    /// Local time less UTC, in seconds.
    pub fn offset_seconds(&self) -> (offset: i32)
        ensures
            offset == self@.offset_seconds,
            -SECONDS_PER_DAY < offset < SECONDS_PER_DAY,
    {
        proof {
            use_type_invariant(self);
        }
        self.offset_seconds
    }

    /// Reads an RFC 3339 timestamp such as `2023-12-25T10:00:00+09:00`.
    pub fn parse_rfc3339(text: &str) -> (read: Option<Timestamp>)
        ensures
            read.deep_view() == rfc3339_reading(text@),
            read matches Some(timestamp) ==> {
                &&& representable(timestamp@)
                &&& FIRST_RFC3339_SECOND <= timestamp@.unix_seconds <= LAST_RFC3339_SECOND
            },
    {
        match parse_with_chrono(text) {
            Ok(timestamp) => Some(timestamp),
            Err(_) => None,
        }
    }

    /// The timestamp one hour on, at the same offset. There is none where
    /// the hour ends after the last second that a timestamp can hold.
    pub fn plus_one_hour(&self) -> (end: Option<Timestamp>)
        ensures
            end.deep_view() == if self@.unix_seconds + SECONDS_PER_HOUR <= MAX_UNIX_SECONDS {
                Some(hour_after(self@))
            } else {
                None
            },
            end matches Some(timestamp) ==> representable(timestamp@),
    {
        proof {
            use_type_invariant(self);
        }
        if self.unix_seconds > MAX_UNIX_SECONDS - SECONDS_PER_HOUR {
            return None;
        }
        Some(add_hour_with_chrono(*self))
    }

    /// Writes the timestamp as RFC 3339 text.
    pub fn to_rfc3339(&self) -> (text: String)
        ensures
            text@ == rfc3339_text(self@),
    {
        proof {
            use_type_invariant(self);
        }
        write_with_chrono(*self)
    }
}

} // verus!
