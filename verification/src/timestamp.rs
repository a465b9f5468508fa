//! Conversion of the container's raw timestamps.
//!
//! The container stores timestamps as seconds since the device platform's
//! reference epoch, 1904-01-01T00:00:00Z, which lies a fixed, well-known
//! 2,082,844,800 seconds before the Unix epoch. [`decode_timestamp`] shifts
//! such a raw value into a Unix-based [`Timestamp`]; [`Timestamp::to_calendar`]
//! renders it as a UTC calendar date and time. Raw values too large for the
//! calendar range are reported as a conversion failure, never clamped.

use vstd::prelude::*;

verus! {

/// Seconds from the platform reference epoch (1904-01-01T00:00:00Z) to the
/// Unix epoch (1970-01-01T00:00:00Z).
pub const MAC_TO_UNIX_EPOCH_OFFSET: u64 = 2_082_844_800;

/// The smallest second count the calendar range covers
/// (midnight of January 1 of year -262143, proleptic Gregorian).
pub const MIN_CALENDAR_SECONDS: i64 = -8_334_601_228_800;

/// The largest second count the calendar range covers
/// (the last second of December 31 of year 262142).
pub const MAX_CALENDAR_SECONDS: i64 = 8_210_266_876_799;

/// A timezone-aware instant, counted in non-leap seconds from the Unix epoch
/// (UTC), restricted to the representable calendar range.
#[derive(Clone, Copy, Debug, PartialEq, Eq, Structural)]
pub struct Timestamp {
    /// Seconds since 1970-01-01T00:00:00Z; negative values lie before it.
    pub unix_seconds: i64,
}

/// A calendar date and time of day in UTC, proleptic Gregorian.
#[derive(Clone, Copy, Debug, PartialEq, Eq, Structural)]
pub struct CalendarDate {
    pub year: i32,
    pub month: u32,
    pub day: u32,
    pub hour: u32,
    pub minute: u32,
    pub second: u32,
}

/// Whether a second count lies inside the representable calendar range.
pub open spec fn in_calendar_range(secs: int) -> bool {
    MIN_CALENDAR_SECONDS <= secs <= MAX_CALENDAR_SECONDS
}

/// Whether `y` is a leap year of the proleptic Gregorian calendar.
pub open spec fn is_leap_year(y: int) -> bool {
    y % 4 == 0 && (y % 100 != 0 || y % 400 == 0)
}

/// The number of days of month `m` of year `y`.
pub open spec fn days_in_month(y: int, m: int) -> int {
    if m == 2 {
        if is_leap_year(y) {
            29
        } else {
            28
        }
    } else if m == 4 || m == 6 || m == 9 || m == 11 {
        30
    } else {
        31
    }
}

/// Whether the fields of `c` form a real calendar date and time of day
/// within the representable range.
pub open spec fn valid_calendar(c: CalendarDate) -> bool {
    &&& -262_143 <= c.year <= 262_142
    &&& 1 <= c.month <= 12
    &&& 1 <= c.day <= days_in_month(c.year as int, c.month as int)
    &&& c.hour <= 23
    &&& c.minute <= 59
    &&& c.second <= 59
}

/// The number of days from the Unix epoch to the day `y`-`m`-`d` of the
/// proleptic Gregorian calendar (negative for days before 1970-01-01).
pub open spec fn days_from_civil(y: int, m: int, d: int) -> int {
    let yy = if m <= 2 {
        y - 1
    } else {
        y
    };
    let era = yy / 400;
    let yoe = yy - era * 400;
    let mp = if m > 2 {
        m - 3
    } else {
        m + 9
    };
    let doy = (153 * mp + 2) / 5 + d - 1;
    let doe = yoe * 365 + yoe / 4 - yoe / 100 + doy;
    era * 146_097 + doe - 719_468
}

/// The Unix second count of the calendar date and time `c`.
pub open spec fn calendar_seconds(c: CalendarDate) -> int {
    days_from_civil(c.year as int, c.month as int, c.day as int) * 86_400 + c.hour * 3_600
        + c.minute * 60 + c.second
}

/// The Unix-based timestamp a raw platform epoch value decodes to: the value
/// shifted by the platform epoch offset, or nothing when the shifted value
/// overflows the calendar range. (No raw `u64` value can underflow it.)
pub open spec fn spec_decode_timestamp(epoch: u64) -> Option<Timestamp> {
    if epoch as int - MAC_TO_UNIX_EPOCH_OFFSET <= MAX_CALENDAR_SECONDS {
        Some(Timestamp { unix_seconds: (epoch - MAC_TO_UNIX_EPOCH_OFFSET) as i64 })
    } else {
        None
    }
}

/// Converts a raw container timestamp (seconds since the platform reference
/// epoch) into a Unix-based UTC timestamp.
///
/// The conversion is deterministic and total: raw value 0 maps to the
/// platform reference instant itself (the canonical "unset" sentinel), and a
/// raw value beyond the calendar range yields `None`, reported to the caller
/// as a field-level decode failure rather than a clamped date.
pub fn decode_timestamp(epoch: u64) -> (r: Option<Timestamp>)
    ensures
        r == spec_decode_timestamp(epoch),
        r is Some <==> in_calendar_range(epoch as int - MAC_TO_UNIX_EPOCH_OFFSET),
        epoch == 0 ==> (r matches Some(t) && t.unix_seconds == -2_082_844_800),
{
    if epoch <= (MAX_CALENDAR_SECONDS as u64) + MAC_TO_UNIX_EPOCH_OFFSET {
        if epoch >= MAC_TO_UNIX_EPOCH_OFFSET {
            Some(Timestamp { unix_seconds: (epoch - MAC_TO_UNIX_EPOCH_OFFSET) as i64 })
        } else {
            Some(Timestamp { unix_seconds: -((MAC_TO_UNIX_EPOCH_OFFSET - epoch) as i64) })
        }
    } else {
        None
    }
}

/// Relies on `chrono::DateTime::<Utc>::from_timestamp` together with the
/// `chrono::Datelike` and `chrono::Timelike` field accessors: the conversion
/// succeeds exactly for second counts within chrono's date range (year
/// -262143 through year 262142), and the returned proleptic Gregorian UTC
/// calendar fields denote exactly the given second count, without leap
/// seconds.
#[verifier::external_body]
fn utc_calendar_of(secs: i64) -> (r: Option<CalendarDate>)
    ensures
        r is Some <==> in_calendar_range(secs as int),
        r matches Some(c) ==> valid_calendar(c) && calendar_seconds(c) == secs as int,
{
    match chrono::DateTime::<chrono::Utc>::from_timestamp(secs, 0) {
        Some(dt) => Some(CalendarDate {
            year: chrono::Datelike::year(&dt),
            month: chrono::Datelike::month(&dt),
            day: chrono::Datelike::day(&dt),
            hour: chrono::Timelike::hour(&dt),
            minute: chrono::Timelike::minute(&dt),
            second: chrono::Timelike::second(&dt),
        }),
        None => None,
    }
}

impl Timestamp {
    /// Renders this instant as a UTC calendar date and time.
    ///
    /// Succeeds exactly on the representable calendar range; the returned
    /// fields are the unique valid calendar representation of this instant.
    pub fn to_calendar(&self) -> (r: Option<CalendarDate>)
        ensures
            r is Some <==> in_calendar_range(self.unix_seconds as int),
            r matches Some(c) ==> valid_calendar(c) && calendar_seconds(c)
                == self.unix_seconds as int,
    {
        utc_calendar_of(self.unix_seconds)
    }
}

} // verus!
