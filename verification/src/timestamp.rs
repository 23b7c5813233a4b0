//! Points in time, and the three readings of time that are left to `chrono`.

use chrono::Timelike;
use vstd::prelude::*;

verus! {

/// A date and time of day without an offset, counted from
/// 1970-01-01 00:00:00. During a leap second `nanoseconds` is a thousand
/// million or more.
#[derive(Debug, Clone, Copy, PartialEq, Eq, Structural)]
pub struct NaiveDateTime {
    /// Whole seconds since 1970-01-01 00:00:00, leap seconds not counted.
    pub seconds: i64,
    /// Nanoseconds since the last whole second.
    pub nanoseconds: u32,
}

/// A point in time together with the offset of the clock that showed it.
#[derive(Debug, Clone, Copy, PartialEq, Eq, Structural)]
pub struct DateTime {
    /// Whole seconds since 1970-01-01 00:00:00 UTC, leap seconds not counted.
    pub seconds: i64,
    /// Nanoseconds since the last whole second.
    pub nanoseconds: u32,
    /// Seconds that the local clock is ahead of UTC.
    pub offset: i32,
}

/// A time of day as a clock shows it. During a leap second `second` is 59 and
/// `nanosecond` a thousand million or more.
#[derive(Debug, Clone, Copy, PartialEq, Eq, Structural)]
pub struct ClockTime {
    pub hour: u32,
    pub minute: u32,
    pub second: u32,
    pub nanosecond: u32,
}

impl View for NaiveDateTime {
    type V = NaiveDateTime;

    open spec fn view(&self) -> NaiveDateTime {
        *self
    }
}

impl DeepView for NaiveDateTime {
    type V = NaiveDateTime;

    open spec fn deep_view(&self) -> NaiveDateTime {
        *self
    }
}

impl View for DateTime {
    type V = DateTime;

    open spec fn view(&self) -> DateTime {
        *self
    }
}

impl DeepView for DateTime {
    type V = DateTime;

    open spec fn deep_view(&self) -> DateTime {
        *self
    }
}

/// `chrono::ParseError`: why `chrono` read nothing from a text. Nothing is
/// taken from it but that it is there.
#[verifier::external_type_specification]
#[verifier::external_body]
pub struct ExParseError(chrono::ParseError);

/// The time of day that `chrono` reads from a text held to `%H:%M:%S%.f`,
/// where it reads one.
pub uninterp spec fn clock_text(text: Seq<char>) -> Option<ClockTime>;

/// The date and time that `chrono` reads from a text held to
/// `%Y-%m-%d %H:%M:%S`, where it reads one.
pub uninterp spec fn naive_datetime_text(text: Seq<char>) -> Option<NaiveDateTime>;

/// The point in time that `chrono` reads from a text held to RFC 3339, where
/// it reads one.
pub uninterp spec fn datetime_text(text: Seq<char>) -> Option<DateTime>;

/// Calls `chrono::NaiveTime::parse_from_str` with the format `%H:%M:%S%.f`
/// and hands out the four fields of the time it returns. Nothing is claimed of
/// the outcome but that it depends on the text alone.
#[verifier::external_body]
pub(crate) fn parse_clock(text: &str) -> (r: Result<ClockTime, chrono::ParseError>)
    ensures
        match r {
            Ok(t) => clock_text(text@) == Some(t),
            Err(_) => clock_text(text@) is None,
        },
{
    let t = chrono::NaiveTime::parse_from_str(text, "%H:%M:%S%.f")?;
    let (hour, minute, second, nanosecond) = (t.hour(), t.minute(), t.second(), t.nanosecond());
    Ok(ClockTime { hour, minute, second, nanosecond })
}

/// Calls `chrono::NaiveDateTime::parse_from_str` with the format
/// `%Y-%m-%d %H:%M:%S` and hands out the seconds and nanoseconds that the
/// result counts from 1970. Nothing is claimed of the outcome but that it
/// depends on the text alone.
#[verifier::external_body]
pub(crate) fn parse_naive_datetime(text: &str) -> (r: Result<NaiveDateTime, chrono::ParseError>)
    ensures
        match r {
            Ok(t) => naive_datetime_text(text@) == Some(t),
            Err(_) => naive_datetime_text(text@) is None,
        },
{
    let t = chrono::NaiveDateTime::parse_from_str(text, "%Y-%m-%d %H:%M:%S")?.and_utc();
    Ok(NaiveDateTime { seconds: t.timestamp(), nanoseconds: t.timestamp_subsec_nanos() })
}

/// Calls `chrono::DateTime::parse_from_rfc3339` and hands out the seconds and
/// nanoseconds that the result counts from 1970 in UTC, and its offset.
/// Nothing is claimed of the outcome but that it depends on the text alone.
#[verifier::external_body]
pub(crate) fn parse_datetime(text: &str) -> (r: Result<DateTime, chrono::ParseError>)
    ensures
        match r {
            Ok(t) => datetime_text(text@) == Some(t),
            Err(_) => datetime_text(text@) is None,
        },
{
    let t = chrono::DateTime::parse_from_rfc3339(text)?;
    Ok(DateTime {
        seconds: t.timestamp(),
        nanoseconds: t.timestamp_subsec_nanos(),
        offset: t.offset().local_minus_utc(),
    })
}

} // verus!
