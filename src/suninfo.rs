use crate::error::{AppError, Error};
use vstd::prelude::*;

verus! {

/// Seconds in a day.
pub const DAY: i64 = 86400;

/// Seconds in an hour.
pub const HOUR: i64 = 3600;

/// Today's sun times and the current moment. Instants are UTC epoch seconds;
/// `offset` is the local time zone's distance east of UTC, in seconds.
#[derive(Debug, Clone, Copy, PartialEq, Eq, Structural)]
pub struct SunInfo {
    pub now: i64,
    pub sunrise: i64,
    pub sunset: i64,
    pub offset: i32,
}

/// Whether `secs` since the epoch is an instant the calendar can represent.
pub uninterp spec fn timestamp_in_range(secs: i64) -> bool;

/// Relies on chrono's `FixedOffset::east_opt` and `FixedOffset::local_minus_utc`:
/// an offset strictly within one day is accepted and kept as given.
#[verifier::external_body]
fn east_offset(secs: i32) -> (r: Option<i32>)
    ensures
        r == (if -86400 < secs && secs < 86400 { Some(secs) } else { None::<i32> }),
{
    chrono::FixedOffset::east_opt(secs).map(|tz| tz.local_minus_utc())
}

/// Relies on chrono's `DateTime::from_timestamp`: whether a whole number of
/// seconds since the epoch converts to a date and time.
#[verifier::external_body]
fn timestamp_representable(secs: i64) -> (r: bool)
    ensures
        r == timestamp_in_range(secs),
{
    chrono::DateTime::from_timestamp(secs, 0).is_some()
}

/// The offset in seconds for a zone `hours` east of UTC, when a fixed zone can have it.
pub open spec fn offset_of(hours: i32) -> Option<int> {
    if -24 < hours < 24 {
        Some(hours * HOUR)
    } else {
        None
    }
}

/// Builds the fixed UTC offset, in seconds, for a zone `hours` east of UTC.
pub fn timezone_offset(hours: i32) -> (r: Result<i32, Error>)
    ensures
        match offset_of(hours) {
            Some(o) => r == Ok::<i32, Error>(o as i32),
            None => r == Err::<i32, Error>(Error::App(AppError::TimezoneConstruct)),
        },
{
    let secs: i64 = hours as i64 * HOUR;
    if secs <= -DAY || secs >= DAY {
        return Err(Error::App(AppError::TimezoneConstruct));
    }
    match east_offset(secs as i32) {
        Some(o) => Ok(o),
        None => Err(Error::App(AppError::TimezoneConstruct)),
    }
}

/// Local noon, as UTC epoch seconds, of the local day that holds `now`, in a
/// zone `offset` seconds east of UTC.
pub open spec fn midday_of(offset: int, now: int) -> int {
    let local = now + offset;
    local - local % (DAY as int) + 43200 - offset
}

/// Whether an integer fits in `i64` and names a representable instant.
pub open spec fn representable(t: int) -> bool {
    i64::MIN <= t <= i64::MAX && timestamp_in_range(t as i64)
}

/// Remainder of `x` by a day, rounding toward negative infinity.
fn day_remainder(x: i128) -> (m: i128)
    ensures
        m == (x as int) % (DAY as int),
        0 <= m < DAY,
{
    if x >= 0 {
        (x as u128 % 86400) as i128
    } else {
        let y: u128 = (-(x + 1)) as u128;
        let r: u128 = y % 86400;
        proof {
            let q = y as int / 86400;
            vstd::arithmetic::div_mod::lemma_fundamental_div_mod(y as int, 86400);
            assert(x == 86400 * (-q - 1) + (86399 - r));
            vstd::arithmetic::div_mod::lemma_fundamental_div_mod_converse(
                x as int,
                86400,
                -q - 1,
                86399 - r,
            );
        }
        (86399 - r) as i128
    }
}

/// UTC epoch seconds of local midday on the local day that holds `now`, in a
/// zone `timezone` hours east of UTC.
pub fn midday(timezone: i32, now: i64) -> (r: Result<i64, Error>)
    ensures
        match offset_of(timezone) {
            None => r == Err::<i64, Error>(Error::App(AppError::TimezoneConstruct)),
            Some(o) => if representable(midday_of(o, now as int)) {
                r == Ok::<i64, Error>(midday_of(o, now as int) as i64)
            } else {
                r == Err::<i64, Error>(Error::App(AppError::MiddayConstruct))
            },
        },
{
    let offset = match timezone_offset(timezone) {
        Ok(o) => o,
        Err(e) => return Err(e),
    };
    let local: i128 = now as i128 + offset as i128;
    let t: i128 = local - day_remainder(local) + 43200 - offset as i128;
    if t < i64::MIN as i128 || t > i64::MAX as i128 {
        return Err(Error::App(AppError::MiddayConstruct));
    }
    if !timestamp_representable(t as i64) {
        return Err(Error::App(AppError::MiddayConstruct));
    }
    Ok(t as i64)
}

impl SunInfo {
    /// Gathers the current moment and the sun times that the sun-position
    /// routine gave, in a zone `timezone` hours east of UTC.
    pub fn from_sun_times(timezone: i32, now: i64, rise: i64, set: i64) -> (r: Result<
        SunInfo,
        Error,
    >)
        ensures
            match offset_of(timezone) {
                None => r == Err::<SunInfo, Error>(Error::App(AppError::TimezoneConstruct)),
                Some(o) => if timestamp_in_range(rise) && timestamp_in_range(set) {
                    r == Ok::<SunInfo, Error>(
                        SunInfo { now, sunrise: rise, sunset: set, offset: o as i32 },
                    )
                } else {
                    r == Err::<SunInfo, Error>(Error::App(AppError::TimestampParse))
                },
            },
    {
        let offset = match timezone_offset(timezone) {
            Ok(o) => o,
            Err(e) => return Err(e),
        };
        if !timestamp_representable(rise) || !timestamp_representable(set) {
            return Err(Error::App(AppError::TimestampParse));
        }
        Ok(SunInfo { now, sunrise: rise, sunset: set, offset })
    }
}

} // verus!
