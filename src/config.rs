use vstd::prelude::*;

verus! {

/// Where the clock is reached and how its dates are shown.
#[derive(Debug, Clone)]
pub struct Clock {
    /// Offset of local time from UTC, in whole hours.
    pub timezone: i32,
    /// Address of the device, a `ws://` or `wss://` URL.
    pub server: String,
    /// Display format for dates.
    pub date_fmt: String,
}

/// Brightness bounds, the transition step and the addressed channel.
#[derive(Debug, Clone, Copy, PartialEq, Eq, Structural)]
pub struct Brightness {
    pub min: u8,
    pub max: u8,
    pub step: u8,
    pub num: u8,
}

/// The settings read at startup; the geographic coordinate is held by the caller,
/// which hands the sun-position routine its result.
#[derive(Debug, Clone)]
pub struct Config {
    pub clock: Clock,
    pub brightness: Brightness,
}

/// The date format used when none is configured.
pub fn date_fmt_default() -> (r: String)
    ensures
        r@ == "%Y-%m-%d %H:%M"@,
{
    "%Y-%m-%d %H:%M".to_owned()
}

} // verus!
