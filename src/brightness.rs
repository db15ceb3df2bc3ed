use crate::config::{Brightness, Config};
use crate::suninfo::SunInfo;
use vstd::prelude::*;

verus! {

/// The brightness the policy chooses: the minimum before sunrise and after
/// sunset, the maximum in between.
pub open spec fn target(b: Brightness, info: SunInfo) -> u8 {
    if info.sunrise > info.now {
        b.min
    } else if info.sunset > info.now {
        b.max
    } else {
        b.min
    }
}

/// The one inconsistent placement of the instants: still before sunrise
/// while already past sunset.
pub open spec fn consistent(info: SunInfo) -> bool {
    !(info.sunrise > info.now && info.sunset <= info.now)
}

/// Target brightness for the moment described by `suninfo`.
pub fn calculate(config: &Config, suninfo: &SunInfo) -> (r: u8)
    requires
        consistent(*suninfo),
    ensures
        r == target(config.brightness, *suninfo),
{
    //     min         max          min
    // .......... | .......... | ..........
    //         sunrise       sunset
    let before_sunrise = suninfo.sunrise > suninfo.now;
    let before_sunset = suninfo.sunset > suninfo.now;
    if before_sunrise && before_sunset {
        config.brightness.min
    } else if !before_sunrise && before_sunset {
        config.brightness.max
    } else {
        config.brightness.min
    }
}

/// With sunrise before sunset, every moment is placed consistently, and the
/// policy gives the minimum before sunrise, the maximum from sunrise until
/// sunset, and the minimum from sunset on.
pub proof fn lemma_daylight_policy(b: Brightness, info: SunInfo)
    requires
        info.sunrise < info.sunset,
    ensures
        consistent(info),
        info.now < info.sunrise ==> target(b, info) == b.min,
        info.sunrise <= info.now < info.sunset ==> target(b, info) == b.max,
        info.now >= info.sunset ==> target(b, info) == b.min,
{
}

} // verus!
