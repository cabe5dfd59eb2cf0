//! Conversion of raw readings to physical units.
//!
//! The sensor's data sheet gives both conversions as a straight line through
//! the 65536 steps of a raw reading:
//!
//! * temperature in degrees Celsius: `raw * 175.72 / 65536 - 46.85`
//! * relative humidity in percent: `raw * 125 / 65536 - 6`
//!
//! Here both are computed in integers, in thousandths of the unit and rounded
//! down, so that the result is exact and the same on every machine. Neither is
//! clamped: a humidity below 0 % or above 100 % is passed on as it is.

use vstd::prelude::*;

verus! {

/// The temperature of a raw reading in degrees Celsius, times 65 536 000.
pub open spec fn scaled_temperature(raw: u16) -> int {
    raw * 175_720 - 46_850 * 65_536
}

/// The relative humidity of a raw reading in percent, times 65 536 000.
pub open spec fn scaled_humidity(raw: u16) -> int {
    raw * 125_000 - 6_000 * 65_536
}

/// Temperature of a raw reading in thousandths of a degree Celsius, rounded
/// down: the greatest integer that is not above
/// `1000 * (raw * 175.72 / 65536 - 46.85)`.
pub fn temperature_millidegrees(raw: u16) -> (value: i32)
    ensures
        value * 65_536 <= scaled_temperature(raw) < (value + 1) * 65_536,
        value == raw * 175_720 / 65_536 - 46_850,
        -46_850 <= value <= 128_867,
{
    let scaled: u64 = raw as u64 * 175_720;
    let steps: u64 = scaled / 65_536;
    steps as i32 - 46_850
}

/// Relative humidity of a raw reading in thousandths of a percent, rounded
/// down: the greatest integer that is not above
/// `1000 * (raw * 125 / 65536 - 6)`.
pub fn humidity_millipercent(raw: u16) -> (value: i32)
    ensures
        value * 65_536 <= scaled_humidity(raw) < (value + 1) * 65_536,
        value == raw * 125_000 / 65_536 - 6_000,
        -6_000 <= value <= 118_998,
{
    let scaled: u64 = raw as u64 * 125_000;
    let steps: u64 = scaled / 65_536;
    steps as i32 - 6_000
}

} // verus!
