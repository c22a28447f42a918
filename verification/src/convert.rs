//! Fixed-point conversions between raw 16-bit sensor counts and physical
//! units.
//!
//! The sensor reports CO2 directly as an integer count in parts per million;
//! temperature and humidity are affine transforms of a raw count. To keep the
//! transforms exact they are computed here in integer milli-units
//! (millidegrees Celsius, thousandths of a percent), each truncated toward
//! zero: dividing by 1000 at the presentation edge recovers the datasheet
//! formulas raw × 175 / 65535 − 45 for degrees Celsius and raw × 100 / 65535
//! for percent relative humidity, up to that one milli-unit of truncation.
//!
//! Datasheet revisions disagree on whether these transforms divide by 65535
//! or by 65536 (and one raw count is only ≈ 2.7 millidegrees, so the two
//! differ by at most a few milli-units). This module follows the 65535
//! convention throughout; a deployment against a sensor revision documented
//! with 65536 must adjust the constants here and in the tests together.

use vstd::prelude::*;

verus! {

/// Temperature in millidegrees Celsius derived from a raw count:
/// raw × 175000 / 65535 − 45000.
pub open spec fn temperature_millicelsius_of(raw: u16) -> int {
    raw * 175000 / 65535 - 45000
}

/// Relative humidity in thousandths of a percent derived from a raw count:
/// raw × 100000 / 65535.
pub open spec fn humidity_millipercent_of(raw: u16) -> int {
    raw * 100000 / 65535
}

/// Temperature offset in millidegrees Celsius carried by a raw count:
/// raw × 175000 / 65535.
pub open spec fn offset_millicelsius_of(raw: u16) -> int {
    raw * 175000 / 65535
}

/// The raw count that encodes a temperature offset given in millidegrees
/// Celsius: mc × 65535 / 175000, truncated, saturating at the 16-bit
/// maximum for offsets beyond the sensor's 175 °C span.
pub open spec fn offset_raw_of_millicelsius(mc: int) -> int {
    if mc > 175000 {
        65535
    } else {
        mc * 65535 / 175000
    }
}

/// One measurement as delivered to the caller: the CO2 count unscaled, the
/// other two quantities converted to exact integer milli-units.
#[derive(Clone, Copy, Debug, PartialEq, Eq, Structural)]
pub struct Measurement {
    /// CO2 concentration in parts per million, the raw count unchanged.
    pub co2: u16,
    /// Temperature in millidegrees Celsius, −45000 to 130000.
    pub temperature_millicelsius: i32,
    /// Relative humidity in thousandths of a percent, 0 to 100000.
    pub humidity_millipercent: u32,
}

/// Convert a raw temperature count to millidegrees Celsius.
pub fn temperature_millicelsius(raw: u16) -> (r: i32)
    ensures
        r == temperature_millicelsius_of(raw),
        -45000 <= r <= 130000,
{
    let scaled: u64 = raw as u64 * 175000 / 65535;
    (scaled as i32) - 45000
}

/// Convert a raw humidity count to thousandths of a percent.
pub fn humidity_millipercent(raw: u16) -> (r: u32)
    ensures
        r == humidity_millipercent_of(raw),
        r <= 100000,
{
    (raw as u64 * 100000 / 65535) as u32
}

/// Convert a raw temperature-offset count to millidegrees Celsius.
pub fn offset_millicelsius_from_raw(raw: u16) -> (r: u32)
    ensures
        r == offset_millicelsius_of(raw),
        r <= 175000,
{
    (raw as u64 * 175000 / 65535) as u32
}

/// Convert a temperature offset in millidegrees Celsius to the raw count
/// written to the sensor, truncating and saturating at the 16-bit maximum.
pub fn offset_raw_from_millicelsius(mc: u32) -> (r: u16)
    ensures
        r == offset_raw_of_millicelsius(mc as int),
{
    if mc > 175000 {
        65535
    } else {
        (mc as u64 * 65535 / 175000) as u16
    }
}

/// Build a measurement from the three raw counts of a measurement response:
/// CO2 kept as its count, temperature and humidity converted to milli-units.
pub fn measurement_from_raw(raw_co2: u16, raw_temperature: u16, raw_humidity: u16) -> (m:
    Measurement)
    ensures
        m.co2 == raw_co2,
        m.temperature_millicelsius == temperature_millicelsius_of(raw_temperature),
        m.humidity_millipercent == humidity_millipercent_of(raw_humidity),
        -45000 <= m.temperature_millicelsius <= 130000,
        m.humidity_millipercent <= 100000,
{
    Measurement {
        co2: raw_co2,
        temperature_millicelsius: temperature_millicelsius(raw_temperature),
        humidity_millipercent: humidity_millipercent(raw_humidity),
    }
}

} // verus!
