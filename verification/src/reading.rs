//! Unit-normalised readings derived from raw device values.

use vstd::prelude::*;

verus! {

/// Input line voltage in whole volts.
pub type VoltageReading = u32;

/// Estimated remaining battery runtime in whole minutes.
pub type RuntimeReading = u32;

/// Volts represented by a raw gauge value, which counts tenths of a volt.
pub open spec fn volts_of(gauge: u32) -> VoltageReading {
    gauge / 10
}

/// Minutes represented by a raw time-tick value, which counts hundredths of
/// a second: first whole seconds, then whole minutes.
pub open spec fn minutes_of(ticks: u32) -> RuntimeReading {
    (ticks / 100) / 60
}

/// Both conversions round down and lose less than one unit: a reading of
/// `v` volts stands for `10 v` up to `10 v + 9` tenths, a reading of `m`
/// minutes for `6000 m` up to `6000 m + 5999` hundredths of a second. Two
/// divisions in a row give what a single division by 6000 gives.
pub proof fn lemma_truncation(raw: u32)
    ensures
        10 * volts_of(raw) <= raw < 10 * volts_of(raw) + 10,
        6000 * minutes_of(raw) <= raw < 6000 * minutes_of(raw) + 6000,
        minutes_of(raw) == raw / 6000,
{
}

/// Converts a raw gauge value to volts, dropping the tenths.
pub fn volts_from_gauge(gauge: u32) -> (volts: VoltageReading)
    ensures
        volts == volts_of(gauge),
{
    gauge / 10
}

/// Converts a raw time-tick value to minutes by two truncating divisions.
pub fn minutes_from_ticks(ticks: u32) -> (minutes: RuntimeReading)
    ensures
        minutes == minutes_of(ticks),
{
    ticks / 100 / 60
}

} // verus!
