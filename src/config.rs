use vstd::prelude::*;

verus! {

/// Number of configured time ranges, finest first.
pub const RANGE_COUNT: usize = 7;

/// Number of samples kept per range, one per chart column.
pub const HISTORY_LEN: usize = 320;

/// ppm per pixel row of the chart.
pub const PPM_SCALE: u32 = 6;

/// Lowest concentration the chart shows, in ppm.
pub const PPM_FLOOR: u32 = 400;

/// Highest concentration the chart shows, in ppm.
pub const PPM_CEILING: u32 = PPM_FLOOR + 140 * PPM_SCALE;

/// Calibration divisor that turns a range's span in minutes into ticks per column.
/// It was tuned against the main loop's latency rather than derived from the tick period.
pub const TICK_DIVISOR: u32 = 273;

/// Whether the sensor's automatic baseline calibration is switched on at startup.
pub const SELF_CALIBRATION: bool = true;

/// Span of range `index` in minutes.
pub open spec fn spec_range_minutes(index: int) -> u32 {
    if index == 0 {
        1
    } else if index == 1 {
        5
    } else if index == 2 {
        30
    } else if index == 3 {
        60
    } else if index == 4 {
        720
    } else if index == 5 {
        1440
    } else {
        4320
    }
}

/// Ticks that range `index` waits between two columns.
pub open spec fn spec_tick_threshold(index: int) -> u32 {
    (spec_range_minutes(index) as int * 60 * 1000 / TICK_DIVISOR as int) as u32
}

/// Span of range `index` in minutes.
pub fn range_minutes(index: usize) -> (m: u32)
    requires
        index < RANGE_COUNT,
    ensures
        m == spec_range_minutes(index as int),
        1 <= m <= 4320,
{
    if index == 0 {
        1
    } else if index == 1 {
        5
    } else if index == 2 {
        30
    } else if index == 3 {
        60
    } else if index == 4 {
        720
    } else if index == 5 {
        1440
    } else {
        4320
    }
}

/// Ticks that range `index` waits between two columns.
pub fn tick_threshold(index: usize) -> (t: u32)
    requires
        index < RANGE_COUNT,
    ensures
        t == spec_tick_threshold(index as int),
        t < 1_000_000,
{
    let m = range_minutes(index);
    m * 60 * 1000 / TICK_DIVISOR
}

/// Whole-unit span of a range as the range label shows it.
#[derive(Clone, Copy, Debug, PartialEq, Eq, Structural)]
pub struct RangeSpan {
    pub amount: u32,
    pub in_hours: bool,
}

/// Spans over an hour are labelled in whole hours, the others in minutes.
pub fn range_span(index: usize) -> (s: RangeSpan)
    requires
        index < RANGE_COUNT,
    ensures
        s.in_hours == (spec_range_minutes(index as int) > 60),
        s.amount == if s.in_hours {
            spec_range_minutes(index as int) / 60
        } else {
            spec_range_minutes(index as int)
        },
{
    let m = range_minutes(index);
    if m > 60 {
        RangeSpan { amount: m / 60, in_hours: true }
    } else {
        RangeSpan { amount: m, in_hours: false }
    }
}

} // verus!
