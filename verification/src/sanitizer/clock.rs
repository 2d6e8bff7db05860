//! When daily counters may reset.
use crate::wall_clock::{host_clock, parsed_clock, read_clock, representable};
use vstd::prelude::*;

verus! {

/// Minutes on either side of midnight within which a daily counter may reset.
pub const DAILY_RESET_WINDOW_MINS: u32 = 65;

/// Whether a minute of the day is within the reset window.
pub open spec fn near_midnight(minute_of_day: int) -> bool {
    minute_of_day <= DAILY_RESET_WINDOW_MINS || minute_of_day >= 1440 - DAILY_RESET_WINDOW_MINS
}

/// The minute of the day that the inverter's clock text names; `None` where
/// the text is empty, malformed or out of range.
pub fn inverter_minute_of_day(inverter_time: &str) -> (r: Option<u32>)
    ensures
        match parsed_clock(inverter_time@) {
            Some(clock) => r is Some && r->0 == clock.0 * 60 + clock.1 && r->0 < 1440,
            None => r is None,
        },
{
    match read_clock(inverter_time) {
        Some((hour, minute)) => Some(hour * 60 + minute),
        None => None,
    }
}

/// Whether a daily counter may reset at the minute given by the inverter's
/// clock, or else by the host's.
pub fn reset_window_open(inverter_minute: Option<u32>, host_minute: Option<u32>) -> (r: bool)
    ensures
        r == match (inverter_minute, host_minute) {
            (Some(m), _) => near_midnight(m as int),
            (None, Some(m)) => near_midnight(m as int),
            (None, None) => false,
        },
{
    match (inverter_minute, host_minute) {
        (Some(m), _) | (None, Some(m)) => {
            m <= DAILY_RESET_WINDOW_MINS || m >= 1440 - DAILY_RESET_WINDOW_MINS
        },
        (None, None) => false,
    }
}

/// Whether a daily counter may have reset at a reading taken at the given host
/// time. The inverter resets its counters at its own midnight, so its clock
/// decides wherever it can be read.
pub fn is_within_daily_reset_window(timestamp_secs: i64, inverter_time: &str) -> (r: bool)
    ensures
        parsed_clock(inverter_time@) matches Some(clock) ==> r == near_midnight(
            clock.0 * 60 + clock.1,
        ),
        parsed_clock(inverter_time@) is None && !representable(timestamp_secs) ==> !r,
{
    match inverter_minute_of_day(inverter_time) {
        Some(minute) => reset_window_open(Some(minute), None),
        None => {
            let host: Option<u32> = match host_clock(timestamp_secs) {
                Some((hour, minute)) => Some(hour * 60 + minute),
                None => None,
            };
            reset_window_open(None, host)
        },
    }
}

} // verus!
