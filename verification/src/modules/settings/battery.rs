//! What the battery indicators show beside the percentage.

use crate::utils::battery::{BatteryData, BatteryStatus};
use std::time::Duration;
use vstd::prelude::*;

verus! {

/// Capacity from which on no remaining time is shown.
pub const NEARLY_FULL: i64 = 95;

/// The remaining time that the settings menu shows beside the battery.
#[derive(Clone, Copy, Debug, PartialEq, Eq)]
pub enum TimeHint {
    FullIn(Duration),
    EmptyIn(Duration),
}

/// The hint for a battery state: the time until full while charging, the time
/// until empty while discharging, and none when the battery is full or its
/// capacity has reached `NEARLY_FULL`.
pub open spec fn time_hint_of(data: BatteryData) -> Option<TimeHint> {
    match data.status {
        BatteryStatus::Charging(remaining) if data.capacity < NEARLY_FULL => Some(
            TimeHint::FullIn(remaining),
        ),
        BatteryStatus::Discharging(remaining) if data.capacity < NEARLY_FULL => Some(
            TimeHint::EmptyIn(remaining),
        ),
        _ => None,
    }
}

/// Works out the remaining time to show for a battery state.
pub fn time_hint(data: BatteryData) -> (hint: Option<TimeHint>)
    ensures
        hint == time_hint_of(data),
{
    if data.capacity < NEARLY_FULL {
        match data.status {
            BatteryStatus::Charging(remaining) => Some(TimeHint::FullIn(remaining)),
            BatteryStatus::Discharging(remaining) => Some(TimeHint::EmptyIn(remaining)),
            BatteryStatus::Full => None,
        }
    } else {
        None
    }
}

} // verus!
