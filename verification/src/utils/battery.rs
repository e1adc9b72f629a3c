//! What the battery monitor reports.

use crate::utils::IndicatorState;
use std::time::Duration;
use vstd::prelude::*;

verus! {

/// Whether the battery charges, and how long until it is full or empty.
#[derive(Clone, Copy, Debug, PartialEq, Eq)]
pub enum BatteryStatus {
    Charging(Duration),
    Discharging(Duration),
    Full,
}

/// The last known state of the battery. `capacity` is a percentage.
#[derive(Clone, Copy, Debug, PartialEq, Eq)]
pub struct BatteryData {
    pub capacity: i64,
    pub status: BatteryStatus,
}

/// Capacity below which a discharging battery is shown as in danger.
pub const LOW_CAPACITY: i64 = 20;

impl BatteryData {
    /// How the battery indicator stands out: as a success while the battery
    /// charges, as a danger while it discharges below `LOW_CAPACITY`, and not
    /// at all otherwise.
    pub open spec fn indicator_state(self) -> IndicatorState {
        match self.status {
            BatteryStatus::Charging(_) => IndicatorState::Success,
            BatteryStatus::Discharging(_) if self.capacity < LOW_CAPACITY => IndicatorState::Danger,
            _ => IndicatorState::Normal,
        }
    }

    /// Works out how the battery indicator stands out.
    pub fn get_indicator_state(&self) -> (state: IndicatorState)
        ensures
            state == self.indicator_state(),
    {
        match self.status {
            BatteryStatus::Charging(_) => IndicatorState::Success,
            BatteryStatus::Discharging(_) => if self.capacity < LOW_CAPACITY {
                IndicatorState::Danger
            } else {
                IndicatorState::Normal
            },
            BatteryStatus::Full => IndicatorState::Normal,
        }
    }
}

} // verus!
