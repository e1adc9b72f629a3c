//! Plain data shared by the monitors and the state reducer.

use vstd::prelude::*;

pub mod audio;
pub mod battery;
pub mod launcher;
pub mod net;

verus! {

/// How an indicator of the bar is to stand out.
#[derive(Clone, Copy, Debug, PartialEq, Eq, Structural)]
pub enum IndicatorState {
    Normal,
    Success,
    Warning,
    Danger,
}

/// Splits a span of `secs` seconds into whole hours and the whole minutes
/// left over; the seconds left over are dropped.
pub fn hours_and_minutes(secs: u64) -> (split: (u64, u64))
    ensures
        split.0 == secs / 3600,
        split.1 == (secs / 60) % 60,
        split.1 < 60,
        split.0 * 3600 + split.1 * 60 <= secs < split.0 * 3600 + split.1 * 60 + 60,
{
    (secs / 3600, (secs / 60) % 60)
}

} // verus!
