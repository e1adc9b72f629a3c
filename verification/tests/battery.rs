use ashell::modules::settings::battery::{time_hint, TimeHint};
use ashell::utils::battery::{BatteryData, BatteryStatus};
use ashell::utils::{hours_and_minutes, IndicatorState};
use std::time::Duration;

#[test]
fn hint_while_charging_below_the_threshold() {
    let left = Duration::from_secs(1200);
    let data = BatteryData { capacity: 94, status: BatteryStatus::Charging(left) };
    assert_eq!(time_hint(data), Some(TimeHint::FullIn(left)));
    let data = BatteryData { capacity: 95, status: BatteryStatus::Charging(left) };
    assert_eq!(time_hint(data), None);
}

#[test]
fn hint_while_discharging_below_the_threshold() {
    let left = Duration::from_secs(30 * 60);
    let data = BatteryData { capacity: 42, status: BatteryStatus::Discharging(left) };
    assert_eq!(time_hint(data), Some(TimeHint::EmptyIn(left)));
    let data = BatteryData { capacity: 100, status: BatteryStatus::Discharging(left) };
    assert_eq!(time_hint(data), None);
    let data = BatteryData { capacity: -3, status: BatteryStatus::Discharging(left) };
    assert_eq!(time_hint(data), Some(TimeHint::EmptyIn(left)));
}

#[test]
fn no_hint_when_full() {
    assert_eq!(time_hint(BatteryData { capacity: 10, status: BatteryStatus::Full }), None);
    assert_eq!(time_hint(BatteryData { capacity: 100, status: BatteryStatus::Full }), None);
}

#[test]
fn indicator_stands_out_when_charging_or_low() {
    let left = Duration::from_secs(60);
    let state = |capacity: i64, status: BatteryStatus| {
        BatteryData { capacity, status }.get_indicator_state()
    };
    assert_eq!(state(5, BatteryStatus::Charging(left)), IndicatorState::Success);
    assert_eq!(state(100, BatteryStatus::Charging(left)), IndicatorState::Success);
    assert_eq!(state(19, BatteryStatus::Discharging(left)), IndicatorState::Danger);
    assert_eq!(state(20, BatteryStatus::Discharging(left)), IndicatorState::Normal);
    assert_eq!(state(5, BatteryStatus::Full), IndicatorState::Normal);
}

#[test]
fn spans_split_into_hours_and_minutes() {
    assert_eq!(hours_and_minutes(0), (0, 0));
    assert_eq!(hours_and_minutes(59), (0, 0));
    assert_eq!(hours_and_minutes(60), (0, 1));
    assert_eq!(hours_and_minutes(30 * 60), (0, 30));
    assert_eq!(hours_and_minutes(3599), (0, 59));
    assert_eq!(hours_and_minutes(3600), (1, 0));
    assert_eq!(hours_and_minutes(2 * 3600 + 5 * 60 + 17), (2, 5));
    assert_eq!(hours_and_minutes(u64::MAX), (5124095576030431, 0));
}
