use ashell::app::OpenMenu;
use ashell::modules::settings::{
    mute_command, volume_command, AudioMessage, BatteryMessage, Effect, Message, NetMessage,
    Settings, SubMenu,
};
use ashell::utils::audio::{AudioCommand, Device, DeviceType, Port, Role, Volume, VOLUME_NORM};
use ashell::utils::battery::{BatteryData, BatteryStatus};
use ashell::utils::launcher::PowerAction;
use ashell::utils::net::Wifi;
use std::time::Duration;
use tokio::sync::mpsc::error::TryRecvError;

fn port(name: &str, active: bool) -> Port {
    Port {
        name: name.to_string(),
        description: String::new(),
        device_type: DeviceType::Speakers,
        active,
    }
}

fn device(name: &str, level: u32, limit: u32, is_mute: bool, active: bool) -> Device {
    Device {
        name: name.to_string(),
        description: String::new(),
        ports: vec![port("out", active)],
        volume: Volume::new(level, limit),
        is_mute,
    }
}

fn apply(settings: &mut Settings, message: Message) -> Effect {
    let mut menu = None;
    settings.update(message, &mut menu)
}

fn defaults(sink: &str, source: &str) -> Message {
    Message::Audio(AudioMessage::DefaultSinkSourceChanged(sink.to_string(), source.to_string()))
}

fn sinks(list: Vec<Device>) -> Message {
    Message::Audio(AudioMessage::SinkChanges(list))
}

fn sources(list: Vec<Device>) -> Message {
    Message::Audio(AudioMessage::SourceChanges(list))
}

#[test]
fn starts_empty() {
    let mut settings = Settings::new();
    assert_eq!(settings.battery_data(), None);
    assert_eq!(settings.sub_menu(), None);
    assert_eq!(*settings.wifi(), None);
    assert!(!settings.vpn_active());
    assert_eq!(settings.default_sink(), "");
    assert_eq!(settings.default_source(), "");
    assert!(settings.sinks().is_empty());
    assert!(settings.sources().is_empty());
    assert_eq!(settings.cur_sink_volume(), 0);
    assert_eq!(settings.cur_source_volume(), 0);
    let mut receiver = settings.take_command_receiver().unwrap();
    assert_eq!(receiver.try_recv(), Err(TryRecvError::Empty));
}

#[test]
fn battery_percentage_then_status() {
    let mut settings = Settings::new();
    let half_hour = Duration::from_secs(30 * 60);
    apply(&mut settings, Message::Battery(BatteryMessage::PercentageChanged(42)));
    apply(
        &mut settings,
        Message::Battery(BatteryMessage::StatusChanged(BatteryStatus::Discharging(half_hour))),
    );
    assert_eq!(
        settings.battery_data(),
        Some(BatteryData { capacity: 42, status: BatteryStatus::Discharging(half_hour) })
    );
    assert_eq!(settings.battery_data, settings.battery_data());
}

#[test]
fn first_battery_report_fills_in_the_other_field() {
    let mut settings = Settings::new();
    apply(&mut settings, Message::Battery(BatteryMessage::PercentageChanged(17)));
    assert_eq!(
        settings.battery_data(),
        Some(BatteryData { capacity: 17, status: BatteryStatus::Full })
    );

    let mut settings = Settings::new();
    let hour = Duration::from_secs(3600);
    apply(
        &mut settings,
        Message::Battery(BatteryMessage::StatusChanged(BatteryStatus::Charging(hour))),
    );
    assert_eq!(
        settings.battery_data(),
        Some(BatteryData { capacity: 100, status: BatteryStatus::Charging(hour) })
    );
    apply(&mut settings, Message::Battery(BatteryMessage::PercentageChanged(99)));
    assert_eq!(
        settings.battery_data(),
        Some(BatteryData { capacity: 99, status: BatteryStatus::Charging(hour) })
    );
}

#[test]
fn network_fields_change_one_by_one() {
    let mut settings = Settings::new();
    let wifi = Wifi { ssid: "home".to_string() };
    apply(&mut settings, Message::Net(NetMessage::Wifi(Some(wifi.clone()))));
    assert_eq!(*settings.wifi(), Some(wifi.clone()));
    assert!(!settings.vpn_active());
    apply(&mut settings, Message::Net(NetMessage::VpnActive(true)));
    assert_eq!(*settings.wifi(), Some(wifi));
    assert!(settings.vpn_active());
    apply(&mut settings, Message::Net(NetMessage::Wifi(None)));
    assert_eq!(*settings.wifi(), None);
    assert!(settings.vpn_active());
}

#[test]
fn default_then_sinks_gives_fifty() {
    let mut settings = Settings::new();
    apply(&mut settings, defaults("alsa_output.1", ""));
    assert_eq!(settings.cur_sink_volume(), 0);
    apply(
        &mut settings,
        sinks(vec![device("alsa_output.1", VOLUME_NORM / 2, VOLUME_NORM, false, true)]),
    );
    assert_eq!(settings.cur_sink_volume(), 50);
    assert_eq!(settings.default_sink(), "alsa_output.1");
    assert_eq!(settings.default_source(), "");
    assert_eq!(settings.sinks().len(), 1);
}

#[test]
fn sinks_then_default_gives_the_same() {
    let mut settings = Settings::new();
    apply(
        &mut settings,
        sinks(vec![device("alsa_output.1", VOLUME_NORM / 2, VOLUME_NORM, false, true)]),
    );
    assert_eq!(settings.cur_sink_volume(), 0);
    apply(&mut settings, defaults("alsa_output.1", ""));
    assert_eq!(settings.cur_sink_volume(), 50);
}

#[test]
fn percentage_follows_every_report() {
    let mut settings = Settings::new();
    let list = vec![
        device("a", VOLUME_NORM / 4, VOLUME_NORM, false, true),
        device("b", VOLUME_NORM, VOLUME_NORM, true, true),
        device("c", VOLUME_NORM, VOLUME_NORM, false, false),
    ];
    apply(&mut settings, sinks(list.clone()));
    apply(&mut settings, sources(list));
    apply(&mut settings, defaults("a", "c"));
    assert_eq!(settings.cur_sink_volume(), 25);
    assert_eq!(settings.cur_source_volume(), 0);
    apply(&mut settings, defaults("b", "a"));
    assert_eq!(settings.cur_sink_volume(), 0);
    assert_eq!(settings.cur_source_volume(), 25);
    apply(&mut settings, defaults("missing", "b"));
    assert_eq!(settings.cur_sink_volume(), 0);
    assert_eq!(settings.cur_source_volume(), 0);
    apply(&mut settings, sinks(vec![device("missing", VOLUME_NORM, VOLUME_NORM, false, true)]));
    assert_eq!(settings.cur_sink_volume(), 100);
    assert_eq!(settings.cur_source_volume(), 0);
}

#[test]
fn other_roles_do_not_disturb_the_sink_percentage() {
    let first = device("a", VOLUME_NORM / 2, VOLUME_NORM, false, true);
    let events = |order: &[usize]| -> i32 {
        let mut settings = Settings::new();
        for step in order {
            let message = match step {
                0 => defaults("a", "x"),
                1 => sinks(vec![first.clone()]),
                2 => sources(vec![device("x", 7, VOLUME_NORM, false, true)]),
                3 => Message::Battery(BatteryMessage::PercentageChanged(3)),
                _ => Message::Net(NetMessage::VpnActive(true)),
            };
            apply(&mut settings, message);
        }
        settings.cur_sink_volume()
    };
    assert_eq!(events(&[0, 1, 2, 3, 4]), 50);
    assert_eq!(events(&[4, 3, 2, 1, 0]), 50);
    assert_eq!(events(&[2, 0, 3, 1, 4]), 50);
    assert_eq!(events(&[1, 4, 0, 2, 3]), 50);
}

#[test]
fn muted_default_sink_shows_zero() {
    let mut settings = Settings::new();
    apply(&mut settings, defaults("a", ""));
    apply(&mut settings, sinks(vec![device("a", VOLUME_NORM, VOLUME_NORM, true, true)]));
    assert_eq!(settings.cur_sink_volume(), 0);
    apply(&mut settings, sinks(vec![device("a", VOLUME_NORM, VOLUME_NORM, false, true)]));
    assert_eq!(settings.cur_sink_volume(), 100);
}

#[test]
fn volume_intent_shows_at_once_and_submits() {
    let mut settings = Settings::new();
    let mut receiver = settings.take_command_receiver().unwrap();
    apply(&mut settings, defaults("a", ""));
    apply(&mut settings, sinks(vec![device("a", 0, VOLUME_NORM, false, true)]));
    assert_eq!(apply(&mut settings, Message::SinkVolumeChanged(80)), Effect::Nothing);
    assert_eq!(settings.cur_sink_volume(), 80);
    assert_eq!(
        receiver.try_recv(),
        Ok(AudioCommand::SinkVolume("a".to_string(), Volume::new(52428, VOLUME_NORM)))
    );
    assert_eq!(receiver.try_recv(), Err(TryRecvError::Empty));
    // The device list waits for the audio monitor to confirm.
    assert_eq!(settings.sinks()[0].volume, Volume::new(0, VOLUME_NORM));
}

#[test]
fn volume_out_of_range_shows_but_submits_nothing() {
    let mut settings = Settings::new();
    let mut receiver = settings.take_command_receiver().unwrap();
    apply(&mut settings, defaults("a", ""));
    apply(&mut settings, sinks(vec![device("a", 0, VOLUME_NORM / 2, false, true)]));
    apply(&mut settings, Message::SinkVolumeChanged(80));
    assert_eq!(settings.cur_sink_volume(), 80);
    assert_eq!(receiver.try_recv(), Err(TryRecvError::Empty));
    // The next report of the monitor overwrites what was shown.
    apply(&mut settings, sinks(vec![device("a", VOLUME_NORM / 4, VOLUME_NORM / 2, false, true)]));
    assert_eq!(settings.cur_sink_volume(), 25);
}

#[test]
fn volume_intent_without_default_device_shows_only() {
    let mut settings = Settings::new();
    let mut receiver = settings.take_command_receiver().unwrap();
    apply(&mut settings, Message::SourceVolumeChanged(33));
    assert_eq!(settings.cur_source_volume(), 33);
    assert_eq!(settings.cur_sink_volume(), 0);
    assert_eq!(receiver.try_recv(), Err(TryRecvError::Empty));
    apply(&mut settings, Message::SinkVolumeChanged(-4));
    assert_eq!(settings.cur_sink_volume(), -4);
    assert_eq!(receiver.try_recv(), Err(TryRecvError::Empty));
}

#[test]
fn commands_arrive_in_the_order_of_the_intents() {
    let mut settings = Settings::new();
    let mut receiver = settings.take_command_receiver().unwrap();
    apply(&mut settings, defaults("x", ""));
    apply(&mut settings, sinks(vec![device("x", VOLUME_NORM, VOLUME_NORM, false, true)]));
    apply(&mut settings, Message::SinkVolumeChanged(30));
    apply(&mut settings, Message::SinkToggleMute);
    assert_eq!(
        receiver.try_recv(),
        Ok(AudioCommand::SinkVolume("x".to_string(), Volume::new(19660, VOLUME_NORM)))
    );
    assert_eq!(receiver.try_recv(), Ok(AudioCommand::SinkMute("x".to_string(), true)));
    assert_eq!(receiver.try_recv(), Err(TryRecvError::Empty));
}

#[test]
fn mute_toggle_negates_the_known_flag() {
    let mut settings = Settings::new();
    let mut receiver = settings.take_command_receiver().unwrap();
    apply(&mut settings, defaults("a", "m"));
    apply(&mut settings, sinks(vec![device("a", 5, VOLUME_NORM, true, false)]));
    apply(&mut settings, sources(vec![device("m", 5, VOLUME_NORM, false, true)]));
    apply(&mut settings, Message::SinkToggleMute);
    apply(&mut settings, Message::SourceToggleMute);
    // Until the monitor confirms, a second toggle asks for the same.
    apply(&mut settings, Message::SourceToggleMute);
    assert_eq!(receiver.try_recv(), Ok(AudioCommand::SinkMute("a".to_string(), false)));
    assert_eq!(receiver.try_recv(), Ok(AudioCommand::SourceMute("m".to_string(), true)));
    assert_eq!(receiver.try_recv(), Ok(AudioCommand::SourceMute("m".to_string(), true)));
    assert_eq!(receiver.try_recv(), Err(TryRecvError::Empty));
    assert!(settings.sinks()[0].is_mute);
}

#[test]
fn mute_toggle_without_the_device_does_nothing() {
    let mut settings = Settings::new();
    let mut receiver = settings.take_command_receiver().unwrap();
    apply(&mut settings, defaults("gone", "gone"));
    apply(&mut settings, sinks(vec![device("a", 5, VOLUME_NORM, true, true)]));
    apply(&mut settings, Message::SinkToggleMute);
    apply(&mut settings, Message::SourceToggleMute);
    assert_eq!(receiver.try_recv(), Err(TryRecvError::Empty));
}

#[test]
fn default_device_request_waits_for_confirmation() {
    let mut settings = Settings::new();
    let mut receiver = settings.take_command_receiver().unwrap();
    apply(&mut settings, defaults("a", "m"));
    apply(&mut settings, Message::DefaultSinkChanged("b".to_string(), "hdmi".to_string()));
    apply(&mut settings, Message::DefaultSourceChanged("n".to_string(), "mic".to_string()));
    assert_eq!(settings.default_sink(), "a");
    assert_eq!(settings.default_source(), "m");
    assert_eq!(
        receiver.try_recv(),
        Ok(AudioCommand::DefaultSink("b".to_string(), "hdmi".to_string()))
    );
    assert_eq!(
        receiver.try_recv(),
        Ok(AudioCommand::DefaultSource("n".to_string(), "mic".to_string()))
    );
    assert_eq!(receiver.try_recv(), Err(TryRecvError::Empty));
}

#[test]
fn commands_wait_in_the_channel_for_a_late_worker() {
    let mut settings = Settings::new();
    apply(&mut settings, Message::DefaultSinkChanged("b".to_string(), "p".to_string()));
    let mut receiver = settings.take_command_receiver().unwrap();
    assert!(settings.take_command_receiver().is_none());
    assert_eq!(receiver.try_recv(), Ok(AudioCommand::DefaultSink("b".to_string(), "p".to_string())));
}

#[test]
fn submitting_to_a_dropped_worker_is_silent() {
    let mut settings = Settings::new();
    drop(settings.take_command_receiver());
    apply(&mut settings, defaults("a", ""));
    apply(&mut settings, sinks(vec![device("a", 0, VOLUME_NORM, false, true)]));
    assert_eq!(apply(&mut settings, Message::SinkVolumeChanged(10)), Effect::Nothing);
    assert_eq!(settings.cur_sink_volume(), 10);
}

#[test]
fn submenu_toggles_are_exclusive() {
    let mut settings = Settings::new();
    apply(&mut settings, Message::ToggleSubMenu(SubMenu::Power));
    assert_eq!(settings.sub_menu(), Some(SubMenu::Power));
    apply(&mut settings, Message::ToggleSubMenu(SubMenu::Power));
    assert_eq!(settings.sub_menu(), None);
    apply(&mut settings, Message::ToggleSubMenu(SubMenu::Sinks));
    apply(&mut settings, Message::ToggleSubMenu(SubMenu::Sources));
    assert_eq!(settings.sub_menu(), Some(SubMenu::Sources));
    apply(&mut settings, Message::ToggleSubMenu(SubMenu::Sources));
    assert_eq!(settings.sub_menu(), None);
}

#[test]
fn menu_toggle_opens_closes_and_replaces() {
    let mut settings = Settings::new();
    let mut menu = None;
    assert_eq!(settings.update(Message::ToggleMenu, &mut menu), Effect::OpenMenu);
    assert_eq!(menu, Some(OpenMenu::Settings));
    assert_eq!(settings.update(Message::ToggleMenu, &mut menu), Effect::CloseMenu);
    assert_eq!(menu, None);
    let mut menu = Some(OpenMenu::Updates);
    assert_eq!(settings.update(Message::ToggleMenu, &mut menu), Effect::Nothing);
    assert_eq!(menu, Some(OpenMenu::Settings));
    assert_eq!(settings.update(Message::SinkToggleMute, &mut menu), Effect::Nothing);
    assert_eq!(menu, Some(OpenMenu::Settings));
}

#[test]
fn power_messages_are_left_to_the_host() {
    let mut settings = Settings::new();
    assert_eq!(apply(&mut settings, Message::Lock), Effect::Power(PowerAction::Lock));
    assert_eq!(apply(&mut settings, Message::Suspend), Effect::Power(PowerAction::Suspend));
    assert_eq!(apply(&mut settings, Message::Reboot), Effect::Power(PowerAction::Reboot));
    assert_eq!(apply(&mut settings, Message::Shutdown), Effect::Power(PowerAction::Shutdown));
    assert_eq!(apply(&mut settings, Message::Logout), Effect::Power(PowerAction::Logout));
    assert_eq!(settings.battery_data(), None);
    assert_eq!(settings.sub_menu(), None);
}

#[test]
fn commands_are_worked_out_from_the_list() {
    let list = vec![
        device("a", 5, VOLUME_NORM, true, false),
        device("b", 5, VOLUME_NORM / 2, false, false),
    ];
    assert_eq!(
        mute_command(&list, &"a".to_string(), Role::Sink),
        Some(AudioCommand::SinkMute("a".to_string(), false))
    );
    assert_eq!(
        mute_command(&list, &"b".to_string(), Role::Source),
        Some(AudioCommand::SourceMute("b".to_string(), true))
    );
    assert_eq!(mute_command(&list, &"c".to_string(), Role::Sink), None);
    assert_eq!(
        volume_command(&list, &"a".to_string(), 100, Role::Source),
        Some(AudioCommand::SourceVolume("a".to_string(), Volume::new(VOLUME_NORM, VOLUME_NORM)))
    );
    assert_eq!(
        volume_command(&list, &"b".to_string(), 50, Role::Sink),
        Some(AudioCommand::SinkVolume(
            "b".to_string(),
            Volume::new(VOLUME_NORM / 2, VOLUME_NORM / 2)
        ))
    );
    assert_eq!(volume_command(&list, &"b".to_string(), 51, Role::Sink), None);
    assert_eq!(volume_command(&list, &"a".to_string(), -1, Role::Sink), None);
    assert_eq!(volume_command(&list, &"c".to_string(), 10, Role::Sink), None);
}
