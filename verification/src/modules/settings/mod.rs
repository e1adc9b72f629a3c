//! The settings module: the snapshot of battery, network and audio state, and
//! the reducer that folds monitor events and user intents into it.

use crate::app::OpenMenu;
use crate::utils::audio::{
    current_volume, derived_percentage, devices_view, find_by_name, find_device, AudioCommand,
    AudioCommandView, CommandChannel, Device, DeviceView, Role, Sink, Source,
};
use crate::utils::battery::{BatteryData, BatteryStatus};
use crate::utils::launcher::PowerAction;
use crate::utils::net::{wifi_option_view, Wifi, WifiView};
use crate::modules::settings::menu::{
    entries_of, entries_view, sections, sections_of, slider, slider_of, submenu_entries, Section,
    Slider, SubmenuEntry,
};
use tokio::sync::mpsc::UnboundedReceiver;
use vstd::prelude::*;

pub mod battery;
pub mod laws;
pub mod menu;

verus! {

/// An event of the battery monitor.
#[derive(Debug, Clone, Copy)]
pub enum BatteryMessage {
    /// The capacity changed to this percentage.
    PercentageChanged(i64),
    /// The charging status changed.
    StatusChanged(BatteryStatus),
}

/// An event of the network monitor.
#[derive(Debug, Clone)]
pub enum NetMessage {
    /// The wireless network changed; none when the machine left it.
    Wifi(Option<Wifi>),
    /// A virtual private network came up or went down.
    VpnActive(bool),
}

/// An event of the audio monitor. Each carries the whole of what changed,
/// never a difference.
#[derive(Debug, Clone)]
pub enum AudioMessage {
    /// The default devices changed: the name of the default sink, then that
    /// of the default source.
    DefaultSinkSourceChanged(String, String),
    /// The sinks changed: the full list.
    SinkChanges(Vec<Sink>),
    /// The sources changed: the full list.
    SourceChanges(Vec<Source>),
}

/// Everything that the settings module reacts to: monitor events and the
/// intents of the user.
#[derive(Debug, Clone)]
pub enum Message {
    /// Open or close the settings menu.
    ToggleMenu,
    Battery(BatteryMessage),
    Net(NetMessage),
    Audio(AudioMessage),
    Lock,
    Suspend,
    Reboot,
    Shutdown,
    Logout,
    /// Open the submenu, or close it if it is the open one.
    ToggleSubMenu(SubMenu),
    /// Invert the mute flag of the default sink.
    SinkToggleMute,
    /// The user moved the sink slider to this percentage.
    SinkVolumeChanged(i32),
    /// The user picked a sink and one of its ports as the default: the name
    /// of the device, then that of the port.
    DefaultSinkChanged(String, String),
    /// Invert the mute flag of the default source.
    SourceToggleMute,
    /// The user moved the source slider to this percentage.
    SourceVolumeChanged(i32),
    /// The user picked a source and one of its ports as the default.
    DefaultSourceChanged(String, String),
}

/// The secondary panels of the settings menu. One at most is open.
#[derive(Debug, PartialEq, Eq, Clone, Copy, Structural)]
pub enum SubMenu {
    Power,
    Sinks,
    Sources,
}

/// What the host has to do after a message was applied.
#[derive(Debug, PartialEq, Eq, Clone, Copy, Structural)]
pub enum Effect {
    Nothing,
    OpenMenu,
    CloseMenu,
    Power(PowerAction),
}

/// The open submenu after a toggle: none if the requested one was open, else
/// the requested one alone.
pub open spec fn toggled(current: Option<SubMenu>, requested: SubMenu) -> Option<SubMenu> {
    if current == Some(requested) {
        None
    } else {
        Some(requested)
    }
}

/// The battery state after a report of its percentage. A first report comes
/// with the status `Full`.
pub open spec fn with_capacity(battery: Option<BatteryData>, capacity: i64) -> BatteryData {
    match battery {
        Some(data) => BatteryData { capacity, status: data.status },
        None => BatteryData { capacity, status: BatteryStatus::Full },
    }
}

/// The battery state after a report of its status. A first report comes with
/// a capacity of 100.
pub open spec fn with_status(battery: Option<BatteryData>, status: BatteryStatus) -> BatteryData {
    match battery {
        Some(data) => BatteryData { capacity: data.capacity, status },
        None => BatteryData { capacity: 100, status },
    }
}

/// The command that inverts the mute flag of the device called `name`. None
/// where the list holds no such device.
pub open spec fn mute_request(devices: Seq<DeviceView>, name: Seq<char>, role: Role) -> Option<
    AudioCommandView,
> {
    match find_by_name(devices, name) {
        Some(device) => Some(
            match role {
                Role::Sink => AudioCommandView::SinkMute(name, !device.is_mute),
                Role::Source => AudioCommandView::SourceMute(name, !device.is_mute),
            },
        ),
        None => None,
    }
}

/// The command that sets the device called `name` to `percent`. None where
/// the list holds no such device, or the device cannot take that percentage.
pub open spec fn volume_request(
    devices: Seq<DeviceView>,
    name: Seq<char>,
    percent: int,
    role: Role,
) -> Option<AudioCommandView> {
    match find_by_name(devices, name) {
        Some(device) => match device.volume.scaled(percent) {
            Some(volume) => Some(
                match role {
                    Role::Sink => AudioCommandView::SinkVolume(device.name, volume),
                    Role::Source => AudioCommandView::SourceVolume(device.name, volume),
                },
            ),
            None => None,
        },
        None => None,
    }
}

/// The menu that is open after a message, given the one open before it. Only
/// `ToggleMenu` changes it: it closes the settings menu if that was open, and
/// opens it in place of any other.
pub open spec fn menu_after(menu: Option<OpenMenu>, message: Message) -> Option<OpenMenu> {
    match message {
        Message::ToggleMenu => if menu == Some(OpenMenu::Settings) {
            None
        } else {
            Some(OpenMenu::Settings)
        },
        _ => menu,
    }
}

/// What is left to the host after a message, given the menu open before it.
pub open spec fn effect_of(menu: Option<OpenMenu>, message: Message) -> Effect {
    match message {
        Message::ToggleMenu => match menu {
            Some(OpenMenu::Settings) => Effect::CloseMenu,
            Some(_) => Effect::Nothing,
            None => Effect::OpenMenu,
        },
        Message::Lock => Effect::Power(PowerAction::Lock),
        Message::Suspend => Effect::Power(PowerAction::Suspend),
        Message::Reboot => Effect::Power(PowerAction::Reboot),
        Message::Shutdown => Effect::Power(PowerAction::Shutdown),
        Message::Logout => Effect::Power(PowerAction::Logout),
        _ => Effect::Nothing,
    }
}

/// Mathematical model of `Settings`: the snapshot, and the commands submitted
/// to the audio subsystem so far.
#[verifier::ext_equal]
pub struct SettingsView {
    pub submitted: Seq<AudioCommandView>,
    pub receiver_pending: bool,
    pub sub_menu: Option<SubMenu>,
    pub battery_data: Option<BatteryData>,
    pub wifi: Option<WifiView>,
    pub vpn_active: bool,
    pub default_sink: Seq<char>,
    pub default_source: Seq<char>,
    pub sinks: Seq<DeviceView>,
    pub sources: Seq<DeviceView>,
    pub cur_sink_volume: int,
    pub cur_source_volume: int,
}

impl SettingsView {
    /// The state at startup: nothing known, nothing open, nothing submitted.
    pub open spec fn initial() -> SettingsView {
        SettingsView {
            submitted: Seq::empty(),
            receiver_pending: true,
            sub_menu: None,
            battery_data: None,
            wifi: None,
            vpn_active: false,
            default_sink: Seq::empty(),
            default_source: Seq::empty(),
            sinks: Seq::empty(),
            sources: Seq::empty(),
            cur_sink_volume: 0,
            cur_source_volume: 0,
        }
    }

    /// The sink percentage as the device list and the default name give it.
    pub open spec fn sink_percentage(self) -> int {
        derived_percentage(self.sinks, self.default_sink)
    }

    /// The source percentage as the device list and the default name give it.
    pub open spec fn source_percentage(self) -> int {
        derived_percentage(self.sources, self.default_source)
    }

    /// The command that a message has the reducer submit, if any. It is
    /// worked out from the state before the message.
    pub open spec fn command(self, message: Message) -> Option<AudioCommandView> {
        match message {
            Message::SinkToggleMute => mute_request(self.sinks, self.default_sink, Role::Sink),
            Message::SinkVolumeChanged(percent) => volume_request(
                self.sinks,
                self.default_sink,
                percent as int,
                Role::Sink,
            ),
            Message::DefaultSinkChanged(name, port) => Some(
                AudioCommandView::DefaultSink(name@, port@),
            ),
            Message::SourceToggleMute => mute_request(
                self.sources,
                self.default_source,
                Role::Source,
            ),
            Message::SourceVolumeChanged(percent) => volume_request(
                self.sources,
                self.default_source,
                percent as int,
                Role::Source,
            ),
            Message::DefaultSourceChanged(name, port) => Some(
                AudioCommandView::DefaultSource(name@, port@),
            ),
            _ => None,
        }
    }

    /// The snapshot after a message, the log of commands left as it was.
    pub open spec fn reduce(self, message: Message) -> SettingsView {
        match message {
            Message::Battery(BatteryMessage::PercentageChanged(capacity)) => SettingsView {
                battery_data: Some(with_capacity(self.battery_data, capacity)),
                ..self
            },
            Message::Battery(BatteryMessage::StatusChanged(status)) => SettingsView {
                battery_data: Some(with_status(self.battery_data, status)),
                ..self
            },
            Message::Net(NetMessage::Wifi(wifi)) => SettingsView {
                wifi: wifi_option_view(wifi),
                ..self
            },
            Message::Net(NetMessage::VpnActive(active)) => SettingsView {
                vpn_active: active,
                ..self
            },
            Message::Audio(AudioMessage::SinkChanges(sinks)) => SettingsView {
                sinks: devices_view(sinks@),
                cur_sink_volume: derived_percentage(devices_view(sinks@), self.default_sink),
                ..self
            },
            Message::Audio(AudioMessage::SourceChanges(sources)) => SettingsView {
                sources: devices_view(sources@),
                cur_source_volume: derived_percentage(
                    devices_view(sources@),
                    self.default_source,
                ),
                ..self
            },
            Message::Audio(AudioMessage::DefaultSinkSourceChanged(sink, source)) => SettingsView {
                default_sink: sink@,
                default_source: source@,
                cur_sink_volume: derived_percentage(self.sinks, sink@),
                cur_source_volume: derived_percentage(self.sources, source@),
                ..self
            },
            Message::ToggleSubMenu(requested) => SettingsView {
                sub_menu: toggled(self.sub_menu, requested),
                ..self
            },
            Message::SinkVolumeChanged(percent) => SettingsView {
                cur_sink_volume: percent as int,
                ..self
            },
            Message::SourceVolumeChanged(percent) => SettingsView {
                cur_source_volume: percent as int,
                ..self
            },
            _ => self,
        }
    }

    /// The state after a message: the snapshot reduced, and the command of
    /// the message, if it has one, behind all earlier ones.
    pub open spec fn apply(self, message: Message) -> SettingsView {
        SettingsView {
            submitted: match self.command(message) {
                Some(command) => self.submitted.push(command),
                None => self.submitted,
            },
            ..self.reduce(message)
        }
    }
}

/// The canonical state of the settings module. One owner applies one message
/// at a time; monitors and the command worker never touch it.
pub struct Settings {
    audio_commands: CommandChannel,
    sub_menu: Option<SubMenu>,
    pub battery_data: Option<BatteryData>,
    wifi: Option<Wifi>,
    vpn_active: bool,
    default_sink: String,
    default_source: String,
    pub sinks: Vec<Sink>,
    sources: Vec<Source>,
    cur_sink_volume: i32,
    cur_source_volume: i32,
}

impl View for Settings {
    type V = SettingsView;

    closed spec fn view(&self) -> SettingsView {
        SettingsView {
            submitted: self.audio_commands.submitted(),
            receiver_pending: self.audio_commands.has_receiver(),
            sub_menu: self.sub_menu,
            battery_data: self.battery_data,
            wifi: wifi_option_view(self.wifi),
            vpn_active: self.vpn_active,
            default_sink: self.default_sink@,
            default_source: self.default_source@,
            sinks: devices_view(self.sinks@),
            sources: devices_view(self.sources@),
            cur_sink_volume: self.cur_sink_volume as int,
            cur_source_volume: self.cur_source_volume as int,
        }
    }
}

/// Works out the command that inverts the mute flag of the default device.
pub fn mute_command(devices: &Vec<Device>, default_name: &String, role: Role) -> (command: Option<
    AudioCommand,
>)
    ensures
        command_option_view(command) == mute_request(
            devices_view(devices@),
            default_name@,
            role,
        ),
{
    match find_device(devices, default_name) {
        Some(device) => {
            let mute = !device.is_mute;
            Some(
                match role {
                    Role::Sink => AudioCommand::SinkMute(default_name.clone(), mute),
                    Role::Source => AudioCommand::SourceMute(default_name.clone(), mute),
                },
            )
        },
        None => None,
    }
}

/// Works out the command that sets the default device to `percent`.
pub fn volume_command(
    devices: &Vec<Device>,
    default_name: &String,
    percent: i32,
    role: Role,
) -> (command: Option<AudioCommand>)
    ensures
        command_option_view(command) == volume_request(
            devices_view(devices@),
            default_name@,
            percent as int,
            role,
        ),
{
    match find_device(devices, default_name) {
        Some(device) => match device.volume.scale_volume(percent) {
            Some(volume) => Some(
                match role {
                    Role::Sink => AudioCommand::SinkVolume(device.name.clone(), volume),
                    Role::Source => AudioCommand::SourceVolume(device.name.clone(), volume),
                },
            ),
            None => None,
        },
        None => None,
    }
}

/// The model of an optional command.
pub open spec fn command_option_view(command: Option<AudioCommand>) -> Option<AudioCommandView> {
    match command {
        Some(c) => Some(c@),
        None => None,
    }
}

impl Settings {
    /// The state at startup, with a fresh command channel.
    pub fn new() -> (settings: Settings)
        ensures
            settings@ == SettingsView::initial(),
    {
        Settings {
            audio_commands: CommandChannel::new(),
            sub_menu: None,
            battery_data: None,
            wifi: None,
            vpn_active: false,
            default_sink: String::new(),
            default_source: String::new(),
            sinks: Vec::new(),
            sources: Vec::new(),
            cur_sink_volume: 0,
            cur_source_volume: 0,
        }
    }

    /// Applies one message to the state and tells the host what is left for
    /// it to do.
    ///
    /// Monitor events replace what they report and recompute the percentages
    /// that depend on it. A volume intent shows at once, before the audio
    /// subsystem has confirmed it. Commands are worked out from the state
    /// before the message and submitted behind all earlier ones; the device
    /// lists change only when the audio monitor reports them.
    pub fn update(&mut self, message: Message, menu_type: &mut Option<OpenMenu>) -> (effect: Effect)
        ensures
            final(self)@ == old(self)@.apply(message),
            *final(menu_type) == menu_after(*old(menu_type), message),
            effect == effect_of(*old(menu_type), message),
    {
        match message {
            Message::ToggleMenu => match *menu_type {
                Some(OpenMenu::Settings) => {
                    *menu_type = None;
                    Effect::CloseMenu
                },
                Some(_) => {
                    *menu_type = Some(OpenMenu::Settings);
                    Effect::Nothing
                },
                None => {
                    *menu_type = Some(OpenMenu::Settings);
                    Effect::OpenMenu
                },
            },
            Message::Battery(msg) => {
                match msg {
                    BatteryMessage::PercentageChanged(percentage) => {
                        let status = match self.battery_data {
                            Some(data) => data.status,
                            None => BatteryStatus::Full,
                        };
                        self.battery_data = Some(BatteryData { capacity: percentage, status });
                    },
                    BatteryMessage::StatusChanged(status) => {
                        let capacity: i64 = match self.battery_data {
                            Some(data) => data.capacity,
                            None => 100,
                        };
                        self.battery_data = Some(BatteryData { capacity, status });
                    },
                };
                Effect::Nothing
            },
            Message::Net(msg) => {
                match msg {
                    NetMessage::Wifi(wifi) => {
                        self.wifi = wifi;
                    },
                    NetMessage::VpnActive(active) => {
                        self.vpn_active = active;
                    },
                };
                Effect::Nothing
            },
            Message::Audio(msg) => {
                match msg {
                    AudioMessage::SinkChanges(sinks) => {
                        self.sinks = sinks;
                        self.cur_sink_volume = current_volume(&self.sinks, &self.default_sink);
                    },
                    AudioMessage::SourceChanges(sources) => {
                        self.sources = sources;
                        self.cur_source_volume = current_volume(
                            &self.sources,
                            &self.default_source,
                        );
                    },
                    AudioMessage::DefaultSinkSourceChanged(sink, source) => {
                        self.default_sink = sink;
                        self.default_source = source;
                        self.cur_sink_volume = current_volume(&self.sinks, &self.default_sink);
                        self.cur_source_volume = current_volume(
                            &self.sources,
                            &self.default_source,
                        );
                    },
                };
                Effect::Nothing
            },
            Message::ToggleSubMenu(requested) => {
                if self.sub_menu == Some(requested) {
                    self.sub_menu = None;
                } else {
                    self.sub_menu = Some(requested);
                }
                Effect::Nothing
            },
            Message::Lock => Effect::Power(PowerAction::Lock),
            Message::Suspend => Effect::Power(PowerAction::Suspend),
            Message::Reboot => Effect::Power(PowerAction::Reboot),
            Message::Shutdown => Effect::Power(PowerAction::Shutdown),
            Message::Logout => Effect::Power(PowerAction::Logout),
            Message::SinkToggleMute => {
                match mute_command(&self.sinks, &self.default_sink, Role::Sink) {
                    Some(command) => self.audio_commands.submit(command),
                    None => {},
                }
                Effect::Nothing
            },
            Message::SinkVolumeChanged(volume) => {
                self.cur_sink_volume = volume;
                match volume_command(&self.sinks, &self.default_sink, volume, Role::Sink) {
                    Some(command) => self.audio_commands.submit(command),
                    None => {},
                }
                Effect::Nothing
            },
            Message::DefaultSinkChanged(name, port) => {
                self.audio_commands.submit(AudioCommand::DefaultSink(name, port));
                Effect::Nothing
            },
            Message::SourceToggleMute => {
                match mute_command(&self.sources, &self.default_source, Role::Source) {
                    Some(command) => self.audio_commands.submit(command),
                    None => {},
                }
                Effect::Nothing
            },
            Message::SourceVolumeChanged(volume) => {
                self.cur_source_volume = volume;
                match volume_command(&self.sources, &self.default_source, volume, Role::Source) {
                    Some(command) => self.audio_commands.submit(command),
                    None => {},
                }
                Effect::Nothing
            },
            Message::DefaultSourceChanged(name, port) => {
                self.audio_commands.submit(AudioCommand::DefaultSource(name, port));
                Effect::Nothing
            },
        }
    }

    /// Gives the receiving half of the command channel to the worker that
    /// applies the commands. Only the first call gets it.
    pub fn take_command_receiver(&mut self) -> (receiver: Option<UnboundedReceiver<AudioCommand>>)
        ensures
            receiver is Some <==> old(self)@.receiver_pending,
            final(self)@ == (SettingsView { receiver_pending: false, ..old(self)@ }),
    {
        self.audio_commands.take_receiver()
    }

    /// The last known state of the battery, if any was reported.
    pub fn battery_data(&self) -> (battery: Option<BatteryData>)
        ensures
            battery == self@.battery_data,
    {
        self.battery_data
    }

    /// The sinks that the audio monitor last reported.
    pub fn sinks(&self) -> (sinks: &Vec<Sink>)
        ensures
            devices_view(sinks@) == self@.sinks,
    {
        &self.sinks
    }

    /// The submenu that is open.
    pub fn sub_menu(&self) -> (sub_menu: Option<SubMenu>)
        ensures
            sub_menu == self@.sub_menu,
    {
        self.sub_menu
    }

    /// The wireless network, if the machine is connected to one.
    pub fn wifi(&self) -> (wifi: &Option<Wifi>)
        ensures
            wifi_option_view(*wifi) == self@.wifi,
    {
        &self.wifi
    }

    /// Whether a virtual private network is up.
    pub fn vpn_active(&self) -> (active: bool)
        ensures
            active == self@.vpn_active,
    {
        self.vpn_active
    }

    /// The name of the default sink.
    pub fn default_sink(&self) -> (name: &String)
        ensures
            name@ == self@.default_sink,
    {
        &self.default_sink
    }

    /// The name of the default source.
    pub fn default_source(&self) -> (name: &String)
        ensures
            name@ == self@.default_source,
    {
        &self.default_source
    }

    /// The sources that the audio monitor last reported.
    pub fn sources(&self) -> (sources: &Vec<Source>)
        ensures
            devices_view(sources@) == self@.sources,
    {
        &self.sources
    }

    /// The percentage shown for the default sink.
    pub fn cur_sink_volume(&self) -> (percent: i32)
        ensures
            percent == self@.cur_sink_volume,
    {
        self.cur_sink_volume
    }

    /// The percentage shown for the default source.
    pub fn cur_source_volume(&self) -> (percent: i32)
        ensures
            percent == self@.cur_source_volume,
    {
        self.cur_source_volume
    }

    /// The slider of the sinks, if a sink has an active port. It shows the
    /// percentage of the state and the mute flag of the default sink.
    pub fn sink_slider(&self) -> (shown: Option<Slider>)
        ensures
            shown == slider_of(
                self@.sinks,
                self@.default_sink,
                self@.cur_sink_volume,
                Role::Sink,
            ),
    {
        slider(&self.sinks, &self.default_sink, self.cur_sink_volume, Role::Sink)
    }

    /// The slider of the sources, if a source has an active port. It shows
    /// the percentage of the state and the mute flag of the default source.
    pub fn source_slider(&self) -> (shown: Option<Slider>)
        ensures
            shown == slider_of(
                self@.sources,
                self@.default_source,
                self@.cur_source_volume,
                Role::Source,
            ),
    {
        slider(&self.sources, &self.default_source, self.cur_source_volume, Role::Source)
    }

    /// The lines of the sink picker.
    pub fn sink_entries(&self) -> (entries: Vec<SubmenuEntry>)
        ensures
            entries_view(entries@) == entries_of(self@.sinks, self@.default_sink, Role::Sink),
    {
        submenu_entries(&self.sinks, &self.default_sink, Role::Sink)
    }

    /// The lines of the source picker.
    pub fn source_entries(&self) -> (entries: Vec<SubmenuEntry>)
        ensures
            entries_view(entries@) == entries_of(
                self@.sources,
                self@.default_source,
                Role::Source,
            ),
    {
        submenu_entries(&self.sources, &self.default_source, Role::Source)
    }

    /// The sections of the settings menu from top to bottom. A slider has
    /// its section exactly when `sink_slider` or `source_slider` gives one.
    pub fn menu_sections(&self) -> (shown: Vec<Section>)
        ensures
            shown@ == sections_of(
                self@.sub_menu,
                slider_of(
                    self@.sinks,
                    self@.default_sink,
                    self@.cur_sink_volume,
                    Role::Sink,
                ) is Some,
                slider_of(
                    self@.sources,
                    self@.default_source,
                    self@.cur_source_volume,
                    Role::Source,
                ) is Some,
            ),
    {
        let sink = self.sink_slider();
        let source = self.source_slider();
        sections(self.sub_menu, sink.is_some(), source.is_some())
    }
}

} // verus!
