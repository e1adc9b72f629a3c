//! Audio devices, their native volume, and the commands sent to the audio
//! subsystem.

use tokio::sync::mpsc::{UnboundedReceiver, UnboundedSender};
use vstd::prelude::*;

verus! {

/// What kind of hardware a port leads to.
#[derive(Clone, Copy, Debug, PartialEq, Eq, Structural)]
pub enum DeviceType {
    Headphones,
    Speakers,
    Headset,
    Hdmi,
}

/// A connector of a device. The active port of a device carries its signal.
#[derive(Clone, Debug, PartialEq, Eq)]
pub struct Port {
    pub name: String,
    pub description: String,
    pub device_type: DeviceType,
    pub active: bool,
}

/// Mathematical model of a `Port`.
#[verifier::ext_equal]
pub struct PortView {
    pub name: Seq<char>,
    pub description: Seq<char>,
    pub device_type: DeviceType,
    pub active: bool,
}

impl View for Port {
    type V = PortView;

    open spec fn view(&self) -> PortView {
        PortView {
            name: self.name@,
            description: self.description@,
            device_type: self.device_type,
            active: self.active,
        }
    }
}

/// The volume of a device in the unit of the audio subsystem: the current
/// level, and the highest level that the device accepts.
#[derive(Clone, Copy, Debug, PartialEq, Eq, Structural)]
pub struct Volume {
    pub level: u32,
    pub limit: u32,
}

/// An audio device: a sink plays, a source records.
#[derive(Clone, Debug, PartialEq, Eq)]
pub struct Device {
    pub name: String,
    pub description: String,
    pub ports: Vec<Port>,
    pub volume: Volume,
    pub is_mute: bool,
}

/// An output device.
pub type Sink = Device;

/// An input device.
pub type Source = Device;

/// Mathematical model of a `Device`.
#[verifier::ext_equal]
pub struct DeviceView {
    pub name: Seq<char>,
    pub description: Seq<char>,
    pub ports: Seq<PortView>,
    pub volume: Volume,
    pub is_mute: bool,
}

impl View for Device {
    type V = DeviceView;

    open spec fn view(&self) -> DeviceView {
        DeviceView {
            name: self.name@,
            description: self.description@,
            ports: self.ports@.map_values(|p: Port| p@),
            volume: self.volume,
            is_mute: self.is_mute,
        }
    }
}

/// The model of a list of devices, in the order of the list.
pub open spec fn devices_view(devices: Seq<Device>) -> Seq<DeviceView> {
    devices.map_values(|d: Device| d@)
}

/// A request to the audio subsystem. The first field names the device.
#[derive(Clone, Debug, PartialEq, Eq)]
pub enum AudioCommand {
    /// Set the mute flag of a sink.
    SinkMute(String, bool),
    /// Set the volume of a sink.
    SinkVolume(String, Volume),
    /// Make a sink the default one, on the port named second.
    DefaultSink(String, String),
    /// Set the mute flag of a source.
    SourceMute(String, bool),
    /// Set the volume of a source.
    SourceVolume(String, Volume),
    /// Make a source the default one, on the port named second.
    DefaultSource(String, String),
}

/// Mathematical model of an `AudioCommand`.
#[verifier::ext_equal]
pub enum AudioCommandView {
    SinkMute(Seq<char>, bool),
    SinkVolume(Seq<char>, Volume),
    DefaultSink(Seq<char>, Seq<char>),
    SourceMute(Seq<char>, bool),
    SourceVolume(Seq<char>, Volume),
    DefaultSource(Seq<char>, Seq<char>),
}

impl View for AudioCommand {
    type V = AudioCommandView;

    open spec fn view(&self) -> AudioCommandView {
        match *self {
            AudioCommand::SinkMute(name, mute) => AudioCommandView::SinkMute(name@, mute),
            AudioCommand::SinkVolume(name, volume) => AudioCommandView::SinkVolume(name@, volume),
            AudioCommand::DefaultSink(name, port) => AudioCommandView::DefaultSink(name@, port@),
            AudioCommand::SourceMute(name, mute) => AudioCommandView::SourceMute(name@, mute),
            AudioCommand::SourceVolume(name, volume) => AudioCommandView::SourceVolume(
                name@,
                volume,
            ),
            AudioCommand::DefaultSource(name, port) => AudioCommandView::DefaultSource(
                name@,
                port@,
            ),
        }
    }
}

/// Which of the two device lists a request is about.
#[derive(Clone, Copy, Debug, PartialEq, Eq, Structural)]
pub enum Role {
    Sink,
    Source,
}

/// Native level that stands for a fraction of 1.0, that is 100 percent.
pub const VOLUME_NORM: u32 = 0x10000;

/// The percentage shown for a native level: `level / VOLUME_NORM` times one
/// hundred, rounded to the nearest integer, halves rounded up.
pub open spec fn percentage_of(level: int) -> int {
    (level * 100 + VOLUME_NORM / 2) / (VOLUME_NORM as int)
}

/// The native level of a percentage: `percent / 100` of `VOLUME_NORM`,
/// rounded down.
pub open spec fn native_of(percent: int) -> int {
    (percent * VOLUME_NORM) / 100
}

/// Whether a percentage can be mapped to a native level of a device that
/// accepts levels up to `limit`: it is not negative and its level is within
/// the limit.
pub open spec fn representable(percent: int, limit: int) -> bool {
    0 <= percent && native_of(percent) <= limit
}

/// Converts a native level to the percentage shown in the user interface.
pub fn native_to_percentage(level: u32) -> (percent: i32)
    ensures
        percent == percentage_of(level as int),
{
    let norm = VOLUME_NORM as u64;
    let scaled: u64 = level as u64 * 100 + norm / 2;
    (scaled / norm) as i32
}

/// Converts a percentage to the native level of a device whose highest
/// accepted level is `limit`, or reports that no such level exists.
pub fn scale_to_native(percent: i32, limit: u32) -> (level: Option<u32>)
    ensures
        level == (if representable(percent as int, limit as int) {
            Some(native_of(percent as int) as u32)
        } else {
            None
        }),
{
    if percent < 0 {
        return None;
    }
    let native: u64 = (percent as u64 * VOLUME_NORM as u64) / 100;
    if native <= limit as u64 {
        Some(native as u32)
    } else {
        None
    }
}

impl Volume {
    /// The percentage that stands for the current level.
    pub open spec fn percentage(self) -> int {
        percentage_of(self.level as int)
    }

    /// The volume of the same device once its level stands for `percent`, if
    /// the device can take that level.
    pub open spec fn scaled(self, percent: int) -> Option<Volume> {
        if representable(percent, self.limit as int) {
            Some(Volume { level: native_of(percent) as u32, limit: self.limit })
        } else {
            None
        }
    }

    /// The volume of a device that stands at `level` and accepts levels up to
    /// `limit`.
    pub fn new(level: u32, limit: u32) -> (volume: Volume)
        ensures
            volume == (Volume { level, limit }),
    {
        Volume { level, limit }
    }

    /// The current level as a percentage for the user interface.
    pub fn get_percentage(&self) -> (percent: i32)
        ensures
            percent == self.percentage(),
    {
        native_to_percentage(self.level)
    }

    /// The volume to request so that the device plays at `percent`. `None`
    /// when the percentage is negative or its level is above the limit of the
    /// device.
    pub fn scale_volume(&self, percent: i32) -> (scaled: Option<Volume>)
        ensures
            scaled == self.scaled(percent as int),
    {
        match scale_to_native(percent, self.limit) {
            Some(level) => Some(Volume { level, limit: self.limit }),
            None => None,
        }
    }
}

impl DeviceView {
    /// Whether one port at least is active.
    pub open spec fn has_active_port(self) -> bool {
        exists|j: int| 0 <= j < self.ports.len() && (#[trigger] self.ports[j]).active
    }

    /// The percentage to show for the device: zero while it is muted, else
    /// the percentage of its level.
    pub open spec fn percentage(self) -> int {
        if self.is_mute {
            0
        } else {
            self.volume.percentage()
        }
    }

    /// Whether the device is the one that `name` routes to: it has that name
    /// and an active port.
    pub open spec fn is_routed(self, name: Seq<char>) -> bool {
        self.name == name && self.has_active_port()
    }
}

/// The first device of the list that is called `name`.
pub open spec fn find_by_name(devices: Seq<DeviceView>, name: Seq<char>) -> Option<DeviceView>
    decreases devices.len(),
{
    if devices.len() == 0 {
        None
    } else if devices[0].name == name {
        Some(devices[0])
    } else {
        find_by_name(devices.drop_first(), name)
    }
}

/// The first device of the list that is called `name` and has an active port.
pub open spec fn find_routed(devices: Seq<DeviceView>, name: Seq<char>) -> Option<DeviceView>
    decreases devices.len(),
{
    if devices.len() == 0 {
        None
    } else if devices[0].is_routed(name) {
        Some(devices[0])
    } else {
        find_routed(devices.drop_first(), name)
    }
}

/// The percentage to show for the default device of a list: that of the
/// routed device called `name`, and zero when there is none.
pub open spec fn derived_percentage(devices: Seq<DeviceView>, name: Seq<char>) -> int {
    match find_routed(devices, name) {
        Some(device) => device.percentage(),
        None => 0,
    }
}

/// The model of an optional device.
pub open spec fn device_option_view(device: Option<&Device>) -> Option<DeviceView> {
    match device {
        Some(d) => Some(d@),
        None => None,
    }
}

impl Device {
    /// Whether one port at least is active.
    pub fn has_active_port(&self) -> (active: bool)
        ensures
            active == self@.has_active_port(),
    {
        let mut i: usize = 0;
        while i < self.ports.len()
            invariant
                i <= self.ports.len(),
                forall|j: int| 0 <= j < i ==> !(#[trigger] self@.ports[j]).active,
            decreases self.ports.len() - i,
        {
            if self.ports[i].active {
                assert(self@.ports[i as int].active);
                return true;
            }
            i += 1;
        }
        false
    }

    /// The percentage to show for the device.
    pub fn percentage(&self) -> (percent: i32)
        ensures
            percent == self@.percentage(),
    {
        if self.is_mute {
            0
        } else {
            self.volume.get_percentage()
        }
    }
}

/// Looks a device up by its name. A linear search: the lists hold a handful
/// of devices.
pub fn find_device<'a>(devices: &'a Vec<Device>, name: &String) -> (found: Option<&'a Device>)
    ensures
        device_option_view(found) == find_by_name(devices_view(devices@), name@),
{
    let ghost all = devices_view(devices@);
    assert(all.skip(0) == all);
    let mut i: usize = 0;
    while i < devices.len()
        invariant
            i <= devices.len(),
            all == devices_view(devices@),
            find_by_name(all, name@) == find_by_name(all.skip(i as int), name@),
        decreases devices.len() - i,
    {
        let ghost rest = all.skip(i as int);
        assert(rest[0] == devices[i as int]@);
        assert(rest.drop_first() == all.skip(i + 1));
        if devices[i].name == *name {
            return Some(&devices[i]);
        }
        i += 1;
    }
    None
}

/// Looks up the device that `name` routes to: the first one with that name
/// and an active port. A linear search, as `find_device`.
pub fn find_routed_device<'a>(devices: &'a Vec<Device>, name: &String) -> (found: Option<
    &'a Device,
>)
    ensures
        device_option_view(found) == find_routed(devices_view(devices@), name@),
{
    let ghost all = devices_view(devices@);
    assert(all.skip(0) == all);
    let mut i: usize = 0;
    while i < devices.len()
        invariant
            i <= devices.len(),
            all == devices_view(devices@),
            find_routed(all, name@) == find_routed(all.skip(i as int), name@),
        decreases devices.len() - i,
    {
        let ghost rest = all.skip(i as int);
        assert(rest[0] == devices[i as int]@);
        assert(rest.drop_first() == all.skip(i + 1));
        if devices[i].name == *name && devices[i].has_active_port() {
            return Some(&devices[i]);
        }
        i += 1;
    }
    None
}

/// The percentage to show for the default device of a list.
pub fn current_volume(devices: &Vec<Device>, default_name: &String) -> (percent: i32)
    ensures
        percent == derived_percentage(devices_view(devices@), default_name@),
{
    match find_routed_device(devices, default_name) {
        Some(device) => device.percentage(),
        None => 0,
    }
}

/// The sending half of tokio's unbounded channel, opaque to the proofs.
#[verifier::external_type_specification]
#[verifier::external_body]
#[verifier::reject_recursive_types(T)]
pub struct ExUnboundedSender<T>(tokio::sync::mpsc::UnboundedSender<T>);

/// The receiving half of tokio's unbounded channel, opaque to the proofs.
#[verifier::external_type_specification]
#[verifier::external_body]
#[verifier::reject_recursive_types(T)]
pub struct ExUnboundedReceiver<T>(tokio::sync::mpsc::UnboundedReceiver<T>);

/// Calls `tokio::sync::mpsc::unbounded_channel` and returns its two halves.
/// Nothing is claimed of them.
#[verifier::external_body]
fn open_channel() -> (halves: (UnboundedSender<AudioCommand>, UnboundedReceiver<AudioCommand>)) {
    tokio::sync::mpsc::unbounded_channel()
}

/// Calls `UnboundedSender::send`, which never waits, and tells whether the
/// channel took the command. It refuses one once the receiving half is closed
/// or dropped, which is not known here: nothing is claimed of the result.
#[verifier::external_body]
fn send_command(sender: &UnboundedSender<AudioCommand>, command: AudioCommand) -> (taken: bool) {
    sender.send(command).is_ok()
}

/// The queue of commands on their way to the audio subsystem.
///
/// The reducer submits, and never waits. One worker owns the receiving half
/// and applies the commands one at a time; the channel hands them over in the
/// order of submission.
pub struct CommandChannel {
    sender: UnboundedSender<AudioCommand>,
    receiver: Option<UnboundedReceiver<AudioCommand>>,
    log: Ghost<Seq<AudioCommandView>>,
}

impl CommandChannel {
    /// Every command submitted so far, oldest first.
    pub closed spec fn submitted(&self) -> Seq<AudioCommandView> {
        self.log@
    }

    /// Whether the receiving half is still held here, waiting for its worker.
    pub closed spec fn has_receiver(&self) -> bool {
        self.receiver is Some
    }

    /// A channel through which nothing has been submitted, with its receiving
    /// half in place.
    pub fn new() -> (channel: CommandChannel)
        ensures
            channel.submitted() == Seq::<AudioCommandView>::empty(),
            channel.has_receiver(),
    {
        let (sender, receiver) = open_channel();
        CommandChannel { sender, receiver: Some(receiver), log: Ghost(Seq::empty()) }
    }

    /// Hands a command to the channel, behind all earlier ones. A command
    /// that the channel refuses is dropped.
    pub fn submit(&mut self, command: AudioCommand)
        ensures
            final(self).submitted() == old(self).submitted().push(command@),
            final(self).has_receiver() == old(self).has_receiver(),
    {
        let ghost model = command@;
        let _taken: bool = send_command(&self.sender, command);
        self.log = Ghost(self.log@.push(model));
    }

    /// Gives the receiving half to the worker that will drain the channel.
    /// Only the first call gets it.
    pub fn take_receiver(&mut self) -> (receiver: Option<UnboundedReceiver<AudioCommand>>)
        ensures
            receiver is Some <==> old(self).has_receiver(),
            !final(self).has_receiver(),
            final(self).submitted() == old(self).submitted(),
    {
        self.receiver.take()
    }
}

/// The rounding of `percentage_of` is to the nearest integer: the shown
/// percentage is at most half a percent away from the exact one.
pub proof fn lemma_percentage_is_nearest(level: int)
    requires
        0 <= level,
    ensures
        0 <= percentage_of(level),
        percentage_of(level) * VOLUME_NORM - VOLUME_NORM / 2 <= level * 100,
        level * 100 < percentage_of(level) * VOLUME_NORM + VOLUME_NORM / 2,
{
}

/// Scaling a percentage to its native level and reading the percentage of
/// that level back gives the percentage again.
pub proof fn lemma_scale_round_trip(percent: int)
    requires
        0 <= percent,
    ensures
        0 <= native_of(percent),
        percentage_of(native_of(percent)) == percent,
{
}

/// A volume scaled to a percentage shows that percentage: the scaling and
/// the reading are inverse to each other on every percentage that a device
/// can take.
pub proof fn lemma_scaled_volume_shows_percent(volume: Volume, percent: int)
    requires
        volume.scaled(percent) is Some,
    ensures
        volume.scaled(percent)->0.percentage() == percent,
        volume.scaled(percent)->0.level <= volume.limit,
        volume.scaled(percent)->0.limit == volume.limit,
{
    lemma_scale_round_trip(percent);
}

/// A muted device shows zero, whatever its level.
pub proof fn lemma_muted_shows_zero(device: DeviceView)
    requires
        device.is_mute,
    ensures
        device.percentage() == 0,
{
}

/// While the default device is muted the percentage to show is zero.
pub proof fn lemma_muted_default_shows_zero(devices: Seq<DeviceView>, name: Seq<char>)
    requires
        find_routed(devices, name) matches Some(device) && device.is_mute,
    ensures
        derived_percentage(devices, name) == 0,
{
}

/// Whether no two devices of a list share a name.
pub open spec fn names_unique(devices: Seq<DeviceView>) -> bool {
    forall|i: int, j: int|
        0 <= i < j < devices.len() ==> (#[trigger] devices[i]).name != (#[trigger] devices[j]).name
}

/// A lookup by name finds the device of the lowest index that has the name,
/// and nothing exactly when no device has it.
pub proof fn lemma_find_by_name_is_first(devices: Seq<DeviceView>, name: Seq<char>)
    ensures
        match find_by_name(devices, name) {
            Some(device) => exists|i: int|
                0 <= i < devices.len() && #[trigger] devices[i] == device && device.name == name
                    && forall|j: int| 0 <= j < i ==> (#[trigger] devices[j]).name != name,
            None => forall|i: int| 0 <= i < devices.len() ==> (#[trigger] devices[i]).name != name,
        },
    decreases devices.len(),
{
    if devices.len() > 0 {
        if devices[0].name == name {
            assert(devices[0] == devices[0]);
        } else {
            let rest = devices.drop_first();
            lemma_find_by_name_is_first(rest, name);
            match find_by_name(rest, name) {
                Some(device) => {
                    let i = choose|i: int|
                        0 <= i < rest.len() && #[trigger] rest[i] == device && device.name == name
                            && forall|j: int| 0 <= j < i ==> (#[trigger] rest[j]).name != name;
                    assert(devices[i + 1] == device);
                    assert forall|j: int| 0 <= j < i + 1 implies (#[trigger] devices[j]).name
                        != name by {
                        if j > 0 {
                            assert(rest[j - 1] == devices[j]);
                        }
                    }
                },
                None => {
                    assert forall|i: int| 0 <= i < devices.len() implies (#[trigger] devices[i]).name
                        != name by {
                        if i > 0 {
                            assert(rest[i - 1] == devices[i]);
                        }
                    }
                },
            }
        }
    }
}

/// The same for the routed device: the lookup finds the device of the lowest
/// index that has the name and an active port.
pub proof fn lemma_find_routed_is_first(devices: Seq<DeviceView>, name: Seq<char>)
    ensures
        match find_routed(devices, name) {
            Some(device) => exists|i: int|
                0 <= i < devices.len() && #[trigger] devices[i] == device && device.is_routed(name)
                    && forall|j: int| 0 <= j < i ==> !(#[trigger] devices[j]).is_routed(name),
            None => forall|i: int|
                0 <= i < devices.len() ==> !(#[trigger] devices[i]).is_routed(name),
        },
    decreases devices.len(),
{
    if devices.len() > 0 {
        if devices[0].is_routed(name) {
            assert(devices[0] == devices[0]);
        } else {
            let rest = devices.drop_first();
            lemma_find_routed_is_first(rest, name);
            match find_routed(rest, name) {
                Some(device) => {
                    let i = choose|i: int|
                        0 <= i < rest.len() && #[trigger] rest[i] == device && device.is_routed(
                            name,
                        ) && forall|j: int| 0 <= j < i ==> !(#[trigger] rest[j]).is_routed(name);
                    assert(devices[i + 1] == device);
                    assert forall|j: int| 0 <= j < i + 1 implies !(#[trigger] devices[j]).is_routed(
                        name,
                    ) by {
                        if j > 0 {
                            assert(rest[j - 1] == devices[j]);
                        }
                    }
                },
                None => {
                    assert forall|i: int| 0 <= i < devices.len() implies !(
                    #[trigger] devices[i]).is_routed(name) by {
                        if i > 0 {
                            assert(rest[i - 1] == devices[i]);
                        }
                    }
                },
            }
        }
    }
}

/// Where names are unique a lookup by name is unambiguous: it finds each
/// device under its own name, and the routed device is the device of that
/// name if it has an active port.
pub proof fn lemma_lookup_is_unambiguous(devices: Seq<DeviceView>, i: int)
    requires
        names_unique(devices),
        0 <= i < devices.len(),
    ensures
        find_by_name(devices, devices[i].name) == Some(devices[i]),
        find_routed(devices, devices[i].name) == (if devices[i].has_active_port() {
            Some(devices[i])
        } else {
            None
        }),
{
    let name = devices[i].name;
    lemma_find_by_name_is_first(devices, name);
    lemma_find_routed_is_first(devices, name);
    match find_by_name(devices, name) {
        Some(device) => {
            let k = choose|k: int|
                0 <= k < devices.len() && #[trigger] devices[k] == device && device.name == name
                    && forall|j: int| 0 <= j < k ==> (#[trigger] devices[j]).name != name;
            assert(k == i);
        },
        None => {},
    }
    match find_routed(devices, name) {
        Some(device) => {
            let k = choose|k: int|
                0 <= k < devices.len() && #[trigger] devices[k] == device && device.is_routed(name)
                    && forall|j: int| 0 <= j < k ==> !(#[trigger] devices[j]).is_routed(name);
            assert(k == i);
        },
        None => {},
    }
}

} // verus!
