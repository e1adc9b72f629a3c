//! What the settings menu shows, worked out from the device lists: the
//! sliders, the entries of the device pickers, and the order of the sections.

use crate::modules::settings::{Message, SubMenu};
use crate::utils::audio::{
    devices_view, find_by_name, find_device, Device, DeviceType, DeviceView, PortView, Role,
};
use vstd::prelude::*;
use vstd::string::StringExecFns;

verus! {

/// One line of a device picker: a port of a device, and the message that
/// makes it the default.
#[derive(Debug, Clone)]
pub struct SubmenuEntry {
    pub name: String,
    pub device: DeviceType,
    pub active: bool,
    pub msg: Message,
}

/// What a picker line asks for: a device and one of its ports as the default
/// of a role.
#[verifier::ext_equal]
pub struct Pick {
    pub role: Role,
    pub device: Seq<char>,
    pub port: Seq<char>,
}

/// Mathematical model of a `SubmenuEntry`. `pick` is none where the message
/// of the entry asks for no default device.
#[verifier::ext_equal]
pub struct SubmenuEntryView {
    pub name: Seq<char>,
    pub device: DeviceType,
    pub active: bool,
    pub pick: Option<Pick>,
}

/// What a message asks to make the default, if that is what it asks.
pub open spec fn pick_of(message: Message) -> Option<Pick> {
    match message {
        Message::DefaultSinkChanged(device, port) => Some(
            Pick { role: Role::Sink, device: device@, port: port@ },
        ),
        Message::DefaultSourceChanged(device, port) => Some(
            Pick { role: Role::Source, device: device@, port: port@ },
        ),
        _ => None,
    }
}

impl View for SubmenuEntry {
    type V = SubmenuEntryView;

    open spec fn view(&self) -> SubmenuEntryView {
        SubmenuEntryView {
            name: self.name@,
            device: self.device,
            active: self.active,
            pick: pick_of(self.msg),
        }
    }
}

/// The model of a list of entries.
pub open spec fn entries_view(entries: Seq<SubmenuEntry>) -> Seq<SubmenuEntryView> {
    entries.map_values(|e: SubmenuEntry| e@)
}

/// The picker line of one port: it is labelled with the port and its device,
/// marked active if the port is active and its device is the default, and
/// picks that device and port.
pub open spec fn entry_of(
    device: DeviceView,
    port: PortView,
    default_name: Seq<char>,
    role: Role,
) -> SubmenuEntryView {
    SubmenuEntryView {
        name: port.description + ": "@ + device.description,
        device: port.device_type,
        active: port.active && device.name == default_name,
        pick: Some(Pick { role, device: device.name, port: port.name }),
    }
}

/// The picker lines of one device, one for each port, in the order of the
/// ports.
pub open spec fn device_entries(
    device: DeviceView,
    default_name: Seq<char>,
    role: Role,
) -> Seq<SubmenuEntryView> {
    device.ports.map_values(|port: PortView| entry_of(device, port, default_name, role))
}

/// The picker lines of a device list: those of each device, in the order of
/// the list.
pub open spec fn entries_of(
    devices: Seq<DeviceView>,
    default_name: Seq<char>,
    role: Role,
) -> Seq<SubmenuEntryView>
    decreases devices.len(),
{
    if devices.len() == 0 {
        Seq::empty()
    } else {
        entries_of(devices.drop_last(), default_name, role) + device_entries(
            devices.last(),
            default_name,
            role,
        )
    }
}

/// The number of ports of all the devices of a list.
pub open spec fn total_ports(devices: Seq<DeviceView>) -> nat
    decreases devices.len(),
{
    if devices.len() == 0 {
        0
    } else {
        total_ports(devices.drop_last()) + devices.last().ports.len()
    }
}

/// Whether a device of the list has an active port.
pub open spec fn any_active(devices: Seq<DeviceView>) -> bool {
    exists|i: int| 0 <= i < devices.len() && (#[trigger] devices[i]).has_active_port()
}

/// The mute flag of the default device: that of the first device called
/// `default_name`, and not muted where the list holds no such device.
pub open spec fn default_is_mute(devices: Seq<DeviceView>, default_name: Seq<char>) -> bool {
    match find_by_name(devices, default_name) {
        Some(device) => device.is_mute,
        None => false,
    }
}

/// A volume slider of the settings menu.
#[derive(Debug, Clone, Copy, PartialEq, Eq, Structural)]
pub struct Slider {
    pub role: Role,
    /// Whether the default device of the role is muted.
    pub is_mute: bool,
    /// The percentage at which the slider stands.
    pub volume: i32,
    /// Whether the slider comes with the button that opens its picker.
    pub has_picker: bool,
}

/// The slider of a role: there is one if a device of the list has an active
/// port. It stands for the default device: it shows the mute flag of the
/// device called `default_name`, the one that a mute toggle acts on, and the
/// percentage of the state. It offers the picker if the list has more than
/// one port in all.
pub open spec fn slider_of(
    devices: Seq<DeviceView>,
    default_name: Seq<char>,
    volume: int,
    role: Role,
) -> Option<Slider> {
    if any_active(devices) {
        Some(
            Slider {
                role,
                is_mute: default_is_mute(devices, default_name),
                volume: volume as i32,
                has_picker: total_ports(devices) > 1,
            },
        )
    } else {
        None
    }
}

/// A part of the settings menu.
#[derive(Debug, Clone, Copy, PartialEq, Eq, Structural)]
pub enum Section {
    Header,
    PowerMenu,
    SinkSlider,
    SinkPicker,
    SourceSlider,
    SourcePicker,
}

/// One section if it is shown, none if it is not.
pub open spec fn shown(section: Section, present: bool) -> Seq<Section> {
    if present {
        seq![section]
    } else {
        seq![]
    }
}

/// The sections of the settings menu from top to bottom. The header comes
/// first; a slider is there if its role has one; the open submenu stands
/// below the header if it is the power menu, and below its slider if it is a
/// picker.
pub open spec fn sections_of(
    sub_menu: Option<SubMenu>,
    sink_slider: bool,
    source_slider: bool,
) -> Seq<Section> {
    seq![Section::Header] + shown(Section::PowerMenu, sub_menu == Some(SubMenu::Power)) + shown(
        Section::SinkSlider,
        sink_slider,
    ) + shown(Section::SinkPicker, sub_menu == Some(SubMenu::Sinks)) + shown(
        Section::SourceSlider,
        source_slider,
    ) + shown(Section::SourcePicker, sub_menu == Some(SubMenu::Sources))
}

/// A longer list has no fewer ports than its beginning.
pub proof fn lemma_total_ports_grows(devices: Seq<DeviceView>, n: int)
    requires
        0 <= n <= devices.len(),
    ensures
        total_ports(devices.take(n)) <= total_ports(devices),
    decreases devices.len() - n,
{
    if n == devices.len() {
        assert(devices.take(n) == devices);
    } else {
        assert(devices.take(n + 1).drop_last() == devices.take(n));
        lemma_total_ports_grows(devices, n + 1);
    }
}

/// There are as many picker lines as ports.
pub proof fn lemma_one_entry_for_each_port(
    devices: Seq<DeviceView>,
    default_name: Seq<char>,
    role: Role,
)
    ensures
        entries_of(devices, default_name, role).len() == total_ports(devices),
    decreases devices.len(),
{
    if devices.len() > 0 {
        lemma_one_entry_for_each_port(devices.drop_last(), default_name, role);
    }
}

/// Whether the devices of a list have more than one port in all.
pub fn has_several_ports(devices: &Vec<Device>) -> (several: bool)
    ensures
        several == (total_ports(devices_view(devices@)) > 1),
{
    let ghost all = devices_view(devices@);
    let mut seen: usize = 0;
    let mut i: usize = 0;
    assert(all.take(0).len() == 0);
    while i < devices.len()
        invariant
            i <= devices.len(),
            all == devices_view(devices@),
            seen <= 1,
            seen == total_ports(all.take(i as int)),
        decreases devices.len() - i,
    {
        let count = devices[i].ports.len();
        proof {
            assert(all.take(i + 1).drop_last() == all.take(i as int));
            assert(all.take(i + 1).last() == devices[i as int]@);
            assert(devices[i as int]@.ports.len() == count);
        }
        if count > 1 - seen {
            proof {
                lemma_total_ports_grows(all, i + 1);
            }
            return true;
        }
        seen = seen + count;
        i += 1;
    }
    assert(all.take(i as int) == all);
    false
}

/// Whether a device of the list has an active port. A linear search: the
/// lists hold a handful of devices.
pub fn has_active_device(devices: &Vec<Device>) -> (active: bool)
    ensures
        active == any_active(devices_view(devices@)),
{
    let ghost all = devices_view(devices@);
    let mut i: usize = 0;
    while i < devices.len()
        invariant
            i <= devices.len(),
            all == devices_view(devices@),
            forall|j: int| 0 <= j < i ==> !(#[trigger] all[j]).has_active_port(),
        decreases devices.len() - i,
    {
        assert(all[i as int] == devices[i as int]@);
        if devices[i].has_active_port() {
            return true;
        }
        i += 1;
    }
    false
}

/// Works out the slider of a role from its device list, the name of its
/// default device and the percentage of the state.
pub fn slider(devices: &Vec<Device>, default_name: &String, volume: i32, role: Role) -> (slider:
    Option<Slider>)
    ensures
        slider == slider_of(devices_view(devices@), default_name@, volume as int, role),
{
    if has_active_device(devices) {
        let is_mute = match find_device(devices, default_name) {
            Some(device) => device.is_mute,
            None => false,
        };
        Some(Slider { role, is_mute, volume, has_picker: has_several_ports(devices) })
    } else {
        None
    }
}

/// Works out the lines of the picker of a role. The lists hold a handful of
/// devices with a few ports each.
pub fn submenu_entries(devices: &Vec<Device>, default_name: &String, role: Role) -> (entries: Vec<
    SubmenuEntry,
>)
    ensures
        entries_view(entries@) == entries_of(devices_view(devices@), default_name@, role),
{
    let ghost all = devices_view(devices@);
    let mut entries: Vec<SubmenuEntry> = Vec::new();
    let mut i: usize = 0;
    assert(all.take(0).len() == 0);
    while i < devices.len()
        invariant
            i <= devices.len(),
            all == devices_view(devices@),
            entries_view(entries@) == entries_of(all.take(i as int), default_name@, role),
        decreases devices.len() - i,
    {
        let device = &devices[i];
        let is_default = device.name == *default_name;
        let ghost before = entries_view(entries@);
        let ghost lines = device_entries(device@, default_name@, role);
        let mut j: usize = 0;
        while j < device.ports.len()
            invariant
                j <= device.ports.len(),
                lines == device_entries(device@, default_name@, role),
                is_default == (device@.name == default_name@),
                entries_view(entries@) == before + lines.take(j as int),
            decreases device.ports.len() - j,
        {
            let port = &device.ports[j];
            let mut name = port.description.clone();
            name.append(": ");
            name.append(device.description.as_str());
            let msg = match role {
                Role::Sink => Message::DefaultSinkChanged(device.name.clone(), port.name.clone()),
                Role::Source => Message::DefaultSourceChanged(
                    device.name.clone(),
                    port.name.clone(),
                ),
            };
            let entry = SubmenuEntry {
                name,
                device: port.device_type,
                active: port.active && is_default,
                msg,
            };
            proof {
                assert(device@.ports[j as int] == port@);
                assert(entry@ == lines[j as int]);
                assert(lines.take(j + 1) == lines.take(j as int).push(lines[j as int]));
                assert(entries_view(entries@.push(entry)) == entries_view(entries@).push(entry@));
            }
            entries.push(entry);
            j += 1;
        }
        proof {
            assert(lines.take(j as int) == lines);
            assert(all.take(i + 1).drop_last() == all.take(i as int));
            assert(all.take(i + 1).last() == device@);
        }
        i += 1;
    }
    assert(all.take(i as int) == all);
    entries
}

/// Lists the sections of the settings menu from top to bottom.
pub fn sections(sub_menu: Option<SubMenu>, sink_slider: bool, source_slider: bool) -> (sections:
    Vec<Section>)
    ensures
        sections@ == sections_of(sub_menu, sink_slider, source_slider),
{
    let mut sections: Vec<Section> = Vec::new();
    sections.push(Section::Header);
    if sub_menu == Some(SubMenu::Power) {
        sections.push(Section::PowerMenu);
    }
    if sink_slider {
        sections.push(Section::SinkSlider);
    }
    if sub_menu == Some(SubMenu::Sinks) {
        sections.push(Section::SinkPicker);
    }
    if source_slider {
        sections.push(Section::SourceSlider);
    }
    if sub_menu == Some(SubMenu::Sources) {
        sections.push(Section::SourcePicker);
    }
    sections
}

} // verus!
