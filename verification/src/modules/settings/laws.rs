//! What holds of the reducer over every state and every message.

use crate::modules::settings::menu::slider_of;
use crate::modules::settings::{
    mute_request, toggled, AudioMessage, BatteryMessage, Message, SettingsView, SubMenu,
};
use crate::utils::audio::{
    devices_view, find_by_name, find_routed, lemma_find_by_name_is_first,
    lemma_scaled_volume_shows_percent, names_unique, percentage_of, AudioCommandView, DeviceView,
    Role,
};
use vstd::prelude::*;

verus! {

/// The state after a run of messages, applied in order.
pub open spec fn apply_all(state: SettingsView, messages: Seq<Message>) -> SettingsView
    decreases messages.len(),
{
    if messages.len() == 0 {
        state
    } else {
        apply_all(state, messages.drop_last()).apply(messages.last())
    }
}

/// Whether the shown sink percentage is the one that the sink list and the
/// default sink give.
pub open spec fn sink_in_sync(state: SettingsView) -> bool {
    state.cur_sink_volume == state.sink_percentage()
}

/// Whether the shown source percentage is the one that the source list and
/// the default source give.
pub open spec fn source_in_sync(state: SettingsView) -> bool {
    state.cur_source_volume == state.source_percentage()
}

/// Whether a message reports the sink list or the default devices.
pub open spec fn reports_sinks(message: Message) -> bool {
    message matches Message::Audio(event) && !(event is SourceChanges)
}

/// Whether a message reports the source list or the default devices.
pub open spec fn reports_sources(message: Message) -> bool {
    message matches Message::Audio(event) && !(event is SinkChanges)
}

/// Whether a message comes from the battery or the network monitor.
pub open spec fn is_battery_or_net(message: Message) -> bool {
    message is Battery || message is Net
}

/// A report of the sink list or of the default devices brings the shown sink
/// percentage in line with them, whatever was shown before: zero where no
/// sink with the default name has an active port or that sink is muted, else
/// the rounded percentage of its level.
pub proof fn lemma_sink_report_recomputes(state: SettingsView, message: Message)
    requires
        reports_sinks(message),
    ensures
        sink_in_sync(state.apply(message)),
        state.apply(message).cur_sink_volume == (match find_routed(
            state.apply(message).sinks,
            state.apply(message).default_sink,
        ) {
            Some(sink) => if sink.is_mute {
                0
            } else {
                percentage_of(sink.volume.level as int)
            },
            None => 0,
        }),
{
}

/// The same for sources.
pub proof fn lemma_source_report_recomputes(state: SettingsView, message: Message)
    requires
        reports_sources(message),
    ensures
        source_in_sync(state.apply(message)),
{
}

/// Only a volume intent for the sink can take the shown sink percentage away
/// from what the devices give: every other message keeps them in line.
pub proof fn lemma_sink_sync_kept(state: SettingsView, message: Message)
    requires
        sink_in_sync(state),
        !(message is SinkVolumeChanged),
    ensures
        sink_in_sync(state.apply(message)),
{
}

/// The same for sources.
pub proof fn lemma_source_sync_kept(state: SettingsView, message: Message)
    requires
        source_in_sync(state),
        !(message is SourceVolumeChanged),
    ensures
        source_in_sync(state.apply(message)),
{
}

/// After any run of messages that holds a report of the sinks or of the
/// default devices and no sink volume intent, in whatever order the monitors
/// delivered them, the shown sink percentage is the one of the default sink.
pub proof fn lemma_sink_sync_after_events(state: SettingsView, messages: Seq<Message>)
    requires
        forall|i: int| 0 <= i < messages.len() ==> !(#[trigger] messages[i] is SinkVolumeChanged),
        sink_in_sync(state) || exists|i: int|
            0 <= i < messages.len() && reports_sinks(#[trigger] messages[i]),
    ensures
        sink_in_sync(apply_all(state, messages)),
    decreases messages.len(),
{
    if messages.len() > 0 {
        let before = messages.drop_last();
        let last = messages.last();
        if reports_sinks(last) {
            lemma_sink_report_recomputes(apply_all(state, before), last);
        } else {
            if !sink_in_sync(state) {
                let i = choose|i: int| 0 <= i < messages.len() && reports_sinks(#[trigger] messages[i]);
                assert(i < before.len());
                assert(before[i] == messages[i]);
            }
            assert forall|i: int| 0 <= i < before.len() implies !(#[trigger] before[i]
                is SinkVolumeChanged) by {
                assert(before[i] == messages[i]);
            }
            lemma_sink_sync_after_events(state, before);
            lemma_sink_sync_kept(apply_all(state, before), last);
        }
    }
}

/// The same for sources.
pub proof fn lemma_source_sync_after_events(state: SettingsView, messages: Seq<Message>)
    requires
        forall|i: int|
            0 <= i < messages.len() ==> !(#[trigger] messages[i] is SourceVolumeChanged),
        source_in_sync(state) || exists|i: int|
            0 <= i < messages.len() && reports_sources(#[trigger] messages[i]),
    ensures
        source_in_sync(apply_all(state, messages)),
    decreases messages.len(),
{
    if messages.len() > 0 {
        let before = messages.drop_last();
        let last = messages.last();
        if reports_sources(last) {
            lemma_source_report_recomputes(apply_all(state, before), last);
        } else {
            if !source_in_sync(state) {
                let i = choose|i: int|
                    0 <= i < messages.len() && reports_sources(#[trigger] messages[i]);
                assert(i < before.len());
                assert(before[i] == messages[i]);
            }
            assert forall|i: int| 0 <= i < before.len() implies !(#[trigger] before[i]
                is SourceVolumeChanged) by {
                assert(before[i] == messages[i]);
            }
            lemma_source_sync_after_events(state, before);
            lemma_source_sync_kept(apply_all(state, before), last);
        }
    }
}

/// Events of the battery and of the network touch nothing that audio events
/// touch: the two can arrive in either order.
pub proof fn lemma_audio_commutes_with_battery_and_net(
    state: SettingsView,
    audio: Message,
    other: Message,
)
    requires
        audio is Audio,
        is_battery_or_net(other),
    ensures
        state.apply(audio).apply(other) == state.apply(other).apply(audio),
{
}

/// A report of the sink list and a report of the source list can arrive in
/// either order.
pub proof fn lemma_sink_list_commutes_with_source_list(
    state: SettingsView,
    sinks: Message,
    sources: Message,
)
    requires
        sinks matches Message::Audio(AudioMessage::SinkChanges(_)),
        sources matches Message::Audio(AudioMessage::SourceChanges(_)),
    ensures
        state.apply(sinks).apply(sources) == state.apply(sources).apply(sinks),
{
}

/// Messages of other roles leave the sink list, the default sink and the
/// shown sink percentage as they were.
pub proof fn lemma_sink_untouched_by_other_roles(state: SettingsView, message: Message)
    requires
        is_battery_or_net(message) || message matches Message::Audio(
            AudioMessage::SourceChanges(_),
        ),
    ensures
        state.apply(message).sinks == state.sinks,
        state.apply(message).default_sink == state.default_sink,
        state.apply(message).cur_sink_volume == state.cur_sink_volume,
{
}

/// Toggling a submenu that is not open opens it alone, and toggling it once
/// more closes it: no submenu is open then.
pub proof fn lemma_toggle_twice_closes(current: Option<SubMenu>, requested: SubMenu)
    requires
        current != Some(requested),
    ensures
        toggled(current, requested) == Some(requested),
        toggled(toggled(current, requested), requested) == None::<SubMenu>,
{
}

/// Toggling the open submenu closes it; toggling another one opens exactly
/// that one.
pub proof fn lemma_toggle_is_exclusive(open: SubMenu, requested: SubMenu)
    ensures
        requested == open ==> toggled(Some(open), requested) == None::<SubMenu>,
        requested != open ==> toggled(Some(open), requested) == Some(requested),
{
}

/// The reducer toggles submenus by `toggled` and changes nothing else on such
/// a message.
pub proof fn lemma_submenu_message(state: SettingsView, requested: SubMenu)
    ensures
        state.apply(Message::ToggleSubMenu(requested)) == (SettingsView {
            sub_menu: toggled(state.sub_menu, requested),
            ..state
        }),
{
}

/// A volume intent shows at once: the shown percentage is the requested one
/// whether or not a command could be submitted, and the device lists and the
/// default names stay as they were.
pub proof fn lemma_volume_intent_shows_at_once(state: SettingsView, percent: i32)
    ensures
        state.apply(Message::SinkVolumeChanged(percent)).cur_sink_volume == percent,
        state.apply(Message::SinkVolumeChanged(percent)).sinks == state.sinks,
        state.apply(Message::SinkVolumeChanged(percent)).default_sink == state.default_sink,
        state.apply(Message::SourceVolumeChanged(percent)).cur_source_volume == percent,
        state.apply(Message::SourceVolumeChanged(percent)).sources == state.sources,
        state.apply(Message::SourceVolumeChanged(percent)).default_source
            == state.default_source,
{
}

/// Commands leave in the order of the messages that caused them: what was
/// submitted before stays in front, then comes the command of the first
/// message, then that of the second.
pub proof fn lemma_commands_keep_order(state: SettingsView, first: Message, second: Message)
    ensures
        state.apply(first).apply(second).submitted == state.submitted + (match state.command(
            first,
        ) {
            Some(command) => seq![command],
            None => seq![],
        }) + (match state.apply(first).command(second) {
            Some(command) => seq![command],
            None => seq![],
        }),
{
}

/// A volume intent that the default device cannot take shows all the same,
/// and submits nothing: the queue of commands stays as it was.
pub proof fn lemma_volume_out_of_range_submits_nothing(state: SettingsView, percent: i32)
    requires
        find_by_name(state.sinks, state.default_sink) matches Some(sink) && sink.volume.scaled(
            percent as int,
        ) is None,
    ensures
        state.apply(Message::SinkVolumeChanged(percent)).submitted == state.submitted,
        state.apply(Message::SinkVolumeChanged(percent)).cur_sink_volume == percent,
{
}

/// A volume intent that the default device can take submits one command: the
/// volume whose percentage is the requested one, for the default device.
pub proof fn lemma_volume_in_range_submits_it(state: SettingsView, percent: i32)
    requires
        find_by_name(state.sinks, state.default_sink) matches Some(sink) && sink.volume.scaled(
            percent as int,
        ) is Some,
    ensures
        state.apply(Message::SinkVolumeChanged(percent)).submitted.len() == state.submitted.len()
            + 1,
        state.apply(Message::SinkVolumeChanged(percent)).submitted.last() matches AudioCommandView::SinkVolume(
            name,
            volume,
        ) && name == state.default_sink && volume.percentage() == percent,
{
    let sink = find_by_name(state.sinks, state.default_sink)->0;
    lemma_find_by_name_is_first(state.sinks, state.default_sink);
    lemma_scaled_volume_shows_percent(sink.volume, percent as int);
}

/// Only the audio monitor changes the device lists and the default names: no
/// intent of the user is taken to have had its effect before the monitor
/// confirms it.
pub proof fn lemma_only_reports_change_devices(state: SettingsView, message: Message)
    requires
        !(message is Audio),
    ensures
        state.apply(message).sinks == state.sinks,
        state.apply(message).sources == state.sources,
        state.apply(message).default_sink == state.default_sink,
        state.apply(message).default_source == state.default_source,
{
}

/// Whether the device lists that a message carries, if it carries any, hold
/// each name once.
pub open spec fn carries_unique_names(message: Message) -> bool {
    match message {
        Message::Audio(AudioMessage::SinkChanges(sinks)) => names_unique(devices_view(sinks@)),
        Message::Audio(AudioMessage::SourceChanges(sources)) => names_unique(
            devices_view(sources@),
        ),
        _ => true,
    }
}

/// As long as the audio monitor reports each name once, each list of the
/// state holds each name once, whatever else happens.
pub proof fn lemma_unique_names_kept(state: SettingsView, message: Message)
    requires
        names_unique(state.sinks),
        names_unique(state.sources),
        carries_unique_names(message),
    ensures
        names_unique(state.apply(message).sinks),
        names_unique(state.apply(message).sources),
{
}

/// The slider stands for the default device. Where the list holds a device
/// of the default name, the slider shows the mute flag of that device,
/// whichever other devices have an active port, and a mute toggle asks for
/// the opposite of what the slider shows.
pub proof fn lemma_slider_shows_the_default_device(
    devices: Seq<DeviceView>,
    default_name: Seq<char>,
    volume: int,
    role: Role,
)
    requires
        slider_of(devices, default_name, volume, role) is Some,
        find_by_name(devices, default_name) is Some,
    ensures
        slider_of(devices, default_name, volume, role)->0.is_mute == find_by_name(
            devices,
            default_name,
        )->0.is_mute,
        mute_request(devices, default_name, role) == Some(
            match role {
                Role::Sink => AudioCommandView::SinkMute(
                    default_name,
                    !slider_of(devices, default_name, volume, role)->0.is_mute,
                ),
                Role::Source => AudioCommandView::SourceMute(
                    default_name,
                    !slider_of(devices, default_name, volume, role)->0.is_mute,
                ),
            },
        ),
{
}

/// Monitor events submit nothing.
pub proof fn lemma_events_submit_nothing(state: SettingsView, message: Message)
    requires
        message is Battery || message is Net || message is Audio,
    ensures
        state.apply(message).submitted == state.submitted,
{
}

/// A first battery report fills in what it does not carry; later reports
/// change only what they carry.
pub proof fn lemma_battery_reports(state: SettingsView, event: BatteryMessage)
    ensures
        state.apply(Message::Battery(event)).battery_data is Some,
        event matches BatteryMessage::PercentageChanged(c) ==> state.apply(
            Message::Battery(event),
        ).battery_data->0.capacity == c,
        event matches BatteryMessage::StatusChanged(s) ==> state.apply(
            Message::Battery(event),
        ).battery_data->0.status == s,
        (event is PercentageChanged && state.battery_data is Some) ==> state.apply(
            Message::Battery(event),
        ).battery_data->0.status == state.battery_data->0.status,
        (event is StatusChanged && state.battery_data is Some) ==> state.apply(
            Message::Battery(event),
        ).battery_data->0.capacity == state.battery_data->0.capacity,
{
}

} // verus!
