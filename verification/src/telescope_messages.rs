//! Messages about a telescope and its devices.

use vstd::prelude::*;
use crate::calendar::{format_zoned, zoned_text, Moment};
use crate::chat::{message_at, ChatMessage, MessageView};
use crate::colors;
use crate::double::Double;
use crate::event_messages::{
    with_failed_item, with_outcome, with_slew_details, add_slew_details, add_failed_item,
    add_outcome, filter_label, filter_text, short,
};
use crate::event_types::{event_kind, EventKind};
use crate::events::{Event, EventDetails, FilterInfo};
use crate::operation_messages::{titled, titled_text};
use crate::status::truncate_chat_value;
use crate::text::{cat2, cat3, cat4, dec, dec_int, decimal, decimal_int, same};
use crate::updater_state::{StateView, TargetInfo, UpdaterState};

verus! {

/// The mount as it is now.
#[derive(Debug)]
pub struct MountSnapshot {
    pub ra: String,
    pub dec: String,
    pub altitude: String,
    pub azimuth: String,
    pub side_of_pier: String,
    pub tracking_enabled: bool,
}

/// Guiding errors in seconds of arc.
#[derive(Clone, Copy, Debug, PartialEq, Eq, Structural)]
pub struct GuidingError {
    pub total: Double,
    pub ra: Double,
    pub dec: Double,
}

/// The guider as it is now.
#[derive(Debug)]
pub struct GuiderSnapshot {
    pub state: String,
    pub pixel_scale: Double,
    pub rms_error: Option<GuidingError>,
}

/// The rotator as it is now.
#[derive(Clone, Copy, Debug, PartialEq, Eq, Structural)]
pub struct RotatorSnapshot {
    pub position: Double,
    pub mechanical_position: Double,
    pub synced: bool,
}

/// The focuser as it is now.
#[derive(Clone, Copy, Debug, PartialEq, Eq, Structural)]
pub struct FocuserSnapshot {
    pub position: i32,
    pub temperature: Double,
    pub temp_comp_available: bool,
    pub temp_comp: bool,
}

/// What is known of a captured image.
#[derive(Debug)]
pub struct ImageMetadata {
    pub chat_enabled: bool,
    pub date: String,
    pub image_type: String,
    pub camera_name: String,
    pub telescope_name: String,
    pub filter: String,
    pub rms_text: String,
    pub exposure_time: Double,
    pub temperature: Double,
    pub stars: i32,
    pub hfr: Double,
    pub mean: Double,
    pub median: Double,
    pub st_dev: Double,
}

/// With the mount as it is now, where that is known.
pub open spec fn with_mount(m: MessageView, mount: Option<MountSnapshot>) -> MessageView {
    match mount {
        None => m,
        Some(s) => {
            let a = m.with("Mount Position"@, "RA: "@ + s.ra@ + "\nDec: "@ + s.dec@, true);
            let b = if s.altitude@.len() > 0 && s.azimuth@.len() > 0 {
                a.with("Alt/Az"@, "Alt: "@ + s.altitude@ + "\nAz: "@ + s.azimuth@, true)
            } else {
                a
            };
            b.with("Pier Side"@, s.side_of_pier@, true).with(
                "Tracking"@,
                if s.tracking_enabled {
                    "✅ Enabled"@
                } else {
                    "❌ Disabled"@
                },
                true,
            )
        },
    }
}

pub fn add_mount_info(message: ChatMessage, mount: &Option<MountSnapshot>) -> (r: ChatMessage)
    ensures
        r@ == with_mount(message@, *mount),
{
    match mount {
        None => message,
        Some(s) => {
            let position = cat4("RA: ", s.ra.as_str(), "\nDec: ", s.dec.as_str());
            let mut m = message.field("Mount Position", position.as_str(), true);
            if !s.altitude.as_str().is_empty() && !s.azimuth.as_str().is_empty() {
                let sky = cat4("Alt: ", s.altitude.as_str(), "\nAz: ", s.azimuth.as_str());
                m = m.field("Alt/Az", sky.as_str(), true);
            }
            m.field("Pier Side", s.side_of_pier.as_str(), true).field(
                "Tracking",
                if s.tracking_enabled {
                    "✅ Enabled"
                } else {
                    "❌ Disabled"
                },
                true,
            )
        },
    }
}

/// With the time until the meridian flip, where it is known.
pub open spec fn with_flip(m: MessageView, flip: Option<String>) -> MessageView {
    match flip {
        Some(text) => m.with("Meridian Flip In"@, text@, true),
        None => m,
    }
}

pub fn add_meridian_flip_info(message: ChatMessage, flip: &Option<String>) -> (r: ChatMessage)
    ensures
        r@ == with_flip(message@, *flip),
{
    match flip {
        Some(text) => message.field("Meridian Flip In", text.as_str(), true),
        None => message,
    }
}

/// With the current target, where there is one.
pub open spec fn with_target(m: MessageView, name: Seq<char>, target: Option<TargetInfo>) -> MessageView {
    match target {
        Some(t) => m.with(name, t.name@, true),
        None => m,
    }
}

fn add_target(message: ChatMessage, name: &str, target: &Option<TargetInfo>) -> (r: ChatMessage)
    ensures
        r@ == with_target(message@, name@, *target),
{
    match target {
        Some(t) => message.field(name, t.name.as_str(), true),
        None => message,
    }
}

/// With a target's coordinates, where they are known.
pub open spec fn with_target_coordinates(m: MessageView, t: TargetInfo) -> MessageView {
    match t.coordinates {
        Some(c) => match c.display_text() {
            Some(text) => m.with("Coordinates"@, text, false),
            None => m,
        },
        None => m,
    }
}

pub fn add_target_coordinates(message: ChatMessage, t: &TargetInfo) -> (r: ChatMessage)
    ensures
        r@ == with_target_coordinates(message@, *t),
{
    match &t.coordinates {
        Some(c) => match c.display() {
            Some(text) => message.field("Coordinates", text.as_str(), false),
            None => message,
        },
        None => message,
    }
}

/// With a target's project.
pub open spec fn with_project(m: MessageView, t: TargetInfo) -> MessageView {
    match t.project {
        Some(p) => m.with("Project"@, p@, true),
        None => m,
    }
}

pub fn add_project(message: ChatMessage, t: &TargetInfo) -> (r: ChatMessage)
    ensures
        r@ == with_project(message@, *t),
{
    match &t.project {
        Some(p) => message.field("Project", p.as_str(), true),
        None => message,
    }
}

/// With a target's rotation.
pub open spec fn with_rotation(m: MessageView, t: TargetInfo) -> MessageView {
    match t.rotation {
        Some(n) => m.with("Rotation"@, n.plain_text() + "°"@, true),
        None => m,
    }
}

pub fn add_rotation(message: ChatMessage, t: &TargetInfo) -> (r: ChatMessage)
    ensures
        r@ == with_rotation(message@, *t),
{
    match t.rotation {
        Some(n) => message.field("Rotation", cat2(n.plain().as_str(), "°").as_str(), true),
        None => message,
    }
}

/// With all that is known of a target beyond its name.
pub open spec fn with_target_details(m: MessageView, t: TargetInfo) -> MessageView {
    let a = with_rotation(with_target_coordinates(with_project(m, t), t), t);
    match t.target_end_time {
        Some(end) => a.with("Scheduled End"@, zoned_text(end), true),
        None => a,
    }
}

fn add_target_details(message: ChatMessage, t: &TargetInfo) -> (r: ChatMessage)
    requires
        t.wf(),
    ensures
        r@ == with_target_details(message@, *t),
{
    let m = add_rotation(add_target_coordinates(add_project(message, t), t), t);
    match t.target_end_time {
        Some(end) => m.field("Scheduled End", format_zoned(end).as_str(), true),
        None => m,
    }
}

/// The message that the target has changed, or that the first one has started.
pub open spec fn target_message(
    telescope: Seq<char>,
    old_target: Option<TargetInfo>,
    new_target: TargetInfo,
    flip: Option<String>,
    mount: Option<MountSnapshot>,
    now: Moment,
) -> MessageView {
    let a = match old_target {
        Some(previous) => message_at(titled_text(telescope, "🎯 Target Change"@), now).colored(
            colors::CYAN,
        ).with("Previous Target"@, previous.name@, true).with(
            "New Target"@,
            new_target.name@,
            true,
        ),
        None => message_at(titled_text(telescope, "🎯 Target Started"@), now).colored(
            colors::GREEN,
        ).with("Target"@, new_target.name@, false),
    };
    with_mount(with_flip(with_target_details(a, new_target), flip), mount)
}

/// Writes the message that the target has changed, or that the first one has started.
pub fn target_change_message(
    telescope: &str,
    old_target: &Option<TargetInfo>,
    new_target: &TargetInfo,
    flip: &Option<String>,
    mount: &Option<MountSnapshot>,
    now: Moment,
) -> (r: ChatMessage)
    requires
        new_target.wf(),
        now.wf(),
    ensures
        r@ == target_message(telescope@, *old_target, *new_target, *flip, *mount, now),
{
    let m = match old_target {
        Some(previous) => ChatMessage::new_at(
            titled(telescope, "🎯 Target Change").as_str(),
            now,
        ).color(colors::CYAN).field("Previous Target", previous.name.as_str(), true).field(
            "New Target",
            new_target.name.as_str(),
            true,
        ),
        None => ChatMessage::new_at(titled(telescope, "🎯 Target Started").as_str(), now).color(
            colors::GREEN,
        ).field("Target", new_target.name.as_str(), false),
    };
    add_mount_info(add_meridian_flip_info(add_target_details(m, new_target), flip), mount)
}

/// The slew is told of late: it was noticed while under way.
pub open spec fn recovered_slew(event: Event) -> bool {
    event.details matches Some(EventDetails::MountSlewStarted { observed_in_progress, .. })
        && observed_in_progress == Some(true)
}

/// The title and the accent colour of a message about the mount.
pub open spec fn mount_heading(event: Event) -> (Seq<char>, u32) {
    match event.kind() {
        EventKind::MountBeforeFlip => ("🔄 Mount Preparing for Meridian Flip"@, colors::ORANGE),
        EventKind::MountAfterFlip => ("✅ Mount Meridian Flip Completed"@, colors::GREEN),
        EventKind::MountParked => ("🅿️ Mount Parked"@, colors::YELLOW),
        EventKind::MountUnparked => ("🔭 Mount Unparked"@, colors::YELLOW),
        EventKind::MountHomed => ("🏠 Mount Homed"@, colors::CYAN),
        EventKind::MountCenter => ("🎯 Centering Started"@, colors::CYAN),
        EventKind::MountSlewStarted => if recovered_slew(event) {
            ("🔭 Mount Slew Recovered"@, colors::BLUE)
        } else {
            ("🔭 Mount Slew Started"@, colors::BLUE)
        },
        EventKind::MountSlewed => ("🔭 Mount Slew Ended"@, colors::CYAN),
        _ => ("🔭 Mount Event"@, colors::GRAY),
    }
}

fn mount_head(event: &Event) -> (r: (&'static str, u32))
    ensures
        (r.0@, r.1) == mount_heading(*event),
{
    match event_kind(event.event.as_str()) {
        EventKind::MountBeforeFlip => ("🔄 Mount Preparing for Meridian Flip", colors::ORANGE),
        EventKind::MountAfterFlip => ("✅ Mount Meridian Flip Completed", colors::GREEN),
        EventKind::MountParked => ("🅿️ Mount Parked", colors::YELLOW),
        EventKind::MountUnparked => ("🔭 Mount Unparked", colors::YELLOW),
        EventKind::MountHomed => ("🏠 Mount Homed", colors::CYAN),
        EventKind::MountCenter => ("🎯 Centering Started", colors::CYAN),
        EventKind::MountSlewStarted => {
            let recovered: bool = match &event.details {
                Some(EventDetails::MountSlewStarted { observed_in_progress, .. }) => {
                    match observed_in_progress {
                        Some(observed) => *observed,
                        None => false,
                    }
                },
                _ => false,
            };
            if recovered {
                ("🔭 Mount Slew Recovered", colors::BLUE)
            } else {
                ("🔭 Mount Slew Started", colors::BLUE)
            }
        },
        EventKind::MountSlewed => ("🔭 Mount Slew Ended", colors::CYAN),
        _ => ("🔭 Mount Event", colors::GRAY),
    }
}

/// A message about a slew carries its own positions: where the mount is later says nothing of it.
pub open spec fn wants_mount_snapshot(kind: EventKind) -> bool {
    kind != EventKind::MountSlewStarted && kind != EventKind::MountSlewed
}

pub fn mount_snapshot_wanted(event: &Event) -> (r: bool)
    ensures
        r == wants_mount_snapshot(event.kind()),
{
    let kind: EventKind = event_kind(event.event.as_str());
    kind != EventKind::MountSlewStarted && kind != EventKind::MountSlewed
}

/// The message about an event of the mount.
pub open spec fn mount_message(
    telescope: Seq<char>,
    event: Event,
    target: Option<TargetInfo>,
    mount: Option<MountSnapshot>,
    now: Moment,
) -> MessageView {
    let (title, color) = mount_heading(event);
    let a = with_target(
        message_at(titled_text(telescope, title), now).colored(color).with(
            "Event"@,
            event.event@,
            true,
        ).with("Time"@, event.time@, true),
        "Current Target"@,
        target,
    );
    let b = match event.details {
        Some(details) => with_slew_details(a, details),
        None => a,
    };
    if wants_mount_snapshot(event.kind()) {
        with_mount(b, mount)
    } else {
        b
    }
}

pub fn mount_event_message(
    telescope: &str,
    event: &Event,
    target: &Option<TargetInfo>,
    mount: &Option<MountSnapshot>,
    now: Moment,
) -> (r: ChatMessage)
    requires
        now.wf(),
    ensures
        r@ == mount_message(telescope@, *event, *target, *mount, now),
{
    let (title, color): (&str, u32) = mount_head(event);
    let mut m = ChatMessage::new_at(titled(telescope, title).as_str(), now).color(color).field(
        "Event",
        event.event.as_str(),
        true,
    ).field("Time", event.time.as_str(), true);
    m = add_target(m, "Current Target", target);
    if let Some(details) = &event.details {
        m = add_slew_details(m, details);
    }
    if mount_snapshot_wanted(event) {
        m = add_mount_info(m, mount);
    }
    m
}

/// The message about an event of the guider.
pub open spec fn guider_message(
    telescope: Seq<char>,
    event: Event,
    target: Option<TargetInfo>,
    guider: Option<GuiderSnapshot>,
    now: Moment,
) -> MessageView {
    let (title, color) = match event.kind() {
        EventKind::GuiderStart => ("🎯 Guiding Started"@, colors::BLUE),
        EventKind::GuiderDither => ("🎯 Guider Dither"@, colors::CYAN),
        _ => ("🎯 Guider Event"@, colors::GRAY),
    };
    let a = with_target(
        message_at(titled_text(telescope, title), now).colored(color).with(
            "Event"@,
            event.event@,
            true,
        ).with("Time"@, event.time@, true),
        "Current Target"@,
        target,
    );
    match guider {
        None => a,
        Some(g) => {
            let b = a.with("State"@, g.state@, true);
            let c = if (Double { bits: 0 }).lt(g.pixel_scale) {
                b.with("Pixel Scale"@, g.pixel_scale.fixed_text(3) + " arcsec/px"@, true)
            } else {
                b
            };
            match g.rms_error {
                Some(e) => c.with(
                    "RMS Error"@,
                    "Total: "@ + e.total.fixed_text(2) + "\"\nRA: "@ + e.ra.fixed_text(2)
                        + "\"  Dec: "@ + e.dec.fixed_text(2) + "\""@,
                    false,
                ),
                None => c,
            }
        },
    }
}

pub fn guider_event_message(
    telescope: &str,
    event: &Event,
    target: &Option<TargetInfo>,
    guider: &Option<GuiderSnapshot>,
    now: Moment,
) -> (r: ChatMessage)
    requires
        now.wf(),
    ensures
        r@ == guider_message(telescope@, *event, *target, *guider, now),
{
    let (title, color): (&str, u32) = match event_kind(event.event.as_str()) {
        EventKind::GuiderStart => ("🎯 Guiding Started", colors::BLUE),
        EventKind::GuiderDither => ("🎯 Guider Dither", colors::CYAN),
        _ => ("🎯 Guider Event", colors::GRAY),
    };
    let mut m = ChatMessage::new_at(titled(telescope, title).as_str(), now).color(color).field(
        "Event",
        event.event.as_str(),
        true,
    ).field("Time", event.time.as_str(), true);
    m = add_target(m, "Current Target", target);
    if let Some(g) = guider {
        m = m.field("State", g.state.as_str(), true);
        if (Double { bits: 0 }).less(g.pixel_scale) {
            let text = cat2(g.pixel_scale.fixed(3).as_str(), " arcsec/px");
            m = m.field("Pixel Scale", text.as_str(), true);
        }
        if let Some(e) = g.rms_error {
            let mut text = cat4(
                "Total: ",
                e.total.fixed(2).as_str(),
                "\"\nRA: ",
                e.ra.fixed(2).as_str(),
            );
            text.append("\"  Dec: ");
            text.append(e.dec.fixed(2).as_str());
            text.append("\"");
            m = m.field("RMS Error", text.as_str(), false);
        }
    }
    m
}

/// The outcome that a finished sequence states.
pub open spec fn stated_outcome(event: Event) -> Option<Seq<char>> {
    match event.details {
        Some(EventDetails::SequenceFinished { outcome, .. }) => Some(outcome@),
        _ => None,
    }
}

pub open spec fn stated_failures(event: Event) -> bool {
    match event.details {
        Some(EventDetails::SequenceFinished { had_failures, .. }) => had_failures,
        _ => false,
    }
}

/// The title and the accent colour of a message about the sequence. An end is called completed
/// only where the controller says so and reports no failure.
pub open spec fn sequence_heading(event: Event, failed: bool) -> (Seq<char>, u32) {
    match event.kind() {
        EventKind::SequenceStarting => ("▶️ Sequence Starting"@, colors::CYAN),
        EventKind::SequenceFinished => if stated_outcome(event) == Some("completed"@)
            && !stated_failures(event) {
            ("🏁 Sequence Completed"@, colors::GREEN)
        } else if stated_outcome(event) == Some("stopped"@) {
            ("⏹️ Sequence Stopped"@, colors::YELLOW)
        } else if stated_outcome(event) == Some("cancelled_or_not_started"@) {
            ("⏹️ Sequence Cancelled or Not Started"@, colors::GRAY)
        } else if failed {
            ("❌ Sequence Ended After a Failure"@, colors::RED)
        } else {
            ("🏁 Sequence Ended"@, colors::CYAN)
        },
        EventKind::SequenceEntityFailed => ("❌ Sequence Item Failed"@, colors::RED),
        _ => ("📋 Sequence Event"@, colors::GRAY),
    }
}

fn sequence_head(event: &Event, failed: bool) -> (r: (&'static str, u32))
    ensures
        (r.0@, r.1) == sequence_heading(*event, failed),
{
    match event_kind(event.event.as_str()) {
        EventKind::SequenceStarting => ("▶️ Sequence Starting", colors::CYAN),
        EventKind::SequenceFinished => {
            if let Some(EventDetails::SequenceFinished { outcome, had_failures, .. }) =
                &event.details {
                let o = outcome.as_str();
                if same(o, "completed") && !*had_failures {
                    return ("🏁 Sequence Completed", colors::GREEN);
                }
                if same(o, "stopped") {
                    return ("⏹️ Sequence Stopped", colors::YELLOW);
                }
                if same(o, "cancelled_or_not_started") {
                    return ("⏹️ Sequence Cancelled or Not Started", colors::GRAY);
                }
            }
            if failed {
                ("❌ Sequence Ended After a Failure", colors::RED)
            } else {
                ("🏁 Sequence Ended", colors::CYAN)
            }
        },
        EventKind::SequenceEntityFailed => ("❌ Sequence Item Failed", colors::RED),
        _ => ("📋 Sequence Event", colors::GRAY),
    }
}

/// The message about an event of the sequence.
pub open spec fn sequence_message(
    telescope: Seq<char>,
    event: Event,
    s: StateView,
    now: Moment,
) -> MessageView {
    let (title, color) = sequence_heading(event, s.sequence_failure is Some);
    let a = message_at(titled_text(telescope, title), now).colored(color).with(
        "Event"@,
        event.event@,
        true,
    ).with("Time"@, event.time@, true);
    let b = match s.current_target {
        Some(t) => with_target_coordinates(a.with("Current Target"@, t.name@, true), t),
        None => a,
    };
    let c = match s.sequence_container_counts {
        Some(counts) => if counts.0 > 0 {
            b.with(
                "Containers"@,
                dec(counts.0 as nat) + " total / "@ + dec(counts.1 as nat) + " running"@,
                true,
            )
        } else {
            b
        },
        None => b,
    };
    let d = match event.details {
        Some(EventDetails::SequenceEntityFailed { entity, entity_type, error }) => {
            with_failed_item(c, entity@, entity_type@, error@)
        },
        _ => match s.sequence_failure {
            Some(f) => if event.kind() == EventKind::SequenceFinished {
                c.with("Failed Item"@, short(f.entity), true).with("Error"@, short(f.error), false)
            } else {
                c
            },
            None => c,
        },
    };
    match event.details {
        Some(EventDetails::SequenceFinished { outcome, status, had_failures }) => with_outcome(
            d,
            outcome@,
            status@,
            had_failures,
        ),
        _ => d,
    }
}

impl UpdaterState {
    /// Writes the message about an event of the sequence.
    pub fn sequence_event_message(&self, telescope: &str, event: &Event, now: Moment) -> (r:
        ChatMessage)
        requires
            now.wf(),
        ensures
            r@ == sequence_message(telescope@, *event, self@, now),
    {
        let (title, color): (&str, u32) = sequence_head(event, self.sequence_failure.is_some());
        let mut m = ChatMessage::new_at(titled(telescope, title).as_str(), now).color(color).field(
            "Event",
            event.event.as_str(),
            true,
        ).field("Time", event.time.as_str(), true);
        if let Some(t) = &self.current_target {
            m = add_target_coordinates(m.field("Current Target", t.name.as_str(), true), t);
        }
        if let Some(counts) = self.sequence_container_counts {
            if counts.0 > 0 {
                let all = decimal(counts.0 as u128);
                let active = decimal(counts.1 as u128);
                let text = cat4(all.as_str(), " total / ", active.as_str(), " running");
                m = m.field("Containers", text.as_str(), true);
            }
        }
        if let Some(EventDetails::SequenceEntityFailed { entity, entity_type, error }) =
            &event.details {
            m = add_failed_item(m, entity.as_str(), entity_type.as_str(), error.as_str());
        } else if event_kind(event.event.as_str()) == EventKind::SequenceFinished {
            if let Some(f) = &self.sequence_failure {
                m = m.field(
                    "Failed Item",
                    truncate_chat_value(f.entity.as_str()).as_str(),
                    true,
                ).field("Error", truncate_chat_value(f.error.as_str()).as_str(), false);
            }
        }
        if let Some(EventDetails::SequenceFinished { outcome, status, had_failures }) =
            &event.details {
            m = add_outcome(m, outcome.as_str(), status.as_str(), *had_failures);
        }
        m
    }
}

/// The message that the rotator was synchronized.
pub open spec fn rotator_message(
    telescope: Seq<char>,
    event: Event,
    rotator: Option<RotatorSnapshot>,
    now: Moment,
) -> MessageView {
    let a = message_at(titled_text(telescope, "🧭 Rotator Synced"@), now).colored(
        colors::CYAN,
    ).with("Event"@, event.event@, true).with("Time"@, event.time@, true);
    match rotator {
        None => a,
        Some(s) => {
            let b = a.with("Position"@, s.position.fixed_text(2) + "°"@, true).with(
                "Mechanical"@,
                s.mechanical_position.fixed_text(2) + "°"@,
                true,
            );
            if s.synced {
                b.with("Sync"@, "✅"@, true)
            } else {
                b
            }
        },
    }
}

pub fn rotator_synced_message(
    telescope: &str,
    event: &Event,
    rotator: &Option<RotatorSnapshot>,
    now: Moment,
) -> (r: ChatMessage)
    requires
        now.wf(),
    ensures
        r@ == rotator_message(telescope@, *event, *rotator, now),
{
    let mut m = ChatMessage::new_at(titled(telescope, "🧭 Rotator Synced").as_str(), now).color(
        colors::CYAN,
    ).field("Event", event.event.as_str(), true).field("Time", event.time.as_str(), true);
    if let Some(s) = rotator {
        let position = cat2(s.position.fixed(2).as_str(), "°");
        let mechanical = cat2(s.mechanical_position.fixed(2).as_str(), "°");
        m = m.field("Position", position.as_str(), true).field(
            "Mechanical",
            mechanical.as_str(),
            true,
        );
        if s.synced {
            m = m.field("Sync", "✅", true);
        }
    }
    m
}

/// The message that somebody has focused by hand.
pub open spec fn focuser_message(
    telescope: Seq<char>,
    event: Event,
    focuser: Option<FocuserSnapshot>,
    now: Moment,
) -> MessageView {
    let a = message_at(titled_text(telescope, "🔧 Focuser User-Focused"@), now).colored(
        colors::PURPLE,
    ).with("Event"@, event.event@, true).with("Time"@, event.time@, true);
    match focuser {
        None => a,
        Some(s) => {
            let b = a.with("Position"@, dec_int(s.position as int), true);
            let c = if s.temperature.nan() {
                b
            } else {
                b.with("Temperature"@, s.temperature.fixed_text(1) + "°C"@, true)
            };
            if s.temp_comp_available {
                c.with(
                    "Temp comp"@,
                    if s.temp_comp {
                        "on"@
                    } else {
                        "off"@
                    },
                    true,
                )
            } else {
                c
            }
        },
    }
}

pub fn focuser_user_focused_message(
    telescope: &str,
    event: &Event,
    focuser: &Option<FocuserSnapshot>,
    now: Moment,
) -> (r: ChatMessage)
    requires
        now.wf(),
    ensures
        r@ == focuser_message(telescope@, *event, *focuser, now),
{
    let mut m = ChatMessage::new_at(
        titled(telescope, "🔧 Focuser User-Focused").as_str(),
        now,
    ).color(colors::PURPLE).field("Event", event.event.as_str(), true).field(
        "Time",
        event.time.as_str(),
        true,
    );
    if let Some(s) = focuser {
        m = m.field("Position", decimal_int(s.position as i128).as_str(), true);
        if !s.temperature.is_nan() {
            let text = cat2(s.temperature.fixed(1).as_str(), "°C");
            m = m.field("Temperature", text.as_str(), true);
        }
        if s.temp_comp_available {
            m = m.field(
                "Temp comp",
                if s.temp_comp {
                    "on"
                } else {
                    "off"
                },
                true,
            );
        }
    }
    m
}

pub open spec fn unknown_filter(f: FilterInfo) -> bool {
    f.name@.len() == 0 || f.id < 0
}

/// The message that the filter has changed.
pub open spec fn filter_message(
    telescope: Seq<char>,
    time: Seq<char>,
    previous: FilterInfo,
    new: FilterInfo,
    now: Moment,
) -> MessageView {
    let name = |f: FilterInfo|
        if unknown_filter(f) {
            "(unknown)"@
        } else {
            f.name@
        };
    let label = |f: FilterInfo|
        if unknown_filter(f) {
            "(unknown)"@
        } else {
            filter_text(f)
        };
    message_at(titled_text(telescope, "🔄 Filter Changed"@), now).colored(colors::BLUE).with(
        "Time"@,
        time,
        false,
    ).with("Filter Change"@, name(previous) + " → "@ + name(new), false).with(
        "Previous"@,
        label(previous),
        true,
    ).with("New"@, label(new), true)
}

pub fn filterwheel_change_message(
    telescope: &str,
    event: &Event,
    previous: &FilterInfo,
    new: &FilterInfo,
    now: Moment,
) -> (r: ChatMessage)
    requires
        now.wf(),
    ensures
        r@ == filter_message(telescope@, event.time@, *previous, *new, now),
{
    let (from, from_label): (String, String) = if previous.is_unknown() {
        (String::from_str("(unknown)"), String::from_str("(unknown)"))
    } else {
        (previous.name.clone(), filter_label(previous))
    };
    let (to, to_label): (String, String) = if new.is_unknown() {
        (String::from_str("(unknown)"), String::from_str("(unknown)"))
    } else {
        (new.name.clone(), filter_label(new))
    };
    let arrow = cat3(from.as_str(), " → ", to.as_str());
    ChatMessage::new_at(titled(telescope, "🔄 Filter Changed").as_str(), now).color(
        colors::BLUE,
    ).field("Time", event.time.as_str(), false).field("Filter Change", arrow.as_str(), false).field(
        "Previous",
        from_label.as_str(),
        true,
    ).field("New", to_label.as_str(), true)
}

} // verus!
