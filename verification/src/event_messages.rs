//! Messages about events.

use vstd::prelude::*;
use crate::calendar::Moment;
use crate::chat::{message_at, ChatMessage, MessageView};
use crate::colors;
use crate::double::Double;
use crate::event_types::{event_kind, kind_of, EventKind};
use crate::events::{Event, EventCoordinates, EventDetails, FilterInfo};
use crate::operation_messages::{
    add_measure, add_wait_timing_fields, titled, titled_text, with_measure, with_timing,
};
use crate::status::{truncate_chat_title, truncate_chat_value, TITLE_LIMIT, VALUE_LIMIT};
use crate::text::{
    ascii_upper, cat2, cat3, cat4, cat5, contains, dec_int, decimal_int, has_part, is_blank, same,
    space_out, spaced, to_ascii_upper, trimmed, truncated,
};
use crate::updater_state::EventTimes;
use crate::weather::{group_views, GroupView};

verus! {

/// The accent colour of an event.
pub open spec fn color_of(name: Seq<char>) -> u32 {
    match kind_of(name) {
        EventKind::CameraConnected => colors::GREEN,
        EventKind::CameraDisconnected => colors::RED,
        EventKind::CameraDownloadTimeout => colors::RED,
        EventKind::ImageSaveFailed => colors::RED,
        EventKind::FilterwheelConnected => colors::BLUE,
        EventKind::FilterwheelDisconnected => colors::RED,
        EventKind::FilterwheelChanged => colors::BLUE,
        EventKind::MountConnected => colors::GREEN,
        EventKind::MountDisconnected => colors::RED,
        EventKind::MountParked => colors::YELLOW,
        EventKind::MountUnparked => colors::YELLOW,
        EventKind::MountHomed => colors::CYAN,
        EventKind::MountCenter => colors::CYAN,
        EventKind::MountSlewStarted => colors::BLUE,
        EventKind::MountSlewed => colors::CYAN,
        EventKind::FocuserConnected => colors::GREEN,
        EventKind::FocuserDisconnected => colors::RED,
        EventKind::FocuserUserFocused => colors::PURPLE,
        EventKind::AutofocusStarting => colors::PURPLE,
        EventKind::AutofocusFinished => colors::PURPLE,
        EventKind::AutofocusPointAdded => colors::PURPLE,
        EventKind::ErrorAf => colors::RED,
        EventKind::RotatorConnected => colors::GREEN,
        EventKind::RotatorDisconnected => colors::RED,
        EventKind::RotatorMoveStarted => colors::BLUE,
        EventKind::RotatorMoved => colors::CYAN,
        EventKind::RotatorMovedMechanical => colors::CYAN,
        EventKind::RotatorSynced => colors::CYAN,
        EventKind::GuiderConnected => colors::GREEN,
        EventKind::GuiderDisconnected => colors::RED,
        EventKind::GuiderStart => colors::BLUE,
        EventKind::GuiderStop => colors::YELLOW,
        EventKind::GuiderDither => colors::CYAN,
        EventKind::SequenceStarting => colors::CYAN,
        EventKind::SequenceFinished => colors::CYAN,
        EventKind::SequenceEntityFailed => colors::RED,
        EventKind::ChatstronomyCommandFailed => colors::RED,
        EventKind::FlatDisconnected => colors::RED,
        EventKind::WeatherDisconnected => colors::RED,
        EventKind::SwitchDisconnected => colors::RED,
        EventKind::DomeDisconnected => colors::RED,
        EventKind::SafetyDisconnected => colors::RED,
        EventKind::FlatConnected => colors::GREEN,
        EventKind::WeatherConnected => colors::GREEN,
        EventKind::SwitchConnected => colors::GREEN,
        EventKind::DomeConnected => colors::GREEN,
        EventKind::SafetyConnected => colors::GREEN,
        EventKind::WeatherChanged => colors::CYAN,
        EventKind::WeatherHighWind => colors::ORANGE,
        EventKind::DomeShutterOpened => colors::CYAN,
        EventKind::DomeShutterClosed => colors::CYAN,
        EventKind::DomeHomed => colors::CYAN,
        EventKind::DomeParked => colors::CYAN,
        EventKind::DomeSlewed => colors::CYAN,
        EventKind::DomeSynced => colors::CYAN,
        EventKind::FlatCoverOpened => colors::CYAN,
        EventKind::FlatCoverClosed => colors::CYAN,
        EventKind::FlatBrightnessChanged => colors::CYAN,
        EventKind::FlatLightToggled => colors::YELLOW,
        EventKind::SafetyChanged => colors::ORANGE,
        EventKind::ErrorPlatesolve => colors::RED,
        EventKind::TsTargetstart => colors::CYAN,
        EventKind::TsNewtargetstart => colors::CYAN,
        EventKind::TsWaitstart => colors::YELLOW,
        _ => if has_part(name, "ERROR"@) {
            colors::RED
        } else if has_part(name, "WARNING"@) {
            colors::ORANGE
        } else {
            colors::GRAY
        },
    }
}

pub fn get_event_color(event: &str) -> (r: u32)
    ensures
        r == color_of(event@),
{
    match event_kind(event) {
        EventKind::CameraConnected => colors::GREEN,
        EventKind::CameraDisconnected => colors::RED,
        EventKind::CameraDownloadTimeout => colors::RED,
        EventKind::ImageSaveFailed => colors::RED,
        EventKind::FilterwheelConnected => colors::BLUE,
        EventKind::FilterwheelDisconnected => colors::RED,
        EventKind::FilterwheelChanged => colors::BLUE,
        EventKind::MountConnected => colors::GREEN,
        EventKind::MountDisconnected => colors::RED,
        EventKind::MountParked => colors::YELLOW,
        EventKind::MountUnparked => colors::YELLOW,
        EventKind::MountHomed => colors::CYAN,
        EventKind::MountCenter => colors::CYAN,
        EventKind::MountSlewStarted => colors::BLUE,
        EventKind::MountSlewed => colors::CYAN,
        EventKind::FocuserConnected => colors::GREEN,
        EventKind::FocuserDisconnected => colors::RED,
        EventKind::FocuserUserFocused => colors::PURPLE,
        EventKind::AutofocusStarting => colors::PURPLE,
        EventKind::AutofocusFinished => colors::PURPLE,
        EventKind::AutofocusPointAdded => colors::PURPLE,
        EventKind::ErrorAf => colors::RED,
        EventKind::RotatorConnected => colors::GREEN,
        EventKind::RotatorDisconnected => colors::RED,
        EventKind::RotatorMoveStarted => colors::BLUE,
        EventKind::RotatorMoved => colors::CYAN,
        EventKind::RotatorMovedMechanical => colors::CYAN,
        EventKind::RotatorSynced => colors::CYAN,
        EventKind::GuiderConnected => colors::GREEN,
        EventKind::GuiderDisconnected => colors::RED,
        EventKind::GuiderStart => colors::BLUE,
        EventKind::GuiderStop => colors::YELLOW,
        EventKind::GuiderDither => colors::CYAN,
        EventKind::SequenceStarting => colors::CYAN,
        EventKind::SequenceFinished => colors::CYAN,
        EventKind::SequenceEntityFailed => colors::RED,
        EventKind::ChatstronomyCommandFailed => colors::RED,
        EventKind::FlatDisconnected => colors::RED,
        EventKind::WeatherDisconnected => colors::RED,
        EventKind::SwitchDisconnected => colors::RED,
        EventKind::DomeDisconnected => colors::RED,
        EventKind::SafetyDisconnected => colors::RED,
        EventKind::FlatConnected => colors::GREEN,
        EventKind::WeatherConnected => colors::GREEN,
        EventKind::SwitchConnected => colors::GREEN,
        EventKind::DomeConnected => colors::GREEN,
        EventKind::SafetyConnected => colors::GREEN,
        EventKind::WeatherChanged => colors::CYAN,
        EventKind::WeatherHighWind => colors::ORANGE,
        EventKind::DomeShutterOpened => colors::CYAN,
        EventKind::DomeShutterClosed => colors::CYAN,
        EventKind::DomeHomed => colors::CYAN,
        EventKind::DomeParked => colors::CYAN,
        EventKind::DomeSlewed => colors::CYAN,
        EventKind::DomeSynced => colors::CYAN,
        EventKind::FlatCoverOpened => colors::CYAN,
        EventKind::FlatCoverClosed => colors::CYAN,
        EventKind::FlatBrightnessChanged => colors::CYAN,
        EventKind::FlatLightToggled => colors::YELLOW,
        EventKind::SafetyChanged => colors::ORANGE,
        EventKind::ErrorPlatesolve => colors::RED,
        EventKind::TsTargetstart => colors::CYAN,
        EventKind::TsNewtargetstart => colors::CYAN,
        EventKind::TsWaitstart => colors::YELLOW,
        _ => if contains(event, "ERROR") {
            colors::RED
        } else if contains(event, "WARNING") {
            colors::ORANGE
        } else {
            colors::GRAY
        },
    }
}

/// The title of a message about an event.
pub open spec fn title_of(name: Seq<char>) -> Seq<char> {
    match kind_of(name) {
        EventKind::FilterwheelChanged => "🔄 Filter Changed"@,
        EventKind::TsTargetstart => "🎯 Target Started"@,
        EventKind::TsWaitstart => "⏳ Target Scheduler wait"@,
        EventKind::AutofocusPointAdded => "📈 Autofocus Point"@,
        EventKind::RotatorMoveStarted => "🧭 Rotator move started"@,
        EventKind::RotatorMoved => "🧭 Rotator move ended"@,
        EventKind::RotatorMovedMechanical => "🧭 Rotator mechanical move ended"@,
        EventKind::MountSlewStarted => "🔭 Mount slew started"@,
        EventKind::MountSlewed => "🔭 Mount slew ended"@,
        EventKind::SequenceStarting => "▶️ Sequence starting"@,
        EventKind::SequenceFinished => "🏁 Sequence ended"@,
        EventKind::SequenceEntityFailed => "❌ Sequence item failed"@,
        EventKind::ImageSaveFailed => "❌ Image save failed"@,
        EventKind::CameraDownloadTimeout => "❌ Camera download timed out"@,
        EventKind::DomeConnected => "🏠 Dome connected"@,
        EventKind::DomeDisconnected => "⚠️ Dome disconnected"@,
        EventKind::DomeShutterOpened => "🏠 Dome shutter opened"@,
        EventKind::DomeShutterClosed => "🏠 Dome shutter closed"@,
        EventKind::DomeHomed => "🏠 Dome homed"@,
        EventKind::DomeParked => "🏠 Dome parked"@,
        EventKind::DomeSlewed => "🏠 Dome slew completed"@,
        EventKind::DomeSynced => "🏠 Dome synchronized"@,
        EventKind::FlatConnected => "💡 Flat panel connected"@,
        EventKind::FlatDisconnected => "⚠️ Flat panel disconnected"@,
        EventKind::FlatCoverOpened => "💡 Flat-panel cover opened"@,
        EventKind::FlatCoverClosed => "💡 Flat-panel cover closed"@,
        EventKind::FlatLightToggled => "💡 Flat-panel light changed"@,
        EventKind::FlatBrightnessChanged => "💡 Flat-panel brightness changed"@,
        EventKind::WeatherConnected => "🌦️ Weather station connected"@,
        EventKind::WeatherDisconnected => "⚠️ Weather station disconnected"@,
        EventKind::WeatherChanged => "🌦️ Weather changed"@,
        EventKind::WeatherHighWind => "⚠️ High wind reported"@,
        EventKind::SwitchConnected => "🔌 Switch device connected"@,
        EventKind::SwitchDisconnected => "⚠️ Switch device disconnected"@,
        EventKind::NinaNotification => "🔔 N.I.N.A. notification"@,
        EventKind::NinaLog => "📝 N.I.N.A. log"@,
        EventKind::ChatstronomyCommandFailed => "❌ Telescope command failed"@,
        EventKind::SafetyConnected => "🛡️ Safety monitor connected"@,
        EventKind::SafetyDisconnected => "⚠️ Safety monitor disconnected"@,
        EventKind::SafetyChanged => "🛡️ Safety state changed"@,
        _ => "📡 "@ + truncated(name, TITLE_LIMIT as nat),
    }
}

pub fn get_event_title(event: &str) -> (r: String)
    ensures
        r@ == title_of(event@),
{
    match event_kind(event) {
        EventKind::FilterwheelChanged => String::from_str("🔄 Filter Changed"),
        EventKind::TsTargetstart => String::from_str("🎯 Target Started"),
        EventKind::TsWaitstart => String::from_str("⏳ Target Scheduler wait"),
        EventKind::AutofocusPointAdded => String::from_str("📈 Autofocus Point"),
        EventKind::RotatorMoveStarted => String::from_str("🧭 Rotator move started"),
        EventKind::RotatorMoved => String::from_str("🧭 Rotator move ended"),
        EventKind::RotatorMovedMechanical => String::from_str("🧭 Rotator mechanical move ended"),
        EventKind::MountSlewStarted => String::from_str("🔭 Mount slew started"),
        EventKind::MountSlewed => String::from_str("🔭 Mount slew ended"),
        EventKind::SequenceStarting => String::from_str("▶️ Sequence starting"),
        EventKind::SequenceFinished => String::from_str("🏁 Sequence ended"),
        EventKind::SequenceEntityFailed => String::from_str("❌ Sequence item failed"),
        EventKind::ImageSaveFailed => String::from_str("❌ Image save failed"),
        EventKind::CameraDownloadTimeout => String::from_str("❌ Camera download timed out"),
        EventKind::DomeConnected => String::from_str("🏠 Dome connected"),
        EventKind::DomeDisconnected => String::from_str("⚠️ Dome disconnected"),
        EventKind::DomeShutterOpened => String::from_str("🏠 Dome shutter opened"),
        EventKind::DomeShutterClosed => String::from_str("🏠 Dome shutter closed"),
        EventKind::DomeHomed => String::from_str("🏠 Dome homed"),
        EventKind::DomeParked => String::from_str("🏠 Dome parked"),
        EventKind::DomeSlewed => String::from_str("🏠 Dome slew completed"),
        EventKind::DomeSynced => String::from_str("🏠 Dome synchronized"),
        EventKind::FlatConnected => String::from_str("💡 Flat panel connected"),
        EventKind::FlatDisconnected => String::from_str("⚠️ Flat panel disconnected"),
        EventKind::FlatCoverOpened => String::from_str("💡 Flat-panel cover opened"),
        EventKind::FlatCoverClosed => String::from_str("💡 Flat-panel cover closed"),
        EventKind::FlatLightToggled => String::from_str("💡 Flat-panel light changed"),
        EventKind::FlatBrightnessChanged => String::from_str("💡 Flat-panel brightness changed"),
        EventKind::WeatherConnected => String::from_str("🌦️ Weather station connected"),
        EventKind::WeatherDisconnected => String::from_str("⚠️ Weather station disconnected"),
        EventKind::WeatherChanged => String::from_str("🌦️ Weather changed"),
        EventKind::WeatherHighWind => String::from_str("⚠️ High wind reported"),
        EventKind::SwitchConnected => String::from_str("🔌 Switch device connected"),
        EventKind::SwitchDisconnected => String::from_str("⚠️ Switch device disconnected"),
        EventKind::NinaNotification => String::from_str("🔔 N.I.N.A. notification"),
        EventKind::NinaLog => String::from_str("📝 N.I.N.A. log"),
        EventKind::ChatstronomyCommandFailed => String::from_str("❌ Telescope command failed"),
        EventKind::SafetyConnected => String::from_str("🛡️ Safety monitor connected"),
        EventKind::SafetyDisconnected => String::from_str("⚠️ Safety monitor disconnected"),
        EventKind::SafetyChanged => String::from_str("🛡️ Safety state changed"),
        _ => cat2("📡 ", truncate_chat_title(event).as_str()),
    }
}

/// The accent colour of a level.
pub open spec fn level_color(level: Seq<char>) -> u32 {
    let upper = ascii_upper(level);
    if upper == "FATAL"@ || upper == "ERROR"@ {
        colors::RED
    } else if upper == "WARN"@ || upper == "WARNING"@ {
        colors::ORANGE
    } else if upper == "SUCCESS"@ {
        colors::GREEN
    } else if upper == "INFO"@ || upper == "INFORMATION"@ {
        colors::BLUE
    } else if upper == "DEBUG"@ || upper == "TRACE"@ || upper == "VERBOSE"@ {
        colors::GRAY
    } else {
        colors::CYAN
    }
}

pub fn nina_level_color(level: &str) -> (r: u32)
    ensures
        r == level_color(level@),
{
    let text = to_ascii_upper(level);
    let upper = text.as_str();
    if same(upper, "FATAL") || same(upper, "ERROR") {
        colors::RED
    } else if same(upper, "WARN") || same(upper, "WARNING") {
        colors::ORANGE
    } else if same(upper, "SUCCESS") {
        colors::GREEN
    } else if same(upper, "INFO") || same(upper, "INFORMATION") {
        colors::BLUE
    } else if same(upper, "DEBUG") || same(upper, "TRACE") || same(upper, "VERBOSE") {
        colors::GRAY
    } else {
        colors::CYAN
    }
}

/// With a field for a position of the mount.
pub open spec fn with_coordinates(m: MessageView, name: Seq<char>, c: EventCoordinates) -> MessageView {
    m.with(
        name,
        if c.display_text().len() == 0 {
            "Position unavailable"@
        } else {
            truncated(c.display_text(), VALUE_LIMIT as nat)
        },
        false,
    )
}

pub fn add_coordinate_field(message: ChatMessage, name: &str, coordinates: &EventCoordinates) -> (r:
    ChatMessage)
    ensures
        r@ == with_coordinates(message@, name@, *coordinates),
{
    let display = coordinates.display();
    if display.as_str().is_empty() {
        message.field(name, "Position unavailable", false)
    } else {
        message.field(name, truncate_chat_value(display.as_str()).as_str(), false)
    }
}

/// How the end of a motion was noticed.
pub open spec fn end_detection_text(value: Seq<char>) -> Seq<char> {
    if value == "motion_state"@ {
        "Equipment first reported idle"@
    } else if value == "nina_slewed"@ {
        "N.I.N.A. slew event"@
    } else if value == "nina_moved"@ {
        "N.I.N.A. move event"@
    } else {
        truncated(value, VALUE_LIMIT as nat)
    }
}

pub fn motion_end_detection_display(value: &str) -> (r: String)
    ensures
        r@ == end_detection_text(value@),
{
    if same(value, "motion_state") {
        String::from_str("Equipment first reported idle")
    } else if same(value, "nina_slewed") {
        String::from_str("N.I.N.A. slew event")
    } else if same(value, "nina_moved") {
        String::from_str("N.I.N.A. move event")
    } else {
        truncate_chat_value(value)
    }
}

/// With what is known of a motion apart from its positions.
pub open spec fn with_motion(
    m: MessageView,
    motion_id: Option<i64>,
    duration_seconds: Option<Double>,
    end_detection: Option<String>,
    observed_in_progress: Option<bool>,
) -> MessageView {
    let a = match motion_id {
        Some(id) => m.with("Motion"@, "#"@ + dec_int(id as int), true),
        None => m,
    };
    let b = with_measure(a, "Observed interval"@, duration_seconds, 2, " s"@);
    let c = match end_detection {
        Some(e) => if trimmed(e@).len() == 0 {
            b
        } else {
            b.with("End detected by"@, end_detection_text(e@), true)
        },
        None => b,
    };
    if observed_in_progress == Some(true) {
        c.with("Capture"@, "Recovered after motion began"@, false)
    } else {
        c
    }
}

pub fn add_motion_metadata(
    message: ChatMessage,
    motion_id: Option<i64>,
    duration_seconds: Option<Double>,
    end_detection: &Option<String>,
    observed_in_progress: Option<bool>,
) -> (r: ChatMessage)
    ensures
        r@ == with_motion(
            message@,
            motion_id,
            duration_seconds,
            *end_detection,
            observed_in_progress,
        ),
{
    let mut m = message;
    if let Some(id) = motion_id {
        let text = cat2("#", decimal_int(id as i128).as_str());
        m = m.field("Motion", text.as_str(), true);
    }
    m = add_measure(m, "Observed interval", duration_seconds, 2, " s");
    if let Some(e) = end_detection {
        if !is_blank(e.as_str()) {
            m = m.field(
                "End detected by",
                motion_end_detection_display(e.as_str()).as_str(),
                true,
            );
        }
    }
    if let Some(observed) = observed_in_progress {
        if observed {
            m = m.field("Capture", "Recovered after motion began", false);
        }
    }
    m
}

/// The first of two readings that is there.
pub open spec fn first_of(a: Option<Double>, b: Option<Double>) -> Option<Double> {
    if a is Some {
        a
    } else {
        b
    }
}

fn first(a: Option<Double>, b: Option<Double>) -> (r: Option<Double>)
    ensures
        r == first_of(a, b),
{
    if a.is_some() {
        a
    } else {
        b
    }
}

/// With the change from one reading to another, where both are there.
pub open spec fn with_change(
    m: MessageView,
    name: Seq<char>,
    from: Option<Double>,
    to: Option<Double>,
) -> MessageView {
    match (from, to) {
        (Some(f), Some(t)) => m.with(name, t.difference(f).signed_text(2) + "°"@, true),
        _ => m,
    }
}

fn add_change(message: ChatMessage, name: &str, from: Option<Double>, to: Option<Double>) -> (r:
    ChatMessage)
    ensures
        r@ == with_change(message@, name@, from, to),
{
    match (from, to) {
        (Some(f), Some(t)) => message.field(
            name,
            cat2(t.minus(f).fixed_signed(2).as_str(), "°").as_str(),
            true,
        ),
        _ => message,
    }
}

/// The readings at the ends of a rotator move.
#[derive(Clone, Copy, Debug, PartialEq, Eq, Structural)]
pub struct RotatorMove {
    pub from: Option<Double>,
    pub to: Option<Double>,
    pub position: Option<Double>,
    pub mechanical_from: Option<Double>,
    pub mechanical_to: Option<Double>,
    pub mechanical_position: Option<Double>,
}

/// With the ends of a rotator move. What the event calls its ends is mechanical for a mechanical
/// move and logical for any other.
pub open spec fn with_rotator_move(m: MessageView, mechanical: bool, r: RotatorMove) -> MessageView {
    let logical_from = if mechanical {
        None
    } else {
        r.from
    };
    let logical_to = first_of(
        r.position,
        if mechanical {
            None
        } else {
            r.to
        },
    );
    let mechanical_from = first_of(
        r.mechanical_from,
        if mechanical {
            r.from
        } else {
            None
        },
    );
    let mechanical_to = first_of(
        first_of(r.mechanical_to, r.mechanical_position),
        if mechanical {
            r.to
        } else {
            None
        },
    );
    let a = with_measure(m, "From position"@, logical_from, 2, "°"@);
    let b = with_measure(a, "To position"@, logical_to, 2, "°"@);
    let c = with_change(b, "Position change"@, logical_from, logical_to);
    let d = with_measure(c, "Mechanical from"@, mechanical_from, 2, "°"@);
    let e = with_measure(d, "Mechanical to"@, mechanical_to, 2, "°"@);
    with_change(e, "Mechanical change"@, mechanical_from, mechanical_to)
}

pub fn add_rotator_end_fields(message: ChatMessage, mechanical: bool, r: RotatorMove) -> (out:
    ChatMessage)
    ensures
        out@ == with_rotator_move(message@, mechanical, r),
{
    let logical_from: Option<Double> = if mechanical {
        None
    } else {
        r.from
    };
    let logical_to: Option<Double> = first(
        r.position,
        if mechanical {
            None
        } else {
            r.to
        },
    );
    let mechanical_from: Option<Double> = first(
        r.mechanical_from,
        if mechanical {
            r.from
        } else {
            None
        },
    );
    let mechanical_to: Option<Double> = first(
        first(r.mechanical_to, r.mechanical_position),
        if mechanical {
            r.to
        } else {
            None
        },
    );
    let mut m = add_measure(message, "From position", logical_from, 2, "°");
    m = add_measure(m, "To position", logical_to, 2, "°");
    m = add_change(m, "Position change", logical_from, logical_to);
    m = add_measure(m, "Mechanical from", mechanical_from, 2, "°");
    m = add_measure(m, "Mechanical to", mechanical_to, 2, "°");
    add_change(m, "Mechanical change", mechanical_from, mechanical_to)
}

/// With a field for each group of readings.
pub open spec fn with_groups(m: MessageView, groups: Seq<GroupView>) -> MessageView
    decreases groups.len(),
{
    if groups.len() == 0 {
        m
    } else {
        with_groups(m, groups.drop_last()).with(
            groups.last().name,
            truncated(groups.last().text, VALUE_LIMIT as nat),
            false,
        )
    }
}

fn add_groups(message: ChatMessage, groups: &Vec<(&'static str, String)>) -> (r: ChatMessage)
    ensures
        r@ == with_groups(message@, group_views(groups@)),
{
    let mut m = message;
    let mut i: usize = 0;
    let ghost all = group_views(groups@);
    assert(all.subrange(0, 0) =~= Seq::<GroupView>::empty());
    while i < groups.len()
        invariant
            i <= groups@.len(),
            all == group_views(groups@),
            m@ == with_groups(message@, all.subrange(0, i as int)),
        decreases groups@.len() - i,
    {
        proof {
            let now = all.subrange(0, i + 1);
            assert(now.drop_last() =~= all.subrange(0, i as int));
            assert(now.last() == all[i as int]);
        }
        m = m.field(groups[i].0, truncate_chat_value(groups[i].1.as_str()).as_str(), false);
        i += 1;
    }
    assert(all.subrange(0, i as int) =~= all);
    m
}

pub open spec fn yes_no(b: bool) -> Seq<char> {
    if b {
        "Yes"@
    } else {
        "No"@
    }
}

fn yes_or_no(b: bool) -> (r: &'static str)
    ensures
        r@ == yes_no(b),
{
    if b {
        "Yes"
    } else {
        "No"
    }
}

/// The accent colour and the title of a message about an event.
pub open spec fn generic_heading(event: Event) -> (u32, Seq<char>) {
    match event.details {
        Some(EventDetails::RotatorMoveStarted { observed_in_progress, .. }) => (
            color_of(event.event@),
            if observed_in_progress == Some(true) {
                "🧭 Rotator move recovered"@
            } else {
                title_of(event.event@)
            },
        ),
        Some(EventDetails::CommandFailed { command, .. }) => (
            colors::RED,
            "❌ Command failed · "@ + truncated(command@, TITLE_LIMIT as nat),
        ),
        Some(EventDetails::NinaNotification { level, header, .. }) => (
            level_color(level@),
            if trimmed(header@).len() == 0 {
                "🔔 N.I.N.A. notification"@
            } else {
                "🔔 N.I.N.A. · "@ + truncated(header@, TITLE_LIMIT as nat)
            },
        ),
        Some(EventDetails::NinaLog { level, .. }) => (
            level_color(level@),
            "📝 N.I.N.A. log · "@ + ascii_upper(level@),
        ),
        Some(EventDetails::SafetyChanged { is_safe }) => if is_safe {
            (colors::GREEN, "🛡️ Safety monitor reports safe"@)
        } else {
            (colors::RED, "⚠️ Safety monitor reports unsafe"@)
        },
        Some(EventDetails::WeatherHighWind { is_high_wind, .. }) => if is_high_wind {
            (colors::RED, "⚠️ High wind reported"@)
        } else {
            (colors::GREEN, "✅ Wind conditions recovered"@)
        },
        _ => (color_of(event.event@), title_of(event.event@)),
    }
}

fn generic_head(event: &Event) -> (r: (u32, String))
    ensures
        (r.0, r.1@) == generic_heading(*event),
{
    let name = event.event.as_str();
    match &event.details {
        Some(EventDetails::RotatorMoveStarted { observed_in_progress, .. }) => {
            let recovered: bool = match observed_in_progress {
                Some(observed) => *observed,
                None => false,
            };
            if recovered {
                (get_event_color(name), String::from_str("🧭 Rotator move recovered"))
            } else {
                (get_event_color(name), get_event_title(name))
            }
        },
        Some(EventDetails::CommandFailed { command, .. }) => (
            colors::RED,
            cat2("❌ Command failed · ", truncate_chat_title(command.as_str()).as_str()),
        ),
        Some(EventDetails::NinaNotification { level, header, .. }) => (
            nina_level_color(level.as_str()),
            if is_blank(header.as_str()) {
                String::from_str("🔔 N.I.N.A. notification")
            } else {
                cat2("🔔 N.I.N.A. · ", truncate_chat_title(header.as_str()).as_str())
            },
        ),
        Some(EventDetails::NinaLog { level, .. }) => (
            nina_level_color(level.as_str()),
            cat2("📝 N.I.N.A. log · ", to_ascii_upper(level.as_str()).as_str()),
        ),
        Some(EventDetails::SafetyChanged { is_safe }) => if *is_safe {
            (colors::GREEN, String::from_str("🛡️ Safety monitor reports safe"))
        } else {
            (colors::RED, String::from_str("⚠️ Safety monitor reports unsafe"))
        },
        Some(EventDetails::WeatherHighWind { is_high_wind, .. }) => if *is_high_wind {
            (colors::RED, String::from_str("⚠️ High wind reported"))
        } else {
            (colors::GREEN, String::from_str("✅ Wind conditions recovered"))
        },
        _ => (get_event_color(name), get_event_title(name)),
    }
}

/// A filter with its number.
pub open spec fn filter_text(f: FilterInfo) -> Seq<char> {
    f.name@ + " (ID: "@ + dec_int(f.id as int) + ")"@
}

pub fn filter_label(f: &FilterInfo) -> (r: String)
    ensures
        r@ == filter_text(*f),
{
    cat4(f.name.as_str(), " (ID: ", decimal_int(f.id as i128).as_str(), ")")
}

/// Where in the controller's code a log entry comes from.
pub open spec fn location_text(source: Seq<char>, member: Seq<char>, line: i32) -> Seq<char> {
    if member.len() > 0 {
        if line > 0 {
            source + ":"@ + member + ":"@ + dec_int(line as int)
        } else {
            source + ":"@ + member
        }
    } else if line > 0 {
        source + ":"@ + dec_int(line as int)
    } else {
        source
    }
}

fn location(source: &str, member: &str, line: i32) -> (r: String)
    ensures
        r@ == location_text(source@, member@, line),
{
    let number = decimal_int(line as i128);
    if !member.is_empty() {
        if line > 0 {
            cat5(source, ":", member, ":", number.as_str())
        } else {
            cat3(source, ":", member)
        }
    } else if line > 0 {
        cat3(source, ":", number.as_str())
    } else {
        String::from_str(source)
    }
}

pub open spec fn short(text: Seq<char>) -> Seq<char> {
    truncated(text, VALUE_LIMIT as nat)
}

/// With how a sequence ended.
pub open spec fn with_outcome(
    m: MessageView,
    outcome: Seq<char>,
    status: Seq<char>,
    had_failures: bool,
) -> MessageView {
    m.with("Outcome"@, spaced(outcome), true).with("N.I.N.A. status"@, status, true).with(
        "Reported failures"@,
        yes_no(had_failures),
        true,
    )
}

pub fn add_outcome(message: ChatMessage, outcome: &str, status: &str, had_failures: bool) -> (r:
    ChatMessage)
    ensures
        r@ == with_outcome(message@, outcome@, status@, had_failures),
{
    message.field("Outcome", space_out(outcome).as_str(), true).field(
        "N.I.N.A. status",
        status,
        true,
    ).field("Reported failures", yes_or_no(had_failures), true)
}

/// With what failed in a sequence.
pub open spec fn with_failed_item(
    m: MessageView,
    entity: Seq<char>,
    entity_type: Seq<char>,
    error: Seq<char>,
) -> MessageView {
    m.with("Item"@, short(entity), true).with("Type"@, short(entity_type), true).with(
        "Error"@,
        short(error),
        false,
    )
}

pub fn add_failed_item(message: ChatMessage, entity: &str, entity_type: &str, error: &str) -> (r:
    ChatMessage)
    ensures
        r@ == with_failed_item(message@, entity@, entity_type@, error@),
{
    message.field("Item", truncate_chat_value(entity).as_str(), true).field(
        "Type",
        truncate_chat_value(entity_type).as_str(),
        true,
    ).field("Error", truncate_chat_value(error).as_str(), false)
}

/// With the positions of a slew.
pub open spec fn with_slew(
    m: MessageView,
    from: EventCoordinates,
    target: Option<EventCoordinates>,
    to: Option<EventCoordinates>,
) -> MessageView {
    let a = with_coordinates(m, "From position"@, from);
    let b = match target {
        Some(c) => with_coordinates(a, "Requested destination"@, c),
        None => a,
    };
    match to {
        Some(c) => with_coordinates(b, "To position"@, c),
        None => b,
    }
}

/// With what an event's details say of a slew; nothing for any other event.
pub open spec fn with_slew_details(m: MessageView, details: EventDetails) -> MessageView {
    match details {
        EventDetails::MountSlewStarted { from, target, motion_id, observed_in_progress } => {
            with_motion(
                with_slew(m, from, target, None),
                motion_id,
                None,
                None,
                observed_in_progress,
            )
        },
        EventDetails::MountSlewed {
            from,
            to,
            target,
            motion_id,
            duration_seconds,
            end_detection,
            observed_in_progress,
        } => with_motion(
            with_slew(m, from, target, Some(to)),
            motion_id,
            duration_seconds,
            end_detection,
            observed_in_progress,
        ),
        _ => m,
    }
}

pub fn add_slew_details(message: ChatMessage, details: &EventDetails) -> (r: ChatMessage)
    ensures
        r@ == with_slew_details(message@, *details),
{
    match details {
        EventDetails::MountSlewStarted { from, target, motion_id, observed_in_progress } => {
            let mut m = add_coordinate_field(message, "From position", from);
            if let Some(c) = target {
                m = add_coordinate_field(m, "Requested destination", c);
            }
            add_motion_metadata(m, *motion_id, None, &None, *observed_in_progress)
        },
        EventDetails::MountSlewed {
            from,
            to,
            target,
            motion_id,
            duration_seconds,
            end_detection,
            observed_in_progress,
        } => {
            let mut m = add_coordinate_field(message, "From position", from);
            if let Some(c) = target {
                m = add_coordinate_field(m, "Requested destination", c);
            }
            m = add_coordinate_field(m, "To position", to);
            add_motion_metadata(
                m,
                *motion_id,
                *duration_seconds,
                end_detection,
                *observed_in_progress,
            )
        },
        _ => message,
    }
}

/// With what an event's details say, given when the wait ends that it announces.
pub open spec fn with_details(
    m: MessageView,
    kind: EventKind,
    details: EventDetails,
    wait_end: Option<Moment>,
    now: Moment,
) -> MessageView {
    match details {
        EventDetails::FilterWheelChange { new, previous } => m.with(
            "Filter Change"@,
            previous.name@ + " → "@ + new.name@,
            false,
        ).with("Previous"@, filter_text(previous), true).with("New"@, filter_text(new), true),
        EventDetails::TargetStart { .. } => m,
        EventDetails::WaitStart { wait_end_time } => match wait_end {
            Some(end) => with_timing(m, end, now),
            None => m.with("Until"@, wait_end_time@, false),
        },
        EventDetails::AutofocusPointAdded { position, hfr } => m.with(
            "Position"@,
            dec_int(position as int),
            true,
        ).with("HFR"@, hfr.fixed_text(3), true),
        EventDetails::AutofocusFinished { report_timestamp, filter, position, temperature } => {
            let a = m.with("Report"@, report_timestamp@, false);
            let b = match filter {
                Some(f) => a.with("Filter"@, f@, true),
                None => a,
            };
            let c = match position {
                Some(p) => b.with("Position"@, p.fixed_text(0), true),
                None => b,
            };
            with_measure(c, "Temperature"@, temperature, 1, " °C"@)
        },
        EventDetails::SafetyChanged { is_safe } => m.with(
            "State"@,
            if is_safe {
                "Safe"@
            } else {
                "Unsafe"@
            },
            true,
        ),
        EventDetails::WeatherChanged { changed_fields, summary, conditions } => {
            let a = if trimmed(changed_fields@).len() == 0 {
                m
            } else {
                m.with("Changed"@, short(changed_fields@), false)
            };
            let b = match summary {
                Some(s) => if trimmed(s@).len() == 0 {
                    a
                } else {
                    a.with("Summary"@, short(s@), false)
                },
                None => a,
            };
            with_groups(b, conditions.groups())
        },
        EventDetails::WeatherHighWind { is_high_wind, threshold_meters_per_second, conditions } => {
            let a = m.with(
                "State"@,
                if is_high_wind {
                    "Above high-wind threshold"@
                } else {
                    "Below high-wind threshold"@
                },
                false,
            );
            with_measure(
                with_groups(a, conditions.groups()),
                "Configured threshold"@,
                threshold_meters_per_second,
                1,
                " m/s"@,
            )
        },
        EventDetails::RotatorMoveStarted {
            position,
            mechanical_position,
            motion_id,
            observed_in_progress,
        } => with_motion(
            with_measure(
                with_measure(m, "From position"@, position, 2, "°"@),
                "Mechanical from"@,
                mechanical_position,
                2,
                "°"@,
            ),
            motion_id,
            None,
            None,
            observed_in_progress,
        ),
        EventDetails::RotatorMoved {
            from,
            to,
            position,
            mechanical_from,
            mechanical_to,
            mechanical_position,
            motion_id,
            duration_seconds,
            end_detection,
            observed_in_progress,
        } => with_motion(
            with_rotator_move(
                m,
                kind == EventKind::RotatorMovedMechanical,
                RotatorMove {
                    from,
                    to,
                    position,
                    mechanical_from,
                    mechanical_to,
                    mechanical_position,
                },
            ),
            motion_id,
            duration_seconds,
            end_detection,
            observed_in_progress,
        ),
        EventDetails::MountSlewStarted { .. } => with_slew_details(m, details),
        EventDetails::MountSlewed { .. } => with_slew_details(m, details),
        EventDetails::DomeSlewed { from, to } => m.with(
            "From azimuth"@,
            from.fixed_text(2) + "°"@,
            true,
        ).with("To azimuth"@, to.fixed_text(2) + "°"@, true).with(
            "Δ"@,
            to.difference(from).signed_text(2) + "°"@,
            true,
        ),
        EventDetails::SequenceEntityFailed { entity, entity_type, error } => with_failed_item(
            m,
            entity@,
            entity_type@,
            error@,
        ),
        EventDetails::SequenceFinished { outcome, status, had_failures } => with_outcome(
            m,
            outcome@,
            status@,
            had_failures,
        ),
        EventDetails::ImageSaveFailed { stage, disk_full, error } => m.with(
            "Stage"@,
            short(stage@),
            true,
        ).with("Disk full"@, yes_no(disk_full), true).with("Error"@, short(error@), false),
        EventDetails::FlatBrightnessChanged { previous, new } => m.with(
            "Previous"@,
            dec_int(previous as int),
            true,
        ).with("New"@, dec_int(new as int), true),
        EventDetails::FlatLightToggled { on } => m.with(
            "Light"@,
            match on {
                Some(true) => "On"@,
                Some(false) => "Off"@,
                None => "State unavailable"@,
            },
            true,
        ),
        EventDetails::CommandFailed { command, error } => m.with(
            "Command"@,
            short(command@),
            true,
        ).with("Error"@, short(error@), false),
        EventDetails::NinaNotification { level, message, .. } => m.with(
            "Level"@,
            level@,
            true,
        ).with("Message"@, short(message@), false),
        EventDetails::NinaLog { level, source, member, line, message } => m.with(
            "Level"@,
            level@,
            true,
        ).with("Source"@, short(location_text(source@, member@, line)), true).with(
            "Message"@,
            short(message@),
            false,
        ),
        EventDetails::Unknown(_) => m,
    }
}

fn add_weather_details(message: ChatMessage, details: &EventDetails) -> (r: ChatMessage)
    requires
        details is WeatherChanged || details is WeatherHighWind,
    ensures
        forall|kind: EventKind, end: Option<Moment>, now: Moment|
            r@ == #[trigger] with_details(message@, kind, *details, end, now),
{
    let mut m = message;
    match details {
        EventDetails::WeatherChanged { changed_fields, summary, conditions } => {
            if !is_blank(changed_fields.as_str()) {
                let text = truncate_chat_value(changed_fields.as_str());
                m = m.field("Changed", text.as_str(), false);
            }
            if let Some(s) = summary {
                if !is_blank(s.as_str()) {
                    m = m.field("Summary", truncate_chat_value(s.as_str()).as_str(), false);
                }
            }
            add_groups(m, &conditions.chat_fields())
        },
        EventDetails::WeatherHighWind { is_high_wind, threshold_meters_per_second, conditions } => {
            m = m.field(
                "State",
                if *is_high_wind {
                    "Above high-wind threshold"
                } else {
                    "Below high-wind threshold"
                },
                false,
            );
            m = add_groups(m, &conditions.chat_fields());
            add_measure(m, "Configured threshold", *threshold_meters_per_second, 1, " m/s")
        },
        _ => m,
    }
}

fn add_details(
    message: ChatMessage,
    kind: EventKind,
    details: &EventDetails,
    wait_end: Option<Moment>,
    now: Moment,
) -> (r: ChatMessage)
    requires
        wait_end matches Some(m) ==> m.wf(),
        now.wf(),
    ensures
        r@ == with_details(message@, kind, *details, wait_end, now),
{
    match details {
        EventDetails::FilterWheelChange { new, previous } => {
            let text = cat3(previous.name.as_str(), " → ", new.name.as_str());
            message.field("Filter Change", text.as_str(), false).field(
                "Previous",
                filter_label(previous).as_str(),
                true,
            ).field("New", filter_label(new).as_str(), true)
        },
        EventDetails::TargetStart { .. } => message,
        EventDetails::WaitStart { wait_end_time } => match wait_end {
            Some(end) => add_wait_timing_fields(message, end, now),
            None => message.field("Until", wait_end_time.as_str(), false),
        },
        EventDetails::AutofocusPointAdded { position, hfr } => message.field(
            "Position",
            decimal_int(*position as i128).as_str(),
            true,
        ).field("HFR", hfr.fixed(3).as_str(), true),
        EventDetails::AutofocusFinished { report_timestamp, filter, position, temperature } => {
            let mut m = message.field("Report", report_timestamp.as_str(), false);
            if let Some(f) = filter {
                m = m.field("Filter", f.as_str(), true);
            }
            if let Some(p) = position {
                m = m.field("Position", p.fixed(0).as_str(), true);
            }
            add_measure(m, "Temperature", *temperature, 1, " °C")
        },
        EventDetails::SafetyChanged { is_safe } => message.field(
            "State",
            if *is_safe {
                "Safe"
            } else {
                "Unsafe"
            },
            true,
        ),
        EventDetails::WeatherChanged { .. } => add_weather_details(message, details),
        EventDetails::WeatherHighWind { .. } => add_weather_details(message, details),
        EventDetails::RotatorMoveStarted {
            position,
            mechanical_position,
            motion_id,
            observed_in_progress,
        } => {
            let mut m = add_measure(message, "From position", *position, 2, "°");
            m = add_measure(m, "Mechanical from", *mechanical_position, 2, "°");
            add_motion_metadata(m, *motion_id, None, &None, *observed_in_progress)
        },
        EventDetails::RotatorMoved {
            from,
            to,
            position,
            mechanical_from,
            mechanical_to,
            mechanical_position,
            motion_id,
            duration_seconds,
            end_detection,
            observed_in_progress,
        } => {
            let m = add_rotator_end_fields(
                message,
                kind == EventKind::RotatorMovedMechanical,
                RotatorMove {
                    from: *from,
                    to: *to,
                    position: *position,
                    mechanical_from: *mechanical_from,
                    mechanical_to: *mechanical_to,
                    mechanical_position: *mechanical_position,
                },
            );
            add_motion_metadata(
                m,
                *motion_id,
                *duration_seconds,
                end_detection,
                *observed_in_progress,
            )
        },
        EventDetails::MountSlewStarted { .. } => add_slew_details(message, details),
        EventDetails::MountSlewed { .. } => add_slew_details(message, details),
        EventDetails::DomeSlewed { from, to } => {
            let start = cat2(from.fixed(2).as_str(), "°");
            let end = cat2(to.fixed(2).as_str(), "°");
            let change = cat2(to.minus(*from).fixed_signed(2).as_str(), "°");
            message.field("From azimuth", start.as_str(), true).field(
                "To azimuth",
                end.as_str(),
                true,
            ).field("Δ", change.as_str(), true)
        },
        EventDetails::SequenceEntityFailed { entity, entity_type, error } => add_failed_item(
            message,
            entity.as_str(),
            entity_type.as_str(),
            error.as_str(),
        ),
        EventDetails::SequenceFinished { outcome, status, had_failures } => add_outcome(
            message,
            outcome.as_str(),
            status.as_str(),
            *had_failures,
        ),
        EventDetails::ImageSaveFailed { stage, disk_full, error } => message.field(
            "Stage",
            truncate_chat_value(stage.as_str()).as_str(),
            true,
        ).field("Disk full", yes_or_no(*disk_full), true).field(
            "Error",
            truncate_chat_value(error.as_str()).as_str(),
            false,
        ),
        EventDetails::FlatBrightnessChanged { previous, new } => message.field(
            "Previous",
            decimal_int(*previous as i128).as_str(),
            true,
        ).field("New", decimal_int(*new as i128).as_str(), true),
        EventDetails::FlatLightToggled { on } => message.field(
            "Light",
            match on {
                Some(lit) => if *lit {
                    "On"
                } else {
                    "Off"
                },
                None => "State unavailable",
            },
            true,
        ),
        EventDetails::CommandFailed { command, error } => message.field(
            "Command",
            truncate_chat_value(command.as_str()).as_str(),
            true,
        ).field("Error", truncate_chat_value(error.as_str()).as_str(), false),
        EventDetails::NinaNotification { level, message: text, .. } => message.field(
            "Level",
            level.as_str(),
            true,
        ).field("Message", truncate_chat_value(text.as_str()).as_str(), false),
        EventDetails::NinaLog { level, source, member, line, message: text } => {
            let place = location(source.as_str(), member.as_str(), *line);
            message.field("Level", level.as_str(), true).field(
                "Source",
                truncate_chat_value(place.as_str()).as_str(),
                true,
            ).field("Message", truncate_chat_value(text.as_str()).as_str(), false)
        },
        EventDetails::Unknown(_) => message,
    }
}

/// The message about an event, given the times that it names. The start of a target is told of
/// otherwise.
pub open spec fn generic_message(
    telescope: Seq<char>,
    event: Event,
    times: EventTimes,
    now: Moment,
) -> Option<MessageView> {
    let (color, title) = generic_heading(event);
    let a = message_at(titled_text(telescope, title), now).colored(color);
    let b = if event.kind() == EventKind::TsWaitstart {
        match times.at {
            Some(z) => a.occurred("Started"@, z.moment),
            None => a.with("Started"@, event.time@, false),
        }
    } else {
        a.with("Time"@, event.time@, false)
    };
    match event.details {
        Some(EventDetails::TargetStart { .. }) => None,
        Some(details) => Some(
            with_details(
                b,
                event.kind(),
                details,
                crate::updater_state::opt_moment(times.wait_end),
                now,
            ),
        ),
        None => Some(b),
    }
}

/// What a message is.
pub open spec fn opt_message(m: Option<ChatMessage>) -> Option<MessageView> {
    match m {
        Some(x) => Some(x@),
        None => None,
    }
}

/// Writes the message about an event, given the times that it names.
pub fn generic_event_message(
    telescope: &str,
    event: &Event,
    times: EventTimes,
    now: Moment,
) -> (r: Option<ChatMessage>)
    requires
        times.wf(),
        now.wf(),
    ensures
        opt_message(r) == generic_message(telescope@, *event, times, now),
{
    if let Some(EventDetails::TargetStart { .. }) = &event.details {
        return None;
    }
    let (color, title): (u32, String) = generic_head(event);
    let kind: EventKind = event_kind(event.event.as_str());
    let mut m = ChatMessage::new_at(titled(telescope, title.as_str()).as_str(), now).color(color);
    if kind == EventKind::TsWaitstart {
        match times.at {
            Some(z) => {
                m = m.occurred_at("Started", z.moment);
            },
            None => {
                m = m.field("Started", event.time.as_str(), false);
            },
        }
    } else {
        m = m.field("Time", event.time.as_str(), false);
    }
    let end: Option<Moment> = match times.wait_end {
        Some(z) => Some(z.moment),
        None => None,
    };
    match &event.details {
        Some(details) => Some(add_details(m, kind, details, end, now)),
        None => Some(m),
    }
}

} // verus!
