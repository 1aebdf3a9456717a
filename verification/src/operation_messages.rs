//! Messages about the operations of the sequence.

use vstd::prelude::*;
use crate::calendar::{format_utc_timestamp, since, span_between, utc_text, Moment};
use crate::chat::{message_at, ChatAttachment, ChatMessage, MessageView};
use crate::colors;
use crate::operations::OperationUpdate;
use crate::sequence::{
    operation_plate_solve_output, output_of, OperationClass, PlateSolveOutput,
    SequenceOperationKind, TrackedSequenceOperation,
};
use crate::status::{
    comparison, comparison_text, duration_text, format_duration, truncate_chat_value, VALUE_LIMIT,
};
use crate::text::{
    cat2, cat3, cat4, dec, dec_int, decimal, decimal_int, same, str_or, truncated, view_or,
};

verus! {

/// A title with the telescope's name in front of it.
pub open spec fn titled_text(telescope: Seq<char>, title: Seq<char>) -> Seq<char> {
    "["@ + telescope + "] "@ + title
}

pub fn titled(telescope: &str, title: &str) -> (r: String)
    ensures
        r@ == titled_text(telescope@, title@),
{
    cat4("[", telescope, "] ", title)
}

/// With the end of a wait, which Discord shows in the reader's own time.
pub open spec fn with_endpoint(m: MessageView, label: Seq<char>, end: Moment) -> MessageView {
    m.with_discord(label, utc_text(end), "<t:"@ + dec_int(end.seconds as int) + ":F>"@, false)
}

pub fn add_wait_endpoint_field(message: ChatMessage, label: &str, end: Moment) -> (r: ChatMessage)
    requires
        end.wf(),
    ensures
        r@ == with_endpoint(message@, label@, end),
{
    let until = format_utc_timestamp(end);
    let seconds = decimal_int(end.seconds as i128);
    let discord_until = cat3("<t:", seconds.as_str(), ":F>");
    message.field_with_discord_value(label, until.as_str(), discord_until.as_str(), false)
}

/// With the end of a wait and the time that is left, which Discord counts down by itself.
pub open spec fn with_timing(m: MessageView, end: Moment, now: Moment) -> MessageView {
    let dated = with_endpoint(m, "Until"@, end);
    if now.earlier(end) {
        dated.with_discord(
            "Countdown"@,
            duration_text(span_between(now, end)) + " remaining"@,
            "<t:"@ + dec_int(end.seconds as int) + ":R>"@,
            true,
        )
    } else {
        dated.with_discord("Countdown"@, "Scheduled time reached"@, "Scheduled time reached"@, true)
    }
}

pub fn add_wait_timing_fields(message: ChatMessage, end: Moment, now: Moment) -> (r: ChatMessage)
    requires
        end.wf(),
        now.wf(),
    ensures
        r@ == with_timing(message@, end, now),
{
    let dated = add_wait_endpoint_field(message, "Until", end);
    if now.before(end) {
        let left = cat2(format_duration(since(end, now)).as_str(), " remaining");
        let seconds = decimal_int(end.seconds as i128);
        let discord_left = cat3("<t:", seconds.as_str(), ":R>");
        dated.field_with_discord_value("Countdown", left.as_str(), discord_left.as_str(), true)
    } else {
        dated.field_with_discord_value(
            "Countdown",
            "Scheduled time reached",
            "Scheduled time reached",
            true,
        )
    }
}

/// With a field for a measurement, where there is one.
pub open spec fn with_measure(
    m: MessageView,
    name: Seq<char>,
    value: Option<crate::double::Double>,
    places: nat,
    unit: Seq<char>,
) -> MessageView {
    match value {
        Some(v) => m.with(name, v.fixed_text(places) + unit, true),
        None => m,
    }
}

pub fn add_measure(
    message: ChatMessage,
    name: &str,
    value: Option<crate::double::Double>,
    places: usize,
    unit: &str,
) -> (r: ChatMessage)
    requires
        places <= 20,
    ensures
        r@ == with_measure(message@, name@, value, places as nat, unit@),
{
    match value {
        Some(v) => message.field(name, cat2(v.fixed(places).as_str(), unit).as_str(), true),
        None => message,
    }
}

/// A measurement in pixels, or dashes.
pub open spec fn pixels_text(value: Option<crate::double::Double>) -> Seq<char> {
    crate::events::measured(value, 2, " px"@)
}

/// With what a plate solve found.
pub open spec fn with_output(m: MessageView, o: PlateSolveOutput) -> MessageView {
    let a = match o.success {
        Some(true) => m.with("Plate solve"@, "Succeeded"@, true),
        Some(false) => m.with("Plate solve"@, "Failed"@, true),
        None => m,
    };
    let b = match o.coordinates {
        Some(c) => a.with("Solved position"@, c.display_text(), false),
        None => a,
    };
    let c = with_measure(b, "Position angle"@, o.position_angle, 2, "°"@);
    let d = with_measure(c, "Image scale"@, o.pixel_scale, 2, " arcsec/px"@);
    let e = with_measure(d, "Solve radius"@, o.radius_degrees, 2, "°"@);
    let f = with_measure(e, "Pointing error"@, o.separation_arcseconds, 1, " arcsec"@);
    let g = if o.ra_error is Some || o.dec_error is Some {
        f.with(
            "Axis error"@,
            "RA "@ + view_or(o.ra_error, "--"@) + " · Dec "@ + view_or(o.dec_error, "--"@),
            false,
        )
    } else {
        f
    };
    let h = if o.ra_pixel_error is Some || o.dec_pixel_error is Some {
        g.with(
            "Pixel error"@,
            "RA "@ + pixels_text(o.ra_pixel_error) + " · Dec "@ + pixels_text(o.dec_pixel_error),
            false,
        )
    } else {
        g
    };
    if o.flipped == Some(true) {
        h.with("Orientation"@, "Flipped"@, true)
    } else {
        h
    }
}

pub fn add_plate_solve_output_fields(message: ChatMessage, output: &PlateSolveOutput) -> (r:
    ChatMessage)
    ensures
        r@ == with_output(message@, *output),
{
    let mut m = message;
    if let Some(success) = output.success {
        m = m.field(
            "Plate solve",
            if success {
                "Succeeded"
            } else {
                "Failed"
            },
            true,
        );
    }
    if let Some(c) = &output.coordinates {
        m = m.field("Solved position", c.display().as_str(), false);
    }
    m = add_measure(m, "Position angle", output.position_angle, 2, "°");
    m = add_measure(m, "Image scale", output.pixel_scale, 2, " arcsec/px");
    m = add_measure(m, "Solve radius", output.radius_degrees, 2, "°");
    m = add_measure(m, "Pointing error", output.separation_arcseconds, 1, " arcsec");
    if output.ra_error.is_some() || output.dec_error.is_some() {
        let text = cat4(
            "RA ",
            str_or(&output.ra_error, "--"),
            " · Dec ",
            str_or(&output.dec_error, "--"),
        );
        m = m.field("Axis error", text.as_str(), false);
    }
    if output.ra_pixel_error.is_some() || output.dec_pixel_error.is_some() {
        let ra = crate::events::measured_text(output.ra_pixel_error, 2, " px");
        let dec_text = crate::events::measured_text(output.dec_pixel_error, 2, " px");
        let text = cat4("RA ", ra.as_str(), " · Dec ", dec_text.as_str());
        m = m.field("Pixel error", text.as_str(), false);
    }
    if let Some(flipped) = output.flipped {
        if flipped {
            m = m.field("Orientation", "Flipped", true);
        }
    }
    m
}

/// The stages of an operation's life that a message tells of.
#[derive(Clone, Copy, Debug, PartialEq, Eq, Structural)]
pub enum Stage {
    Started,
    Progress,
    Output,
    Finished,
    Ended,
    Failed,
}

pub open spec fn stage_of(update: OperationUpdate) -> Stage {
    match update {
        OperationUpdate::Started => Stage::Started,
        OperationUpdate::Progress(_) => Stage::Progress,
        OperationUpdate::Output => Stage::Output,
        OperationUpdate::Finished { .. } => Stage::Finished,
        OperationUpdate::Ended { .. } => Stage::Ended,
        OperationUpdate::Failed { .. } => Stage::Failed,
    }
}

pub fn stage(update: OperationUpdate) -> (r: Stage)
    ensures
        r == stage_of(update),
{
    match update {
        OperationUpdate::Started => Stage::Started,
        OperationUpdate::Progress(_) => Stage::Progress,
        OperationUpdate::Output => Stage::Output,
        OperationUpdate::Finished { .. } => Stage::Finished,
        OperationUpdate::Ended { .. } => Stage::Ended,
        OperationUpdate::Failed { .. } => Stage::Failed,
    }
}

/// The name of an operation and the title of a message about it.
pub open spec fn heading_text(class: OperationClass, stage: Stage) -> (Seq<char>, Seq<char>) {
    let other = ("Sequence operation"@, "Sequence operation update"@);
    match class {
        OperationClass::CameraCooling => match stage {
            Stage::Started => ("Camera cooling"@, "❄️ Camera cooling started"@),
            Stage::Progress => ("Camera cooling"@, "❄️ Camera cooling update"@),
            Stage::Finished => ("Camera cooling"@, "✅ Camera cooling finished"@),
            Stage::Ended => ("Camera cooling"@, "Camera cooling ended"@),
            Stage::Failed => ("Camera cooling"@, "❌ Camera cooling failed"@),
            Stage::Output => other,
        },
        OperationClass::CameraWarming => match stage {
            Stage::Started => ("Camera warming"@, "🌡️ Camera warming started"@),
            Stage::Progress => ("Camera warming"@, "🌡️ Camera warming update"@),
            Stage::Finished => ("Camera warming"@, "✅ Camera warming finished"@),
            Stage::Ended => ("Camera warming"@, "Camera warming ended"@),
            Stage::Failed => ("Camera warming"@, "❌ Camera warming failed"@),
            Stage::Output => other,
        },
        OperationClass::TimeWait => match stage {
            Stage::Started => ("Timed wait"@, "⏳ Timed wait started"@),
            Stage::Progress => ("Timed wait"@, "⏳ Timed wait update"@),
            Stage::Finished => ("Timed wait"@, "✅ Timed wait finished"@),
            Stage::Ended => ("Timed wait"@, "Timed wait ended"@),
            Stage::Failed => ("Timed wait"@, "❌ Timed wait failed"@),
            Stage::Output => other,
        },
        OperationClass::AstronomicalWait => match stage {
            Stage::Started => ("Astronomical wait"@, "🌌 Astronomical wait started"@),
            Stage::Finished => ("Astronomical wait"@, "✅ Astronomical condition reached"@),
            Stage::Ended => ("Astronomical wait"@, "Astronomical wait ended"@),
            Stage::Failed => ("Astronomical wait"@, "❌ Astronomical wait failed"@),
            _ => other,
        },
        OperationClass::SafetyWait => match stage {
            Stage::Started => ("Safety wait"@, "🛡️ Waiting for safe conditions"@),
            Stage::Finished => ("Safety wait"@, "✅ Safe conditions reached"@),
            Stage::Ended => ("Safety wait"@, "Safety wait ended"@),
            Stage::Failed => ("Safety wait"@, "❌ Safety wait failed"@),
            _ => other,
        },
        OperationClass::ConditionWait => match stage {
            Stage::Started => ("Condition wait"@, "⏳ Waiting for a sequence condition"@),
            Stage::Finished => ("Condition wait"@, "✅ Sequence condition reached"@),
            Stage::Ended => ("Condition wait"@, "Sequence condition wait ended"@),
            Stage::Failed => ("Condition wait"@, "❌ Sequence condition wait failed"@),
            _ => other,
        },
        OperationClass::ManualWait => match stage {
            Stage::Started => ("Manual wait"@, "⏸️ Waiting for manual sequence resume"@),
            Stage::Finished => ("Manual wait"@, "▶️ Sequence manually resumed"@),
            Stage::Ended => ("Manual wait"@, "Manual sequence wait ended"@),
            Stage::Failed => ("Manual wait"@, "❌ Manual sequence wait failed"@),
            _ => other,
        },
        OperationClass::MountSlew => match stage {
            Stage::Started => ("Mount slew"@, "🔭 Mount slew started"@),
            Stage::Finished => ("Mount slew"@, "✅ Mount slew finished"@),
            Stage::Ended => ("Mount slew"@, "Mount slew ended"@),
            Stage::Failed => ("Mount slew"@, "❌ Mount slew failed"@),
            _ => other,
        },
        OperationClass::MountCenter => match stage {
            Stage::Started => ("Center"@, "🎯 Centering started"@),
            Stage::Output => ("Center"@, "🔎 Plate solve result"@),
            Stage::Finished => ("Center"@, "✅ Centering finished"@),
            Stage::Ended => ("Center"@, "Centering ended"@),
            Stage::Failed => ("Center"@, "❌ Centering failed"@),
            Stage::Progress => other,
        },
        OperationClass::PlateSolve => match stage {
            Stage::Started => ("Plate solve"@, "🔎 Plate solve started"@),
            Stage::Output => ("Plate solve"@, "🔎 Plate solve result"@),
            Stage::Finished => ("Plate solve"@, "✅ Plate solve finished"@),
            Stage::Ended => ("Plate solve"@, "Plate solve ended"@),
            Stage::Failed => ("Plate solve"@, "❌ Plate solve failed"@),
            Stage::Progress => other,
        },
    }
}

pub fn heading(class: OperationClass, stage: Stage) -> (r: (&'static str, &'static str))
    ensures
        (r.0@, r.1@) == heading_text(class, stage),
{
    match class {
        OperationClass::CameraCooling => match stage {
            Stage::Started => ("Camera cooling", "❄️ Camera cooling started"),
            Stage::Progress => ("Camera cooling", "❄️ Camera cooling update"),
            Stage::Finished => ("Camera cooling", "✅ Camera cooling finished"),
            Stage::Ended => ("Camera cooling", "Camera cooling ended"),
            Stage::Failed => ("Camera cooling", "❌ Camera cooling failed"),
            Stage::Output => ("Sequence operation", "Sequence operation update"),
        },
        OperationClass::CameraWarming => match stage {
            Stage::Started => ("Camera warming", "🌡️ Camera warming started"),
            Stage::Progress => ("Camera warming", "🌡️ Camera warming update"),
            Stage::Finished => ("Camera warming", "✅ Camera warming finished"),
            Stage::Ended => ("Camera warming", "Camera warming ended"),
            Stage::Failed => ("Camera warming", "❌ Camera warming failed"),
            Stage::Output => ("Sequence operation", "Sequence operation update"),
        },
        OperationClass::TimeWait => match stage {
            Stage::Started => ("Timed wait", "⏳ Timed wait started"),
            Stage::Progress => ("Timed wait", "⏳ Timed wait update"),
            Stage::Finished => ("Timed wait", "✅ Timed wait finished"),
            Stage::Ended => ("Timed wait", "Timed wait ended"),
            Stage::Failed => ("Timed wait", "❌ Timed wait failed"),
            Stage::Output => ("Sequence operation", "Sequence operation update"),
        },
        OperationClass::AstronomicalWait => match stage {
            Stage::Started => ("Astronomical wait", "🌌 Astronomical wait started"),
            Stage::Finished => ("Astronomical wait", "✅ Astronomical condition reached"),
            Stage::Ended => ("Astronomical wait", "Astronomical wait ended"),
            Stage::Failed => ("Astronomical wait", "❌ Astronomical wait failed"),
            _ => ("Sequence operation", "Sequence operation update"),
        },
        OperationClass::SafetyWait => match stage {
            Stage::Started => ("Safety wait", "🛡️ Waiting for safe conditions"),
            Stage::Finished => ("Safety wait", "✅ Safe conditions reached"),
            Stage::Ended => ("Safety wait", "Safety wait ended"),
            Stage::Failed => ("Safety wait", "❌ Safety wait failed"),
            _ => ("Sequence operation", "Sequence operation update"),
        },
        OperationClass::ConditionWait => match stage {
            Stage::Started => ("Condition wait", "⏳ Waiting for a sequence condition"),
            Stage::Finished => ("Condition wait", "✅ Sequence condition reached"),
            Stage::Ended => ("Condition wait", "Sequence condition wait ended"),
            Stage::Failed => ("Condition wait", "❌ Sequence condition wait failed"),
            _ => ("Sequence operation", "Sequence operation update"),
        },
        OperationClass::ManualWait => match stage {
            Stage::Started => ("Manual wait", "⏸️ Waiting for manual sequence resume"),
            Stage::Finished => ("Manual wait", "▶️ Sequence manually resumed"),
            Stage::Ended => ("Manual wait", "Manual sequence wait ended"),
            Stage::Failed => ("Manual wait", "❌ Manual sequence wait failed"),
            _ => ("Sequence operation", "Sequence operation update"),
        },
        OperationClass::MountSlew => match stage {
            Stage::Started => ("Mount slew", "🔭 Mount slew started"),
            Stage::Finished => ("Mount slew", "✅ Mount slew finished"),
            Stage::Ended => ("Mount slew", "Mount slew ended"),
            Stage::Failed => ("Mount slew", "❌ Mount slew failed"),
            _ => ("Sequence operation", "Sequence operation update"),
        },
        OperationClass::MountCenter => match stage {
            Stage::Started => ("Center", "🎯 Centering started"),
            Stage::Output => ("Center", "🔎 Plate solve result"),
            Stage::Finished => ("Center", "✅ Centering finished"),
            Stage::Ended => ("Center", "Centering ended"),
            Stage::Failed => ("Center", "❌ Centering failed"),
            Stage::Progress => ("Sequence operation", "Sequence operation update"),
        },
        OperationClass::PlateSolve => match stage {
            Stage::Started => ("Plate solve", "🔎 Plate solve started"),
            Stage::Output => ("Plate solve", "🔎 Plate solve result"),
            Stage::Finished => ("Plate solve", "✅ Plate solve finished"),
            Stage::Ended => ("Plate solve", "Plate solve ended"),
            Stage::Failed => ("Plate solve", "❌ Plate solve failed"),
            Stage::Progress => ("Sequence operation", "Sequence operation update"),
        },
    }
}

/// The plate solve failed.
pub open spec fn solve_failed(kind: SequenceOperationKind) -> bool {
    output_of(kind) matches Some(o) && o.success == Some(false)
}

pub open spec fn update_color(kind: SequenceOperationKind, stage: Stage) -> u32 {
    match stage {
        Stage::Finished => colors::GREEN,
        Stage::Ended => colors::GRAY,
        Stage::Failed => colors::RED,
        Stage::Output => if solve_failed(kind) {
            colors::RED
        } else {
            colors::CYAN
        },
        Stage::Started => colors::YELLOW,
        Stage::Progress => colors::YELLOW,
    }
}

fn color(kind: &SequenceOperationKind, stage: Stage) -> (r: u32)
    ensures
        r == update_color(*kind, stage),
{
    match stage {
        Stage::Finished => colors::GREEN,
        Stage::Ended => colors::GRAY,
        Stage::Failed => colors::RED,
        Stage::Output => {
            let failed: bool = match operation_plate_solve_output(kind) {
                Some(o) => match o.success {
                    Some(success) => !success,
                    None => false,
                },
                None => false,
            };
            if failed {
                colors::RED
            } else {
                colors::CYAN
            }
        },
        Stage::Started => colors::YELLOW,
        Stage::Progress => colors::YELLOW,
    }
}

/// With a field for a span, where there is one.
pub open spec fn with_span(
    m: MessageView,
    name: Seq<char>,
    span: Option<crate::calendar::Span>,
) -> MessageView {
    match span {
        Some(s) => m.with(name, duration_text(s), true),
        None => m,
    }
}

fn add_span(message: ChatMessage, name: &str, span: Option<crate::calendar::Span>) -> (r:
    ChatMessage)
    requires
        span matches Some(s) ==> s.wf(),
    ensures
        r@ == with_span(message@, name@, span),
{
    match span {
        Some(s) => message.field(name, format_duration(s).as_str(), true),
        None => message,
    }
}

/// With a field for a position, where there is one.
pub open spec fn with_position(
    m: MessageView,
    name: Seq<char>,
    position: Option<crate::events::EventCoordinates>,
) -> MessageView {
    match position {
        Some(c) => m.with(name, c.display_text(), false),
        None => m,
    }
}

fn add_position(
    message: ChatMessage,
    name: &str,
    position: &Option<crate::events::EventCoordinates>,
) -> (r: ChatMessage)
    ensures
        r@ == with_position(message@, name@, *position),
{
    match position {
        Some(c) => message.field(name, c.display().as_str(), false),
        None => message,
    }
}

pub open spec fn finite_or_none(v: crate::double::Double) -> Option<crate::double::Double> {
    if v.finite() {
        Some(v)
    } else {
        None
    }
}

fn when_finite(v: crate::double::Double) -> (r: Option<crate::double::Double>)
    ensures
        r == finite_or_none(v),
{
    if v.is_finite() {
        Some(v)
    } else {
        None
    }
}

/// With what is particular to the kind of an operation.
pub open spec fn with_particulars(
    m: MessageView,
    t: TrackedSequenceOperation,
    stage: Stage,
    now: Moment,
) -> MessageView {
    match t.operation.kind {
        SequenceOperationKind::CameraCooling { target_temperature, minimum_duration } => {
            let a = m.with(
                "Target temperature"@,
                target_temperature.fixed_text(1) + " °C"@,
                true,
            );
            let b = with_span(a, "Minimum time"@, minimum_duration);
            match t.camera {
                Some(c) => with_measure(
                    with_measure(
                        b,
                        "Current temperature"@,
                        finite_or_none(c.temperature),
                        1,
                        " °C"@,
                    ),
                    "Cooler power"@,
                    finite_or_none(c.cooler_power),
                    0,
                    "%"@,
                ),
                None => b,
            }
        },
        SequenceOperationKind::CameraWarming { minimum_duration } => {
            let a = with_span(m, "Minimum time"@, minimum_duration);
            match t.camera {
                Some(c) => with_measure(
                    a,
                    "Current temperature"@,
                    finite_or_none(c.temperature),
                    1,
                    " °C"@,
                ),
                None => a,
            }
        },
        SequenceOperationKind::TimeWait { .. } => match t.estimated_end {
            Some(end) => if stage == Stage::Started || stage == Stage::Progress {
                with_timing(m, end, now)
            } else {
                with_endpoint(m, "Planned until"@, end)
            },
            None => m,
        },
        SequenceOperationKind::AstronomicalWait {
            target_altitude_degrees,
            current_altitude_degrees,
            comparator,
            expected_time,
        } => {
            let a = match target_altitude_degrees {
                Some(v) => m.with(
                    "Target altitude"@,
                    comparison_text(comparator) + v.fixed_text(2) + "°"@,
                    true,
                ),
                None => m,
            };
            let b = with_measure(a, "Current altitude"@, current_altitude_degrees, 2, "°"@);
            match expected_time {
                Some(e) => b.with("Expected"@, truncated(e@, VALUE_LIMIT as nat), false),
                None => b,
            }
        },
        SequenceOperationKind::SafetyWait { is_safe, wait_interval } => {
            let a = m.with(
                "Safety monitor"@,
                match is_safe {
                    Some(true) => "Safe"@,
                    Some(false) => "Unsafe"@,
                    None => "Monitor disconnected"@,
                },
                true,
            );
            with_span(a, "Check interval"@, wait_interval)
        },
        SequenceOperationKind::ConditionWait { wait_interval } => with_span(
            m,
            "Check interval"@,
            wait_interval,
        ),
        SequenceOperationKind::ManualWait => m,
        SequenceOperationKind::MountSlew { coordinates, .. } => with_position(
            m,
            "Destination"@,
            coordinates,
        ),
        SequenceOperationKind::MountCenter { coordinates, rotation, .. } => with_measure(
            with_position(m, "Target"@, coordinates),
            "Target rotation"@,
            rotation,
            1,
            "°"@,
        ),
        SequenceOperationKind::PlateSolve { coordinates, rotation, .. } => with_measure(
            with_position(m, "Requested position"@, coordinates),
            "Requested rotation"@,
            rotation,
            1,
            "°"@,
        ),
    }
}

fn add_particulars(
    message: ChatMessage,
    t: &TrackedSequenceOperation,
    stage: Stage,
    now: Moment,
) -> (r: ChatMessage)
    requires
        t.valid(),
        now.wf(),
    ensures
        r@ == with_particulars(message@, *t, stage, now),
{
    let mut m = message;
    match &t.operation.kind {
        SequenceOperationKind::CameraCooling { target_temperature, minimum_duration } => {
            let goal = cat2(target_temperature.fixed(1).as_str(), " °C");
            m = m.field("Target temperature", goal.as_str(), true);
            m = add_span(m, "Minimum time", *minimum_duration);
            if let Some(c) = &t.camera {
                m = add_measure(m, "Current temperature", when_finite(c.temperature), 1, " °C");
                m = add_measure(m, "Cooler power", when_finite(c.cooler_power), 0, "%");
            }
        },
        SequenceOperationKind::CameraWarming { minimum_duration } => {
            m = add_span(m, "Minimum time", *minimum_duration);
            if let Some(c) = &t.camera {
                m = add_measure(m, "Current temperature", when_finite(c.temperature), 1, " °C");
            }
        },
        SequenceOperationKind::TimeWait { .. } => {
            if let Some(end) = t.estimated_end {
                m = if stage == Stage::Started || stage == Stage::Progress {
                    add_wait_timing_fields(m, end, now)
                } else {
                    add_wait_endpoint_field(m, "Planned until", end)
                };
            }
        },
        SequenceOperationKind::AstronomicalWait {
            target_altitude_degrees,
            current_altitude_degrees,
            comparator,
            expected_time,
        } => {
            if let Some(v) = target_altitude_degrees {
                let text = cat3(comparison(comparator).as_str(), v.fixed(2).as_str(), "°");
                m = m.field("Target altitude", text.as_str(), true);
            }
            m = add_measure(m, "Current altitude", *current_altitude_degrees, 2, "°");
            if let Some(e) = expected_time {
                m = m.field("Expected", truncate_chat_value(e.as_str()).as_str(), false);
            }
        },
        SequenceOperationKind::SafetyWait { is_safe, wait_interval } => {
            let state: &str = match is_safe {
                Some(safe) => if *safe {
                    "Safe"
                } else {
                    "Unsafe"
                },
                None => "Monitor disconnected",
            };
            m = m.field("Safety monitor", state, true);
            m = add_span(m, "Check interval", *wait_interval);
        },
        SequenceOperationKind::ConditionWait { wait_interval } => {
            m = add_span(m, "Check interval", *wait_interval);
        },
        SequenceOperationKind::ManualWait => {},
        SequenceOperationKind::MountSlew { coordinates, .. } => {
            m = add_position(m, "Destination", coordinates);
        },
        SequenceOperationKind::MountCenter { coordinates, rotation, .. } => {
            m = add_position(m, "Target", coordinates);
            m = add_measure(m, "Target rotation", *rotation, 1, "°");
        },
        SequenceOperationKind::PlateSolve { coordinates, rotation, .. } => {
            m = add_position(m, "Requested position", coordinates);
            m = add_measure(m, "Requested rotation", *rotation, 1, "°");
        },
    }
    m
}

/// The message about an operation.
pub open spec fn operation_message(
    telescope: Seq<char>,
    t: TrackedSequenceOperation,
    update: OperationUpdate,
    now: Moment,
) -> MessageView {
    let stage = stage_of(update);
    let (name, title) = heading_text(crate::sequence::class_of(t.operation.kind), stage);
    let a = message_at(titled_text(telescope, title), now).colored(
        update_color(t.operation.kind, stage),
    ).with("Operation"@, name, true).with("Sequence item"@, t.operation.name@, true);
    let b = match update {
        OperationUpdate::Progress(percent) => a.with(
            "Progress"@,
            dec(percent as nat) + "%"@,
            true,
        ),
        _ => a,
    };
    let c = with_particulars(b, t, stage, now);
    match output_of(t.operation.kind) {
        Some(o) => with_output(c, o),
        None => c,
    }
}

/// The update comes with the picture of a plate solve.
pub open spec fn attaches(update: OperationUpdate) -> bool {
    match update {
        OperationUpdate::Output => true,
        OperationUpdate::Finished { attach_output } => attach_output,
        OperationUpdate::Ended { attach_output } => attach_output,
        OperationUpdate::Failed { attach_output } => attach_output,
        _ => false,
    }
}

/// The picture that goes with an update, and its name.
pub open spec fn picture_of(t: TrackedSequenceOperation, update: OperationUpdate) -> Option<
    (Seq<u8>, Seq<char>),
> {
    if !attaches(update) {
        None
    } else {
        match output_of(t.operation.kind) {
            Some(o) => match o.thumbnail {
                Some(picture) => Some(
                    (
                        picture@,
                        if o.thumbnail_media_type matches Some(t) && t@ == "image/png"@ {
                            "plate_solve.png"@
                        } else {
                            "plate_solve.jpg"@
                        },
                    ),
                ),
                None => None,
            },
            None => None,
        }
    }
}

fn copy_bytes(data: &Vec<u8>) -> (r: Vec<u8>)
    ensures
        r@ == data@,
{
    let mut out: Vec<u8> = Vec::new();
    let mut i: usize = 0;
    while i < data.len()
        invariant
            i <= data@.len(),
            out@ == data@.subrange(0, i as int),
        decreases data@.len() - i,
    {
        out.push(data[i]);
        i += 1;
        assert(out@ =~= data@.subrange(0, i as int));
    }
    assert(out@ =~= data@);
    out
}

/// Writes the message about an operation and gives the picture that goes with it.
pub fn sequence_operation_message(
    telescope: &str,
    t: &TrackedSequenceOperation,
    update: OperationUpdate,
    now: Moment,
) -> (r: (ChatMessage, Option<ChatAttachment>))
    requires
        t.valid(),
        now.wf(),
    ensures
        r.0@ == operation_message(telescope@, *t, update, now),
        match r.1 {
            Some(a) => picture_of(*t, update) == Some((a.data@, a.filename@)),
            None => picture_of(*t, update) is None,
        },
{
    let at: Stage = stage(update);
    let (name, title): (&str, &str) = heading(t.operation.kind.class(), at);
    let mut m = ChatMessage::new_at(titled(telescope, title).as_str(), now).color(
        color(&t.operation.kind, at),
    ).field("Operation", name, true).field("Sequence item", t.operation.name.as_str(), true);
    if let OperationUpdate::Progress(percent) = update {
        let text = cat2(decimal(percent as u128).as_str(), "%");
        m = m.field("Progress", text.as_str(), true);
    }
    m = add_particulars(m, t, at, now);
    let output = operation_plate_solve_output(&t.operation.kind);
    if let Some(o) = output {
        m = add_plate_solve_output_fields(m, o);
    }
    let attach: bool = match update {
        OperationUpdate::Output => true,
        OperationUpdate::Finished { attach_output } => attach_output,
        OperationUpdate::Ended { attach_output } => attach_output,
        OperationUpdate::Failed { attach_output } => attach_output,
        _ => false,
    };
    let mut attachment: Option<ChatAttachment> = None;
    if attach {
        if let Some(o) = output {
            if let Some(picture) = &o.thumbnail {
                let png: bool = match &o.thumbnail_media_type {
                    Some(media) => same(media.as_str(), "image/png"),
                    None => false,
                };
                let filename = String::from_str(
                    if png {
                        "plate_solve.png"
                    } else {
                        "plate_solve.jpg"
                    },
                );
                attachment = Some(ChatAttachment { data: copy_bytes(picture), filename });
            }
        }
    }
    (m, attachment)
}

} // verus!
