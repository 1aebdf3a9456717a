//! What the messages about single events promise: each particular of an event stands under its own
//! name.

use vstd::prelude::*;
use crate::calendar::{span_between, stamp_text, utc_text, Moment};
use crate::chat::MessageView;
use crate::colors;
use crate::double::Double;
use crate::event_laws::{mechanical_name, wait_name};
use crate::event_messages::{
    end_detection_text, generic_message, with_groups, with_motion, with_rotator_move,
        with_slew_details, RotatorMove,
};
use crate::event_types::EventKind;
use crate::events::{
    Event, EventCoordinates, EventDetails, TargetCoordinates, WeatherConditions,
};
use crate::message_laws::{group_fields, shown, shown_on_discord};
use crate::operation_messages::{titled_text, with_measure};
use crate::status::duration_text;
use crate::text::{ascii_upper, dec_int, joined, spaced, trimmed, truncated};
use crate::updater_state::EventTimes;
use crate::weather::{with_group, with_reading, GroupView};

verus! {

/// A reading in words, where there is one, as the only part of a text.
pub open spec fn reading(before: Seq<char>, value: Option<Double>, places: nat,
    unit: Seq<char>) -> Seq<
    Seq<char>,
> {
    match value {
        Some(v) => seq![before + v.fixed_text(places) + unit],
        None => Seq::empty(),
    }
}

/// The words for a yes or no.
pub open spec fn yes_or_no(b: bool) -> Seq<char> {
    if b {
        "Yes"@
    } else {
        "No"@
    }
}

/// A measure in words, where there is one.
pub open spec fn measure(value: Option<Double>, places: nat, unit: Seq<char>) -> Option<Seq<char>> {
    match value {
        Some(v) => Some(v.fixed_text(places) + unit),
        None => None,
    }
}

/// A change from one place to another in degrees, where both are known.
pub open spec fn turned(from: Option<Double>, to: Option<Double>) -> Option<Seq<char>> {
    match (from, to) {
        (Some(f), Some(t)) => Some(t.difference(f).signed_text(2) + "°"@),
        _ => None,
    }
}

/// A position in words.
pub open spec fn place(c: EventCoordinates) -> Seq<char> {
    if c.display_text().len() == 0 {
        "Position unavailable"@
    } else {
        truncated(c.display_text(), 1000)
    }
}

/// The message about a dome slew shows where it began, where it ended and the way between, each
/// under its own name.
#[verifier::spinoff_prover]
pub proof fn dome_slews_show_both_azimuths(
    telescope: Seq<char>,
    event: Event,
    times: EventTimes,
    now: Moment,
    from: Double,
    to: Double,
)
    requires
        event.details == Some(EventDetails::DomeSlewed { from, to }),
        event.event@ != "TS-WAITSTART"@,
    ensures
        ({
            let m = generic_message(telescope, event, times, now)->0;
            &&& generic_message(telescope, event, times, now) is Some
            &&& shown(m, "Time"@) == Some(event.time@)
            &&& shown(m, "From azimuth"@) == Some(from.fixed_text(2) + "°"@)
            &&& shown(m, "To azimuth"@) == Some(to.fixed_text(2) + "°"@)
            &&& shown(m, "Δ"@) == Some(to.difference(from).signed_text(2) + "°"@)
        }),
{
    broadcast use group_fields;
    reveal_strlit("Time");
    reveal_strlit("From azimuth");
    reveal_strlit("To azimuth");
    reveal_strlit("Δ");
    assert("Time"@.len() == 4);
    assert("From azimuth"@.len() == 12);
    assert("To azimuth"@.len() == 10);
    assert("Δ"@.len() == 1);
    wait_name(event.event@);
}

/// The message about a point of an autofocus run shows its position and its HFR.
#[verifier::spinoff_prover]
pub proof fn autofocus_points_show_position_and_hfr(
    telescope: Seq<char>,
    event: Event,
    times: EventTimes,
    now: Moment,
    position: i32,
    hfr: Double,
)
    requires
        event.details == Some(EventDetails::AutofocusPointAdded { position, hfr }),
        event.event@ != "TS-WAITSTART"@,
    ensures
        ({
            let m = generic_message(telescope, event, times, now)->0;
            &&& generic_message(telescope, event, times, now) is Some
            &&& shown(m, "Time"@) == Some(event.time@)
            &&& shown(m, "Position"@) == Some(dec_int(position as int))
            &&& shown(m, "HFR"@) == Some(hfr.fixed_text(3))
        }),
{
    broadcast use group_fields;
    reveal_strlit("Time");
    reveal_strlit("Position");
    reveal_strlit("HFR");
    assert("Time"@.len() == 4);
    assert("Position"@.len() == 8);
    assert("HFR"@.len() == 3);
    wait_name(event.event@);
}

/// The message about the end of an autofocus run shows its report, filter, position and temperature
/// as far as they are known.
#[verifier::spinoff_prover]
pub proof fn autofocus_ends_show_the_run(
    telescope: Seq<char>,
    event: Event,
    times: EventTimes,
    now: Moment,
    report_timestamp: String,
    filter: Option<String>,
    position: Option<Double>,
    temperature: Option<Double>,
)
    requires
        event.details == Some(EventDetails::AutofocusFinished { report_timestamp, filter, position,
            temperature }),
        event.event@ != "TS-WAITSTART"@,
    ensures
        ({
            let m = generic_message(telescope, event, times, now)->0;
            &&& generic_message(telescope, event, times, now) is Some
            &&& shown(m, "Time"@) == Some(event.time@)
            &&& shown(m, "Report"@) == Some(report_timestamp@)
            &&& shown(m, "Filter"@) == crate::text::opt_view(filter)
            &&& shown(m, "Temperature"@) == measure(temperature, 1, " °C"@)
            &&& (position is None ==> shown(m, "Position"@) is None)
            &&& (position matches Some(p) ==> shown(m, "Position"@) == Some(p.fixed_text(0)))
        }),
{
    broadcast use group_fields;
    reveal_strlit("Time");
    reveal_strlit("Report");
    reveal_strlit("Filter");
    reveal_strlit("Position");
    reveal_strlit("Temperature");
    assert("Time"@.len() == 4);
    assert("Report"@.len() == 6);
    assert("Filter"@.len() == 6);
    assert("Position"@.len() == 8);
    assert("Temperature"@.len() == 11);
    assert("Report"@[0] == 'R');
    assert("Filter"@[0] == 'F');
    wait_name(event.event@);
}

/// The message about a safety change says that it is safe, in green, exactly where the event does,
/// and that it is unsafe, in red, everywhere else.
#[verifier::spinoff_prover]
pub proof fn safety_changes_are_told_apart(
    telescope: Seq<char>,
    event: Event,
    times: EventTimes,
    now: Moment,
    is_safe: bool,
)
    requires
        event.details == Some(EventDetails::SafetyChanged { is_safe }),
        event.event@ != "TS-WAITSTART"@,
    ensures
        ({
            let m = generic_message(telescope, event, times, now)->0;
            &&& generic_message(telescope, event, times, now) is Some
            &&& shown(m, "Time"@) == Some(event.time@)
            &&& shown(m, "State"@) == Some(if is_safe { "Safe"@ } else { "Unsafe"@ })
            &&& (is_safe ==> m.color == Some(colors::GREEN) && m.title
                == titled_text(telescope, "🛡️ Safety monitor reports safe"@))
            &&& (!is_safe ==> m.color == Some(colors::RED) && m.title
                == titled_text(telescope, "⚠️ Safety monitor reports unsafe"@))
        }),
{
    broadcast use group_fields;
    reveal_strlit("Time");
    reveal_strlit("State");
    assert("Time"@.len() == 4);
    assert("State"@.len() == 5);
    wait_name(event.event@);
}

/// The message about a filter change shows the filter before and the filter since.
#[verifier::spinoff_prover]
pub proof fn filter_changes_show_both_filters(
    telescope: Seq<char>,
    event: Event,
    times: EventTimes,
    now: Moment,
    new: crate::events::FilterInfo,
    previous: crate::events::FilterInfo,
)
    requires
        event.details == Some(EventDetails::FilterWheelChange { new, previous }),
        event.event@ != "TS-WAITSTART"@,
    ensures
        ({
            let m = generic_message(telescope, event, times, now)->0;
            &&& generic_message(telescope, event, times, now) is Some
            &&& shown(m, "Time"@) == Some(event.time@)
            &&& shown(m, "Filter Change"@) == Some(previous.name@ + " → "@ + new.name@)
            &&& shown(m, "Previous"@) == Some(previous.name@ + " (ID: "@
                + dec_int(previous.id as int) + ")"@)
            &&& shown(m, "New"@) == Some(new.name@ + " (ID: "@ + dec_int(new.id as int) + ")"@)
        }),
{
    broadcast use group_fields;
    reveal_strlit("Time");
    reveal_strlit("Filter Change");
    reveal_strlit("Previous");
    reveal_strlit("New");
    assert("Time"@.len() == 4);
    assert("Filter Change"@.len() == 13);
    assert("Previous"@.len() == 8);
    assert("New"@.len() == 3);
    wait_name(event.event@);
}

/// The message about a failed item of the sequence shows the item, its type and the error.
#[verifier::spinoff_prover]
pub proof fn failed_items_show_item_type_and_error(
    telescope: Seq<char>,
    event: Event,
    times: EventTimes,
    now: Moment,
    entity: String,
    entity_type: String,
    error: String,
)
    requires
        event.details == Some(EventDetails::SequenceEntityFailed { entity, entity_type, error }),
        event.event@ != "TS-WAITSTART"@,
    ensures
        ({
            let m = generic_message(telescope, event, times, now)->0;
            &&& generic_message(telescope, event, times, now) is Some
            &&& shown(m, "Time"@) == Some(event.time@)
            &&& shown(m, "Item"@) == Some(truncated(entity@, 1000))
            &&& shown(m, "Type"@) == Some(truncated(entity_type@, 1000))
            &&& shown(m, "Error"@) == Some(truncated(error@, 1000))
        }),
{
    broadcast use group_fields;
    reveal_strlit("Time");
    reveal_strlit("Item");
    reveal_strlit("Type");
    reveal_strlit("Error");
    assert("Time"@.len() == 4);
    assert("Item"@.len() == 4);
    assert("Type"@.len() == 4);
    assert("Error"@.len() == 5);
    assert("Time"@[0] == 'T');
    assert("Item"@[0] == 'I');
    assert("Time"@[1] == 'i');
    assert("Type"@[1] == 'y');
    assert("Type"@[0] == 'T');
    wait_name(event.event@);
}

/// The message about the end of a sequence shows its outcome, its status and whether there were
/// failures.
#[verifier::spinoff_prover]
pub proof fn sequence_ends_show_the_outcome(
    telescope: Seq<char>,
    event: Event,
    times: EventTimes,
    now: Moment,
    outcome: String,
    status: String,
    had_failures: bool,
)
    requires
        event.details == Some(EventDetails::SequenceFinished { outcome, status, had_failures }),
        event.event@ != "TS-WAITSTART"@,
    ensures
        ({
            let m = generic_message(telescope, event, times, now)->0;
            &&& generic_message(telescope, event, times, now) is Some
            &&& shown(m, "Time"@) == Some(event.time@)
            &&& shown(m, "Outcome"@) == Some(spaced(outcome@))
            &&& shown(m, "N.I.N.A. status"@) == Some(status@)
            &&& shown(m, "Reported failures"@) == Some(yes_or_no(had_failures))
        }),
{
    broadcast use group_fields;
    reveal_strlit("Time");
    reveal_strlit("Outcome");
    reveal_strlit("N.I.N.A. status");
    reveal_strlit("Reported failures");
    assert("Time"@.len() == 4);
    assert("Outcome"@.len() == 7);
    assert("N.I.N.A. status"@.len() == 15);
    assert("Reported failures"@.len() == 17);
    wait_name(event.event@);
}

/// The message about an image that was not saved shows the stage, whether the disk was full, and
/// the error.
#[verifier::spinoff_prover]
pub proof fn failed_saves_show_stage_and_error(
    telescope: Seq<char>,
    event: Event,
    times: EventTimes,
    now: Moment,
    stage: String,
    disk_full: bool,
    error: String,
)
    requires
        event.details == Some(EventDetails::ImageSaveFailed { stage, disk_full, error }),
        event.event@ != "TS-WAITSTART"@,
    ensures
        ({
            let m = generic_message(telescope, event, times, now)->0;
            &&& generic_message(telescope, event, times, now) is Some
            &&& shown(m, "Time"@) == Some(event.time@)
            &&& shown(m, "Stage"@) == Some(truncated(stage@, 1000))
            &&& shown(m, "Disk full"@) == Some(yes_or_no(disk_full))
            &&& shown(m, "Error"@) == Some(truncated(error@, 1000))
        }),
{
    broadcast use group_fields;
    reveal_strlit("Time");
    reveal_strlit("Stage");
    reveal_strlit("Disk full");
    reveal_strlit("Error");
    assert("Time"@.len() == 4);
    assert("Stage"@.len() == 5);
    assert("Disk full"@.len() == 9);
    assert("Error"@.len() == 5);
    assert("Stage"@[0] == 'S');
    assert("Error"@[0] == 'E');
    wait_name(event.event@);
}

/// The message about the brightness of the flat panel shows the brightness before and since.
#[verifier::spinoff_prover]
pub proof fn brightness_changes_show_both_values(
    telescope: Seq<char>,
    event: Event,
    times: EventTimes,
    now: Moment,
    previous: i32,
    new: i32,
)
    requires
        event.details == Some(EventDetails::FlatBrightnessChanged { previous, new }),
        event.event@ != "TS-WAITSTART"@,
    ensures
        ({
            let m = generic_message(telescope, event, times, now)->0;
            &&& generic_message(telescope, event, times, now) is Some
            &&& shown(m, "Time"@) == Some(event.time@)
            &&& shown(m, "Previous"@) == Some(dec_int(previous as int))
            &&& shown(m, "New"@) == Some(dec_int(new as int))
        }),
{
    broadcast use group_fields;
    reveal_strlit("Time");
    reveal_strlit("Previous");
    reveal_strlit("New");
    assert("Time"@.len() == 4);
    assert("Previous"@.len() == 8);
    assert("New"@.len() == 3);
    wait_name(event.event@);
}

/// The message about the light of the flat panel says whether it is on.
#[verifier::spinoff_prover]
pub proof fn light_changes_show_the_light(
    telescope: Seq<char>,
    event: Event,
    times: EventTimes,
    now: Moment,
    on: Option<bool>,
)
    requires
        event.details == Some(EventDetails::FlatLightToggled { on }),
        event.event@ != "TS-WAITSTART"@,
    ensures
        ({
            let m = generic_message(telescope, event, times, now)->0;
            &&& generic_message(telescope, event, times, now) is Some
            &&& shown(m, "Time"@) == Some(event.time@)
            &&& (on == Some(true) ==> shown(m, "Light"@) == Some("On"@))
            &&& (on == Some(false) ==> shown(m, "Light"@) == Some("Off"@))
            &&& (on is None ==> shown(m, "Light"@) == Some("State unavailable"@))
        }),
{
    broadcast use group_fields;
    reveal_strlit("Time");
    reveal_strlit("Light");
    assert("Time"@.len() == 4);
    assert("Light"@.len() == 5);
    wait_name(event.event@);
}

/// The message about a failed command is red and shows the command and the error.
#[verifier::spinoff_prover]
pub proof fn failed_commands_show_command_and_error(
    telescope: Seq<char>,
    event: Event,
    times: EventTimes,
    now: Moment,
    command: String,
    error: String,
)
    requires
        event.details == Some(EventDetails::CommandFailed { command, error }),
        event.event@ != "TS-WAITSTART"@,
    ensures
        ({
            let m = generic_message(telescope, event, times, now)->0;
            &&& generic_message(telescope, event, times, now) is Some
            &&& shown(m, "Time"@) == Some(event.time@)
            &&& shown(m, "Command"@) == Some(truncated(command@, 1000))
            &&& shown(m, "Error"@) == Some(truncated(error@, 1000))
            &&& m.color == Some(colors::RED)
            &&& m.title == titled_text(telescope, "❌ Command failed · "@ + truncated(command@, 180))
        }),
{
    broadcast use group_fields;
    reveal_strlit("Time");
    reveal_strlit("Command");
    reveal_strlit("Error");
    assert("Time"@.len() == 4);
    assert("Command"@.len() == 7);
    assert("Error"@.len() == 5);
    wait_name(event.event@);
}

/// The message about a notification shows its level and its text, and its header in the title.
#[verifier::spinoff_prover]
pub proof fn notifications_show_level_and_text(
    telescope: Seq<char>,
    event: Event,
    times: EventTimes,
    now: Moment,
    level: String,
    header: String,
    message: String,
)
    requires
        event.details == Some(EventDetails::NinaNotification { level, header, message }),
        event.event@ != "TS-WAITSTART"@,
    ensures
        ({
            let m = generic_message(telescope, event, times, now)->0;
            &&& generic_message(telescope, event, times, now) is Some
            &&& shown(m, "Time"@) == Some(event.time@)
            &&& shown(m, "Level"@) == Some(level@)
            &&& shown(m, "Message"@) == Some(truncated(message@, 1000))
            &&& (trimmed(header@).len() == 0 ==> m.title
                == titled_text(telescope, "🔔 N.I.N.A. notification"@))
            &&& (trimmed(header@).len() > 0 ==> m.title
                == titled_text(telescope, "🔔 N.I.N.A. · "@ + truncated(header@, 180)))
            &&& (ascii_upper(level@) == "ERROR"@ ==> m.color == Some(colors::RED))
            &&& (ascii_upper(level@) == "FATAL"@ ==> m.color == Some(colors::RED))
            &&& (ascii_upper(level@) == "WARN"@ || ascii_upper(level@) == "WARNING"@
                ==> m.color == Some(colors::ORANGE))
            &&& (ascii_upper(level@) == "SUCCESS"@ ==> m.color == Some(colors::GREEN))
            &&& (ascii_upper(level@) == "INFO"@ || ascii_upper(level@) == "INFORMATION"@
                ==> m.color == Some(colors::BLUE))
            &&& (ascii_upper(level@) == "DEBUG"@ || ascii_upper(level@) == "TRACE"@
                || ascii_upper(level@) == "VERBOSE"@ ==> m.color == Some(colors::GRAY))
        }),
{
    broadcast use group_fields;
    reveal_strlit("Time");
    reveal_strlit("Level");
    reveal_strlit("Message");
    reveal_strlit("FATAL");
    reveal_strlit("ERROR");
    reveal_strlit("WARN");
    reveal_strlit("WARNING");
    reveal_strlit("SUCCESS");
    reveal_strlit("INFO");
    reveal_strlit("INFORMATION");
    reveal_strlit("DEBUG");
    reveal_strlit("TRACE");
    reveal_strlit("VERBOSE");
    assert("Time"@.len() == 4);
    assert("Level"@.len() == 5);
    assert("Message"@.len() == 7);
    assert("FATAL"@.len() == 5);
    assert("ERROR"@.len() == 5);
    assert("WARN"@.len() == 4);
    assert("WARNING"@.len() == 7);
    assert("SUCCESS"@.len() == 7);
    assert("INFO"@.len() == 4);
    assert("INFORMATION"@.len() == 11);
    assert("DEBUG"@.len() == 5);
    assert("TRACE"@.len() == 5);
    assert("VERBOSE"@.len() == 7);
    assert("Time"@[0] == 'T');
    assert("WARN"@[0] == 'W');
    assert("INFO"@[0] == 'I');
    assert("Level"@[0] == 'L');
    assert("FATAL"@[0] == 'F');
    assert("ERROR"@[0] == 'E');
    assert("DEBUG"@[0] == 'D');
    assert("TRACE"@[0] == 'T');
    assert("Message"@[0] == 'M');
    assert("WARNING"@[0] == 'W');
    assert("SUCCESS"@[0] == 'S');
    assert("VERBOSE"@[0] == 'V');
    wait_name(event.event@);
}

/// The message about a line of the log shows its level, the place that wrote it and its text.
#[verifier::spinoff_prover]
pub proof fn log_lines_show_place_and_text(
    telescope: Seq<char>,
    event: Event,
    times: EventTimes,
    now: Moment,
    level: String,
    source: String,
    member: String,
    line: i32,
    message: String,
)
    requires
        event.details == Some(EventDetails::NinaLog { level, source, member, line, message }),
        event.event@ != "TS-WAITSTART"@,
    ensures
        ({
            let m = generic_message(telescope, event, times, now)->0;
            &&& generic_message(telescope, event, times, now) is Some
            &&& shown(m, "Time"@) == Some(event.time@)
            &&& shown(m, "Level"@) == Some(level@)
            &&& shown(m, "Message"@) == Some(truncated(message@, 1000))
            &&& (member@.len() > 0 && line > 0
                ==> shown(m, "Source"@) == Some(truncated(source@ + ":"@ + member@ + ":"@
                + dec_int(line as int), 1000)))
            &&& (member@.len() > 0 && line <= 0
                ==> shown(m, "Source"@) == Some(truncated(source@ + ":"@ + member@, 1000)))
            &&& (member@.len() == 0 && line > 0
                ==> shown(m, "Source"@) == Some(truncated(source@ + ":"@ + dec_int(line as int),
                1000)))
            &&& (member@.len() == 0 && line <= 0
                ==> shown(m, "Source"@) == Some(truncated(source@, 1000)))
            &&& m.title == titled_text(telescope, "📝 N.I.N.A. log · "@ + ascii_upper(level@))
        }),
{
    broadcast use group_fields;
    reveal_strlit("Time");
    reveal_strlit("Level");
    reveal_strlit("Source");
    reveal_strlit("Message");
    assert("Time"@.len() == 4);
    assert("Level"@.len() == 5);
    assert("Source"@.len() == 6);
    assert("Message"@.len() == 7);
    wait_name(event.event@);
}

/// The message that the rotator has begun to move shows where it stood, by both counts.
#[verifier::spinoff_prover]
pub proof fn rotator_starts_show_both_positions(
    telescope: Seq<char>,
    event: Event,
    times: EventTimes,
    now: Moment,
    position: Option<Double>,
    mechanical_position: Option<Double>,
    motion_id: Option<i64>,
    observed_in_progress: Option<bool>,
)
    requires
        event.details == Some(EventDetails::RotatorMoveStarted { position, mechanical_position,
            motion_id, observed_in_progress }),
        event.event@ != "TS-WAITSTART"@,
    ensures
        ({
            let m = generic_message(telescope, event, times, now)->0;
            &&& generic_message(telescope, event, times, now) is Some
            &&& shown(m, "Time"@) == Some(event.time@)
            &&& shown(m, "From position"@) == measure(position, 2, "°"@)
            &&& shown(m, "Mechanical from"@) == measure(mechanical_position, 2, "°"@)
            &&& (motion_id is None ==> shown(m, "Motion"@) is None)
            &&& (motion_id matches Some(id) ==> shown(m, "Motion"@)
                == Some("#"@ + dec_int(id as int)))
            &&& (observed_in_progress == Some(true) <==> shown(m, "Capture"@) is Some)
            &&& shown(m, "Observed interval"@) is None
            &&& shown(m, "End detected by"@) is None
        }),
{
    broadcast use group_fields;
    reveal_strlit("Time");
    reveal_strlit("From position");
    reveal_strlit("Mechanical from");
    reveal_strlit("Motion");
    reveal_strlit("Observed interval");
    reveal_strlit("End detected by");
    reveal_strlit("Capture");
    assert("Time"@.len() == 4);
    assert("From position"@.len() == 13);
    assert("Mechanical from"@.len() == 15);
    assert("Motion"@.len() == 6);
    assert("Observed interval"@.len() == 17);
    assert("End detected by"@.len() == 15);
    assert("Capture"@.len() == 7);
    assert("Mechanical from"@[0] == 'M');
    assert("End detected by"@[0] == 'E');
    wait_name(event.event@);
}

/// A move of the rotator is shown by where it began, where it ended and the way between: what is
/// known of the logical position, and apart from it what is known of the mechanical one.
#[verifier::spinoff_prover]
pub proof fn moves_show_both_counts(
    before: MessageView,
    r: RotatorMove,
)
    requires
        shown(before, "From position"@) is None,
        shown(before, "To position"@) is None,
        shown(before, "Position change"@) is None,
        shown(before, "Mechanical from"@) is None,
        shown(before, "Mechanical to"@) is None,
        shown(before, "Mechanical change"@) is None,
    ensures
        ({
            let m = with_rotator_move(before, false, r);
            &&& shown(m, "From position"@) == measure(r.from, 2, "°"@)
            &&& shown(m, "To position"@)
                == measure(if r.position is Some { r.position } else { r.to }, 2, "°"@)
            &&& shown(m, "Position change"@) == turned(r.from,
                if r.position is Some { r.position } else { r.to })
            &&& shown(m, "Mechanical from"@) == measure(r.mechanical_from, 2, "°"@)
            &&& shown(m, "Mechanical to"@)
                == measure(if r.mechanical_to is Some { r.mechanical_to } else { r.mechanical_position },
                2, "°"@)
            &&& shown(m, "Mechanical change"@)
                == turned(r.mechanical_from,
                if r.mechanical_to is Some { r.mechanical_to } else { r.mechanical_position })
        }),
{
    broadcast use group_fields;
    reveal_strlit("From position");
    reveal_strlit("To position");
    reveal_strlit("Position change");
    reveal_strlit("Mechanical from");
    reveal_strlit("Mechanical to");
    reveal_strlit("Mechanical change");
    assert("From position"@.len() == 13);
    assert("To position"@.len() == 11);
    assert("Position change"@.len() == 15);
    assert("Mechanical from"@.len() == 15);
    assert("Mechanical to"@.len() == 13);
    assert("Mechanical change"@.len() == 17);
    assert("From position"@[0] == 'F');
    assert("Mechanical to"@[0] == 'M');
    assert("Position change"@[0] == 'P');
    assert("Mechanical from"@[0] == 'M');
}

/// A move by the mechanical count takes the event's two ends for mechanical ones.
#[verifier::spinoff_prover]
pub proof fn mechanical_moves_show_the_mechanical_count(
    before: MessageView,
    r: RotatorMove,
)
    requires
        shown(before, "From position"@) is None,
        shown(before, "To position"@) is None,
        shown(before, "Position change"@) is None,
        shown(before, "Mechanical from"@) is None,
        shown(before, "Mechanical to"@) is None,
        shown(before, "Mechanical change"@) is None,
    ensures
        ({
            let m = with_rotator_move(before, true, r);
            &&& shown(m, "From position"@) is None
            &&& shown(m, "Position change"@) is None
            &&& shown(m, "To position"@) == measure(r.position, 2, "°"@)
            &&& (r.mechanical_from is None ==> shown(m, "Mechanical from"@)
                == measure(r.from, 2, "°"@))
            &&& (r.mechanical_to is None && r.mechanical_position is None
                ==> shown(m, "Mechanical to"@) == measure(r.to, 2, "°"@))
            &&& (r.mechanical_from is None && r.mechanical_to is None
                && r.mechanical_position is None ==> shown(m, "Mechanical change"@)
                == turned(r.from, r.to))
        }),
{
    broadcast use group_fields;
    reveal_strlit("From position");
    reveal_strlit("To position");
    reveal_strlit("Position change");
    reveal_strlit("Mechanical from");
    reveal_strlit("Mechanical to");
    reveal_strlit("Mechanical change");
    assert("From position"@.len() == 13);
    assert("To position"@.len() == 11);
    assert("Position change"@.len() == 15);
    assert("Mechanical from"@.len() == 15);
    assert("Mechanical to"@.len() == 13);
    assert("Mechanical change"@.len() == 17);
    assert("From position"@[0] == 'F');
    assert("Mechanical to"@[0] == 'M');
    assert("Position change"@[0] == 'P');
    assert("Mechanical from"@[0] == 'M');
}

/// A move of the rotator leaves the other fields.
#[verifier::spinoff_prover]
proof fn lemma_move_apart(
    before: MessageView,
    mechanical: bool,
    r: RotatorMove,
    name: Seq<char>,
)
    requires
        name != "From position"@,
        name != "To position"@,
        name != "Position change"@,
        name != "Mechanical from"@,
        name != "Mechanical to"@,
        name != "Mechanical change"@,
    ensures
        shown(with_rotator_move(before, mechanical, r), name) == shown(before, name),
{
    broadcast use group_fields;
}

/// The particulars of a motion leave the other fields.
#[verifier::spinoff_prover]
proof fn lemma_motion_apart(
    before: MessageView,
    motion_id: Option<i64>,
    duration_seconds: Option<Double>,
    end_detection: Option<String>,
    observed_in_progress: Option<bool>,
    name: Seq<char>,
)
    requires
        name != "Motion"@,
        name != "Observed interval"@,
        name != "End detected by"@,
        name != "Capture"@,
    ensures
        shown(with_motion(before, motion_id, duration_seconds, end_detection,
            observed_in_progress), name) == shown(before, name),
{
    broadcast use group_fields;
}

/// A motion is shown by its number, how long it took, how its end was noticed and whether it was
/// noticed late.
#[verifier::spinoff_prover]
pub proof fn motions_are_numbered_and_timed(
    before: MessageView,
    motion_id: Option<i64>,
    duration_seconds: Option<Double>,
    end_detection: Option<String>,
    observed_in_progress: Option<bool>,
)
    requires
        shown(before, "Motion"@) is None,
        shown(before, "Observed interval"@) is None,
        shown(before, "End detected by"@) is None,
        shown(before, "Capture"@) is None,
    ensures
        ({
            let m = with_motion(before, motion_id, duration_seconds, end_detection,
                observed_in_progress);
            &&& (motion_id is None ==> shown(m, "Motion"@) is None)
            &&& (motion_id matches Some(id) ==> shown(m, "Motion"@)
                == Some("#"@ + dec_int(id as int)))
            &&& (observed_in_progress == Some(true) <==> shown(m, "Capture"@) is Some)
            &&& shown(m, "Observed interval"@) == measure(duration_seconds, 2, " s"@)
            &&& (end_detection is None || trimmed(end_detection->0@).len() == 0
                ==> shown(m, "End detected by"@) is None)
            &&& (end_detection matches Some(e)
                ==> (trimmed(e@).len() > 0 ==> shown(m, "End detected by"@) is Some))
        }),
{
    broadcast use group_fields;
    reveal_strlit("Motion");
    reveal_strlit("Observed interval");
    reveal_strlit("End detected by");
    reveal_strlit("Capture");
    assert("Motion"@.len() == 6);
    assert("Observed interval"@.len() == 17);
    assert("End detected by"@.len() == 15);
    assert("Capture"@.len() == 7);
}

/// The message that the rotator has moved shows the move by the count that the event's name speaks
/// of.
#[verifier::spinoff_prover]
pub proof fn rotator_moves_show_the_move(
    telescope: Seq<char>,
    event: Event,
    times: EventTimes,
    now: Moment,
    from: Option<Double>,
    to: Option<Double>,
    position: Option<Double>,
    mechanical_from: Option<Double>,
    mechanical_to: Option<Double>,
    mechanical_position: Option<Double>,
    motion_id: Option<i64>,
    duration_seconds: Option<Double>,
    end_detection: Option<String>,
    observed_in_progress: Option<bool>,
)
    requires
        event.details == Some(EventDetails::RotatorMoved { from, to, position, mechanical_from,
            mechanical_to, mechanical_position, motion_id, duration_seconds, end_detection,
            observed_in_progress }),
        event.event@ != "TS-WAITSTART"@,
    ensures
        ({
            let m = generic_message(telescope, event, times, now)->0;
            &&& generic_message(telescope, event, times, now) is Some
            &&& shown(m, "Time"@) == Some(event.time@)
            &&& (event.event@ != "ROTATOR-MOVED-MECHANICAL"@
                ==> (shown(m, "From position"@) == measure(from, 2, "°"@)
                && shown(m, "To position"@)
                == measure(if position is Some { position } else { to }, 2, "°"@)
                && shown(m, "Position change"@)
                == turned(from, if position is Some { position } else { to })
                && shown(m, "Mechanical from"@) == measure(mechanical_from, 2, "°"@)
                && shown(m, "Mechanical to"@)
                == measure(if mechanical_to is Some { mechanical_to } else { mechanical_position },
                2, "°"@) && shown(m, "Mechanical change"@)
                == turned(mechanical_from,
                if mechanical_to is Some { mechanical_to } else { mechanical_position })))
            &&& (event.event@ == "ROTATOR-MOVED-MECHANICAL"@
                ==> shown(m, "From position"@) is None && shown(m, "Position change"@) is None
                && shown(m, "To position"@) == measure(position, 2, "°"@))
        }),
{
    broadcast use group_fields;
    reveal_strlit("Time");
    reveal_strlit("From position");
    reveal_strlit("To position");
    reveal_strlit("Position change");
    reveal_strlit("Mechanical from");
    reveal_strlit("Mechanical to");
    reveal_strlit("Mechanical change");
    reveal_strlit("Motion");
    reveal_strlit("Observed interval");
    reveal_strlit("End detected by");
    reveal_strlit("Capture");
    assert("Time"@.len() == 4);
    assert("From position"@.len() == 13);
    assert("To position"@.len() == 11);
    assert("Position change"@.len() == 15);
    assert("Mechanical from"@.len() == 15);
    assert("Mechanical to"@.len() == 13);
    assert("Mechanical change"@.len() == 17);
    assert("Motion"@.len() == 6);
    assert("Observed interval"@.len() == 17);
    assert("End detected by"@.len() == 15);
    assert("Capture"@.len() == 7);
    assert("From position"@[0] == 'F');
    assert("Mechanical to"@[0] == 'M');
    assert("Position change"@[0] == 'P');
    assert("Mechanical from"@[0] == 'M');
    assert("End detected by"@[0] == 'E');
    assert("Mechanical change"@[0] == 'M');
    assert("Observed interval"@[0] == 'O');
    mechanical_name(event.event@);
    wait_name(event.event@);
    let (color, title) = crate::event_messages::generic_heading(event);
    let a = crate::chat::message_at(titled_text(telescope, title),
        now).colored(color).with("Time"@, event.time@, false);
    let r = RotatorMove { from, to, position, mechanical_from, mechanical_to, mechanical_position };
    let mechanical = event.kind() == EventKind::RotatorMovedMechanical;
    let b = with_rotator_move(a, mechanical, r);
    assert(generic_message(telescope, event, times, now)
        == Some(with_motion(b, motion_id, duration_seconds, end_detection, observed_in_progress)));
    moves_show_both_counts(a, r);
    mechanical_moves_show_the_mechanical_count(a, r);
    lemma_move_apart(a, mechanical, r, "Time"@);
    lemma_motion_apart(b, motion_id, duration_seconds, end_detection, observed_in_progress,
        "Time"@);
    lemma_motion_apart(b, motion_id, duration_seconds, end_detection, observed_in_progress,
        "From position"@);
    lemma_motion_apart(b, motion_id, duration_seconds, end_detection, observed_in_progress,
        "To position"@);
    lemma_motion_apart(b, motion_id, duration_seconds, end_detection, observed_in_progress,
        "Position change"@);
    lemma_motion_apart(b, motion_id, duration_seconds, end_detection, observed_in_progress,
        "Mechanical from"@);
    lemma_motion_apart(b, motion_id, duration_seconds, end_detection, observed_in_progress,
        "Mechanical to"@);
    lemma_motion_apart(b, motion_id, duration_seconds, end_detection, observed_in_progress,
        "Mechanical change"@);
}

/// The message that the rotator has moved numbers the motion, says how long it took and how its end
/// was noticed.
#[verifier::spinoff_prover]
pub proof fn rotator_moves_show_the_motion(
    telescope: Seq<char>,
    event: Event,
    times: EventTimes,
    now: Moment,
    from: Option<Double>,
    to: Option<Double>,
    position: Option<Double>,
    mechanical_from: Option<Double>,
    mechanical_to: Option<Double>,
    mechanical_position: Option<Double>,
    motion_id: Option<i64>,
    duration_seconds: Option<Double>,
    end_detection: Option<String>,
    observed_in_progress: Option<bool>,
)
    requires
        event.details == Some(EventDetails::RotatorMoved { from, to, position, mechanical_from,
            mechanical_to, mechanical_position, motion_id, duration_seconds, end_detection,
            observed_in_progress }),
        event.event@ != "TS-WAITSTART"@,
    ensures
        ({
            let m = generic_message(telescope, event, times, now)->0;
            &&& generic_message(telescope, event, times, now) is Some
            &&& shown(m, "Time"@) == Some(event.time@)
            &&& (motion_id is None ==> shown(m, "Motion"@) is None)
            &&& (motion_id matches Some(id) ==> shown(m, "Motion"@)
                == Some("#"@ + dec_int(id as int)))
            &&& (observed_in_progress == Some(true) <==> shown(m, "Capture"@) is Some)
            &&& shown(m, "Observed interval"@) == measure(duration_seconds, 2, " s"@)
            &&& (end_detection is None || trimmed(end_detection->0@).len() == 0
                ==> shown(m, "End detected by"@) is None)
            &&& (end_detection matches Some(e)
                ==> (trimmed(e@).len() > 0 ==> shown(m, "End detected by"@) is Some))
        }),
{
    broadcast use group_fields;
    reveal_strlit("Time");
    reveal_strlit("From position");
    reveal_strlit("To position");
    reveal_strlit("Position change");
    reveal_strlit("Mechanical from");
    reveal_strlit("Mechanical to");
    reveal_strlit("Mechanical change");
    reveal_strlit("Motion");
    reveal_strlit("Observed interval");
    reveal_strlit("End detected by");
    reveal_strlit("Capture");
    assert("Time"@.len() == 4);
    assert("From position"@.len() == 13);
    assert("To position"@.len() == 11);
    assert("Position change"@.len() == 15);
    assert("Mechanical from"@.len() == 15);
    assert("Mechanical to"@.len() == 13);
    assert("Mechanical change"@.len() == 17);
    assert("Motion"@.len() == 6);
    assert("Observed interval"@.len() == 17);
    assert("End detected by"@.len() == 15);
    assert("Capture"@.len() == 7);
    assert("From position"@[0] == 'F');
    assert("Mechanical to"@[0] == 'M');
    assert("Position change"@[0] == 'P');
    assert("Mechanical from"@[0] == 'M');
    assert("End detected by"@[0] == 'E');
    assert("Mechanical change"@[0] == 'M');
    assert("Observed interval"@[0] == 'O');
    mechanical_name(event.event@);
    wait_name(event.event@);
    let (color, title) = crate::event_messages::generic_heading(event);
    let a = crate::chat::message_at(titled_text(telescope, title),
        now).colored(color).with("Time"@, event.time@, false);
    let r = RotatorMove { from, to, position, mechanical_from, mechanical_to, mechanical_position };
    let mechanical = event.kind() == EventKind::RotatorMovedMechanical;
    let b = with_rotator_move(a, mechanical, r);
    assert(generic_message(telescope, event, times, now)
        == Some(with_motion(b, motion_id, duration_seconds, end_detection, observed_in_progress)));
    lemma_move_apart(a, mechanical, r, "Motion"@);
    lemma_move_apart(a, mechanical, r, "Observed interval"@);
    lemma_move_apart(a, mechanical, r, "End detected by"@);
    lemma_move_apart(a, mechanical, r, "Capture"@);
    lemma_move_apart(a, mechanical, r, "Time"@);
    lemma_motion_apart(b, motion_id, duration_seconds, end_detection, observed_in_progress,
        "Time"@);
    motions_are_numbered_and_timed(b, motion_id, duration_seconds, end_detection,
        observed_in_progress);
}

/// A message about the end of a slew shows where the slew began, where it was to lead and where it
/// ended, each under its own name.
#[verifier::spinoff_prover]
pub proof fn slews_show_their_own_positions(
    before: MessageView,
    from: EventCoordinates,
    to: EventCoordinates,
    target: Option<EventCoordinates>,
    motion_id: Option<i64>,
    duration_seconds: Option<Double>,
    end_detection: Option<String>,
    observed_in_progress: Option<bool>,
)
    requires
        shown(before, "From position"@) is None,
        shown(before, "Requested destination"@) is None,
        shown(before, "To position"@) is None,
        shown(before, "Motion"@) is None,
        shown(before, "Observed interval"@) is None,
        shown(before, "End detected by"@) is None,
        shown(before, "Capture"@) is None,
    ensures
        ({
            let m = with_slew_details(before,
                EventDetails::MountSlewed { from, to, target, motion_id, duration_seconds,
                end_detection, observed_in_progress });
            &&& shown(m, "From position"@) == Some(place(from))
            &&& shown(m, "To position"@) == Some(place(to))
            &&& (target is None ==> shown(m, "Requested destination"@) is None)
            &&& (target matches Some(c) ==> shown(m, "Requested destination"@) == Some(place(c)))
            &&& (motion_id is None ==> shown(m, "Motion"@) is None)
            &&& (motion_id matches Some(id) ==> shown(m, "Motion"@)
                == Some("#"@ + dec_int(id as int)))
            &&& (observed_in_progress == Some(true) <==> shown(m, "Capture"@) is Some)
            &&& shown(m, "Observed interval"@) == measure(duration_seconds, 2, " s"@)
            &&& (end_detection is None || trimmed(end_detection->0@).len() == 0
                ==> shown(m, "End detected by"@) is None)
            &&& (end_detection matches Some(e)
                ==> (trimmed(e@).len() > 0 ==> shown(m, "End detected by"@) is Some))
        }),
{
    broadcast use group_fields;
    reveal_strlit("From position");
    reveal_strlit("Requested destination");
    reveal_strlit("To position");
    reveal_strlit("Motion");
    reveal_strlit("Observed interval");
    reveal_strlit("End detected by");
    reveal_strlit("Capture");
    assert("From position"@.len() == 13);
    assert("Requested destination"@.len() == 21);
    assert("To position"@.len() == 11);
    assert("Motion"@.len() == 6);
    assert("Observed interval"@.len() == 17);
    assert("End detected by"@.len() == 15);
    assert("Capture"@.len() == 7);
}

/// A message about the start of a slew shows where the slew begins and where it is to lead.
#[verifier::spinoff_prover]
pub proof fn slew_starts_show_their_own_positions(
    before: MessageView,
    from: EventCoordinates,
    target: Option<EventCoordinates>,
    motion_id: Option<i64>,
    observed_in_progress: Option<bool>,
)
    requires
        shown(before, "From position"@) is None,
        shown(before, "Requested destination"@) is None,
        shown(before, "To position"@) is None,
        shown(before, "Motion"@) is None,
        shown(before, "Observed interval"@) is None,
        shown(before, "End detected by"@) is None,
        shown(before, "Capture"@) is None,
    ensures
        ({
            let m = with_slew_details(before,
                EventDetails::MountSlewStarted { from, target, motion_id, observed_in_progress });
            &&& shown(m, "From position"@) == Some(place(from))
            &&& shown(m, "To position"@) is None
            &&& (target is None ==> shown(m, "Requested destination"@) is None)
            &&& (target matches Some(c) ==> shown(m, "Requested destination"@) == Some(place(c)))
            &&& (motion_id is None ==> shown(m, "Motion"@) is None)
            &&& (motion_id matches Some(id) ==> shown(m, "Motion"@)
                == Some("#"@ + dec_int(id as int)))
            &&& (observed_in_progress == Some(true) <==> shown(m, "Capture"@) is Some)
            &&& shown(m, "Observed interval"@) is None
            &&& shown(m, "End detected by"@) is None
        }),
{
    broadcast use group_fields;
    reveal_strlit("From position");
    reveal_strlit("Requested destination");
    reveal_strlit("To position");
    reveal_strlit("Motion");
    reveal_strlit("Observed interval");
    reveal_strlit("End detected by");
    reveal_strlit("Capture");
    assert("From position"@.len() == 13);
    assert("Requested destination"@.len() == 21);
    assert("To position"@.len() == 11);
    assert("Motion"@.len() == 6);
    assert("Observed interval"@.len() == 17);
    assert("End detected by"@.len() == 15);
    assert("Capture"@.len() == 7);
}

/// The message about a wait of the scheduler shows when the wait ends and how long that is from
/// now, and on Discord as times that count by themselves.
#[verifier::spinoff_prover]
pub proof fn waits_count_down_to_their_end(
    telescope: Seq<char>,
    event: Event,
    times: EventTimes,
    now: Moment,
    wait_end_time: String,
)
    requires
        event.details == Some(EventDetails::WaitStart { wait_end_time }),
        event.event@ == "TS-WAITSTART"@,
    ensures
        ({
            let m = generic_message(telescope, event, times, now)->0;
            &&& (times.wait_end matches Some(end)
                ==> shown(m, "Until"@) == Some(utc_text(end.moment)))
            &&& (times.wait_end matches Some(end)
                ==> shown_on_discord(m, "Until"@)
                == Some("<t:"@ + dec_int(end.moment.seconds as int) + ":F>"@))
            &&& (times.wait_end matches Some(end)
                ==> (now.earlier(end.moment) ==> shown(m, "Countdown"@)
                == Some(duration_text(span_between(now, end.moment)) + " remaining"@)))
            &&& (times.wait_end matches Some(end)
                ==> (now.earlier(end.moment) ==> shown_on_discord(m, "Countdown"@)
                == Some("<t:"@ + dec_int(end.moment.seconds as int) + ":R>"@)))
            &&& (times.wait_end matches Some(end)
                ==> (!now.earlier(end.moment) ==> shown(m, "Countdown"@)
                == Some("Scheduled time reached"@)))
            &&& (times.wait_end is None ==> shown(m, "Until"@) == Some(wait_end_time@)
                && shown(m, "Countdown"@) is None)
            &&& (times.at matches Some(z) ==> m.timestamp == Some(stamp_text(z.moment))
                && m.matrix_timestamp_label == Some("Started"@))
            &&& (times.at is None ==> shown(m, "Started"@) == Some(event.time@))
        }),
{
    broadcast use group_fields;
    reveal_strlit("Started");
    reveal_strlit("Until");
    reveal_strlit("Countdown");
    assert("Started"@.len() == 7);
    assert("Until"@.len() == 5);
    assert("Countdown"@.len() == 9);
    wait_name(event.event@);
}

proof fn lemma_group(m: MessageView, groups: Seq<GroupView>, name: Seq<char>, parts: Seq<Seq<char>>)
    ensures
        with_groups(m, with_group(groups, name, parts)) == (if parts.len() == 0 {
            with_groups(m, groups)
        } else {
            with_groups(m, groups).with(
                name,
                truncated(joined(parts, " · "@), 1000),
                false,
            )
        }),
{
    if parts.len() > 0 {
        let more = with_group(groups, name, parts);
        assert(more.drop_last() =~= groups);
    }
}

proof fn lemma_groups_keep_the_head(m: MessageView, groups: Seq<GroupView>)
    ensures
        with_groups(m, groups).title == m.title,
        with_groups(m, groups).color == m.color,
    decreases groups.len(),
{
    if groups.len() > 0 {
        lemma_groups_keep_the_head(m, groups.drop_last());
    }
}

/// The wind in words: speed, gusts and direction, in this order, as far as they are known.
pub open spec fn wind(c: WeatherConditions) -> Seq<Seq<char>> {
    reading(""@, c.wind_speed_meters_per_second, 1, " m/s speed"@) + reading(
        ""@,
        c.wind_gust_meters_per_second,
        1,
        " m/s gust"@,
    ) + reading(""@, c.wind_direction_degrees, 0, "°"@)
}

/// The air in words: temperature, dew point, humidity and pressure.
pub open spec fn air(c: WeatherConditions) -> Seq<Seq<char>> {
    reading(""@, c.temperature_celsius, 1, " °C"@) + reading(
        "dew point "@,
        c.dew_point_celsius,
        1,
        " °C"@,
    ) + reading(""@, c.humidity_percent, 0, "% RH"@) + reading(
        ""@,
        c.pressure_hectopascals,
        1,
        " hPa"@,
    )
}

/// The sky in words: clouds, temperature, brightness, quality and the width of stars.
pub open spec fn sky(c: WeatherConditions) -> Seq<Seq<char>> {
    reading(""@, c.cloud_cover_percent, 0, "% cloud"@) + reading(
        "sky "@,
        c.sky_temperature_celsius,
        1,
        " °C"@,
    ) + reading(""@, c.sky_brightness_lux, 2, " lux"@) + reading(
        ""@,
        c.sky_quality_magnitudes_per_square_arcsecond,
        2,
        " mag/arcsec²"@,
    ) + reading(""@, c.star_fwhm_arcseconds, 2, "″ FWHM"@)
}

/// The rain in words.
pub open spec fn rain(c: WeatherConditions) -> Seq<Seq<char>> {
    reading(""@, c.rain_rate_millimeters_per_hour, 2, " mm/h"@)
}

/// Some parts as one text, unless there are none.
pub open spec fn dotted(parts: Seq<Seq<char>>) -> Option<Seq<char>> {
    if parts.len() == 0 {
        None
    } else {
        Some(truncated(joined(parts, " · "@), 1000))
    }
}

proof fn lemma_reading(
    parts: Seq<Seq<char>>,
    value: Option<Double>,
    before: Seq<char>,
    places: nat,
    unit: Seq<char>,
)
    ensures
        with_reading(parts, value, before, places, unit) == parts + reading(
            before,
            value,
            places,
            unit,
        ),
{
    assert(with_reading(parts, value, before, places, unit) =~= parts + reading(
        before,
        value,
        places,
        unit,
    ));
}

#[verifier::spinoff_prover]
proof fn lemma_wind(c: WeatherConditions)
    ensures
        c.wind_parts() == wind(c),
{
    lemma_reading(Seq::<Seq<char>>::empty(), c.wind_speed_meters_per_second, ""@, 1, " m/s speed"@);
    let r0 = with_reading(Seq::<Seq<char>>::empty(), c.wind_speed_meters_per_second, ""@, 1,
        " m/s speed"@);
    lemma_reading(r0, c.wind_gust_meters_per_second, ""@, 1, " m/s gust"@);
    let r1 = with_reading(r0, c.wind_gust_meters_per_second, ""@, 1, " m/s gust"@);
    lemma_reading(r1, c.wind_direction_degrees, ""@, 0, "°"@);
    let r2 = with_reading(r1, c.wind_direction_degrees, ""@, 0, "°"@);
    assert(r2 =~= wind(c));
}

#[verifier::spinoff_prover]
proof fn lemma_air(c: WeatherConditions)
    ensures
        c.air_parts() == air(c),
{
    lemma_reading(Seq::<Seq<char>>::empty(), c.temperature_celsius, ""@, 1, " °C"@);
    let r0 = with_reading(Seq::<Seq<char>>::empty(), c.temperature_celsius, ""@, 1, " °C"@);
    lemma_reading(r0, c.dew_point_celsius, "dew point "@, 1, " °C"@);
    let r1 = with_reading(r0, c.dew_point_celsius, "dew point "@, 1, " °C"@);
    lemma_reading(r1, c.humidity_percent, ""@, 0, "% RH"@);
    let r2 = with_reading(r1, c.humidity_percent, ""@, 0, "% RH"@);
    lemma_reading(r2, c.pressure_hectopascals, ""@, 1, " hPa"@);
    let r3 = with_reading(r2, c.pressure_hectopascals, ""@, 1, " hPa"@);
    assert(r3 =~= air(c));
}

#[verifier::spinoff_prover]
proof fn lemma_sky(c: WeatherConditions)
    ensures
        c.sky_parts() == sky(c),
{
    lemma_reading(Seq::<Seq<char>>::empty(), c.cloud_cover_percent, ""@, 0, "% cloud"@);
    let r0 = with_reading(Seq::<Seq<char>>::empty(), c.cloud_cover_percent, ""@, 0, "% cloud"@);
    lemma_reading(r0, c.sky_temperature_celsius, "sky "@, 1, " °C"@);
    let r1 = with_reading(r0, c.sky_temperature_celsius, "sky "@, 1, " °C"@);
    lemma_reading(r1, c.sky_brightness_lux, ""@, 2, " lux"@);
    let r2 = with_reading(r1, c.sky_brightness_lux, ""@, 2, " lux"@);
    lemma_reading(r2, c.sky_quality_magnitudes_per_square_arcsecond, ""@, 2, " mag/arcsec²"@);
    let r3 = with_reading(r2, c.sky_quality_magnitudes_per_square_arcsecond, ""@, 2,
        " mag/arcsec²"@);
    lemma_reading(r3, c.star_fwhm_arcseconds, ""@, 2, "″ FWHM"@);
    let r4 = with_reading(r3, c.star_fwhm_arcseconds, ""@, 2, "″ FWHM"@);
    assert(r4 =~= sky(c));
}

#[verifier::spinoff_prover]
proof fn lemma_rain(c: WeatherConditions)
    ensures
        c.rain_parts() == rain(c),
{
    lemma_reading(Seq::<Seq<char>>::empty(), c.rain_rate_millimeters_per_hour, ""@, 2, " mm/h"@);
    let r0 = with_reading(Seq::<Seq<char>>::empty(), c.rain_rate_millimeters_per_hour, ""@, 2,
        " mm/h"@);
    assert(r0 =~= rain(c));
}

/// Readings of the weather are shown in groups, each reading with its own unit in its own place.
#[verifier::spinoff_prover]
pub proof fn readings_stand_under_their_groups(
    before: MessageView,
    c: WeatherConditions,
)
    requires
        shown(before, "Wind"@) is None,
        shown(before, "Atmosphere"@) is None,
        shown(before, "Sky"@) is None,
        shown(before, "Rain"@) is None,
    ensures
        ({
            let m = with_groups(before, c.groups());
            &&& shown(m, "Wind"@) == dotted(wind(c))
            &&& shown(m, "Atmosphere"@) == dotted(air(c))
            &&& shown(m, "Sky"@) == dotted(sky(c))
            &&& shown(m, "Rain"@) == dotted(rain(c))
        }),
{
    broadcast use group_fields;
    reveal_strlit("Wind");
    reveal_strlit("Atmosphere");
    reveal_strlit("Sky");
    reveal_strlit("Rain");
    assert("Wind"@.len() == 4);
    assert("Atmosphere"@.len() == 10);
    assert("Sky"@.len() == 3);
    assert("Rain"@.len() == 4);
    assert("Wind"@[0] == 'W');
    assert("Rain"@[0] == 'R');
    lemma_wind(c);
    lemma_air(c);
    lemma_sky(c);
    lemma_rain(c);
    let none = Seq::<GroupView>::empty();
    let x = with_group(none, "Wind"@, c.wind_parts());
    let y = with_group(x, "Atmosphere"@, c.air_parts());
    let z = with_group(y, "Sky"@, c.sky_parts());
    lemma_group(before, none, "Wind"@, c.wind_parts());
    lemma_group(before, x, "Atmosphere"@, c.air_parts());
    lemma_group(before, y, "Sky"@, c.sky_parts());
    lemma_group(before, z, "Rain"@, c.rain_parts());
    assert(with_groups(before, none) == before);
}

/// Readings of the weather leave the other fields.
#[verifier::spinoff_prover]
proof fn lemma_groups_apart(
    before: MessageView,
    c: WeatherConditions,
    name: Seq<char>,
)
    requires
        name != "Wind"@,
        name != "Atmosphere"@,
        name != "Sky"@,
        name != "Rain"@,
    ensures
        shown(with_groups(before, c.groups()), name) == shown(before, name),
{
    broadcast use group_fields;
    let none = Seq::<GroupView>::empty();
    let x = with_group(none, "Wind"@, c.wind_parts());
    let y = with_group(x, "Atmosphere"@, c.air_parts());
    let z = with_group(y, "Sky"@, c.sky_parts());
    lemma_group(before, none, "Wind"@, c.wind_parts());
    lemma_group(before, x, "Atmosphere"@, c.air_parts());
    lemma_group(before, y, "Sky"@, c.sky_parts());
    lemma_group(before, z, "Rain"@, c.rain_parts());
    assert(with_groups(before, none) == before);
}

/// The message about the weather shows what has changed, the event's own summary and the readings.
#[verifier::spinoff_prover]
pub proof fn weather_changes_show_the_weather(
    telescope: Seq<char>,
    event: Event,
    times: EventTimes,
    now: Moment,
    changed_fields: String,
    summary: Option<String>,
    c: WeatherConditions,
)
    requires
        event.details == Some(EventDetails::WeatherChanged { changed_fields, summary,
            conditions: c }),
        event.event@ != "TS-WAITSTART"@,
    ensures
        ({
            let m = generic_message(telescope, event, times, now)->0;
            &&& generic_message(telescope, event, times, now) is Some
            &&& shown(m, "Time"@) == Some(event.time@)
            &&& (trimmed(changed_fields@).len() > 0
                ==> shown(m, "Changed"@) == Some(truncated(changed_fields@, 1000)))
            &&& (trimmed(changed_fields@).len() == 0 ==> shown(m, "Changed"@) is None)
            &&& (summary is None ==> shown(m, "Summary"@) is None)
            &&& (summary matches Some(t) ==> (trimmed(t@).len() > 0
                ==> shown(m, "Summary"@) == Some(truncated(t@, 1000))))
            &&& (summary matches Some(t) ==> (trimmed(t@).len() == 0
                ==> shown(m, "Summary"@) is None))
            &&& shown(m, "Wind"@) == dotted(wind(c))
            &&& shown(m, "Atmosphere"@) == dotted(air(c))
            &&& shown(m, "Sky"@) == dotted(sky(c))
            &&& shown(m, "Rain"@) == dotted(rain(c))
        }),
{
    broadcast use group_fields;
    reveal_strlit("Time");
    reveal_strlit("Changed");
    reveal_strlit("Summary");
    reveal_strlit("Wind");
    reveal_strlit("Atmosphere");
    reveal_strlit("Sky");
    reveal_strlit("Rain");
    assert("Time"@.len() == 4);
    assert("Changed"@.len() == 7);
    assert("Summary"@.len() == 7);
    assert("Wind"@.len() == 4);
    assert("Atmosphere"@.len() == 10);
    assert("Sky"@.len() == 3);
    assert("Rain"@.len() == 4);
    assert("Time"@[0] == 'T');
    assert("Wind"@[0] == 'W');
    assert("Rain"@[0] == 'R');
    assert("Changed"@[0] == 'C');
    assert("Summary"@[0] == 'S');
    wait_name(event.event@);
    let (color, title) = crate::event_messages::generic_heading(event);
    let a = crate::chat::message_at(titled_text(telescope, title),
        now).colored(color).with("Time"@, event.time@, false);
    let b = if trimmed(changed_fields@).len() == 0 {
        a
    } else {
        a.with("Changed"@, truncated(changed_fields@, 1000), false)
    };
    let d = match summary {
        Some(s) => if trimmed(s@).len() == 0 {
            b
        } else {
            b.with("Summary"@, truncated(s@, 1000), false)
        },
        None => b,
    };
    assert(generic_message(telescope, event, times, now) == Some(with_groups(d, c.groups())));
    readings_stand_under_their_groups(d, c);
    lemma_groups_apart(d, c, "Time"@);
    lemma_groups_apart(d, c, "Changed"@);
    lemma_groups_apart(d, c, "Summary"@);
}

/// The message about high wind says on which side of the threshold the wind is, in red above and in
/// green below.
#[verifier::spinoff_prover]
pub proof fn wind_alerts_are_told_apart(
    telescope: Seq<char>,
    event: Event,
    times: EventTimes,
    now: Moment,
    is_high_wind: bool,
    threshold: Option<Double>,
    c: WeatherConditions,
)
    requires
        event.details == Some(EventDetails::WeatherHighWind { is_high_wind,
            threshold_meters_per_second: threshold, conditions: c }),
        event.event@ != "TS-WAITSTART"@,
    ensures
        ({
            let m = generic_message(telescope, event, times, now)->0;
            &&& generic_message(telescope, event, times, now) is Some
            &&& shown(m, "Time"@) == Some(event.time@)
            &&& shown(m, "State"@)
                == Some(if is_high_wind { "Above high-wind threshold"@ } else { "Below high-wind threshold"@ })
            &&& (is_high_wind ==> m.color == Some(colors::RED) && m.title
                == titled_text(telescope, "⚠️ High wind reported"@))
            &&& (!is_high_wind ==> m.color == Some(colors::GREEN) && m.title
                == titled_text(telescope, "✅ Wind conditions recovered"@))
        }),
{
    broadcast use group_fields;
    reveal_strlit("Time");
    reveal_strlit("State");
    reveal_strlit("Configured threshold");
    reveal_strlit("Wind");
    reveal_strlit("Atmosphere");
    reveal_strlit("Sky");
    reveal_strlit("Rain");
    assert("Time"@.len() == 4);
    assert("State"@.len() == 5);
    assert("Configured threshold"@.len() == 20);
    assert("Wind"@.len() == 4);
    assert("Atmosphere"@.len() == 10);
    assert("Sky"@.len() == 3);
    assert("Rain"@.len() == 4);
    assert("Time"@[0] == 'T');
    assert("Wind"@[0] == 'W');
    assert("Rain"@[0] == 'R');
    wait_name(event.event@);
    let (color, title) = crate::event_messages::generic_heading(event);
    let a = crate::chat::message_at(titled_text(telescope, title),
        now).colored(color).with("Time"@, event.time@, false);
    let d = a.with("State"@,
        if is_high_wind { "Above high-wind threshold"@ } else { "Below high-wind threshold"@ },
        false);
    let g = with_groups(d, c.groups());
    assert(generic_message(telescope, event, times, now)
        == Some(with_measure(g, "Configured threshold"@, threshold, 1, " m/s"@)));
    lemma_groups_keep_the_head(d, c.groups());
    readings_stand_under_their_groups(d, c);
    lemma_groups_apart(d, c, "Time"@);
    lemma_groups_apart(d, c, "State"@);
    lemma_groups_apart(d, c, "Configured threshold"@);
}

/// The message about high wind shows the readings and the threshold.
#[verifier::spinoff_prover]
pub proof fn wind_alerts_show_wind_and_threshold(
    telescope: Seq<char>,
    event: Event,
    times: EventTimes,
    now: Moment,
    is_high_wind: bool,
    threshold: Option<Double>,
    c: WeatherConditions,
)
    requires
        event.details == Some(EventDetails::WeatherHighWind { is_high_wind,
            threshold_meters_per_second: threshold, conditions: c }),
        event.event@ != "TS-WAITSTART"@,
    ensures
        ({
            let m = generic_message(telescope, event, times, now)->0;
            &&& generic_message(telescope, event, times, now) is Some
            &&& shown(m, "Time"@) == Some(event.time@)
            &&& shown(m, "Configured threshold"@) == measure(threshold, 1, " m/s"@)
            &&& shown(m, "Wind"@) == dotted(wind(c))
            &&& shown(m, "Atmosphere"@) == dotted(air(c))
            &&& shown(m, "Sky"@) == dotted(sky(c))
            &&& shown(m, "Rain"@) == dotted(rain(c))
        }),
{
    broadcast use group_fields;
    reveal_strlit("Time");
    reveal_strlit("State");
    reveal_strlit("Configured threshold");
    reveal_strlit("Wind");
    reveal_strlit("Atmosphere");
    reveal_strlit("Sky");
    reveal_strlit("Rain");
    assert("Time"@.len() == 4);
    assert("State"@.len() == 5);
    assert("Configured threshold"@.len() == 20);
    assert("Wind"@.len() == 4);
    assert("Atmosphere"@.len() == 10);
    assert("Sky"@.len() == 3);
    assert("Rain"@.len() == 4);
    assert("Time"@[0] == 'T');
    assert("Wind"@[0] == 'W');
    assert("Rain"@[0] == 'R');
    wait_name(event.event@);
    let (color, title) = crate::event_messages::generic_heading(event);
    let a = crate::chat::message_at(titled_text(telescope, title),
        now).colored(color).with("Time"@, event.time@, false);
    let d = a.with("State"@,
        if is_high_wind { "Above high-wind threshold"@ } else { "Below high-wind threshold"@ },
        false);
    let g = with_groups(d, c.groups());
    assert(generic_message(telescope, event, times, now)
        == Some(with_measure(g, "Configured threshold"@, threshold, 1, " m/s"@)));
    lemma_groups_keep_the_head(d, c.groups());
    readings_stand_under_their_groups(d, c);
    lemma_groups_apart(d, c, "Time"@);
    lemma_groups_apart(d, c, "State"@);
    lemma_groups_apart(d, c, "Configured threshold"@);
}

/// How the end of a motion was noticed, in words; a way that is not known is told as it came.
#[verifier::spinoff_prover]
pub proof fn ends_are_told_by_how_they_were_noticed(value: Seq<char>)
    ensures
        value == "motion_state"@ ==> end_detection_text(value) == "Equipment first reported idle"@,
        value == "nina_slewed"@ ==> end_detection_text(value) == "N.I.N.A. slew event"@,
        value == "nina_moved"@ ==> end_detection_text(value) == "N.I.N.A. move event"@,
        value != "motion_state"@ && value != "nina_slewed"@ && value != "nina_moved"@
            ==> end_detection_text(value) == truncated(value, 1000),
{
    reveal_strlit("motion_state");
    reveal_strlit("nina_slewed");
    reveal_strlit("nina_moved");
    assert("motion_state"@.len() == 12 && "nina_slewed"@.len() == 11 && "nina_moved"@.len() == 10);
}

/// A position is told by right ascension and declination, as they were written where they were and
/// in five places where they were not, with the epoch behind them; by altitude and azimuth where
/// only these are known; and by both where both are.
#[verifier::spinoff_prover]
pub proof fn positions_are_told_as_known(c: EventCoordinates)
    ensures
        ({
            let sky = c.altitude is Some || c.azimuth is Some;
            let ra = match c.ra_string {
                Some(s) => s@,
                None => match c.ra {
                    Some(h) => h.fixed_text(5) + " h"@,
                    None => match c.ra_degrees {
                        Some(d) => d.fixed_text(5) + "°"@,
                        None => "--"@,
                    },
                },
            };
            let dec = match c.dec_string {
                Some(s) => s@,
                None => match c.dec {
                    Some(d) => d.fixed_text(5) + "°"@,
                    None => "--"@,
                },
            };
            let plain = c.epoch is None || c.epoch->0@.len() == 0;
            let place = "RA "@ + ra + " · Dec "@ + dec;
            let dated = place + " ("@ + c.epoch->0@ + ")"@;
            let up = "Alt "@ + (match c.altitude {
                Some(a) => a.fixed_text(2) + "°"@,
                None => "--"@,
            }) + " · Az "@ + (match c.azimuth {
                Some(a) => a.fixed_text(2) + "°"@,
                None => "--"@,
            });
            let known = c.ra is Some || c.ra_degrees is Some || c.ra_string is Some || c.dec is Some
                || c.dec_string is Some;
            &&& !sky && plain ==> c.display_text() == place
            &&& !sky && !plain ==> c.display_text() == dated
            &&& sky && !known ==> c.display_text() == up
            &&& sky && known && plain ==> c.display_text() == place + " · "@ + up
            &&& sky && known && !plain ==> c.display_text() == dated + " · "@ + up
        }),
{
}

/// The coordinates of a target are told on two lines, unless nothing of them is known.
pub proof fn target_coordinates_are_told_on_two_lines(c: TargetCoordinates)
    ensures
        c.ra_string@.len() > 0 || c.dec_string@.len() > 0 || !c.ra.nan() ==> c.display_text()
            == Some("RA: "@ + c.ra_string@ + "\nDec: "@ + c.dec_string@),
        c.ra_string@.len() == 0 && c.dec_string@.len() == 0 && c.ra.nan() ==> c.display_text()
            is None,
{
}

} // verus!
