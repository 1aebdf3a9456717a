//! What is promised of titles, colours and the lines of the status: each says what it is about.

use vstd::prelude::*;
use crate::calendar::{elapsed_nanos, span_between, utc_clock_text, zoned_text, Moment, Span};
use crate::colors;
use crate::detail_laws::reading;
use crate::double::Double;
use crate::event_laws::names_tell_kinds;
use crate::event_messages::{color_of, title_of};
use crate::events::{Event, EventCoordinates, EventDetails, WeatherConditions};
use crate::message_laws::{group_fields, shown, target_name};
use crate::sequence::{PlateSolveOutput, SequenceOperationKind, TrackedSequenceOperation};
use crate::status::{
    current_weather, dome_line, dome_parts, duration_text, failure_line, flat_line, flat_parts,
    guider_line, mount_line, operation_lines, operation_text, sequence_line, shown_operations,
    status_lines, switch_line, target_line, wait_line, weather_line, weather_parts, with_flag,
    with_line,
};
use crate::telescope_messages::{mount_heading, sequence_heading, sequence_message};
use crate::text::{dec, dec_int, has_part, joined, spaced, trimmed, truncated};
use crate::updater_state::StateView;
use crate::weather::with_reading;

verus! {

/// Each event that is told of by a title of its own has the title that says what happened.
#[verifier::spinoff_prover]
pub proof fn events_have_their_titles(
    name: Seq<char>,
)
    ensures
        name == "FILTERWHEEL-CHANGED"@ ==> title_of(name) == "🔄 Filter Changed"@,
        name == "TS-TARGETSTART"@ ==> title_of(name) == "🎯 Target Started"@,
        name == "TS-WAITSTART"@ ==> title_of(name) == "⏳ Target Scheduler wait"@,
        name == "AUTOFOCUS-POINT-ADDED"@ ==> title_of(name) == "📈 Autofocus Point"@,
        name == "ROTATOR-MOVE-STARTED"@ ==> title_of(name) == "🧭 Rotator move started"@,
        name == "ROTATOR-MOVED"@ ==> title_of(name) == "🧭 Rotator move ended"@,
        name == "ROTATOR-MOVED-MECHANICAL"@ ==> title_of(name)
            == "🧭 Rotator mechanical move ended"@,
        name == "MOUNT-SLEW-STARTED"@ ==> title_of(name) == "🔭 Mount slew started"@,
        name == "MOUNT-SLEWED"@ ==> title_of(name) == "🔭 Mount slew ended"@,
        name == "SEQUENCE-STARTING"@ ==> title_of(name) == "▶️ Sequence starting"@,
        name == "SEQUENCE-FINISHED"@ ==> title_of(name) == "🏁 Sequence ended"@,
        name == "SEQUENCE-ENTITY-FAILED"@ ==> title_of(name) == "❌ Sequence item failed"@,
        name == "IMAGE-SAVE-FAILED"@ ==> title_of(name) == "❌ Image save failed"@,
        name == "CAMERA-DOWNLOAD-TIMEOUT"@ ==> title_of(name) == "❌ Camera download timed out"@,
        name == "DOME-CONNECTED"@ ==> title_of(name) == "🏠 Dome connected"@,
        name == "DOME-DISCONNECTED"@ ==> title_of(name) == "⚠️ Dome disconnected"@,
        name == "DOME-SHUTTER-OPENED"@ ==> title_of(name) == "🏠 Dome shutter opened"@,
        name == "DOME-SHUTTER-CLOSED"@ ==> title_of(name) == "🏠 Dome shutter closed"@,
        name == "DOME-HOMED"@ ==> title_of(name) == "🏠 Dome homed"@,
        name == "DOME-PARKED"@ ==> title_of(name) == "🏠 Dome parked"@,
        name == "DOME-SLEWED"@ ==> title_of(name) == "🏠 Dome slew completed"@,
        name == "DOME-SYNCED"@ ==> title_of(name) == "🏠 Dome synchronized"@,
        name == "FLAT-CONNECTED"@ ==> title_of(name) == "💡 Flat panel connected"@,
        name == "FLAT-DISCONNECTED"@ ==> title_of(name) == "⚠️ Flat panel disconnected"@,
        name == "FLAT-COVER-OPENED"@ ==> title_of(name) == "💡 Flat-panel cover opened"@,
        name == "FLAT-COVER-CLOSED"@ ==> title_of(name) == "💡 Flat-panel cover closed"@,
        name == "FLAT-LIGHT-TOGGLED"@ ==> title_of(name) == "💡 Flat-panel light changed"@,
        name == "FLAT-BRIGHTNESS-CHANGED"@ ==> title_of(name) == "💡 Flat-panel brightness changed"@,
        name == "WEATHER-CONNECTED"@ ==> title_of(name) == "🌦️ Weather station connected"@,
        name == "WEATHER-DISCONNECTED"@ ==> title_of(name) == "⚠️ Weather station disconnected"@,
        name == "WEATHER-CHANGED"@ ==> title_of(name) == "🌦️ Weather changed"@,
        name == "WEATHER-HIGH-WIND"@ ==> title_of(name) == "⚠️ High wind reported"@,
        name == "SWITCH-CONNECTED"@ ==> title_of(name) == "🔌 Switch device connected"@,
        name == "SWITCH-DISCONNECTED"@ ==> title_of(name) == "⚠️ Switch device disconnected"@,
        name == "NINA-NOTIFICATION"@ ==> title_of(name) == "🔔 N.I.N.A. notification"@,
        name == "NINA-LOG"@ ==> title_of(name) == "📝 N.I.N.A. log"@,
        name == "CHATSTRONOMY-COMMAND-FAILED"@ ==> title_of(name) == "❌ Telescope command failed"@,
        name == "SAFETY-CONNECTED"@ ==> title_of(name) == "🛡️ Safety monitor connected"@,
        name == "SAFETY-DISCONNECTED"@ ==> title_of(name) == "⚠️ Safety monitor disconnected"@,
        name == "SAFETY-CHANGED"@ ==> title_of(name) == "🛡️ Safety state changed"@,
        (name != "FILTERWHEEL-CHANGED"@ && name != "TS-TARGETSTART"@ && name != "TS-WAITSTART"@
            && name != "AUTOFOCUS-POINT-ADDED"@ && name != "ROTATOR-MOVE-STARTED"@
            && name != "ROTATOR-MOVED"@ && name != "ROTATOR-MOVED-MECHANICAL"@
            && name != "MOUNT-SLEW-STARTED"@ && name != "MOUNT-SLEWED"@
            && name != "SEQUENCE-STARTING"@ && name != "SEQUENCE-FINISHED"@
            && name != "SEQUENCE-ENTITY-FAILED"@ && name != "IMAGE-SAVE-FAILED"@
            && name != "CAMERA-DOWNLOAD-TIMEOUT"@ && name != "DOME-CONNECTED"@
            && name != "DOME-DISCONNECTED"@ && name != "DOME-SHUTTER-OPENED"@
            && name != "DOME-SHUTTER-CLOSED"@ && name != "DOME-HOMED"@ && name != "DOME-PARKED"@
            && name != "DOME-SLEWED"@ && name != "DOME-SYNCED"@ && name != "FLAT-CONNECTED"@
            && name != "FLAT-DISCONNECTED"@ && name != "FLAT-COVER-OPENED"@
            && name != "FLAT-COVER-CLOSED"@ && name != "FLAT-LIGHT-TOGGLED"@
            && name != "FLAT-BRIGHTNESS-CHANGED"@ && name != "WEATHER-CONNECTED"@
            && name != "WEATHER-DISCONNECTED"@ && name != "WEATHER-CHANGED"@
            && name != "WEATHER-HIGH-WIND"@ && name != "SWITCH-CONNECTED"@
            && name != "SWITCH-DISCONNECTED"@ && name != "NINA-NOTIFICATION"@
            && name != "NINA-LOG"@ && name != "CHATSTRONOMY-COMMAND-FAILED"@
            && name != "SAFETY-CONNECTED"@ && name != "SAFETY-DISCONNECTED"@
            && name != "SAFETY-CHANGED"@) ==> title_of(name) == "📡 "@ + truncated(name, 180),
{
    names_tell_kinds(name);
}

/// Each event has the accent colour of its sort: failures and lost devices are red.
#[verifier::spinoff_prover]
pub proof fn events_have_their_colors(
    name: Seq<char>,
)
    ensures
        (name == "CAMERA-CONNECTED"@ || name == "MOUNT-CONNECTED"@ || name == "FOCUSER-CONNECTED"@
            || name == "ROTATOR-CONNECTED"@ || name == "GUIDER-CONNECTED"@ || name
            == "FLAT-CONNECTED"@ || name == "WEATHER-CONNECTED"@ || name == "SWITCH-CONNECTED"@
            || name == "DOME-CONNECTED"@ || name == "SAFETY-CONNECTED"@) ==> color_of(name)
            == colors::GREEN,
        (name == "CAMERA-DISCONNECTED"@ || name == "CAMERA-DOWNLOAD-TIMEOUT"@ || name
            == "IMAGE-SAVE-FAILED"@ || name == "FILTERWHEEL-DISCONNECTED"@ || name
            == "MOUNT-DISCONNECTED"@ || name == "FOCUSER-DISCONNECTED"@ || name == "ERROR-AF"@
            || name == "ROTATOR-DISCONNECTED"@ || name == "GUIDER-DISCONNECTED"@ || name
            == "SEQUENCE-ENTITY-FAILED"@ || name == "CHATSTRONOMY-COMMAND-FAILED"@ || name
            == "FLAT-DISCONNECTED"@ || name == "WEATHER-DISCONNECTED"@ || name
            == "SWITCH-DISCONNECTED"@ || name == "DOME-DISCONNECTED"@ || name
            == "SAFETY-DISCONNECTED"@ || name == "ERROR-PLATESOLVE"@) ==> color_of(name)
            == colors::RED,
        (name == "FILTERWHEEL-CONNECTED"@ || name == "FILTERWHEEL-CHANGED"@ || name
            == "MOUNT-SLEW-STARTED"@ || name == "ROTATOR-MOVE-STARTED"@ || name == "GUIDER-START"@)
            ==> color_of(name) == colors::BLUE,
        (name == "MOUNT-PARKED"@ || name == "MOUNT-UNPARKED"@ || name == "GUIDER-STOP"@ || name
            == "FLAT-LIGHT-TOGGLED"@ || name == "TS-WAITSTART"@) ==> color_of(name)
            == colors::YELLOW,
        (name == "MOUNT-HOMED"@ || name == "MOUNT-CENTER"@ || name == "MOUNT-SLEWED"@ || name
            == "ROTATOR-MOVED"@ || name == "ROTATOR-MOVED-MECHANICAL"@ || name == "ROTATOR-SYNCED"@
            || name == "GUIDER-DITHER"@ || name == "SEQUENCE-STARTING"@ || name
            == "SEQUENCE-FINISHED"@ || name == "WEATHER-CHANGED"@ || name == "DOME-SHUTTER-OPENED"@
            || name == "DOME-SHUTTER-CLOSED"@ || name == "DOME-HOMED"@ || name == "DOME-PARKED"@
            || name == "DOME-SLEWED"@ || name == "DOME-SYNCED"@ || name == "FLAT-COVER-OPENED"@
            || name == "FLAT-COVER-CLOSED"@ || name == "FLAT-BRIGHTNESS-CHANGED"@ || name
            == "TS-TARGETSTART"@ || name == "TS-NEWTARGETSTART"@) ==> color_of(name)
            == colors::CYAN,
        (name == "FOCUSER-USER-FOCUSED"@ || name == "AUTOFOCUS-STARTING"@ || name
            == "AUTOFOCUS-FINISHED"@ || name == "AUTOFOCUS-POINT-ADDED"@) ==> color_of(name)
            == colors::PURPLE,
        (name == "WEATHER-HIGH-WIND"@ || name == "SAFETY-CHANGED"@)
            ==> color_of(name) == colors::ORANGE,
        crate::event_types::kind_of(name) is Other
            ==> color_of(name) == (if has_part(name,
            "ERROR"@) { colors::RED } else if has_part(name,
            "WARNING"@) { colors::ORANGE } else { colors::GRAY }),
{
    names_tell_kinds(name);
}

/// Each event of the mount has the title that says what the mount did; a slew that was noticed
/// under way is called recovered.
#[verifier::spinoff_prover]
pub proof fn mount_events_have_their_titles(
    event: Event,
)
    ensures
        event.event@ == "MOUNT-BEFORE-FLIP"@ ==> mount_heading(event)
            == ("🔄 Mount Preparing for Meridian Flip"@, colors::ORANGE),
        event.event@ == "MOUNT-AFTER-FLIP"@ ==> mount_heading(event)
            == ("✅ Mount Meridian Flip Completed"@, colors::GREEN),
        event.event@ == "MOUNT-PARKED"@ ==> mount_heading(event)
            == ("🅿️ Mount Parked"@, colors::YELLOW),
        event.event@ == "MOUNT-UNPARKED"@ ==> mount_heading(event)
            == ("🔭 Mount Unparked"@, colors::YELLOW),
        event.event@ == "MOUNT-HOMED"@ ==> mount_heading(event) == ("🏠 Mount Homed"@, colors::CYAN),
        event.event@ == "MOUNT-CENTER"@ ==> mount_heading(event)
            == ("🎯 Centering Started"@, colors::CYAN),
        event.event@ == "MOUNT-SLEWED"@ ==> mount_heading(event)
            == ("🔭 Mount Slew Ended"@, colors::CYAN),
        event.event@ == "MOUNT-SLEW-STARTED"@
            ==> mount_heading(event)
            == (if event.details matches Some(EventDetails::MountSlewStarted { observed_in_progress,
            .. }) && observed_in_progress == Some(true) { ("🔭 Mount Slew Recovered"@,
            colors::BLUE) } else { ("🔭 Mount Slew Started"@, colors::BLUE) }),
{
    names_tell_kinds(event.event@);
}

/// The end of a sequence is called completed only where the event says so and reports no failure,
/// and a failure only where one is known. A stop and a cancellation are called what they are.
#[verifier::spinoff_prover]
pub proof fn sequences_are_called_completed_only_if_so(
    event: Event,
    failed: bool,
    outcome: String,
    status: String,
    had_failures: bool,
)
    ensures
        event.event@ == "SEQUENCE-STARTING"@ ==> sequence_heading(event, failed)
            == ("▶️ Sequence Starting"@, colors::CYAN),
        event.event@ == "SEQUENCE-ENTITY-FAILED"@
            ==> sequence_heading(event, failed) == ("❌ Sequence Item Failed"@, colors::RED),
        event.event@ == "SEQUENCE-FINISHED"@ && event.details is None
            ==> sequence_heading(event, failed)
            == (if failed { ("❌ Sequence Ended After a Failure"@,
            colors::RED) } else { ("🏁 Sequence Ended"@, colors::CYAN) }),
        event.event@ == "SEQUENCE-FINISHED"@ && event.details
            == Some(EventDetails::SequenceFinished { outcome, status, had_failures }) && outcome@
            == "completed"@ && !had_failures ==> sequence_heading(event, failed)
            == ("🏁 Sequence Completed"@, colors::GREEN),
        event.event@ == "SEQUENCE-FINISHED"@ && event.details
            == Some(EventDetails::SequenceFinished { outcome, status, had_failures }) && outcome@
            == "completed"@ && had_failures ==> sequence_heading(event, failed)
            == (if failed { ("❌ Sequence Ended After a Failure"@,
            colors::RED) } else { ("🏁 Sequence Ended"@, colors::CYAN) }),
        event.event@ == "SEQUENCE-FINISHED"@ && event.details
            == Some(EventDetails::SequenceFinished { outcome, status, had_failures }) && outcome@
            == "stopped"@ ==> sequence_heading(event, failed)
            == ("⏹️ Sequence Stopped"@, colors::YELLOW),
        event.event@ == "SEQUENCE-FINISHED"@ && event.details
            == Some(EventDetails::SequenceFinished { outcome, status, had_failures }) && outcome@
            == "cancelled_or_not_started"@ ==> sequence_heading(event, failed)
            == ("⏹️ Sequence Cancelled or Not Started"@, colors::GRAY),
{
    names_tell_kinds(event.event@);
    reveal_strlit("completed");
    reveal_strlit("stopped");
    reveal_strlit("cancelled_or_not_started");
    assert("completed"@.len() == 9);
    assert("stopped"@.len() == 7);
    assert("cancelled_or_not_started"@.len() == 24);
}

/// The message about an event of the sequence shows the event, the current target and how many
/// containers there are and how many are running.
#[verifier::spinoff_prover]
pub proof fn sequence_messages_show_event_and_target(
    telescope: Seq<char>,
    event: Event,
    s: StateView,
    now: Moment,
)
    ensures
        ({
            let m = sequence_message(telescope, event, s, now);
            &&& shown(m, "Event"@) == Some(event.event@)
            &&& shown(m, "Time"@) == Some(event.time@)
            &&& shown(m, "Current Target"@) == target_name(s.current_target)
            &&& (s.sequence_container_counts is None ==> shown(m, "Containers"@) is None)
            &&& (s.sequence_container_counts matches Some(n)
                ==> (n.0 == 0 ==> shown(m, "Containers"@) is None))
            &&& (s.sequence_container_counts matches Some(n)
                ==> (n.0 > 0 ==> shown(m, "Containers"@)
                == Some(dec(n.0 as nat) + " total / "@ + dec(n.1 as nat) + " running"@)))
        }),
{
    broadcast use group_fields;
    reveal_strlit("Event");
    reveal_strlit("Time");
    reveal_strlit("Current Target");
    reveal_strlit("Coordinates");
    reveal_strlit("Containers");
    reveal_strlit("Item");
    reveal_strlit("Type");
    reveal_strlit("Error");
    reveal_strlit("Failed Item");
    reveal_strlit("Outcome");
    reveal_strlit("N.I.N.A. status");
    reveal_strlit("Reported failures");
    assert("Event"@.len() == 5);
    assert("Time"@.len() == 4);
    assert("Current Target"@.len() == 14);
    assert("Coordinates"@.len() == 11);
    assert("Containers"@.len() == 10);
    assert("Item"@.len() == 4);
    assert("Type"@.len() == 4);
    assert("Error"@.len() == 5);
    assert("Failed Item"@.len() == 11);
    assert("Outcome"@.len() == 7);
    assert("N.I.N.A. status"@.len() == 15);
    assert("Reported failures"@.len() == 17);
    assert("Event"@[1] == 'v');
    assert("Error"@[1] == 'r');
    assert("Time"@[0] == 'T');
    assert("Item"@[0] == 'I');
    assert("Time"@[1] == 'i');
    assert("Type"@[1] == 'y');
    assert("Coordinates"@[0] == 'C');
    assert("Failed Item"@[0] == 'F');
    assert("Type"@[0] == 'T');
}

/// The message about a failed item shows that item. The message about the end of a sequence shows
/// the item that failed before, where one did, and the outcome.
#[verifier::spinoff_prover]
pub proof fn sequence_messages_show_the_failure(
    telescope: Seq<char>,
    event: Event,
    s: StateView,
    now: Moment,
    entity: String,
    entity_type: String,
    error: String,
    outcome: String,
    status: String,
    had_failures: bool,
)
    ensures
        ({
            let m = sequence_message(telescope, event, s, now);
            &&& (event.details == Some(EventDetails::SequenceEntityFailed { entity, entity_type,
                error }) ==> shown(m, "Item"@) == Some(truncated(entity@, 1000))
                && shown(m, "Type"@) == Some(truncated(entity_type@, 1000)) && shown(m, "Error"@)
                == Some(truncated(error@, 1000)) && shown(m, "Failed Item"@) is None)
            &&& (event.event@ == "SEQUENCE-FINISHED"@
                && !(event.details matches Some(EventDetails::SequenceEntityFailed { .. }))
                ==> (s.sequence_failure matches Some(f) ==> shown(m, "Failed Item"@)
                == Some(truncated(f.entity, 1000)) && shown(m, "Error"@)
                == Some(truncated(f.error, 1000))))
            &&& (s.sequence_failure is None ==> shown(m, "Failed Item"@) is None)
            &&& (event.event@ != "SEQUENCE-FINISHED"@ ==> shown(m, "Failed Item"@) is None)
            &&& (event.details == Some(EventDetails::SequenceFinished { outcome, status,
                had_failures }) ==> shown(m, "Outcome"@) == Some(spaced(outcome@))
                && shown(m, "N.I.N.A. status"@) == Some(status@) && shown(m, "Reported failures"@)
                == Some(if had_failures { "Yes"@ } else { "No"@ }))
        }),
{
    broadcast use group_fields;
    reveal_strlit("Event");
    reveal_strlit("Time");
    reveal_strlit("Current Target");
    reveal_strlit("Coordinates");
    reveal_strlit("Containers");
    reveal_strlit("Item");
    reveal_strlit("Type");
    reveal_strlit("Error");
    reveal_strlit("Failed Item");
    reveal_strlit("Outcome");
    reveal_strlit("N.I.N.A. status");
    reveal_strlit("Reported failures");
    assert("Event"@.len() == 5);
    assert("Time"@.len() == 4);
    assert("Current Target"@.len() == 14);
    assert("Coordinates"@.len() == 11);
    assert("Containers"@.len() == 10);
    assert("Item"@.len() == 4);
    assert("Type"@.len() == 4);
    assert("Error"@.len() == 5);
    assert("Failed Item"@.len() == 11);
    assert("Outcome"@.len() == 7);
    assert("N.I.N.A. status"@.len() == 15);
    assert("Reported failures"@.len() == 17);
    assert("Event"@[1] == 'v');
    assert("Error"@[1] == 'r');
    assert("Time"@[0] == 'T');
    assert("Item"@[0] == 'I');
    assert("Time"@[1] == 'i');
    assert("Type"@[1] == 'y');
    assert("Coordinates"@[0] == 'C');
    assert("Failed Item"@[0] == 'F');
    assert("Type"@[0] == 'T');
    crate::event_laws::end_name(event.event@);
}

/// A text by a truth value, where that is known, as the only one of a list.
pub open spec fn flag(value: Option<bool>, yes: Seq<char>, no: Seq<char>) -> Seq<Seq<char>> {
    match value {
        Some(b) => seq![if b { yes } else { no }],
        None => Seq::empty(),
    }
}

/// A text, where there is one, as the only one of a list.
pub open spec fn listed(text: Option<Seq<char>>) -> Seq<Seq<char>> {
    match text {
        Some(t) => seq![t],
        None => Seq::empty(),
    }
}

/// A heading with parts behind it, unless there are none.
pub open spec fn headed(head: Seq<char>, parts: Seq<Seq<char>>) -> Seq<Seq<char>> {
    if parts.len() == 0 {
        Seq::empty()
    } else {
        seq![head + joined(parts, ", "@)]
    }
}

/// What is known of the dome in words: its connection, its shutter, whether it is parked or at
/// home, and its azimuth.
pub open spec fn dome_words(s: StateView) -> Seq<Seq<char>> {
    flag(s.dome_connected, "connected"@, "disconnected"@) + flag(
        s.dome_shutter_open,
        "shutter open"@,
        "shutter closed"@,
    ) + (if s.dome_parked == Some(true) {
        seq!["parked"@]
    } else if s.dome_homed == Some(true) {
        seq!["homed"@]
    } else {
        Seq::empty()
    }) + reading("azimuth "@, s.dome_azimuth, 2, "°"@)
}

/// What is known of the flat panel in words: its connection, its cover, its light and its
/// brightness.
pub open spec fn flat_words(s: StateView) -> Seq<Seq<char>> {
    flag(s.flat_connected, "connected"@, "disconnected"@) + listed(
        match s.flat_cover_state {
            Some(cover) => Some("cover "@ + cover),
            None => None,
        },
    ) + flag(s.flat_light_on, "light on"@, "light off"@) + listed(
        match s.flat_brightness {
            Some(n) => Some("brightness "@ + dec_int(n as int)),
            None => None,
        },
    )
}

/// The readings in words that the status has room for.
pub open spec fn weather_words(c: WeatherConditions) -> Seq<Seq<char>> {
    reading("wind "@, c.wind_speed_meters_per_second, 1, " m/s"@) + reading(
        "gust "@,
        c.wind_gust_meters_per_second,
        1,
        " m/s"@,
    ) + reading(""@, c.temperature_celsius, 1, " °C"@) + reading(
        ""@,
        c.humidity_percent,
        0,
        "% RH"@,
    ) + reading(""@, c.cloud_cover_percent, 0, "% cloud"@) + reading(
        "rain "@,
        c.rain_rate_millimeters_per_hour,
        2,
        " mm/h"@,
    )
}

/// The end of a wait in words: how long it is yet, or that it has come.
pub open spec fn wait_words(end: Moment, now: Moment) -> Seq<char> {
    if elapsed_nanos(now, end) > 0 {
        "⏳ Target Scheduler wait until "@ + utc_clock_text(end) + " ("@ + duration_text(
            span_between(now, end),
        ) + " remaining)"@
    } else {
        "⏳ Target Scheduler reached its scheduled time; awaiting its next transition"@
    }
}

/// What the sequence does or did in words.
pub open spec fn sequence_words(s: StateView) -> Seq<Seq<char>> {
    if s.sequence_running {
        seq!["▶️ Sequence running"@]
    } else if s.sequence_failure is Some || s.sequence_outcome is None {
        Seq::empty()
    } else if s.sequence_outcome == Some("completed"@) {
        seq!["🏁 Sequence completed"@]
    } else if s.sequence_outcome == Some("stopped"@) {
        seq!["⏹️ Sequence stopped"@]
    } else if s.sequence_outcome == Some("cancelled_or_not_started"@) {
        seq!["⏹️ Sequence cancelled or not started"@]
    } else if s.sequence_outcome == Some("ended"@) {
        seq!["🏁 Sequence ended"@]
    } else {
        Seq::empty()
    }
}

/// Which item of the sequence failed and why, in words.
pub open spec fn failure_words(s: StateView) -> Seq<Seq<char>> {
    match s.sequence_failure {
        Some(f) => seq![
            "❌ "@ + truncated(
                if trimmed(f.entity).len() == 0 {
                    "Sequence item"@
                } else {
                    f.entity
                },
                180,
            ) + " failed: "@ + truncated(f.error, 1000),
        ],
        None => Seq::empty(),
    }
}

/// What the safety monitor says in words.
pub open spec fn safety_words(s: StateView) -> Seq<Seq<char>> {
    if s.safety_state is Unknown {
        Seq::empty()
    } else if s.safety_state is ConnectedUnknown {
        seq!["🛡️ Safety monitor connected; state unknown"@]
    } else if s.safety_state is Safe {
        seq!["🛡️ Conditions safe"@]
    } else if s.safety_state is Unsafe {
        seq!["⚠️ Conditions unsafe"@]
    } else {
        seq!["⚠️ Safety monitor disconnected"@]
    }
}

/// What is known of the weather in words: the station's connection, whether high wind is on and
/// above which limit, and the latest readings.
pub open spec fn weather_report(s: StateView) -> Seq<Seq<char>> {
    let words = weather_words(current_weather(s));
    flag(s.weather_connected, "connected"@, "disconnected"@) + (if s.weather_high_wind != Some(
        true,
    ) {
        Seq::empty()
    } else {
        match s.weather_high_wind_threshold_meters_per_second {
            Some(limit) => seq!["HIGH WIND (limit "@ + limit.fixed_text(1) + " m/s)"@],
            None => seq!["HIGH WIND"@],
        }
    }) + (if words.len() == 0 {
        Seq::empty()
    } else {
        seq!["last report: "@ + joined(words, ", "@)]
    })
}

/// The last event of the mount in words.
pub open spec fn mount_words(name: Seq<char>) -> Seq<char> {
    if name == "MOUNT-PARKED"@ {
        "🅿️ Mount parked"@
    } else if name == "MOUNT-UNPARKED"@ {
        "🔭 Mount unparked"@
    } else if name == "MOUNT-HOMED"@ {
        "🏠 Mount homed"@
    } else if name == "MOUNT-BEFORE-FLIP"@ {
        "🔄 Mount pre-flip"@
    } else if name == "MOUNT-AFTER-FLIP"@ {
        "✅ Mount post-flip"@
    } else if name == "MOUNT-CENTER"@ {
        "🎯 Centering started"@
    } else if name == "MOUNT-SLEWED"@ {
        "🔭 Mount slew ended"@
    } else {
        "🔭 Mount active"@
    }
}

/// The last event of the guider in words.
pub open spec fn guider_words(name: Seq<char>) -> Seq<char> {
    if name == "GUIDER-START"@ {
        "🎯 Guiding"@
    } else if name == "GUIDER-DITHER"@ {
        "🎯 Dithering"@
    } else if name == "GUIDER-STOP"@ {
        "🛑 Guider stopped"@
    } else {
        "🎯 Guider active"@
    }
}

proof fn lemma_with_line(parts: Seq<Seq<char>>, line: Option<Seq<char>>)
    ensures
        with_line(parts, line) == parts + listed(line),
{
    assert(with_line(parts, line) =~= parts + listed(line));
}

/// The lines of the status are its parts one after another.
#[verifier::spinoff_prover]
proof fn lemma_lines(s: StateView, now: Moment)
    ensures
        status_lines(s, now) == listed(target_line(s)) + operation_lines(
            shown_operations(s.board.running),
            now,
        ) + listed(wait_line(s, now)) + listed(sequence_line(s)) + listed(failure_line(s))
            + listed(s.safety_state.text()) + listed(dome_line(s)) + listed(flat_line(s)) + listed(
            weather_line(s),
        ) + listed(switch_line(s)) + listed(mount_line(s)) + listed(guider_line(s)),
{
    let none = Seq::<Seq<char>>::empty();
    lemma_with_line(none, target_line(s));
    assert(none + listed(target_line(s)) =~= listed(target_line(s)));
    let a = listed(target_line(s)) + operation_lines(shown_operations(s.board.running), now);
    let b = with_line(a, wait_line(s, now));
    lemma_with_line(a, wait_line(s, now));
    let c = with_line(b, sequence_line(s));
    lemma_with_line(b, sequence_line(s));
    let d = with_line(c, failure_line(s));
    lemma_with_line(c, failure_line(s));
    let e = with_line(d, s.safety_state.text());
    lemma_with_line(d, s.safety_state.text());
    let f = with_line(e, dome_line(s));
    lemma_with_line(e, dome_line(s));
    let g = with_line(f, flat_line(s));
    lemma_with_line(f, flat_line(s));
    let h = with_line(g, weather_line(s));
    lemma_with_line(g, weather_line(s));
    let i = with_line(h, switch_line(s));
    lemma_with_line(h, switch_line(s));
    let j = with_line(i, mount_line(s));
    lemma_with_line(i, mount_line(s));
    lemma_with_line(j, guider_line(s));
}

proof fn lemma_reading(parts: Seq<Seq<char>>, value: Option<Double>, before: Seq<char>,
    places: nat, unit: Seq<char>)
    ensures
        with_reading(parts, value, before, places, unit) == parts + reading(
            before,
            value,
            places,
            unit,
        ),
{
    assert(with_reading(parts, value, before, places, unit) =~= parts + reading(
        before,
        value,
        places,
        unit,
    ));
}

proof fn lemma_flag(parts: Seq<Seq<char>>, value: Option<bool>, yes: Seq<char>, no: Seq<char>)
    ensures
        with_flag(parts, value, yes, no) == parts + flag(value, yes, no),
{
    assert(with_flag(parts, value, yes, no) =~= parts + flag(value, yes, no));
}

#[verifier::spinoff_prover]
proof fn lemma_dome(s: StateView)
    ensures
        dome_parts(s) == dome_words(s),
{
    let none = Seq::<Seq<char>>::empty();
    lemma_flag(none, s.dome_connected, "connected"@, "disconnected"@);
    let a = with_flag(none, s.dome_connected, "connected"@, "disconnected"@);
    lemma_flag(a, s.dome_shutter_open, "shutter open"@, "shutter closed"@);
    let b = with_flag(a, s.dome_shutter_open, "shutter open"@, "shutter closed"@);
    let c = if s.dome_parked == Some(true) {
        b.push("parked"@)
    } else if s.dome_homed == Some(true) {
        b.push("homed"@)
    } else {
        b
    };
    lemma_reading(c, s.dome_azimuth, "azimuth "@, 2, "°"@);
    assert(dome_parts(s) =~= dome_words(s));
}

#[verifier::spinoff_prover]
proof fn lemma_flat(s: StateView)
    ensures
        flat_parts(s) == flat_words(s),
{
    let none = Seq::<Seq<char>>::empty();
    lemma_flag(none, s.flat_connected, "connected"@, "disconnected"@);
    assert(flat_parts(s) =~= flat_words(s));
}

#[verifier::spinoff_prover]
proof fn lemma_summary(c: WeatherConditions)
    ensures
        c.summary_parts() == weather_words(c),
{
    let none = Seq::<Seq<char>>::empty();
    lemma_reading(none, c.wind_speed_meters_per_second, "wind "@, 1, " m/s"@);
    let r0 = with_reading(none, c.wind_speed_meters_per_second, "wind "@, 1, " m/s"@);
    lemma_reading(r0, c.wind_gust_meters_per_second, "gust "@, 1, " m/s"@);
    let r1 = with_reading(r0, c.wind_gust_meters_per_second, "gust "@, 1, " m/s"@);
    lemma_reading(r1, c.temperature_celsius, ""@, 1, " °C"@);
    let r2 = with_reading(r1, c.temperature_celsius, ""@, 1, " °C"@);
    lemma_reading(r2, c.humidity_percent, ""@, 0, "% RH"@);
    let r3 = with_reading(r2, c.humidity_percent, ""@, 0, "% RH"@);
    lemma_reading(r3, c.cloud_cover_percent, ""@, 0, "% cloud"@);
    let r4 = with_reading(r3, c.cloud_cover_percent, ""@, 0, "% cloud"@);
    lemma_reading(r4, c.rain_rate_millimeters_per_hour, "rain "@, 2, " mm/h"@);
    assert(c.summary_parts() =~= weather_words(c));
}

#[verifier::spinoff_prover]
proof fn lemma_weather(s: StateView)
    ensures
        weather_parts(s) == weather_report(s),
{
    lemma_summary(current_weather(s));
    let none = Seq::<Seq<char>>::empty();
    lemma_flag(none, s.weather_connected, "connected"@, "disconnected"@);
    assert(weather_parts(s) =~= weather_report(s));
}

/// Until when the target lasts, in words.
pub open spec fn target_status(s: StateView) -> Seq<Seq<char>> {
    match s.current_target {
        Some(t) => match t.target_end_time {
            Some(end) => seq!["🎯 Target scheduled until "@ + zoned_text(end)],
            None => Seq::empty(),
        },
        None => Seq::empty(),
    }
}

#[verifier::spinoff_prover]
proof fn lemma_target_status(s: StateView)
    ensures
        listed(target_line(s)) == target_status(s),
{
    assert(listed(target_line(s)) =~= target_status(s));
}

/// The wait of the scheduler in words.
pub open spec fn wait_status(s: StateView, now: Moment) -> Seq<Seq<char>> {
    match s.scheduler_wait {
        Some(end) => seq![wait_words(end, now)],
        None => Seq::empty(),
    }
}

#[verifier::spinoff_prover]
proof fn lemma_wait_status(s: StateView, now: Moment)
    ensures
        listed(wait_line(s, now)) == wait_status(s, now),
{
    assert(listed(wait_line(s, now)) =~= wait_status(s, now));
}

/// The dome on a line, with a warning where it is disconnected.
pub open spec fn dome_status(s: StateView) -> Seq<Seq<char>> {
    headed(
        (if s.dome_connected == Some(false) {
            "⚠️"@
        } else {
            "🏠"@
        }) + " Dome · "@,
        dome_words(s),
    )
}

#[verifier::spinoff_prover]
proof fn lemma_dome_status(s: StateView)
    ensures
        listed(dome_line(s)) == dome_status(s),
{
    lemma_dome(s);
    assert(listed(dome_line(s)) =~= dome_status(s));
}

/// The flat panel on a line, with a warning where it is disconnected.
pub open spec fn flat_status(s: StateView) -> Seq<Seq<char>> {
    headed(
        (if s.flat_connected == Some(false) {
            "⚠️"@
        } else {
            "💡"@
        }) + " Flat panel · "@,
        flat_words(s),
    )
}

#[verifier::spinoff_prover]
proof fn lemma_flat_status(s: StateView)
    ensures
        listed(flat_line(s)) == flat_status(s),
{
    lemma_flat(s);
    assert(listed(flat_line(s)) =~= flat_status(s));
}

/// The weather on a line, with a warning where the station is disconnected or high wind is on.
pub open spec fn weather_status(s: StateView) -> Seq<Seq<char>> {
    headed(
        (if s.weather_connected == Some(false) || s.weather_high_wind == Some(true) {
            "⚠️"@
        } else {
            "🌦️"@
        }) + " Weather · "@,
        weather_report(s),
    )
}

#[verifier::spinoff_prover]
proof fn lemma_weather_status(s: StateView)
    ensures
        listed(weather_line(s)) == weather_status(s),
{
    lemma_weather(s);
    assert(listed(weather_line(s)) =~= weather_status(s));
}

/// The switch on a line.
pub open spec fn switch_status(s: StateView) -> Seq<Seq<char>> {
    match s.switch_connected {
        Some(true) => seq!["🔌"@ + " Switch device "@ + "connected"@],
        Some(false) => seq!["⚠️"@ + " Switch device "@ + "disconnected"@],
        None => Seq::empty(),
    }
}

#[verifier::spinoff_prover]
proof fn lemma_switch_status(s: StateView)
    ensures
        listed(switch_line(s)) == switch_status(s),
{
    assert(listed(switch_line(s)) =~= switch_status(s));
}

/// The last event of the mount on a line.
pub open spec fn mount_status(s: StateView) -> Seq<Seq<char>> {
    match s.last_mount_event {
        Some(name) => seq![mount_words(name)],
        None => Seq::empty(),
    }
}

#[verifier::spinoff_prover]
proof fn lemma_mount_status(s: StateView)
    ensures
        listed(mount_line(s)) == mount_status(s),
{
    if s.last_mount_event is Some {
        names_tell_kinds(s.last_mount_event->0);
    }
    assert(listed(mount_line(s)) =~= mount_status(s));
}

/// The last event of the guider on a line.
pub open spec fn guider_status(s: StateView) -> Seq<Seq<char>> {
    match s.last_guider_event {
        Some(name) => seq![guider_words(name)],
        None => Seq::empty(),
    }
}

#[verifier::spinoff_prover]
proof fn lemma_guider_status(s: StateView)
    ensures
        listed(guider_line(s)) == guider_status(s),
{
    if s.last_guider_event is Some {
        names_tell_kinds(s.last_guider_event->0);
    }
    assert(listed(guider_line(s)) =~= guider_status(s));
}

#[verifier::spinoff_prover]
proof fn lemma_sequence_words(s: StateView)
    ensures
        listed(sequence_line(s)) == sequence_words(s),
{
    reveal_strlit("completed");
    assert(listed(sequence_line(s)) =~= sequence_words(s));
}

#[verifier::spinoff_prover]
proof fn lemma_failure_words(s: StateView)
    ensures
        listed(failure_line(s)) == failure_words(s),
{
    assert(listed(failure_line(s)) =~= failure_words(s));
}

#[verifier::spinoff_prover]
proof fn lemma_safety_words(s: StateView)
    ensures
        listed(s.safety_state.text()) == safety_words(s),
{
    assert(listed(s.safety_state.text()) =~= safety_words(s));
}

/// The status lists what is known, each thing on a line of its own: until when the target lasts,
/// the operations under way, a wait, the sequence, its failure, the safety monitor, the dome, the
/// flat panel, the weather, the switch, the mount and the guider.
#[verifier::spinoff_prover]
pub proof fn the_status_lists_what_is_known(s: StateView, now: Moment)
    ensures
        status_lines(s, now) == target_status(s) + operation_lines(
            shown_operations(s.board.running),
            now,
        ) + wait_status(s, now) + sequence_words(s) + failure_words(s) + safety_words(s)
            + dome_status(s) + flat_status(s) + weather_status(s) + switch_status(s)
            + mount_status(s) + guider_status(s),
{
    lemma_lines(s, now);
    lemma_target_status(s);
    lemma_wait_status(s, now);
    lemma_dome_status(s);
    lemma_flat_status(s);
    lemma_weather_status(s);
    lemma_switch_status(s);
    lemma_mount_status(s);
    lemma_guider_status(s);
    lemma_sequence_words(s);
    lemma_failure_words(s);
    lemma_safety_words(s);
}

/// Of an alert's readings of the wind and a report's, those of the later one are shown; readings
/// that only one of them has are always shown.
#[verifier::spinoff_prover]
pub proof fn the_latest_wind_is_shown(s: StateView, report: WeatherConditions,
    alert: WeatherConditions)
    requires
        s.weather_conditions == Some(report),
        s.weather_high_wind_conditions == Some(alert),
        alert.wind_speed_meters_per_second is Some,
    ensures
        report.wind_speed_meters_per_second is None && report.wind_gust_meters_per_second is None
            && report.wind_direction_degrees is None ==> current_weather(
            s,
        ).wind_speed_meters_per_second == alert.wind_speed_meters_per_second,
        report.wind_speed_meters_per_second is Some ==> {
            &&& s.weather_conditions_at matches Some(r) ==> (s.weather_high_wind_conditions_at
                matches Some(a) ==> {
                &&& a.earlier(r) ==> current_weather(s) == report
                &&& !a.earlier(r) ==> current_weather(s).wind_speed_meters_per_second
                    == alert.wind_speed_meters_per_second
            })
            &&& s.weather_conditions_at is None && s.weather_high_wind_conditions_at is Some
                ==> current_weather(s).wind_speed_meters_per_second
                == alert.wind_speed_meters_per_second
            &&& s.weather_conditions_at is Some && s.weather_high_wind_conditions_at is None
                ==> current_weather(s) == report
            &&& s.weather_conditions_at is None && s.weather_high_wind_conditions_at is None
                ==> current_weather(s).wind_speed_meters_per_second == (if s.weather_high_wind
                == Some(true) {
                alert.wind_speed_meters_per_second
            } else {
                report.wind_speed_meters_per_second
            })
        },
        alert.temperature_celsius is None ==> current_weather(s).temperature_celsius
            == report.temperature_celsius,
        alert.humidity_percent is None ==> current_weather(s).humidity_percent
            == report.humidity_percent,
        alert.wind_gust_meters_per_second is None ==> current_weather(
            s,
        ).wind_gust_meters_per_second == report.wind_gust_meters_per_second,
{
}

/// A reading of an update takes the place of the same reading, and where the update has none the
/// reading stays.
pub proof fn updates_replace_their_own_readings(base: WeatherConditions, update: WeatherConditions)
    ensures
        ({
            let m = base.merged(update);
            &&& m.wind_speed_meters_per_second == (match update.wind_speed_meters_per_second {
                Some(v) => Some(v),
                None => base.wind_speed_meters_per_second,
            })
            &&& m.wind_gust_meters_per_second == (match update.wind_gust_meters_per_second {
                Some(v) => Some(v),
                None => base.wind_gust_meters_per_second,
            })
            &&& m.wind_direction_degrees == (match update.wind_direction_degrees {
                Some(v) => Some(v),
                None => base.wind_direction_degrees,
            })
            &&& m.temperature_celsius == (match update.temperature_celsius {
                Some(v) => Some(v),
                None => base.temperature_celsius,
            })
            &&& m.dew_point_celsius == (match update.dew_point_celsius {
                Some(v) => Some(v),
                None => base.dew_point_celsius,
            })
            &&& m.humidity_percent == (match update.humidity_percent {
                Some(v) => Some(v),
                None => base.humidity_percent,
            })
            &&& m.pressure_hectopascals == (match update.pressure_hectopascals {
                Some(v) => Some(v),
                None => base.pressure_hectopascals,
            })
            &&& m.cloud_cover_percent == (match update.cloud_cover_percent {
                Some(v) => Some(v),
                None => base.cloud_cover_percent,
            })
            &&& m.rain_rate_millimeters_per_hour == (match update.rain_rate_millimeters_per_hour {
                Some(v) => Some(v),
                None => base.rain_rate_millimeters_per_hour,
            })
            &&& m.sky_temperature_celsius == (match update.sky_temperature_celsius {
                Some(v) => Some(v),
                None => base.sky_temperature_celsius,
            })
            &&& m.sky_brightness_lux == (match update.sky_brightness_lux {
                Some(v) => Some(v),
                None => base.sky_brightness_lux,
            })
            &&& m.sky_quality_magnitudes_per_square_arcsecond
                == (match update.sky_quality_magnitudes_per_square_arcsecond {
                Some(v) => Some(v),
                None => base.sky_quality_magnitudes_per_square_arcsecond,
            })
            &&& m.star_fwhm_arcseconds == (match update.star_fwhm_arcseconds {
                Some(v) => Some(v),
                None => base.star_fwhm_arcseconds,
            })
        }),
{
}

/// A time in hours, minutes and seconds is written with these numbers: without hours where there
/// are none, and without minutes where there are neither.
#[verifier::spinoff_prover]
pub proof fn durations_are_written_out(span: Span, h: nat, m: nat, s: nat)
    requires
        m < 60,
        s < 60,
        span.whole_seconds() == 3600 * h + 60 * m + s,
    ensures
        h > 0 ==> duration_text(span) == dec_int(h as int) + "h "@ + dec_int(m as int) + "m "@
            + dec_int(s as int) + "s"@,
        h == 0 && m > 0 ==> duration_text(span) == dec_int(m as int) + "m "@ + dec_int(s as int)
            + "s"@,
        h == 0 && m == 0 ==> duration_text(span) == dec_int(s as int) + "s"@,
{
    let all = span.whole_seconds();
    assert(all / 3600 == h && all % 3600 == 60 * m + s) by {
        vstd::arithmetic::div_mod::lemma_fundamental_div_mod_converse(
            all,
            3600,
            h as int,
            (60 * m + s) as int,
        );
    }
    assert((all % 3600) / 60 == m && all % 60 == s);
}

/// A cooling under way is shown by the camera's temperature, the one that is aimed at and the
/// cooler's power.
#[verifier::spinoff_prover]
pub proof fn cooling_is_shown_from_present_to_target(
    t: TrackedSequenceOperation,
    now: Moment,
    target_temperature: Double,
    minimum_duration: Option<Span>,
)
    requires
        t.operation.kind == (SequenceOperationKind::CameraCooling { target_temperature,
            minimum_duration }),
    ensures
        t.camera is None ==> operation_text(t, now) == "❄️ Camera cooling ("@
            + ("target "@ + (target_temperature.fixed_text(1) + " °C"@)) + ")"@,
        t.camera matches Some(c) ==> (c.temperature.finite() && c.cooler_power.finite()
            ==> operation_text(t, now) == "❄️ Camera cooling ("@
            + (c.temperature.fixed_text(1) + " → "@ + (target_temperature.fixed_text(1) + " °C"@)
            + (", cooler "@ + c.cooler_power.fixed_text(0) + "%"@)) + ")"@),
        t.camera matches Some(c) ==> (!c.temperature.finite()
            ==> operation_text(t, now) == "❄️ Camera cooling ("@
            + ("target "@ + (target_temperature.fixed_text(1) + " °C"@)) + ")"@),
{
}

/// A timed wait under way is shown by its end and what is left of it.
#[verifier::spinoff_prover]
pub proof fn waits_are_shown_by_what_is_left(
    t: TrackedSequenceOperation,
    now: Moment,
)
    requires
        t.operation.kind is TimeWait,
    ensures
        t.estimated_end is None ==> operation_text(t, now) == "⏳ Timed wait in progress"@,
        t.estimated_end matches Some(end) ==> (elapsed_nanos(now, end) > 0
            ==> operation_text(t, now) == "⏳ Sequence wait until "@ + utc_clock_text(end) + " ("@
            + duration_text(span_between(now, end)) + " remaining)"@),
        t.estimated_end matches Some(end) ==> (elapsed_nanos(now, end) <= 0
            ==> operation_text(t, now) == "⏳ Sequence wait reached its scheduled time"@),
{
}

/// A wait for safety under way is shown by what the safety monitor says.
#[verifier::spinoff_prover]
pub proof fn safety_waits_are_shown_by_the_monitor(
    t: TrackedSequenceOperation,
    now: Moment,
    is_safe: Option<bool>,
)
    requires
        t.operation.kind == (SequenceOperationKind::SafetyWait { is_safe, wait_interval: None }),
    ensures
        is_safe == Some(false) ==> operation_text(t, now) == "🛡️ Waiting for safe conditions ("@
            + "unsafe"@ + ""@ + ")"@,
        is_safe == Some(true) ==> operation_text(t, now) == "🛡️ Waiting for safe conditions ("@
            + "safe; resolving"@ + ""@ + ")"@,
        is_safe is None ==> operation_text(t, now) == "🛡️ Waiting for safe conditions ("@
            + "monitor disconnected"@ + ""@ + ")"@,
{
}

/// A slew under way is shown by its destination, where that is known.
#[verifier::spinoff_prover]
pub proof fn slews_are_shown_by_their_destination(
    t: TrackedSequenceOperation,
    now: Moment,
    coordinates: Option<EventCoordinates>,
    may_be_center: bool,
)
    requires
        t.operation.kind == (SequenceOperationKind::MountSlew { coordinates, may_be_center }),
    ensures
        coordinates matches Some(c) ==> operation_text(t, now) == "🔭 Slewing to "@
            + c.display_text(),
        coordinates is None ==> operation_text(t, now) == "🔭 Mount slew in progress"@,
{
}

/// A warming under way is shown by the camera's temperature and its least duration.
#[verifier::spinoff_prover]
pub proof fn warming_is_shown_by_the_temperature(
    t: TrackedSequenceOperation,
    now: Moment,
    minimum_duration: Option<Span>,
)
    requires
        t.operation.kind == (SequenceOperationKind::CameraWarming { minimum_duration }),
    ensures
        t.camera matches Some(c) ==> (c.temperature.finite() && minimum_duration is None
            ==> operation_text(t, now) == "🌡️ Camera warming ("@
            + (c.temperature.fixed_text(1) + " °C"@) + ")"@),
        t.camera matches Some(c) ==> (c.temperature.finite()
            ==> (minimum_duration matches Some(d) ==> operation_text(t, now)
            == "🌡️ Camera warming ("@ + (c.temperature.fixed_text(1) + " °C"@ + ", minimum "@
            + duration_text(d)) + ")"@)),
        t.camera is None && minimum_duration is None
            ==> operation_text(t, now) == "🌡️ Camera warming ("@ + "temperature unavailable"@
            + ")"@,
{
}

/// A centering or a plate solve under way is shown by its place and by how its latest solve went.
#[verifier::spinoff_prover]
pub proof fn centerings_are_shown_by_place_and_result(
    t: TrackedSequenceOperation,
    now: Moment,
    coordinates: Option<EventCoordinates>,
    rotation: Option<Double>,
    output: Option<PlateSolveOutput>,
)
    ensures
        t.operation.kind == (SequenceOperationKind::MountCenter { coordinates, rotation, output })
            ==> operation_text(t, now) == "🎯 Centering"@
            + (match coordinates { Some(c) => " on "@ + c.display_text(), None => ""@ })
            + (if output is Some && output->0.success
            == Some(true) { "; latest plate solve succeeded"@ } else if output is Some
            && output->0.success == Some(false) { "; latest plate solve failed"@ } else { ""@ }),
        t.operation.kind == (SequenceOperationKind::PlateSolve { coordinates, rotation, output })
            ==> operation_text(t, now) == "🔎 Plate solving"@
            + (match coordinates { Some(c) => " near "@ + c.display_text(), None => ""@ })
            + (if output is Some && output->0.success
            == Some(true) { "; latest result succeeded"@ } else if output is Some
            && output->0.success == Some(false) { "; latest result failed"@ } else { ""@ }),
{
}

/// A wait for a condition is shown by how often it is looked at, one for somebody as such, and one
/// for safety also by how often the monitor is asked.
#[verifier::spinoff_prover]
pub proof fn other_waits_are_shown_by_what_is_waited_for(
    t: TrackedSequenceOperation,
    now: Moment,
    span: Span,
    is_safe: Option<bool>,
)
    ensures
        t.operation.kind == (SequenceOperationKind::ConditionWait { wait_interval: Some(span) })
            ==> operation_text(t, now) == "⏳ Waiting for a sequence condition"@
            + (", checks every "@ + duration_text(span)),
        t.operation.kind == (SequenceOperationKind::ConditionWait { wait_interval: None })
            ==> operation_text(t, now) == "⏳ Waiting for a sequence condition"@ + ""@,
        t.operation.kind is ManualWait ==> operation_text(t, now)
            == "⏸️ Waiting for manual sequence resume"@,
        t.operation.kind == (SequenceOperationKind::SafetyWait { is_safe: Some(false),
            wait_interval: Some(span) }) ==> operation_text(t, now)
            == "🛡️ Waiting for safe conditions ("@ + "unsafe"@
            + (", checks every "@ + duration_text(span)) + ")"@,
{
}

/// A wait for an altitude is shown by its name, the present altitude, the one that is waited for
/// and the expected time, as far as they are known.
#[verifier::spinoff_prover]
pub proof fn altitude_waits_are_shown_by_both_altitudes(
    t: TrackedSequenceOperation,
    now: Moment,
    target: Double,
    current: Double,
    comparator: String,
    expected: String,
)
    ensures
        t.operation.kind == (SequenceOperationKind::AstronomicalWait {
            target_altitude_degrees: Some(target),
            current_altitude_degrees: Some(current),
            comparator: Some(comparator),
            expected_time: Some(expected),
        }) ==> operation_text(t, now) == "🌌 "@ + t.operation.name@ + " ("@ + joined(
            seq![
                "current "@ + current.fixed_text(2) + "°"@,
                "target "@ + (comparator@ + " "@) + target.fixed_text(2) + "°"@,
                "expected "@ + expected@,
            ],
            ", "@,
        ) + ")"@,
        t.operation.kind == (SequenceOperationKind::AstronomicalWait {
            target_altitude_degrees: None,
            current_altitude_degrees: Some(current),
            comparator: None,
            expected_time: None,
        }) ==> operation_text(t, now) == "🌌 "@ + t.operation.name@ + " ("@ + joined(
            seq!["current "@ + current.fixed_text(2) + "°"@],
            ", "@,
        ) + ")"@,
        t.operation.kind == (SequenceOperationKind::AstronomicalWait {
            target_altitude_degrees: None,
            current_altitude_degrees: None,
            comparator: None,
            expected_time: None,
        }) ==> operation_text(t, now) == "🌌 "@ + t.operation.name@,
{
    reveal_strlit("current ");
    reveal_strlit("expected ");
    assert("current "@.len() == 8 && "expected "@.len() == 9);
    let a = "current "@ + current.fixed_text(2) + "°"@;
    let b = "target "@ + (comparator@ + " "@) + target.fixed_text(2) + "°"@;
    let c = "expected "@ + expected@;
    assert(seq![a].push(b).push(c) =~= seq![a, b, c]);
    assert(seq![a, b, c].drop_last() =~= seq![a, b]);
    assert(seq![a].len() == 1);
    assert(joined(seq![a], ", "@) == a);
    assert(joined(seq![a, b, c], ", "@).len() >= c.len());
}

} // verus!
