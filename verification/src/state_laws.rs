//! What the events promise of the state: each changes what it speaks of, as it says, and nothing
//! else.

use vstd::prelude::*;
use crate::calendar::Moment;
use crate::double::Double;
use crate::event_laws::names_tell_kinds;
use crate::events::{Event, EventDeliveryScope, EventDetails, WeatherConditions};
use crate::operations::BoardView;
use crate::updater_state::{EventTimes, FailureView, SafetyState, StateView};

verus! {

/// After a slew of the dome its azimuth is where the slew led, and it is neither parked nor at
/// home. Where the slew began has no part in it: another event that differs in that alone leaves
/// the same state.
#[verifier::spinoff_prover]
pub proof fn dome_slews_end_where_they_led(
    s: StateView,
    event: Event,
    times: EventTimes,
    now: Moment,
    from: Double,
    to: Double,
    other: Event,
    elsewhere: Double,
)
    requires
        event.event@ == "DOME-SLEWED"@,
        event.details == Some(EventDetails::DomeSlewed { from, to }),
        other.event@ == event.event@,
        other.details == Some(EventDetails::DomeSlewed { from: elsewhere, to }),
    ensures
        s.applied(event, times, now).dome_azimuth == Some(to),
        s.applied(event, times, now).dome_parked == Some(false),
        s.applied(event, times, now).dome_homed == Some(false),
        s.applied(event, times, now) == (StateView { dome_azimuth: Some(to),
            dome_parked: Some(false), dome_homed: Some(false), last_status_fingerprint: None,
            ..s }),
        s.applied(other, times, now) == s.applied(event, times, now),
{
    names_tell_kinds(event.event@);
    names_tell_kinds(other.event@);
}

/// Parking and homing the dome are told apart, and both make its azimuth unknown; so does
/// synchronizing it, which leaves the rest. Opening and closing the shutter changes the shutter
/// alone.
#[verifier::spinoff_prover]
pub proof fn the_dome_is_where_it_was_last_seen(
    s: StateView,
    event: Event,
    times: EventTimes,
    now: Moment,
)
    ensures
        event.event@ == "DOME-PARKED"@ ==> s.applied(event, times, now)
            == (StateView { dome_parked: Some(true), dome_homed: Some(false), dome_azimuth: None,
            last_status_fingerprint: None, ..s }),
        event.event@ == "DOME-HOMED"@ ==> s.applied(event, times, now)
            == (StateView { dome_homed: Some(true), dome_parked: Some(false), dome_azimuth: None,
            last_status_fingerprint: None, ..s }),
        event.event@ == "DOME-SYNCED"@ ==> s.applied(event, times, now)
            == (StateView { dome_azimuth: None, last_status_fingerprint: None, ..s }),
        event.event@ == "DOME-SHUTTER-OPENED"@
            ==> s.applied(event, times, now) == (StateView { dome_shutter_open: Some(true),
            last_status_fingerprint: None, ..s }),
        event.event@ == "DOME-SHUTTER-CLOSED"@
            ==> s.applied(event, times, now) == (StateView { dome_shutter_open: Some(false),
            last_status_fingerprint: None, ..s }),
{
    names_tell_kinds(event.event@);
}

/// When the dome, the flat panel or the switch connects or disconnects, that is known, nothing else
/// is known of the device any more, and nothing changes that is known of other devices.
#[verifier::spinoff_prover]
pub proof fn connections_start_anew(
    s: StateView,
    event: Event,
    times: EventTimes,
    now: Moment,
)
    ensures
        event.event@ == "DOME-CONNECTED"@ ==> s.applied(event, times, now)
            == (StateView { dome_connected: Some(true), dome_shutter_open: None,
            dome_azimuth: None, dome_parked: None, dome_homed: None, last_status_fingerprint: None,
            ..s }),
        event.event@ == "DOME-DISCONNECTED"@ ==> s.applied(event, times, now)
            == (StateView { dome_connected: Some(false), dome_shutter_open: None,
            dome_azimuth: None, dome_parked: None, dome_homed: None, last_status_fingerprint: None,
            ..s }),
        event.event@ == "FLAT-CONNECTED"@ ==> s.applied(event, times, now)
            == (StateView { flat_connected: Some(true), flat_cover_state: None,
            flat_light_on: None, flat_brightness: None, last_status_fingerprint: None, ..s }),
        event.event@ == "FLAT-DISCONNECTED"@ ==> s.applied(event, times, now)
            == (StateView { flat_connected: Some(false), flat_cover_state: None,
            flat_light_on: None, flat_brightness: None, last_status_fingerprint: None, ..s }),
        event.event@ == "SWITCH-CONNECTED"@ ==> s.applied(event, times, now)
            == (StateView { switch_connected: Some(true), last_status_fingerprint: None, ..s }),
        event.event@ == "SWITCH-DISCONNECTED"@
            ==> s.applied(event, times, now) == (StateView { switch_connected: Some(false),
            last_status_fingerprint: None, ..s }),
{
    names_tell_kinds(event.event@);
}

/// The cover of the flat panel is as the last event says, and so are its light and its brightness.
/// The brightness before a change has no part in it.
#[verifier::spinoff_prover]
pub proof fn the_flat_panel_is_as_last_told(
    s: StateView,
    event: Event,
    times: EventTimes,
    now: Moment,
    previous: i32,
    new: i32,
    on: Option<bool>,
)
    ensures
        event.event@ == "FLAT-COVER-OPENED"@ ==> s.applied(event, times, now)
            == (StateView { flat_cover_state: Some("Open"@), last_status_fingerprint: None, ..s }),
        event.event@ == "FLAT-COVER-CLOSED"@ ==> s.applied(event, times, now)
            == (StateView { flat_cover_state: Some("Closed"@), last_status_fingerprint: None,
            ..s }),
        event.event@ == "FLAT-LIGHT-TOGGLED"@ && event.details
            == Some(EventDetails::FlatLightToggled { on }) ==> s.applied(event, times, now)
            == (StateView { flat_light_on: on, last_status_fingerprint: None, ..s }),
        event.event@ == "FLAT-BRIGHTNESS-CHANGED"@ && event.details
            == Some(EventDetails::FlatBrightnessChanged { previous, new })
            ==> s.applied(event, times, now) == (StateView { flat_brightness: Some(new),
            last_status_fingerprint: None, ..s }),
{
    names_tell_kinds(event.event@);
}

/// The conditions are safe after an event that says so and unsafe after one that says the opposite.
/// Connecting and disconnecting the monitor leaves neither.
#[verifier::spinoff_prover]
pub proof fn safety_is_as_last_told(
    s: StateView,
    event: Event,
    times: EventTimes,
    now: Moment,
    is_safe: bool,
)
    ensures
        event.event@ == "SAFETY-CHANGED"@ && event.details
            == Some(EventDetails::SafetyChanged { is_safe }) ==> s.applied(event, times, now)
            == (StateView { safety_state: if is_safe { SafetyState::Safe } else { SafetyState::Unsafe },
            last_status_fingerprint: None, ..s }),
        event.event@ == "SAFETY-CONNECTED"@ ==> s.applied(event, times, now)
            == (StateView { safety_state: SafetyState::ConnectedUnknown,
            last_status_fingerprint: None, ..s }),
        event.event@ == "SAFETY-DISCONNECTED"@
            ==> s.applied(event, times, now)
            == (StateView { safety_state: SafetyState::Disconnected, last_status_fingerprint: None,
            ..s }),
{
    names_tell_kinds(event.event@);
}

/// After a weather event with readings these readings are the weather, of the time at which the
/// event occurred; after one without readings nothing has changed.
#[verifier::spinoff_prover]
pub proof fn the_weather_is_as_last_read(
    s: StateView,
    event: Event,
    times: EventTimes,
    now: Moment,
    changed_fields: String,
    summary: Option<String>,
    conditions: WeatherConditions,
)
    requires
        event.event@ == "WEATHER-CHANGED"@,
        event.details == Some(EventDetails::WeatherChanged { changed_fields, summary, conditions }),
    ensures
        !conditions.empty() ==> s.applied(event, times, now)
            == (StateView { weather_conditions: Some(conditions),
            weather_conditions_at: match times.at { Some(z) => Some(z.moment), None => None },
            last_status_fingerprint: None, ..s }),
        conditions.empty() ==> s.applied(event, times, now) == s,
{
    names_tell_kinds(event.event@);
}

/// After a wind event with a reading of the wind the alert is as the event says, with its readings,
/// its threshold and its time; after one without it nothing has changed.
#[verifier::spinoff_prover]
pub proof fn high_wind_is_as_last_read(
    s: StateView,
    event: Event,
    times: EventTimes,
    now: Moment,
    is_high_wind: bool,
    threshold: Option<Double>,
    conditions: WeatherConditions,
)
    requires
        event.event@ == "WEATHER-HIGH-WIND"@,
        event.details == Some(EventDetails::WeatherHighWind { is_high_wind,
            threshold_meters_per_second: threshold, conditions }),
    ensures
        (conditions.wind_speed_meters_per_second is Some
            || conditions.wind_gust_meters_per_second is Some
            || conditions.wind_direction_degrees is Some) ==> s.applied(event, times, now)
            == (StateView { weather_high_wind: Some(is_high_wind),
            weather_high_wind_threshold_meters_per_second: threshold,
            weather_high_wind_conditions: Some(conditions),
            weather_high_wind_conditions_at: match times.at { Some(z) => Some(z.moment),
            None => None }, last_status_fingerprint: None, ..s }),
        (conditions.wind_speed_meters_per_second is None
            && conditions.wind_gust_meters_per_second is None
            && conditions.wind_direction_degrees is None) ==> s.applied(event, times, now) == s,
{
    names_tell_kinds(event.event@);
}

/// When the weather station connects or disconnects, that is known, and its readings are not known
/// any more.
#[verifier::spinoff_prover]
pub proof fn weather_stations_start_anew(
    s: StateView,
    event: Event,
    times: EventTimes,
    now: Moment,
)
    ensures
        event.event@ == "WEATHER-CONNECTED"@ ==> s.applied(event, times, now).weather_connected
            == Some(true),
        event.event@ == "WEATHER-DISCONNECTED"@
            ==> s.applied(event, times, now).weather_connected == Some(false),
        (event.event@ == "WEATHER-CONNECTED"@ || event.event@ == "WEATHER-DISCONNECTED"@)
            ==> s.applied(event, times, now) == (StateView { weather_connected: s.applied(event,
            times, now).weather_connected, weather_conditions: None, weather_conditions_at: None,
            weather_high_wind: if s.weather_high_wind == Some(true) { Some(true) } else { None },
            weather_high_wind_conditions: if s.weather_high_wind
            == Some(true) { s.weather_high_wind_conditions } else { None },
            weather_high_wind_conditions_at: if s.weather_high_wind
            == Some(true) { s.weather_high_wind_conditions_at } else { None },
            weather_high_wind_threshold_meters_per_second: if s.weather_high_wind
            == Some(true) { s.weather_high_wind_threshold_meters_per_second } else { None },
            last_status_fingerprint: None, ..s }),
{
    names_tell_kinds(event.event@);
}

/// The last event of the mount or of the guider that lasts is remembered by its name. A centering
/// is remembered with the time at which it was noticed.
#[verifier::spinoff_prover]
pub proof fn mount_and_guider_are_as_last_told(
    s: StateView,
    event: Event,
    times: EventTimes,
    now: Moment,
)
    ensures
        (event.event@ == "MOUNT-PARKED"@ || event.event@ == "MOUNT-UNPARKED"@ || event.event@
            == "MOUNT-HOMED"@ || event.event@ == "MOUNT-SLEWED"@) ==> s.applied(event, times, now)
            == (StateView { last_mount_event: Some(event.event@), last_status_fingerprint: None,
            ..s }),
        event.event@ == "MOUNT-CENTER"@ ==> s.applied(event, times, now)
            == (StateView { last_mount_event: Some(event.event@),
            board: BoardView { center: Some(now), ..s.board }, last_status_fingerprint: None,
            ..s }),
        (event.event@ == "GUIDER-START"@ || event.event@ == "GUIDER-STOP"@)
            ==> s.applied(event, times, now) == (StateView { last_guider_event: Some(event.event@),
            last_status_fingerprint: None, ..s }),
{
    names_tell_kinds(event.event@);
}

/// A sequence runs from its start to its end. Its start forgets how the last one went, and its end
/// remembers the outcome that the event states.
#[verifier::spinoff_prover]
pub proof fn sequences_run_from_start_to_end(
    s: StateView,
    event: Event,
    times: EventTimes,
    now: Moment,
    outcome: String,
    status: String,
    had_failures: bool,
)
    ensures
        event.event@ == "SEQUENCE-STARTING"@ ==> s.applied(event, times, now).sequence_running
            && s.applied(event, times, now).sequence_failure is None
            && s.applied(event, times, now).sequence_outcome is None,
        event.event@ == "SEQUENCE-FINISHED"@ ==> !s.applied(event, times, now).sequence_running,
        event.event@ == "SEQUENCE-FINISHED"@ && event.details
            == Some(EventDetails::SequenceFinished { outcome, status, had_failures })
            ==> s.applied(event, times, now).sequence_outcome == Some(outcome@),
        event.event@ == "SEQUENCE-FINISHED"@ && event.details is None
            ==> s.applied(event, times, now).sequence_outcome is None
            && s.applied(event, times, now).sequence_failure == s.sequence_failure,
        event.event@ == "SEQUENCE-FINISHED"@ && s.sequence_failure is Some
            ==> s.applied(event, times, now).sequence_failure == s.sequence_failure,
        event.event@ == "SEQUENCE-FINISHED"@ && s.sequence_failure is None && event.details
            == Some(EventDetails::SequenceFinished { outcome, status, had_failures })
            ==> (s.applied(event, times, now).sequence_failure is Some <==> had_failures
            || outcome@ == "failed"@ || outcome@ == "completed_with_failures"@),
        (event.event@ == "SEQUENCE-STARTING"@ || event.event@ == "SEQUENCE-FINISHED"@)
            ==> s.applied(event, times, now) == (StateView { sequence_running: s.applied(event,
            times, now).sequence_running, sequence_failure: s.applied(event, times,
            now).sequence_failure, sequence_outcome: s.applied(event, times, now).sequence_outcome,
            scheduler_wait: s.applied(event, times, now).scheduler_wait,
            scheduler_wait_latest_at: s.applied(event, times, now).scheduler_wait_latest_at,
            last_status_fingerprint: None, ..s }),
{
    names_tell_kinds(event.event@);
}

/// The item of the sequence that failed last is remembered with its type and its error.
#[verifier::spinoff_prover]
pub proof fn failed_items_are_remembered(
    s: StateView,
    event: Event,
    times: EventTimes,
    now: Moment,
    entity: String,
    entity_type: String,
    error: String,
)
    requires
        event.event@ == "SEQUENCE-ENTITY-FAILED"@,
    ensures
        event.details == Some(EventDetails::SequenceEntityFailed { entity, entity_type, error })
            ==> s.applied(event, times, now)
            == (StateView { sequence_failure: Some(FailureView { entity: entity@,
            entity_type: entity_type@, error: error@ }), last_status_fingerprint: None, ..s }),
        s.applied(event, times, now).sequence_failure is Some,
        s.applied(event, times, now) == (StateView { sequence_failure: s.applied(event, times,
            now).sequence_failure, last_status_fingerprint: None, ..s }),
{
    names_tell_kinds(event.event@);
}

/// A wait of the scheduler that is not older than what is known of waits stands until the end that
/// it announces; an older one changes nothing. A target start and the start and the end of a
/// sequence end the wait, unless they are older than what is known of waits.
#[verifier::spinoff_prover]
pub proof fn waits_last_until_something_starts(
    s: StateView,
    event: Event,
    times: EventTimes,
    now: Moment,
    at: Moment,
)
    requires
        (match times.at { Some(z) => Some(z.moment), None => None }) == Some(at),
    ensures
        event.event@ == "TS-WAITSTART"@ && (s.scheduler_wait_latest_at matches Some(latest)
            ==> !at.earlier(latest)) ==> s.applied(event, times, now)
            == (StateView { scheduler_wait: (match times.wait_end { Some(z) => Some(z.moment),
            None => None }), scheduler_wait_latest_at: Some(at), last_status_fingerprint: None,
            ..s }),
        event.event@ == "TS-WAITSTART"@ && (s.scheduler_wait_latest_at matches Some(latest)
            && at.earlier(latest)) ==> s.applied(event, times, now) == s,
        (event.event@ == "TS-TARGETSTART"@ || event.event@ == "TS-NEWTARGETSTART"@ || event.event@
            == "SEQUENCE-STARTING"@ || event.event@ == "SEQUENCE-FINISHED"@)
            && (s.scheduler_wait_latest_at matches Some(latest) ==> !at.earlier(latest))
            ==> s.applied(event, times, now).scheduler_wait is None
            && s.applied(event, times, now).scheduler_wait_latest_at == Some(at),
        (event.event@ == "TS-TARGETSTART"@ || event.event@ == "TS-NEWTARGETSTART"@ || event.event@
            == "SEQUENCE-STARTING"@ || event.event@ == "SEQUENCE-FINISHED"@)
            && (s.scheduler_wait_latest_at matches Some(latest) && at.earlier(latest))
            ==> s.applied(event, times, now).scheduler_wait == s.scheduler_wait
            && s.applied(event, times, now).scheduler_wait_latest_at == s.scheduler_wait_latest_at,
{
    names_tell_kinds(event.event@);
}

/// A wait of the scheduler whose time is unknown stands only where no time of a wait is known. A
/// start or an end whose time is unknown ends the wait nevertheless.
#[verifier::spinoff_prover]
pub proof fn untimed_waits_stand_only_first(
    s: StateView,
    event: Event,
    times: EventTimes,
    now: Moment,
)
    requires
        times.at is None,
    ensures
        event.event@ == "TS-WAITSTART"@ && s.scheduler_wait_latest_at is None
            ==> s.applied(event, times, now)
            == (StateView { scheduler_wait: (match times.wait_end { Some(z) => Some(z.moment),
            None => None }), last_status_fingerprint: None, ..s }),
        event.event@ == "TS-WAITSTART"@ && s.scheduler_wait_latest_at is Some
            ==> s.applied(event, times, now) == s,
        (event.event@ == "TS-TARGETSTART"@ || event.event@ == "TS-NEWTARGETSTART"@ || event.event@
            == "SEQUENCE-STARTING"@ || event.event@ == "SEQUENCE-FINISHED"@)
            ==> s.applied(event, times, now).scheduler_wait is None,
{
    names_tell_kinds(event.event@);
}

/// Events that nothing lasting comes of leave the state, but for the status message being due.
#[verifier::spinoff_prover]
pub proof fn other_events_leave_the_state(
    s: StateView,
    event: Event,
    times: EventTimes,
    now: Moment,
)
    requires
        event.event@ != "DOME-SLEWED"@,
        event.event@ != "DOME-PARKED"@,
        event.event@ != "DOME-HOMED"@,
        event.event@ != "DOME-SYNCED"@,
        event.event@ != "DOME-SHUTTER-OPENED"@,
        event.event@ != "DOME-SHUTTER-CLOSED"@,
        event.event@ != "DOME-CONNECTED"@,
        event.event@ != "DOME-DISCONNECTED"@,
        event.event@ != "FLAT-CONNECTED"@,
        event.event@ != "FLAT-DISCONNECTED"@,
        event.event@ != "SWITCH-CONNECTED"@,
        event.event@ != "SWITCH-DISCONNECTED"@,
        event.event@ != "FLAT-COVER-OPENED"@,
        event.event@ != "FLAT-COVER-CLOSED"@,
        event.event@ != "FLAT-LIGHT-TOGGLED"@,
        event.event@ != "FLAT-BRIGHTNESS-CHANGED"@,
        event.event@ != "SAFETY-CHANGED"@,
        event.event@ != "SAFETY-CONNECTED"@,
        event.event@ != "SAFETY-DISCONNECTED"@,
        event.event@ != "WEATHER-CHANGED"@,
        event.event@ != "WEATHER-HIGH-WIND"@,
        event.event@ != "WEATHER-CONNECTED"@,
        event.event@ != "WEATHER-DISCONNECTED"@,
        event.event@ != "MOUNT-PARKED"@,
        event.event@ != "MOUNT-UNPARKED"@,
        event.event@ != "MOUNT-HOMED"@,
        event.event@ != "MOUNT-SLEWED"@,
        event.event@ != "MOUNT-CENTER"@,
        event.event@ != "GUIDER-START"@,
        event.event@ != "GUIDER-STOP"@,
        event.event@ != "SEQUENCE-STARTING"@,
        event.event@ != "SEQUENCE-FINISHED"@,
        event.event@ != "SEQUENCE-ENTITY-FAILED"@,
        event.event@ != "TS-TARGETSTART"@,
        event.event@ != "TS-NEWTARGETSTART"@,
        event.event@ != "TS-WAITSTART"@,
    ensures
        s.applied(event, times, now) == (StateView { last_status_fingerprint: None, ..s }),
{
    names_tell_kinds(event.event@);
}

/// Switching off a delivery scope leaves nothing that came through it of the observatory, the
/// connections, the images, the flip and the containers; and no wait for safety of the safety
/// scope.
pub proof fn revocation_clears_the_scope(s: StateView, timed: bool, at: Option<Moment>)
    ensures
        ({
            let r = s.revoked(EventDeliveryScope::Observatory, timed, at);
            &&& r.dome_shutter_open is None && r.dome_azimuth is None && r.dome_parked is None
            &&& r.dome_homed is None && r.flat_cover_state is None && r.flat_light_on is None
            &&& r.flat_brightness is None
        }),
        ({
            let r = s.revoked(EventDeliveryScope::EquipmentConnections, timed, at);
            &&& r.dome_connected is None && r.flat_connected is None
            &&& r.weather_connected is None && r.switch_connected is None
        }),
        ({
            let r = s.revoked(EventDeliveryScope::Images, timed, at);
            r.last_image_time is None && r.skipped_images_count == 0
        }),
        ({
            let r = s.revoked(EventDeliveryScope::Mount, timed, at);
            r.meridian_flip_time is None && r.board.center is None
        }),
        ({
            let r = s.revoked(EventDeliveryScope::Sequence, timed, at);
            !r.sequence_running && r.sequence_container_counts is None
        }),
        ({
            let r = s.revoked(EventDeliveryScope::WeatherChanges, timed, at);
            r.weather_conditions_at is None
        }),
        ({
            let r = s.revoked(EventDeliveryScope::HighWindAlerts, timed, at);
            &&& r.weather_high_wind_conditions is None && r.weather_high_wind_conditions_at is None
            &&& r.weather_high_wind_threshold_meters_per_second is None
        }),
        forall|scope: EventDeliveryScope| #[trigger]
            s.revoked(scope, timed, at).last_status_fingerprint is None,
        forall|scope: EventDeliveryScope|
            scope == EventDeliveryScope::Autofocus || scope == EventDeliveryScope::SlewMotion
                || scope == EventDeliveryScope::RotatorMotion || scope
                == EventDeliveryScope::NinaNotifications || scope == EventDeliveryScope::NinaLogs
                || scope == EventDeliveryScope::CommandFailures || scope
                == EventDeliveryScope::Other ==> #[trigger] s.revoked(scope, timed, at) == (
            StateView { last_status_fingerprint: None, ..s }),
{
}

} // verus!
