//! What is promised of reading events: what an object holds under a name is what the event says
//! under that name.

use vstd::prelude::*;
use crate::double::Double;
use crate::event_decoding::{decodes, particulars, position_of, reads_event, weather_of};
use crate::event_laws::names_tell_kinds;
use crate::events::{Event, EventCoordinates, EventDetails, WeatherConditions};
use crate::json::{lookup, opt_double_of, JsonField, JsonValue, Number};

verus! {

/// The object holds a text under this name.
pub open spec fn text_at(fields: Seq<JsonField>, name: Seq<char>, text: String) -> bool {
    lookup(fields, name) == Some(JsonValue::Text(text))
}

/// The object holds a text under this name, or none.
pub open spec fn maybe_text_at(fields: Seq<JsonField>, name: Seq<char>,
    text: Option<String>) -> bool {
    match text {
        Some(t) => text_at(fields, name, t),
        None => lookup(fields, name) is None || lookup(fields, name) == Some(JsonValue::Null),
    }
}

/// The object holds a number under this name.
pub open spec fn number_at(fields: Seq<JsonField>, name: Seq<char>, value: Double) -> bool {
    lookup(fields, name) matches Some(JsonValue::Number(n)) && n.value == value
}

/// The object holds a number under this name, or none.
pub open spec fn maybe_number_at(fields: Seq<JsonField>, name: Seq<char>,
    value: Option<Double>) -> bool {
    match value {
        Some(v) => number_at(fields, name, v),
        None => lookup(fields, name) is None || lookup(fields, name) == Some(JsonValue::Null),
    }
}

/// The object holds a whole number under this name.
pub open spec fn whole_at(fields: Seq<JsonField>, name: Seq<char>, value: int) -> bool {
    lookup(fields, name) matches Some(JsonValue::Number(n)) && (n.whole matches Some(w) && w
        == value)
}

/// The object holds a whole number under this name, or none.
pub open spec fn maybe_whole_at(fields: Seq<JsonField>, name: Seq<char>,
    value: Option<i64>) -> bool {
    match value {
        Some(v) => whole_at(fields, name, v as int),
        None => lookup(fields, name) is None || lookup(fields, name) == Some(JsonValue::Null),
    }
}

/// The object holds a truth value under this name.
pub open spec fn flag_at(fields: Seq<JsonField>, name: Seq<char>, value: bool) -> bool {
    lookup(fields, name) == Some(JsonValue::Bool(value))
}

/// The object holds a truth value under this name, or none.
pub open spec fn maybe_flag_at(fields: Seq<JsonField>, name: Seq<char>,
    value: Option<bool>) -> bool {
    match value {
        Some(v) => flag_at(fields, name, v),
        None => lookup(fields, name) is None || lookup(fields, name) == Some(JsonValue::Null),
    }
}

/// The object holds these readings.
pub open spec fn weather_at(fields: Seq<JsonField>, c: WeatherConditions) -> bool {
    &&& maybe_number_at(fields, "WindSpeedMetersPerSecond"@, c.wind_speed_meters_per_second)
    &&& maybe_number_at(fields, "WindGustMetersPerSecond"@, c.wind_gust_meters_per_second)
    &&& maybe_number_at(fields, "WindDirectionDegrees"@, c.wind_direction_degrees)
    &&& maybe_number_at(fields, "TemperatureCelsius"@, c.temperature_celsius)
    &&& maybe_number_at(fields, "DewPointCelsius"@, c.dew_point_celsius)
    &&& maybe_number_at(fields, "HumidityPercent"@, c.humidity_percent)
    &&& maybe_number_at(fields, "PressureHectopascals"@, c.pressure_hectopascals)
    &&& maybe_number_at(fields, "CloudCoverPercent"@, c.cloud_cover_percent)
    &&& maybe_number_at(fields, "RainRateMillimetersPerHour"@, c.rain_rate_millimeters_per_hour)
    &&& maybe_number_at(fields, "SkyTemperatureCelsius"@, c.sky_temperature_celsius)
    &&& maybe_number_at(fields, "SkyBrightnessLux"@, c.sky_brightness_lux)
    &&& maybe_number_at(
        fields,
        "SkyQualityMagnitudesPerSquareArcsecond"@,
        c.sky_quality_magnitudes_per_square_arcsecond,
    )
    &&& maybe_number_at(fields, "StarFwhmArcseconds"@, c.star_fwhm_arcseconds)
}

/// A value is an object that holds this position.
pub open spec fn position_at(v: Option<JsonValue>, c: EventCoordinates) -> bool {
    v matches Some(JsonValue::Object(fields)) && {
        &&& maybe_number_at(fields@, "RA"@, c.ra)
        &&& maybe_number_at(fields@, "RADegrees"@, c.ra_degrees)
        &&& maybe_text_at(fields@, "RAString"@, c.ra_string)
        &&& maybe_number_at(fields@, "Dec"@, c.dec)
        &&& maybe_text_at(fields@, "DecString"@, c.dec_string)
        &&& maybe_text_at(fields@, "Epoch"@, c.epoch)
        &&& maybe_number_at(fields@, "Altitude"@, c.altitude)
        &&& maybe_number_at(fields@, "Azimuth"@, c.azimuth)
    }
}

/// A value is an object that holds this position, or there is none.
pub open spec fn maybe_position_at(v: Option<JsonValue>, c: Option<EventCoordinates>) -> bool {
    match c {
        Some(p) => position_at(v, p),
        None => v is None || v == Some(JsonValue::Null),
    }
}

proof fn lemma_number(fields: Seq<JsonField>, name: Seq<char>, value: Option<Double>)
    requires
        maybe_number_at(fields, name, value),
    ensures
        opt_double_of(lookup(fields, name)) == Some(value),
{
}

/// The readings of the weather are read each from its own name.
#[verifier::spinoff_prover]
pub proof fn readings_are_read_as_held(fields: Seq<JsonField>, c: WeatherConditions)
    requires
        weather_at(fields, c),
    ensures
        weather_of(fields) == Some(c),
{
    lemma_number(fields, "WindSpeedMetersPerSecond"@, c.wind_speed_meters_per_second);
    lemma_number(fields, "WindGustMetersPerSecond"@, c.wind_gust_meters_per_second);
    lemma_number(fields, "WindDirectionDegrees"@, c.wind_direction_degrees);
    lemma_number(fields, "TemperatureCelsius"@, c.temperature_celsius);
    lemma_number(fields, "DewPointCelsius"@, c.dew_point_celsius);
    lemma_number(fields, "HumidityPercent"@, c.humidity_percent);
    lemma_number(fields, "PressureHectopascals"@, c.pressure_hectopascals);
    lemma_number(fields, "CloudCoverPercent"@, c.cloud_cover_percent);
    lemma_number(fields, "RainRateMillimetersPerHour"@, c.rain_rate_millimeters_per_hour);
    lemma_number(fields, "SkyTemperatureCelsius"@, c.sky_temperature_celsius);
    lemma_number(fields, "SkyBrightnessLux"@, c.sky_brightness_lux);
    lemma_number(fields, "SkyQualityMagnitudesPerSquareArcsecond"@,
        c.sky_quality_magnitudes_per_square_arcsecond);
    lemma_number(fields, "StarFwhmArcseconds"@, c.star_fwhm_arcseconds);
}

/// A position that an object holds is read as it is held.
pub proof fn positions_are_read_as_held(v: Option<JsonValue>, c: EventCoordinates)
    requires
        position_at(v, c),
    ensures
        position_of(v) == Some(c),
{
}

/// A dome slew is read with the azimuth it began at and the one it ended at.
#[verifier::spinoff_prover]
pub proof fn dome_slews_are_read_as_held(
    name: Seq<char>,
    fields: Seq<JsonField>,
    r: Option<EventDetails>,
    from: Double,
    to: Double,
)
    requires
        name == "DOME-SLEWED"@,
        decodes(name, fields, r),
        lookup(fields, "From"@) is None,
        lookup(fields, "To"@) is None,
        number_at(fields, "FromAzimuth"@, from),
        number_at(fields, "ToAzimuth"@, to),
    ensures
        r == Some(EventDetails::DomeSlewed { from, to }),
{
    names_tell_kinds(name);
}

/// A dome slew may name its azimuths in short.
#[verifier::spinoff_prover]
pub proof fn dome_slews_have_short_names(
    name: Seq<char>,
    fields: Seq<JsonField>,
    r: Option<EventDetails>,
    from: Double,
    to: Double,
)
    requires
        name == "DOME-SLEWED"@,
        decodes(name, fields, r),
        lookup(fields, "FromAzimuth"@) is None,
        lookup(fields, "ToAzimuth"@) is None,
        number_at(fields, "From"@, from),
        number_at(fields, "To"@, to),
    ensures
        r == Some(EventDetails::DomeSlewed { from, to }),
{
    names_tell_kinds(name);
}

/// A wait of the scheduler is read with its end.
#[verifier::spinoff_prover]
pub proof fn waits_are_read_as_held(
    name: Seq<char>,
    fields: Seq<JsonField>,
    r: Option<EventDetails>,
    wait_end_time: String,
)
    requires
        name == "TS-WAITSTART"@,
        decodes(name, fields, r),
        text_at(fields, "WaitEndTime"@, wait_end_time),
    ensures
        r == Some(EventDetails::WaitStart { wait_end_time }),
{
    names_tell_kinds(name);
}

/// A point of an autofocus run is read with its position and its HFR.
#[verifier::spinoff_prover]
pub proof fn autofocus_points_are_read_as_held(
    name: Seq<char>,
    fields: Seq<JsonField>,
    r: Option<EventDetails>,
    position: i32,
    hfr: Double,
)
    requires
        name == "AUTOFOCUS-POINT-ADDED"@,
        decodes(name, fields, r),
        whole_at(fields, "Position"@, position as int),
        number_at(fields, "HFR"@, hfr),
    ensures
        r == Some(EventDetails::AutofocusPointAdded { position, hfr }),
{
    names_tell_kinds(name);
}

/// The end of an autofocus run is read with its report, its filter, its position and its
/// temperature.
#[verifier::spinoff_prover]
pub proof fn autofocus_ends_are_read_as_held(
    name: Seq<char>,
    fields: Seq<JsonField>,
    r: Option<EventDetails>,
    report_timestamp: String,
    filter: Option<String>,
    position: Option<Double>,
    temperature: Option<Double>,
)
    requires
        name == "AUTOFOCUS-FINISHED"@,
        decodes(name, fields, r),
        text_at(fields, "ReportTimestamp"@, report_timestamp),
        maybe_text_at(fields, "Filter"@, filter),
        maybe_number_at(fields, "Position"@, position),
        maybe_number_at(fields, "Temperature"@, temperature),
    ensures
        r == Some(EventDetails::AutofocusFinished { report_timestamp, filter, position,
            temperature }),
{
    names_tell_kinds(name);
}

/// A safety change is read with what the monitor says.
#[verifier::spinoff_prover]
pub proof fn safety_changes_are_read_as_held(
    name: Seq<char>,
    fields: Seq<JsonField>,
    r: Option<EventDetails>,
    is_safe: bool,
)
    requires
        name == "SAFETY-CHANGED"@,
        decodes(name, fields, r),
        flag_at(fields, "IsSafe"@, is_safe),
    ensures
        r == Some(EventDetails::SafetyChanged { is_safe }),
{
    names_tell_kinds(name);
}

/// The start of a move of the rotator is read with both positions.
#[verifier::spinoff_prover]
pub proof fn rotator_starts_are_read_as_held(
    name: Seq<char>,
    fields: Seq<JsonField>,
    r: Option<EventDetails>,
    position: Option<Double>,
    mechanical_position: Option<Double>,
    motion_id: Option<i64>,
    observed_in_progress: Option<bool>,
)
    requires
        name == "ROTATOR-MOVE-STARTED"@,
        decodes(name, fields, r),
        maybe_number_at(fields, "Position"@, position),
        maybe_number_at(fields, "MechanicalPosition"@, mechanical_position),
        maybe_whole_at(fields, "MotionId"@, motion_id),
        maybe_flag_at(fields, "ObservedInProgress"@, observed_in_progress),
    ensures
        r == Some(EventDetails::RotatorMoveStarted { position, mechanical_position, motion_id,
            observed_in_progress }),
{
    names_tell_kinds(name);
}

/// A move of the rotator is read with both ends by both counts.
#[verifier::spinoff_prover]
pub proof fn rotator_moves_are_read_as_held(
    name: Seq<char>,
    fields: Seq<JsonField>,
    r: Option<EventDetails>,
    from: Double,
    to: Double,
    position: Option<Double>,
    mechanical_from: Option<Double>,
    mechanical_to: Option<Double>,
    mechanical_position: Option<Double>,
    motion_id: Option<i64>,
    duration_seconds: Option<Double>,
    end_detection: Option<String>,
    observed_in_progress: Option<bool>,
)
    requires
        name == "ROTATOR-MOVED"@ || name == "ROTATOR-MOVED-MECHANICAL"@,
        decodes(name, fields, r),
        number_at(fields, "From"@, from),
        number_at(fields, "To"@, to),
        maybe_number_at(fields, "Position"@, position),
        maybe_number_at(fields, "MechanicalFrom"@, mechanical_from),
        maybe_number_at(fields, "MechanicalTo"@, mechanical_to),
        maybe_number_at(fields, "MechanicalPosition"@, mechanical_position),
        maybe_whole_at(fields, "MotionId"@, motion_id),
        maybe_number_at(fields, "DurationSeconds"@, duration_seconds),
        maybe_text_at(fields, "EndDetection"@, end_detection),
        maybe_flag_at(fields, "ObservedInProgress"@, observed_in_progress),
    ensures
        r == Some(EventDetails::RotatorMoved { from: Some(from), to: Some(to), position,
            mechanical_from, mechanical_to, mechanical_position, motion_id, duration_seconds,
            end_detection, observed_in_progress }),
{
    names_tell_kinds(name);
}

/// The start of a slew is read with its origin and its destination.
#[verifier::spinoff_prover]
pub proof fn slew_starts_are_read_as_held(
    name: Seq<char>,
    fields: Seq<JsonField>,
    r: Option<EventDetails>,
    from: EventCoordinates,
    target: Option<EventCoordinates>,
    motion_id: Option<i64>,
    observed_in_progress: Option<bool>,
)
    requires
        name == "MOUNT-SLEW-STARTED"@,
        decodes(name, fields, r),
        position_at(lookup(fields, "From"@), from),
        maybe_position_at(lookup(fields, "Target"@), target),
        maybe_whole_at(fields, "MotionId"@, motion_id),
        maybe_flag_at(fields, "ObservedInProgress"@, observed_in_progress),
    ensures
        r == Some(EventDetails::MountSlewStarted { from, target, motion_id, observed_in_progress }),
{
    names_tell_kinds(name);
    positions_are_read_as_held(lookup(fields, "From"@), from);
    if target is Some {
        positions_are_read_as_held(lookup(fields, "Target"@), target->0);
    }
}

/// A slew is read with its origin, its destination and where it ended.
#[verifier::spinoff_prover]
pub proof fn slews_are_read_as_held(
    name: Seq<char>,
    fields: Seq<JsonField>,
    r: Option<EventDetails>,
    from: EventCoordinates,
    to: EventCoordinates,
    target: Option<EventCoordinates>,
    motion_id: Option<i64>,
    duration_seconds: Option<Double>,
    end_detection: Option<String>,
    observed_in_progress: Option<bool>,
)
    requires
        name == "MOUNT-SLEWED"@,
        decodes(name, fields, r),
        position_at(lookup(fields, "From"@), from),
        position_at(lookup(fields, "To"@), to),
        maybe_position_at(lookup(fields, "Target"@), target),
        maybe_whole_at(fields, "MotionId"@, motion_id),
        maybe_number_at(fields, "DurationSeconds"@, duration_seconds),
        maybe_text_at(fields, "EndDetection"@, end_detection),
        maybe_flag_at(fields, "ObservedInProgress"@, observed_in_progress),
    ensures
        r == Some(EventDetails::MountSlewed { from, to, target, motion_id, duration_seconds,
            end_detection, observed_in_progress }),
{
    names_tell_kinds(name);
    positions_are_read_as_held(lookup(fields, "From"@), from);
    positions_are_read_as_held(lookup(fields, "To"@), to);
    if target is Some {
        positions_are_read_as_held(lookup(fields, "Target"@), target->0);
    }
}

/// A failed item of the sequence is read with its name, its type and its error.
#[verifier::spinoff_prover]
pub proof fn failed_items_are_read_as_held(
    name: Seq<char>,
    fields: Seq<JsonField>,
    r: Option<EventDetails>,
    entity: String,
    entity_type: String,
    error: String,
)
    requires
        name == "SEQUENCE-ENTITY-FAILED"@,
        decodes(name, fields, r),
        text_at(fields, "Entity"@, entity),
        text_at(fields, "EntityType"@, entity_type),
        text_at(fields, "Error"@, error),
    ensures
        r == Some(EventDetails::SequenceEntityFailed { entity, entity_type, error }),
{
    names_tell_kinds(name);
}

/// The end of a sequence is read with its outcome, its status and whether there were failures.
#[verifier::spinoff_prover]
pub proof fn sequence_ends_are_read_as_held(
    name: Seq<char>,
    fields: Seq<JsonField>,
    r: Option<EventDetails>,
    outcome: String,
    status: String,
    had_failures: bool,
)
    requires
        name == "SEQUENCE-FINISHED"@,
        decodes(name, fields, r),
        text_at(fields, "Outcome"@, outcome),
        text_at(fields, "Status"@, status),
        flag_at(fields, "HadFailures"@, had_failures),
    ensures
        r == Some(EventDetails::SequenceFinished { outcome, status, had_failures }),
{
    names_tell_kinds(name);
}

/// An image that was not saved is read with the stage, whether the disk was full, and the error.
#[verifier::spinoff_prover]
pub proof fn failed_saves_are_read_as_held(
    name: Seq<char>,
    fields: Seq<JsonField>,
    r: Option<EventDetails>,
    stage: String,
    disk_full: bool,
    error: String,
)
    requires
        name == "IMAGE-SAVE-FAILED"@,
        decodes(name, fields, r),
        text_at(fields, "Stage"@, stage),
        flag_at(fields, "DiskFull"@, disk_full),
        text_at(fields, "Error"@, error),
    ensures
        r == Some(EventDetails::ImageSaveFailed { stage, disk_full, error }),
{
    names_tell_kinds(name);
}

/// A change of brightness is read with the brightness before and since.
#[verifier::spinoff_prover]
pub proof fn brightness_changes_are_read_as_held(
    name: Seq<char>,
    fields: Seq<JsonField>,
    r: Option<EventDetails>,
    previous: i32,
    new: i32,
)
    requires
        name == "FLAT-BRIGHTNESS-CHANGED"@,
        decodes(name, fields, r),
        whole_at(fields, "Previous"@, previous as int),
        whole_at(fields, "New"@, new as int),
    ensures
        r == Some(EventDetails::FlatBrightnessChanged { previous, new }),
{
    names_tell_kinds(name);
}

/// A change of the light is read with whether it is on.
#[verifier::spinoff_prover]
pub proof fn light_changes_are_read_as_held(
    name: Seq<char>,
    fields: Seq<JsonField>,
    r: Option<EventDetails>,
    on: Option<bool>,
)
    requires
        name == "FLAT-LIGHT-TOGGLED"@,
        decodes(name, fields, r),
        maybe_flag_at(fields, "On"@, on),
    ensures
        r == Some(EventDetails::FlatLightToggled { on }),
{
    names_tell_kinds(name);
}

/// A failed command is read with its name and its error.
#[verifier::spinoff_prover]
pub proof fn failed_commands_are_read_as_held(
    name: Seq<char>,
    fields: Seq<JsonField>,
    r: Option<EventDetails>,
    command: String,
    error: String,
)
    requires
        name == "CHATSTRONOMY-COMMAND-FAILED"@,
        decodes(name, fields, r),
        text_at(fields, "Command"@, command),
        text_at(fields, "Error"@, error),
    ensures
        r == Some(EventDetails::CommandFailed { command, error }),
{
    names_tell_kinds(name);
}

/// A notification is read with its level, its header and its text.
#[verifier::spinoff_prover]
pub proof fn notifications_are_read_as_held(
    name: Seq<char>,
    fields: Seq<JsonField>,
    r: Option<EventDetails>,
    level: String,
    header: String,
    message: String,
)
    requires
        name == "NINA-NOTIFICATION"@,
        decodes(name, fields, r),
        text_at(fields, "Level"@, level),
        text_at(fields, "Header"@, header),
        text_at(fields, "Message"@, message),
    ensures
        r == Some(EventDetails::NinaNotification { level, header, message }),
{
    names_tell_kinds(name);
}

/// A line of the log is read with its level, its place and its text.
#[verifier::spinoff_prover]
pub proof fn log_lines_are_read_as_held(
    name: Seq<char>,
    fields: Seq<JsonField>,
    r: Option<EventDetails>,
    level: String,
    source: String,
    member: String,
    line: i32,
    message: String,
)
    requires
        name == "NINA-LOG"@,
        decodes(name, fields, r),
        text_at(fields, "Level"@, level),
        text_at(fields, "Source"@, source),
        text_at(fields, "Member"@, member),
        whole_at(fields, "Line"@, line as int),
        text_at(fields, "Message"@, message),
    ensures
        r == Some(EventDetails::NinaLog { level, source, member, line, message }),
{
    names_tell_kinds(name);
}

/// A weather event is read with its readings, each from its own name.
#[verifier::spinoff_prover]
pub proof fn weather_changes_are_read_as_held(
    name: Seq<char>,
    fields: Seq<JsonField>,
    r: Option<EventDetails>,
    changed_fields: String,
    summary: Option<String>,
    conditions: WeatherConditions,
)
    requires
        name == "WEATHER-CHANGED"@,
        decodes(name, fields, r),
        text_at(fields, "ChangedFields"@, changed_fields),
        maybe_text_at(fields, "Summary"@, summary),
        weather_at(fields, conditions),
    ensures
        r == Some(EventDetails::WeatherChanged { changed_fields, summary, conditions }),
{
    names_tell_kinds(name);
    readings_are_read_as_held(fields, conditions);
}

/// A wind event is read with its readings and its threshold.
#[verifier::spinoff_prover]
pub proof fn wind_alerts_are_read_as_held(
    name: Seq<char>,
    fields: Seq<JsonField>,
    r: Option<EventDetails>,
    is_high_wind: bool,
    threshold_meters_per_second: Option<Double>,
    conditions: WeatherConditions,
)
    requires
        name == "WEATHER-HIGH-WIND"@,
        decodes(name, fields, r),
        flag_at(fields, "IsHighWind"@, is_high_wind),
        maybe_number_at(fields, "ThresholdMetersPerSecond"@, threshold_meters_per_second),
        weather_at(fields, conditions),
    ensures
        r == Some(EventDetails::WeatherHighWind { is_high_wind, threshold_meters_per_second,
            conditions }),
{
    names_tell_kinds(name);
    readings_are_read_as_held(fields, conditions);
}

/// A value is an object that holds this filter.
pub open spec fn filter_at(v: Option<JsonValue>, name: String, id: i32) -> bool {
    v matches Some(JsonValue::Object(fields)) && {
        &&& text_at(fields@, "Name"@, name)
        &&& whole_at(fields@, "Id"@, id as int)
    }
}

/// A filter change is read with the new filter as the new one and the one before as the one before.
pub proof fn filter_changes_are_read_as_held(
    fields: Seq<JsonField>,
    r: Option<EventDetails>,
    new: String,
    new_id: i32,
    previous: String,
    previous_id: i32,
)
    requires
        decodes("FILTERWHEEL-CHANGED"@, fields, r),
        filter_at(lookup(fields, "New"@), new, new_id),
        filter_at(lookup(fields, "Previous"@), previous, previous_id),
    ensures
        r matches Some(EventDetails::FilterWheelChange { new: n, previous: p }) && n.name@ == new@
            && n.id == new_id && p.name@ == previous@ && p.id == previous_id,
{
    names_tell_kinds("FILTERWHEEL-CHANGED"@);
}

/// A target start is read with the target's name, project, rotation and end.
pub proof fn target_starts_are_read_as_held(
    name: Seq<char>,
    fields: Seq<JsonField>,
    r: Option<EventDetails>,
    target: String,
    project: Option<String>,
    turned: Option<Double>,
    end: Option<String>,
)
    requires
        name == "TS-TARGETSTART"@ || name == "TS-NEWTARGETSTART"@,
        decodes(name, fields, r),
        text_at(fields, "TargetName"@, target),
        maybe_text_at(fields, "ProjectName"@, project),
        maybe_number_at(fields, "Rotation"@, turned),
        maybe_text_at(fields, "TargetEndTime"@, end),
        lookup(fields, "Coordinates"@) is None,
    ensures
        r == Some(
            EventDetails::TargetStart {
                target_name: target,
                project_name: project,
                rotation: turned,
                target_end_time: end,
                coordinates: None,
            },
        ),
{
    names_tell_kinds(name);
}

/// A value is an object that holds these coordinates of a target.
pub open spec fn target_at(
    v: Option<JsonValue>,
    ra: Double,
    dec: Double,
    ra_string: String,
    dec_string: String,
    epoch: String,
    ra_degrees: Double,
) -> bool {
    v matches Some(JsonValue::Object(fields)) && {
        &&& number_at(fields@, "RA"@, ra)
        &&& number_at(fields@, "Dec"@, dec)
        &&& text_at(fields@, "RAString"@, ra_string)
        &&& text_at(fields@, "DecString"@, dec_string)
        &&& text_at(fields@, "Epoch"@, epoch)
        &&& number_at(fields@, "RADegrees"@, ra_degrees)
    }
}

/// The coordinates of a target are read each from its own name.
pub proof fn target_coordinates_are_read_as_held(
    name: Seq<char>,
    fields: Seq<JsonField>,
    r: Option<EventDetails>,
    ra: Double,
    dec: Double,
    ra_string: String,
    dec_string: String,
    epoch: String,
    ra_degrees: Double,
)
    requires
        name == "TS-TARGETSTART"@ || name == "TS-NEWTARGETSTART"@,
        decodes(name, fields, r),
        r matches Some(EventDetails::TargetStart { .. }),
        target_at(
            lookup(fields, "Coordinates"@),
            ra,
            dec,
            ra_string,
            dec_string,
            epoch,
            ra_degrees,
        ),
    ensures
        r matches Some(EventDetails::TargetStart { coordinates, .. }) && (coordinates matches Some(
            c,
        ) && c.ra == ra && c.dec == dec && c.ra_string@ == ra_string@ && c.dec_string@
            == dec_string@ && c.epoch@ == epoch@ && c.ra_degrees == ra_degrees),
{
    names_tell_kinds(name);
}

/// A record may be written as a list of its members in order: a filter by its name and its number.
/// An empty list in place of a member means that it is not known.
#[verifier::spinoff_prover]
pub proof fn lists_are_read_in_order(
    fields: Seq<JsonField>,
    r: Option<EventDetails>,
    new: Vec<JsonValue>,
    previous: Vec<JsonValue>,
    name: String,
    id: Number,
    nothing: Vec<JsonValue>,
)
    requires
        decodes("FILTERWHEEL-CHANGED"@, fields, r),
        lookup(fields, "New"@) == Some(JsonValue::List(new)),
        lookup(fields, "Previous"@) == Some(JsonValue::List(previous)),
        new@ =~= seq![JsonValue::Text(name), JsonValue::Number(id)],
        id.whole matches Some(w) && 0 <= w <= 1000,
        nothing@.len() == 0,
        previous@ =~= seq![JsonValue::List(nothing), JsonValue::List(nothing)],
    ensures
        r matches Some(EventDetails::FilterWheelChange { new: n, previous: p }) && n.name@ == name@
            && n.id == id.whole->0 && p.name@.len() == 0 && p.id == -1,
{
    names_tell_kinds("FILTERWHEEL-CHANGED"@);
    reveal_strlit("");
    assert(""@.len() == 0);
    assert(new@[0] == JsonValue::Text(name) && new@[1] == JsonValue::Number(id));
    assert(previous@[0] == JsonValue::List(nothing) && previous@[1] == JsonValue::List(nothing));
}

/// An event is read with its time, its name and whether it is delivered: it is unless it says
/// otherwise.
pub proof fn events_are_read_as_held(
    fields: Vec<JsonField>,
    r: Option<Event>,
    time: String,
    name: String,
    enabled: Option<bool>,
)
    requires
        reads_event(JsonValue::Object(fields), r),
        text_at(fields@, "Time"@, time),
        text_at(fields@, "Event"@, name),
        match enabled {
            Some(b) => flag_at(fields@, "ChatEnabled"@, b),
            None => lookup(fields@, "ChatEnabled"@) is None,
        },
    ensures
        r matches Some(e) && e.time == time && e.event == name && e.chat_enabled == (enabled
            != Some(false)) && decodes(name@, particulars(fields@), e.details),
{
}

/// An event without typed details keeps its fields as they came, in order, and has no details where
/// it has no fields.
pub proof fn untyped_events_keep_their_fields(
    name: Seq<char>,
    fields: Seq<JsonField>,
    r: Option<EventDetails>,
)
    requires
        decodes(name, fields, r),
        crate::event_types::kind_of(name) is Other || name == "CAMERA-CONNECTED"@ || name
            == "GUIDER-START"@ || name == "IMAGE-SAVE"@ || name == "SEQUENCE-STARTING"@,
    ensures
        fields.len() == 0 ==> r is None,
        fields.len() > 0 ==> (r matches Some(EventDetails::Unknown(kept)) && kept@ == fields),
{
    names_tell_kinds(name);
}

} // verus!
