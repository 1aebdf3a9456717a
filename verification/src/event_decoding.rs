//! Reading events out of JSON. The event's name decides which details are looked for; details
//! that do not fit are kept as they came.

use vstd::prelude::*;
use crate::double::{Double, INFINITE, NOT_A_NUMBER, SIGN};
use crate::event_types::{event_kind, kind_of, EventKind};
use crate::events::{
    Event, EventCoordinates, EventDetails, EventHistoryResponse, FilterInfo, TargetCoordinates,
    WeatherConditions,
};
use crate::json::{
    bool_member, bool_of, double_member, double_of, find, i32_member, i32_of, is_record, lookup,
    member, opt_bool_member, opt_bool_of, opt_deref, opt_double_member, opt_double_of,
    opt_i64_member, opt_i64_of, opt_text_member, opt_text_of,
    record, record_member, text_member, text_of, JsonField, JsonValue,
};
use crate::text::same;

verus! {

/// A text that an empty list may stand for where the controller does not know it.
pub open spec fn lenient_text(v: Option<JsonValue>) -> Option<Seq<char>> {
    match v {
        Some(JsonValue::Text(s)) => Some(s@),
        Some(JsonValue::List(items)) => if items@.len() == 0 {
            Some(""@)
        } else {
            None
        },
        _ => None,
    }
}

fn lenient_text_member(v: Option<&JsonValue>) -> (r: Option<String>)
    ensures
        crate::text::opt_view(r) == lenient_text(opt_deref(v)),
{
    match v {
        Some(JsonValue::Text(s)) => Some(s.clone()),
        Some(JsonValue::List(items)) => if items.len() == 0 {
            Some(String::from_str(""))
        } else {
            None
        },
        _ => None,
    }
}

/// A whole number that an empty list may stand for where the controller does not know it.
pub open spec fn lenient_i32(v: Option<JsonValue>) -> Option<i32> {
    match v {
        Some(JsonValue::List(items)) => if items@.len() == 0 {
            Some(-1i32)
        } else {
            None
        },
        _ => i32_of(v),
    }
}

fn lenient_i32_member(v: Option<&JsonValue>) -> (r: Option<i32>)
    ensures
        r == lenient_i32(opt_deref(v)),
{
    match v {
        Some(JsonValue::List(items)) => if items.len() == 0 {
            Some(-1)
        } else {
            None
        },
        _ => i32_member(v),
    }
}

/// A number that an empty list, or the name of a value that JSON has no number for, may stand for.
pub open spec fn lenient_double(v: Option<JsonValue>) -> Option<Double> {
    match v {
        Some(JsonValue::List(items)) => if items@.len() == 0 {
            Some(Double { bits: NOT_A_NUMBER })
        } else {
            None
        },
        Some(JsonValue::Text(s)) => if s@ == "NaN"@ {
            Some(Double { bits: NOT_A_NUMBER })
        } else if s@ == "Infinity"@ {
            Some(Double { bits: INFINITE })
        } else if s@ == "-Infinity"@ {
            Some(Double { bits: (SIGN + INFINITE) as u64 })
        } else {
            None
        },
        _ => double_of(v),
    }
}

fn lenient_double_member(v: Option<&JsonValue>) -> (r: Option<Double>)
    ensures
        r == lenient_double(opt_deref(v)),
{
    match v {
        Some(JsonValue::List(items)) => if items.len() == 0 {
            Some(Double { bits: NOT_A_NUMBER })
        } else {
            None
        },
        Some(JsonValue::Text(s)) => if same(s.as_str(), "NaN") {
            Some(Double { bits: NOT_A_NUMBER })
        } else if same(s.as_str(), "Infinity") {
            Some(Double { bits: INFINITE })
        } else if same(s.as_str(), "-Infinity") {
            Some(Double { bits: SIGN + INFINITE })
        } else {
            None
        },
        _ => double_member(v),
    }
}

/// `r` is the filter that a value describes, if it describes one.
pub open spec fn reads_filter(v: Option<JsonValue>, r: Option<FilterInfo>) -> bool {
    match v {
        None => r is None,
        Some(value) => {
            let name = lenient_text(member(value, 0, "Name"@));
            let id = lenient_i32(member(value, 1, "Id"@));
            if is_record(value, 2, 2) && name is Some && id is Some {
                r is Some && r->0.name@ == name->0 && r->0.id == id->0
            } else {
                r is None
            }
        },
    }
}

fn filter_member(v: Option<&JsonValue>) -> (r: Option<FilterInfo>)
    ensures
        reads_filter(opt_deref(v), r),
{
    match v {
        None => None,
        Some(value) => {
            let name = lenient_text_member(record_member(value, 0, "Name"));
            let id: Option<i32> = lenient_i32_member(record_member(value, 1, "Id"));
            match (name, id) {
                (Some(name), Some(id)) => if record(value, 2, 2) {
                    Some(FilterInfo { name, id })
                } else {
                    None
                },
                _ => None,
            }
        },
    }
}

/// `r` holds the target coordinates that a value describes; a missing or null value describes
/// none. `None` outside stands for a value that is malformed.
pub open spec fn reads_target(
    v: Option<JsonValue>,
    r: Option<Option<TargetCoordinates>>,
) -> bool {
    match v {
        None => r == Some(None::<TargetCoordinates>),
        Some(JsonValue::Null) => r == Some(None::<TargetCoordinates>),
        Some(value) => {
            let ra = lenient_double(member(value, 0, "RA"@));
            let dec = lenient_double(member(value, 1, "Dec"@));
            let ra_string = lenient_text(member(value, 2, "RAString"@));
            let dec_string = lenient_text(member(value, 3, "DecString"@));
            let epoch = lenient_text(member(value, 4, "Epoch"@));
            let ra_degrees = lenient_double(member(value, 5, "RADegrees"@));
            if is_record(value, 6, 6) && ra is Some && dec is Some && ra_string is Some
                && dec_string is Some && epoch is Some && ra_degrees is Some {
                &&& r is Some && r->0 is Some
                &&& r->0->0.ra == ra->0
                &&& r->0->0.dec == dec->0
                &&& r->0->0.ra_string@ == ra_string->0
                &&& r->0->0.dec_string@ == dec_string->0
                &&& r->0->0.epoch@ == epoch->0
                &&& r->0->0.ra_degrees == ra_degrees->0
            } else {
                r is None
            }
        },
    }
}

fn target_member(v: Option<&JsonValue>) -> (r: Option<Option<TargetCoordinates>>)
    ensures
        reads_target(opt_deref(v), r),
{
    match v {
        None => Some(None),
        Some(JsonValue::Null) => Some(None),
        Some(value) => {
            let ra: Option<Double> = lenient_double_member(record_member(value, 0, "RA"));
            let dec: Option<Double> = lenient_double_member(record_member(value, 1, "Dec"));
            let ra_string = lenient_text_member(record_member(value, 2, "RAString"));
            let dec_string = lenient_text_member(record_member(value, 3, "DecString"));
            let epoch = lenient_text_member(record_member(value, 4, "Epoch"));
            let ra_degrees: Option<Double> = lenient_double_member(
                record_member(value, 5, "RADegrees"),
            );
            match (ra, dec, ra_string, dec_string, epoch, ra_degrees) {
                (
                    Some(ra),
                    Some(dec),
                    Some(ra_string),
                    Some(dec_string),
                    Some(epoch),
                    Some(ra_degrees),
                ) => if record(value, 6, 6) {
                    Some(
                        Some(
                            TargetCoordinates {
                                ra,
                                dec,
                                ra_string,
                                dec_string,
                                epoch,
                                ra_degrees,
                            },
                        ),
                    )
                } else {
                    None
                },
                _ => None,
            }
        },
    }
}

/// The mount position that a value describes, if it describes one.
pub open spec fn position_of(v: Option<JsonValue>) -> Option<EventCoordinates> {
    match v {
        None => None,
        Some(value) => {
            let ra = opt_double_of(member(value, 0, "RA"@));
            let ra_degrees = opt_double_of(member(value, 1, "RADegrees"@));
            let ra_string = opt_text_of(member(value, 2, "RAString"@));
            let dec = opt_double_of(member(value, 3, "Dec"@));
            let dec_string = opt_text_of(member(value, 4, "DecString"@));
            let epoch = opt_text_of(member(value, 5, "Epoch"@));
            let altitude = opt_double_of(member(value, 6, "Altitude"@));
            let azimuth = opt_double_of(member(value, 7, "Azimuth"@));
            if is_record(value, 0, 8) && ra is Some && ra_degrees is Some && ra_string is Some
                && dec is Some && dec_string is Some && epoch is Some && altitude is Some
                && azimuth is Some {
                Some(
                    EventCoordinates {
                        ra: ra->0,
                        ra_degrees: ra_degrees->0,
                        ra_string: ra_string->0,
                        dec: dec->0,
                        dec_string: dec_string->0,
                        epoch: epoch->0,
                        altitude: altitude->0,
                        azimuth: azimuth->0,
                    },
                )
            } else {
                None
            }
        },
    }
}

fn position_member(v: Option<&JsonValue>) -> (r: Option<EventCoordinates>)
    ensures
        r == position_of(opt_deref(v)),
{
    match v {
        None => None,
        Some(value) => {
            let ra: Option<Option<Double>> = opt_double_member(record_member(value, 0, "RA"));
            let ra_degrees: Option<Option<Double>> = opt_double_member(
                record_member(value, 1, "RADegrees"),
            );
            let ra_string = opt_text_member(record_member(value, 2, "RAString"));
            let dec: Option<Option<Double>> = opt_double_member(record_member(value, 3, "Dec"));
            let dec_string = opt_text_member(record_member(value, 4, "DecString"));
            let epoch = opt_text_member(record_member(value, 5, "Epoch"));
            let altitude: Option<Option<Double>> = opt_double_member(
                record_member(value, 6, "Altitude"),
            );
            let azimuth: Option<Option<Double>> = opt_double_member(
                record_member(value, 7, "Azimuth"),
            );
            match (ra, ra_degrees, ra_string, dec, dec_string, epoch, altitude, azimuth) {
                (
                    Some(ra),
                    Some(ra_degrees),
                    Some(ra_string),
                    Some(dec),
                    Some(dec_string),
                    Some(epoch),
                    Some(altitude),
                    Some(azimuth),
                ) => if record(value, 0, 8) {
                    Some(
                        EventCoordinates {
                            ra,
                            ra_degrees,
                            ra_string,
                            dec,
                            dec_string,
                            epoch,
                            altitude,
                            azimuth,
                        },
                    )
                } else {
                    None
                },
                _ => None,
            }
        },
    }
}

/// A mount position that may be missing or null.
pub open spec fn opt_position_of(v: Option<JsonValue>) -> Option<Option<EventCoordinates>> {
    match v {
        None => Some(None),
        Some(JsonValue::Null) => Some(None),
        _ => match position_of(v) {
            Some(c) => Some(Some(c)),
            None => None,
        },
    }
}

fn opt_position_member(v: Option<&JsonValue>) -> (r: Option<Option<EventCoordinates>>)
    ensures
        r == opt_position_of(opt_deref(v)),
{
    match v {
        None => Some(None),
        Some(JsonValue::Null) => Some(None),
        _ => match position_member(v) {
            Some(c) => Some(Some(c)),
            None => None,
        },
    }
}

/// The weather readings among an event's fields, if none of them is malformed.
pub open spec fn weather_of(fields: Seq<JsonField>) -> Option<WeatherConditions> {
    let wind_speed = opt_double_of(lookup(fields, "WindSpeedMetersPerSecond"@));
    let wind_gust = opt_double_of(lookup(fields, "WindGustMetersPerSecond"@));
    let wind_direction = opt_double_of(lookup(fields, "WindDirectionDegrees"@));
    let temperature = opt_double_of(lookup(fields, "TemperatureCelsius"@));
    let dew_point = opt_double_of(lookup(fields, "DewPointCelsius"@));
    let humidity = opt_double_of(lookup(fields, "HumidityPercent"@));
    let pressure = opt_double_of(lookup(fields, "PressureHectopascals"@));
    let cloud_cover = opt_double_of(lookup(fields, "CloudCoverPercent"@));
    let rain_rate = opt_double_of(lookup(fields, "RainRateMillimetersPerHour"@));
    let sky_temperature = opt_double_of(lookup(fields, "SkyTemperatureCelsius"@));
    let sky_brightness = opt_double_of(lookup(fields, "SkyBrightnessLux"@));
    let sky_quality = opt_double_of(lookup(fields, "SkyQualityMagnitudesPerSquareArcsecond"@));
    let star_fwhm = opt_double_of(lookup(fields, "StarFwhmArcseconds"@));
    if wind_speed is Some && wind_gust is Some && wind_direction is Some && temperature is Some
        && dew_point is Some && humidity is Some && pressure is Some && cloud_cover is Some
        && rain_rate is Some && sky_temperature is Some && sky_brightness is Some && sky_quality
        is Some && star_fwhm is Some {
        Some(
            WeatherConditions {
                wind_speed_meters_per_second: wind_speed->0,
                wind_gust_meters_per_second: wind_gust->0,
                wind_direction_degrees: wind_direction->0,
                temperature_celsius: temperature->0,
                dew_point_celsius: dew_point->0,
                humidity_percent: humidity->0,
                pressure_hectopascals: pressure->0,
                cloud_cover_percent: cloud_cover->0,
                rain_rate_millimeters_per_hour: rain_rate->0,
                sky_temperature_celsius: sky_temperature->0,
                sky_brightness_lux: sky_brightness->0,
                sky_quality_magnitudes_per_square_arcsecond: sky_quality->0,
                star_fwhm_arcseconds: star_fwhm->0,
            },
        )
    } else {
        None
    }
}

fn reading(fields: &Vec<JsonField>, name: &str) -> (r: Option<Option<Double>>)
    ensures
        r == opt_double_of(lookup(fields@, name@)),
{
    opt_double_member(find(fields, name))
}

fn weather_members(fields: &Vec<JsonField>) -> (r: Option<WeatherConditions>)
    ensures
        r == weather_of(fields@),
{
    let wind_speed: Option<Option<Double>> = reading(fields, "WindSpeedMetersPerSecond");
    let wind_gust: Option<Option<Double>> = reading(fields, "WindGustMetersPerSecond");
    let wind_direction: Option<Option<Double>> = reading(fields, "WindDirectionDegrees");
    let temperature: Option<Option<Double>> = reading(fields, "TemperatureCelsius");
    let dew_point: Option<Option<Double>> = reading(fields, "DewPointCelsius");
    let humidity: Option<Option<Double>> = reading(fields, "HumidityPercent");
    let pressure: Option<Option<Double>> = reading(fields, "PressureHectopascals");
    let cloud_cover: Option<Option<Double>> = reading(fields, "CloudCoverPercent");
    let rain_rate: Option<Option<Double>> = reading(fields, "RainRateMillimetersPerHour");
    let sky_temperature: Option<Option<Double>> = reading(fields, "SkyTemperatureCelsius");
    let sky_brightness: Option<Option<Double>> = reading(fields, "SkyBrightnessLux");
    let sky_quality: Option<Option<Double>> = reading(
        fields,
        "SkyQualityMagnitudesPerSquareArcsecond",
    );
    let star_fwhm: Option<Option<Double>> = reading(fields, "StarFwhmArcseconds");
    match (
        (wind_speed, wind_gust, wind_direction, temperature, dew_point, humidity, pressure),
        (cloud_cover, rain_rate, sky_temperature, sky_brightness, sky_quality, star_fwhm),
    ) {
        (
            (
                Some(wind_speed),
                Some(wind_gust),
                Some(wind_direction),
                Some(temperature),
                Some(dew_point),
                Some(humidity),
                Some(pressure),
            ),
            (
                Some(cloud_cover),
                Some(rain_rate),
                Some(sky_temperature),
                Some(sky_brightness),
                Some(sky_quality),
                Some(star_fwhm),
            ),
        ) => Some(
            WeatherConditions {
                wind_speed_meters_per_second: wind_speed,
                wind_gust_meters_per_second: wind_gust,
                wind_direction_degrees: wind_direction,
                temperature_celsius: temperature,
                dew_point_celsius: dew_point,
                humidity_percent: humidity,
                pressure_hectopascals: pressure,
                cloud_cover_percent: cloud_cover,
                rain_rate_millimeters_per_hour: rain_rate,
                sky_temperature_celsius: sky_temperature,
                sky_brightness_lux: sky_brightness,
                sky_quality_magnitudes_per_square_arcsecond: sky_quality,
                star_fwhm_arcseconds: star_fwhm,
            },
        ),
        _ => None,
    }
}

/// One of two names for a number: exactly one of them must be there.
pub open spec fn either_double(fields: Seq<JsonField>, name: Seq<char>, alias: Seq<char>) -> Option<
    Double,
> {
    match (lookup(fields, name), lookup(fields, alias)) {
        (Some(v), None) => double_of(Some(v)),
        (None, Some(v)) => double_of(Some(v)),
        _ => None,
    }
}

fn either_double_member(fields: &Vec<JsonField>, name: &str, alias: &str) -> (r: Option<Double>)
    ensures
        r == either_double(fields@, name@, alias@),
{
    match (find(fields, name), find(fields, alias)) {
        (Some(v), None) => double_member(Some(v)),
        (None, Some(v)) => double_member(Some(v)),
        _ => None,
    }
}

/// The details of a `WaitStart`, where the fields hold them.
pub open spec fn wait_start_of(fields: Seq<JsonField>) -> Option<EventDetails> {
    let wait_end_time = text_of(lookup(fields, "WaitEndTime"@));
    if wait_end_time is Some {
        Some(EventDetails::WaitStart { wait_end_time: wait_end_time->0 })
    } else {
        None
    }
}

fn wait_start(fields: &Vec<JsonField>) -> (r: Option<EventDetails>)
    ensures
        r == wait_start_of(fields@),
{
    let wait_end_time = text_member(find(fields, "WaitEndTime"));
    match wait_end_time {
        Some(wait_end_time) => Some(EventDetails::WaitStart { wait_end_time }),
        None => None,
    }
}

/// The details of a `AutofocusPointAdded`, where the fields hold them.
pub open spec fn autofocus_point_added_of(fields: Seq<JsonField>) -> Option<EventDetails> {
    let position = i32_of(lookup(fields, "Position"@));
    let hfr = double_of(lookup(fields, "HFR"@));
    if position is Some && hfr is Some {
        Some(EventDetails::AutofocusPointAdded { position: position->0, hfr: hfr->0 })
    } else {
        None
    }
}

fn autofocus_point_added(fields: &Vec<JsonField>) -> (r: Option<EventDetails>)
    ensures
        r == autofocus_point_added_of(fields@),
{
    let position: Option<i32> = i32_member(find(fields, "Position"));
    let hfr: Option<Double> = double_member(find(fields, "HFR"));
    match (position, hfr) {
        (Some(position), Some(hfr)) => Some(EventDetails::AutofocusPointAdded { position, hfr }),
        _ => None,
    }
}

/// The details of a `AutofocusFinished`, where the fields hold them.
pub open spec fn autofocus_finished_of(fields: Seq<JsonField>) -> Option<EventDetails> {
    let report_timestamp = text_of(lookup(fields, "ReportTimestamp"@));
    let filter = opt_text_of(lookup(fields, "Filter"@));
    let position = opt_double_of(lookup(fields, "Position"@));
    let temperature = opt_double_of(lookup(fields, "Temperature"@));
    if report_timestamp is Some && filter is Some && position is Some && temperature is Some {
        Some(
            EventDetails::AutofocusFinished {
                report_timestamp: report_timestamp->0,
                filter: filter->0,
                position: position->0,
                temperature: temperature->0,
            },
        )
    } else {
        None
    }
}

fn autofocus_finished(fields: &Vec<JsonField>) -> (r: Option<EventDetails>)
    ensures
        r == autofocus_finished_of(fields@),
{
    let report_timestamp = text_member(find(fields, "ReportTimestamp"));
    let filter = opt_text_member(find(fields, "Filter"));
    let position: Option<Option<Double>> = opt_double_member(find(fields, "Position"));
    let temperature: Option<Option<Double>> = opt_double_member(find(fields, "Temperature"));
    match (report_timestamp, filter, position, temperature) {
        (Some(report_timestamp), Some(filter), Some(position), Some(temperature)) => Some(
            EventDetails::AutofocusFinished {
                report_timestamp,
                filter,
                position,
                temperature,
            },
        ),
        _ => None,
    }
}

/// The details of a `SafetyChanged`, where the fields hold them.
pub open spec fn safety_changed_of(fields: Seq<JsonField>) -> Option<EventDetails> {
    let is_safe = bool_of(lookup(fields, "IsSafe"@));
    if is_safe is Some {
        Some(EventDetails::SafetyChanged { is_safe: is_safe->0 })
    } else {
        None
    }
}

fn safety_changed(fields: &Vec<JsonField>) -> (r: Option<EventDetails>)
    ensures
        r == safety_changed_of(fields@),
{
    let is_safe: Option<bool> = bool_member(find(fields, "IsSafe"));
    match is_safe {
        Some(is_safe) => Some(EventDetails::SafetyChanged { is_safe }),
        None => None,
    }
}

/// What an optional member says; nothing where it is missing or cannot be read.
pub open spec fn readable<T>(member: Option<Option<T>>) -> Option<T> {
    match member {
        Some(value) => value,
        None => None,
    }
}

fn as_read<T>(member: Option<Option<T>>) -> (r: Option<T>)
    ensures
        r == readable(member),
{
    match member {
        Some(value) => value,
        None => None,
    }
}

/// The details of a `RotatorMoveStarted`.
pub open spec fn rotator_move_started_of(fields: Seq<JsonField>) -> Option<EventDetails> {
    Some(
        EventDetails::RotatorMoveStarted {
            position: readable(opt_double_of(lookup(fields, "Position"@))),
            mechanical_position: readable(opt_double_of(lookup(fields, "MechanicalPosition"@))),
            motion_id: readable(opt_i64_of(lookup(fields, "MotionId"@))),
            observed_in_progress: readable(opt_bool_of(lookup(fields, "ObservedInProgress"@))),
        },
    )
}

fn rotator_move_started(fields: &Vec<JsonField>) -> (r: Option<EventDetails>)
    ensures
        r == rotator_move_started_of(fields@),
{
    Some(
        EventDetails::RotatorMoveStarted {
            position: as_read(opt_double_member(find(fields, "Position"))),
            mechanical_position: as_read(opt_double_member(find(fields, "MechanicalPosition"))),
            motion_id: as_read(opt_i64_member(find(fields, "MotionId"))),
            observed_in_progress: as_read(opt_bool_member(find(fields, "ObservedInProgress"))),
        },
    )
}

/// The details of a `RotatorMoved`, where the fields hold both ends of the move. What else they
/// hold is taken as far as it can be read.
pub open spec fn rotator_moved_of(fields: Seq<JsonField>) -> Option<EventDetails> {
    let from = double_of(lookup(fields, "From"@));
    let to = double_of(lookup(fields, "To"@));
    if from is Some && to is Some {
        Some(
            EventDetails::RotatorMoved {
                from,
                to,
                position: readable(opt_double_of(lookup(fields, "Position"@))),
                mechanical_from: readable(opt_double_of(lookup(fields, "MechanicalFrom"@))),
                mechanical_to: readable(opt_double_of(lookup(fields, "MechanicalTo"@))),
                mechanical_position: readable(
                    opt_double_of(lookup(fields, "MechanicalPosition"@)),
                ),
                motion_id: readable(opt_i64_of(lookup(fields, "MotionId"@))),
                duration_seconds: readable(opt_double_of(lookup(fields, "DurationSeconds"@))),
                end_detection: readable(opt_text_of(lookup(fields, "EndDetection"@))),
                observed_in_progress: readable(
                    opt_bool_of(lookup(fields, "ObservedInProgress"@)),
                ),
            },
        )
    } else {
        None
    }
}

fn rotator_moved(fields: &Vec<JsonField>) -> (r: Option<EventDetails>)
    ensures
        r == rotator_moved_of(fields@),
{
    let from: Option<Double> = double_member(find(fields, "From"));
    let to: Option<Double> = double_member(find(fields, "To"));
    if from.is_none() || to.is_none() {
        return None;
    }
    Some(
        EventDetails::RotatorMoved {
            from,
            to,
            position: as_read(opt_double_member(find(fields, "Position"))),
            mechanical_from: as_read(opt_double_member(find(fields, "MechanicalFrom"))),
            mechanical_to: as_read(opt_double_member(find(fields, "MechanicalTo"))),
            mechanical_position: as_read(opt_double_member(find(fields, "MechanicalPosition"))),
            motion_id: as_read(opt_i64_member(find(fields, "MotionId"))),
            duration_seconds: as_read(opt_double_member(find(fields, "DurationSeconds"))),
            end_detection: as_read(opt_text_member(find(fields, "EndDetection"))),
            observed_in_progress: as_read(opt_bool_member(find(fields, "ObservedInProgress"))),
        },
    )
}

/// The details of a `MountSlewStarted`, where the fields hold where the mount starts from. What
/// else they hold is taken as far as it can be read.
pub open spec fn mount_slew_started_of(fields: Seq<JsonField>) -> Option<EventDetails> {
    match position_of(lookup(fields, "From"@)) {
        Some(from) => Some(
            EventDetails::MountSlewStarted {
                from,
                target: readable(opt_position_of(lookup(fields, "Target"@))),
                motion_id: readable(opt_i64_of(lookup(fields, "MotionId"@))),
                observed_in_progress: readable(
                    opt_bool_of(lookup(fields, "ObservedInProgress"@)),
                ),
            },
        ),
        None => None,
    }
}

fn mount_slew_started(fields: &Vec<JsonField>) -> (r: Option<EventDetails>)
    ensures
        r == mount_slew_started_of(fields@),
{
    match position_member(find(fields, "From")) {
        Some(from) => Some(
            EventDetails::MountSlewStarted {
                from,
                target: as_read(opt_position_member(find(fields, "Target"))),
                motion_id: as_read(opt_i64_member(find(fields, "MotionId"))),
                observed_in_progress: as_read(opt_bool_member(find(fields, "ObservedInProgress"))),
            },
        ),
        None => None,
    }
}

/// The details of a `MountSlewed`, where the fields hold both ends of the slew. What else they
/// hold is taken as far as it can be read.
pub open spec fn mount_slewed_of(fields: Seq<JsonField>) -> Option<EventDetails> {
    match (position_of(lookup(fields, "From"@)), position_of(lookup(fields, "To"@))) {
        (Some(from), Some(to)) => Some(
            EventDetails::MountSlewed {
                from,
                to,
                target: readable(opt_position_of(lookup(fields, "Target"@))),
                motion_id: readable(opt_i64_of(lookup(fields, "MotionId"@))),
                duration_seconds: readable(opt_double_of(lookup(fields, "DurationSeconds"@))),
                end_detection: readable(opt_text_of(lookup(fields, "EndDetection"@))),
                observed_in_progress: readable(
                    opt_bool_of(lookup(fields, "ObservedInProgress"@)),
                ),
            },
        ),
        _ => None,
    }
}

fn mount_slewed(fields: &Vec<JsonField>) -> (r: Option<EventDetails>)
    ensures
        r == mount_slewed_of(fields@),
{
    match (position_member(find(fields, "From")), position_member(find(fields, "To"))) {
        (Some(from), Some(to)) => Some(
            EventDetails::MountSlewed {
                from,
                to,
                target: as_read(opt_position_member(find(fields, "Target"))),
                motion_id: as_read(opt_i64_member(find(fields, "MotionId"))),
                duration_seconds: as_read(opt_double_member(find(fields, "DurationSeconds"))),
                end_detection: as_read(opt_text_member(find(fields, "EndDetection"))),
                observed_in_progress: as_read(opt_bool_member(find(fields, "ObservedInProgress"))),
            },
        ),
        _ => None,
    }
}

/// The details of a `SequenceEntityFailed`, where the fields hold them.
pub open spec fn sequence_entity_failed_of(fields: Seq<JsonField>) -> Option<EventDetails> {
    let entity = text_of(lookup(fields, "Entity"@));
    let entity_type = text_of(lookup(fields, "EntityType"@));
    let error = text_of(lookup(fields, "Error"@));
    if entity is Some && entity_type is Some && error is Some {
        Some(
            EventDetails::SequenceEntityFailed {
                entity: entity->0,
                entity_type: entity_type->0,
                error: error->0,
            },
        )
    } else {
        None
    }
}

fn sequence_entity_failed(fields: &Vec<JsonField>) -> (r: Option<EventDetails>)
    ensures
        r == sequence_entity_failed_of(fields@),
{
    let entity = text_member(find(fields, "Entity"));
    let entity_type = text_member(find(fields, "EntityType"));
    let error = text_member(find(fields, "Error"));
    match (entity, entity_type, error) {
        (Some(entity), Some(entity_type), Some(error)) => Some(
            EventDetails::SequenceEntityFailed {
                entity,
                entity_type,
                error,
            },
        ),
        _ => None,
    }
}

/// The details of a `SequenceFinished`, where the fields hold them.
pub open spec fn sequence_finished_of(fields: Seq<JsonField>) -> Option<EventDetails> {
    let outcome = text_of(lookup(fields, "Outcome"@));
    let status = text_of(lookup(fields, "Status"@));
    let had_failures = bool_of(lookup(fields, "HadFailures"@));
    if outcome is Some && status is Some && had_failures is Some {
        Some(
            EventDetails::SequenceFinished {
                outcome: outcome->0,
                status: status->0,
                had_failures: had_failures->0,
            },
        )
    } else {
        None
    }
}

fn sequence_finished(fields: &Vec<JsonField>) -> (r: Option<EventDetails>)
    ensures
        r == sequence_finished_of(fields@),
{
    let outcome = text_member(find(fields, "Outcome"));
    let status = text_member(find(fields, "Status"));
    let had_failures: Option<bool> = bool_member(find(fields, "HadFailures"));
    match (outcome, status, had_failures) {
        (Some(outcome), Some(status), Some(had_failures)) => Some(
            EventDetails::SequenceFinished {
                outcome,
                status,
                had_failures,
            },
        ),
        _ => None,
    }
}

/// The details of a `ImageSaveFailed`, where the fields hold them.
pub open spec fn image_save_failed_of(fields: Seq<JsonField>) -> Option<EventDetails> {
    let stage = text_of(lookup(fields, "Stage"@));
    let disk_full = bool_of(lookup(fields, "DiskFull"@));
    let error = text_of(lookup(fields, "Error"@));
    if stage is Some && disk_full is Some && error is Some {
        Some(
            EventDetails::ImageSaveFailed {
                stage: stage->0,
                disk_full: disk_full->0,
                error: error->0,
            },
        )
    } else {
        None
    }
}

fn image_save_failed(fields: &Vec<JsonField>) -> (r: Option<EventDetails>)
    ensures
        r == image_save_failed_of(fields@),
{
    let stage = text_member(find(fields, "Stage"));
    let disk_full: Option<bool> = bool_member(find(fields, "DiskFull"));
    let error = text_member(find(fields, "Error"));
    match (stage, disk_full, error) {
        (Some(stage), Some(disk_full), Some(error)) => Some(
            EventDetails::ImageSaveFailed {
                stage,
                disk_full,
                error,
            },
        ),
        _ => None,
    }
}

/// The details of a `FlatBrightnessChanged`, where the fields hold them.
pub open spec fn flat_brightness_changed_of(fields: Seq<JsonField>) -> Option<EventDetails> {
    let previous = i32_of(lookup(fields, "Previous"@));
    let new = i32_of(lookup(fields, "New"@));
    if previous is Some && new is Some {
        Some(EventDetails::FlatBrightnessChanged { previous: previous->0, new: new->0 })
    } else {
        None
    }
}

fn flat_brightness_changed(fields: &Vec<JsonField>) -> (r: Option<EventDetails>)
    ensures
        r == flat_brightness_changed_of(fields@),
{
    let previous: Option<i32> = i32_member(find(fields, "Previous"));
    let new: Option<i32> = i32_member(find(fields, "New"));
    match (previous, new) {
        (Some(previous), Some(new)) => Some(EventDetails::FlatBrightnessChanged { previous, new }),
        _ => None,
    }
}

/// The details of a `FlatLightToggled`, where the fields hold them.
pub open spec fn flat_light_toggled_of(fields: Seq<JsonField>) -> Option<EventDetails> {
    let on = opt_bool_of(lookup(fields, "On"@));
    if on is Some {
        Some(EventDetails::FlatLightToggled { on: on->0 })
    } else {
        None
    }
}

fn flat_light_toggled(fields: &Vec<JsonField>) -> (r: Option<EventDetails>)
    ensures
        r == flat_light_toggled_of(fields@),
{
    let on: Option<Option<bool>> = opt_bool_member(find(fields, "On"));
    match on {
        Some(on) => Some(EventDetails::FlatLightToggled { on }),
        None => None,
    }
}

/// The details of a `CommandFailed`, where the fields hold them.
pub open spec fn command_failed_of(fields: Seq<JsonField>) -> Option<EventDetails> {
    let command = text_of(lookup(fields, "Command"@));
    let error = text_of(lookup(fields, "Error"@));
    if command is Some && error is Some {
        Some(EventDetails::CommandFailed { command: command->0, error: error->0 })
    } else {
        None
    }
}

fn command_failed(fields: &Vec<JsonField>) -> (r: Option<EventDetails>)
    ensures
        r == command_failed_of(fields@),
{
    let command = text_member(find(fields, "Command"));
    let error = text_member(find(fields, "Error"));
    match (command, error) {
        (Some(command), Some(error)) => Some(EventDetails::CommandFailed { command, error }),
        _ => None,
    }
}

/// The details of a `NinaNotification`, where the fields hold them.
pub open spec fn nina_notification_of(fields: Seq<JsonField>) -> Option<EventDetails> {
    let level = text_of(lookup(fields, "Level"@));
    let header = text_of(lookup(fields, "Header"@));
    let message = text_of(lookup(fields, "Message"@));
    if level is Some && header is Some && message is Some {
        Some(
            EventDetails::NinaNotification {
                level: level->0,
                header: header->0,
                message: message->0,
            },
        )
    } else {
        None
    }
}

fn nina_notification(fields: &Vec<JsonField>) -> (r: Option<EventDetails>)
    ensures
        r == nina_notification_of(fields@),
{
    let level = text_member(find(fields, "Level"));
    let header = text_member(find(fields, "Header"));
    let message = text_member(find(fields, "Message"));
    match (level, header, message) {
        (Some(level), Some(header), Some(message)) => Some(
            EventDetails::NinaNotification {
                level,
                header,
                message,
            },
        ),
        _ => None,
    }
}

/// The details of a `NinaLog`, where the fields hold them.
pub open spec fn nina_log_of(fields: Seq<JsonField>) -> Option<EventDetails> {
    let level = text_of(lookup(fields, "Level"@));
    let source = text_of(lookup(fields, "Source"@));
    let member = text_of(lookup(fields, "Member"@));
    let line = i32_of(lookup(fields, "Line"@));
    let message = text_of(lookup(fields, "Message"@));
    if level is Some && source is Some && member is Some && line is Some && message is Some {
        Some(
            EventDetails::NinaLog {
                level: level->0,
                source: source->0,
                member: member->0,
                line: line->0,
                message: message->0,
            },
        )
    } else {
        None
    }
}

fn nina_log(fields: &Vec<JsonField>) -> (r: Option<EventDetails>)
    ensures
        r == nina_log_of(fields@),
{
    let level = text_member(find(fields, "Level"));
    let source = text_member(find(fields, "Source"));
    let member = text_member(find(fields, "Member"));
    let line: Option<i32> = i32_member(find(fields, "Line"));
    let message = text_member(find(fields, "Message"));
    match (level, source, member, line, message) {
        (Some(level), Some(source), Some(member), Some(line), Some(message)) => Some(
            EventDetails::NinaLog {
                level,
                source,
                member,
                line,
                message,
            },
        ),
        _ => None,
    }
}

/// The details of a `DomeSlewed`, where the fields hold them.
pub open spec fn dome_slewed_of(fields: Seq<JsonField>) -> Option<EventDetails> {
    let from = either_double(fields, "FromAzimuth"@, "From"@);
    let to = either_double(fields, "ToAzimuth"@, "To"@);
    if from is Some && to is Some {
        Some(EventDetails::DomeSlewed { from: from->0, to: to->0 })
    } else {
        None
    }
}

fn dome_slewed(fields: &Vec<JsonField>) -> (r: Option<EventDetails>)
    ensures
        r == dome_slewed_of(fields@),
{
    let from: Option<Double> = either_double_member(fields, "FromAzimuth", "From");
    let to: Option<Double> = either_double_member(fields, "ToAzimuth", "To");
    match (from, to) {
        (Some(from), Some(to)) => Some(EventDetails::DomeSlewed { from, to }),
        _ => None,
    }
}

/// The details of a `WeatherChanged`, where the fields hold them.
pub open spec fn weather_changed_of(fields: Seq<JsonField>) -> Option<EventDetails> {
    let changed_fields = text_of(lookup(fields, "ChangedFields"@));
    let summary = opt_text_of(lookup(fields, "Summary"@));
    let conditions = weather_of(fields);
    if changed_fields is Some && summary is Some && conditions is Some {
        Some(
            EventDetails::WeatherChanged {
                changed_fields: changed_fields->0,
                summary: summary->0,
                conditions: conditions->0,
            },
        )
    } else {
        None
    }
}

fn weather_changed(fields: &Vec<JsonField>) -> (r: Option<EventDetails>)
    ensures
        r == weather_changed_of(fields@),
{
    let changed_fields = text_member(find(fields, "ChangedFields"));
    let summary = opt_text_member(find(fields, "Summary"));
    let conditions: Option<WeatherConditions> = weather_members(fields);
    match (changed_fields, summary, conditions) {
        (Some(changed_fields), Some(summary), Some(conditions)) => Some(
            EventDetails::WeatherChanged { changed_fields, summary, conditions },
        ),
        _ => None,
    }
}

/// The details of a `WeatherHighWind`, where the fields hold them.
pub open spec fn weather_high_wind_of(fields: Seq<JsonField>) -> Option<EventDetails> {
    let is_high_wind = bool_of(lookup(fields, "IsHighWind"@));
    let threshold = opt_double_of(lookup(fields, "ThresholdMetersPerSecond"@));
    let conditions = weather_of(fields);
    if is_high_wind is Some && threshold is Some && conditions is Some {
        Some(
            EventDetails::WeatherHighWind {
                is_high_wind: is_high_wind->0,
                threshold_meters_per_second: threshold->0,
                conditions: conditions->0,
            },
        )
    } else {
        None
    }
}

fn weather_high_wind(fields: &Vec<JsonField>) -> (r: Option<EventDetails>)
    ensures
        r == weather_high_wind_of(fields@),
{
    let is_high_wind: Option<bool> = bool_member(find(fields, "IsHighWind"));
    let threshold: Option<Option<Double>> = reading(fields, "ThresholdMetersPerSecond");
    let conditions: Option<WeatherConditions> = weather_members(fields);
    match (is_high_wind, threshold, conditions) {
        (Some(is_high_wind), Some(threshold_meters_per_second), Some(conditions)) => Some(
            EventDetails::WeatherHighWind { is_high_wind, threshold_meters_per_second, conditions },
        ),
        _ => None,
    }
}

/// `r` holds the filter change that the fields describe, if they describe one.
pub open spec fn reads_filter_change(fields: Seq<JsonField>, r: Option<EventDetails>) -> bool {
    match r {
        Some(EventDetails::FilterWheelChange { new, previous }) => reads_filter(
            lookup(fields, "New"@),
            Some(new),
        ) && reads_filter(lookup(fields, "Previous"@), Some(previous)),
        Some(_) => false,
        None => reads_filter(lookup(fields, "New"@), None) || reads_filter(
            lookup(fields, "Previous"@),
            None,
        ),
    }
}

fn filter_change(fields: &Vec<JsonField>) -> (r: Option<EventDetails>)
    ensures
        reads_filter_change(fields@, r),
{
    let new = filter_member(find(fields, "New"));
    let previous = filter_member(find(fields, "Previous"));
    match (new, previous) {
        (Some(new), Some(previous)) => Some(EventDetails::FilterWheelChange { new, previous }),
        _ => None,
    }
}

/// `r` holds the target start that the fields describe, if they describe one.
pub open spec fn reads_target_start(fields: Seq<JsonField>, r: Option<EventDetails>) -> bool {
    let name = text_of(lookup(fields, "TargetName"@));
    let project = opt_text_of(lookup(fields, "ProjectName"@));
    let turned = opt_double_of(lookup(fields, "Rotation"@));
    let end = opt_text_of(lookup(fields, "TargetEndTime"@));
    match r {
        Some(
            EventDetails::TargetStart {
                target_name,
                project_name,
                rotation,
                target_end_time,
                coordinates,
            },
        ) => {
            &&& name == Some(target_name)
            &&& project == Some(project_name)
            &&& turned == Some(rotation)
            &&& end == Some(target_end_time)
            &&& reads_target(lookup(fields, "Coordinates"@), Some(coordinates))
        },
        Some(_) => false,
        None => name is None || project is None || turned is None || end is None || reads_target(
            lookup(fields, "Coordinates"@),
            None,
        ),
    }
}

fn target_start(fields: &Vec<JsonField>) -> (r: Option<EventDetails>)
    ensures
        reads_target_start(fields@, r),
{
    let name = text_member(find(fields, "TargetName"));
    let project = opt_text_member(find(fields, "ProjectName"));
    let turned = opt_double_member(find(fields, "Rotation"));
    let end = opt_text_member(find(fields, "TargetEndTime"));
    let coordinates = target_member(find(fields, "Coordinates"));
    match (name, project, turned, end, coordinates) {
        (
            Some(target_name),
            Some(project_name),
            Some(rotation),
            Some(target_end_time),
            Some(coordinates),
        ) => Some(
            EventDetails::TargetStart {
                target_name,
                project_name,
                rotation,
                target_end_time,
                coordinates,
            },
        ),
        _ => None,
    }
}

/// `r` holds the typed details of an event, if its name has typed details and its fields hold
/// them.
pub open spec fn reads_details(kind: EventKind, fields: Seq<JsonField>, r: Option<EventDetails>) -> bool {
    match kind {
        EventKind::FilterwheelChanged => reads_filter_change(fields, r),
        EventKind::TsTargetstart => reads_target_start(fields, r),
        EventKind::TsNewtargetstart => reads_target_start(fields, r),
        EventKind::DomeSlewed => r == dome_slewed_of(fields),
        EventKind::WeatherChanged => r == weather_changed_of(fields),
        EventKind::WeatherHighWind => r == weather_high_wind_of(fields),
        EventKind::TsWaitstart => r == wait_start_of(fields),
        EventKind::AutofocusPointAdded => r == autofocus_point_added_of(fields),
        EventKind::AutofocusFinished => r == autofocus_finished_of(fields),
        EventKind::SafetyChanged => r == safety_changed_of(fields),
        EventKind::RotatorMoveStarted => r == rotator_move_started_of(fields),
        EventKind::RotatorMoved => r == rotator_moved_of(fields),
        EventKind::RotatorMovedMechanical => r == rotator_moved_of(fields),
        EventKind::MountSlewStarted => r == mount_slew_started_of(fields),
        EventKind::MountSlewed => r == mount_slewed_of(fields),
        EventKind::SequenceEntityFailed => r == sequence_entity_failed_of(fields),
        EventKind::SequenceFinished => r == sequence_finished_of(fields),
        EventKind::ImageSaveFailed => r == image_save_failed_of(fields),
        EventKind::FlatBrightnessChanged => r == flat_brightness_changed_of(fields),
        EventKind::FlatLightToggled => r == flat_light_toggled_of(fields),
        EventKind::ChatstronomyCommandFailed => r == command_failed_of(fields),
        EventKind::NinaNotification => r == nina_notification_of(fields),
        EventKind::NinaLog => r == nina_log_of(fields),
        _ => r is None,
    }
}

fn typed_details(kind: EventKind, fields: &Vec<JsonField>) -> (r: Option<EventDetails>)
    ensures
        reads_details(kind, fields@, r),
{
    match kind {
        EventKind::FilterwheelChanged => filter_change(fields),
        EventKind::TsTargetstart => target_start(fields),
        EventKind::TsNewtargetstart => target_start(fields),
        EventKind::DomeSlewed => dome_slewed(fields),
        EventKind::WeatherChanged => weather_changed(fields),
        EventKind::WeatherHighWind => weather_high_wind(fields),
        EventKind::TsWaitstart => wait_start(fields),
        EventKind::AutofocusPointAdded => autofocus_point_added(fields),
        EventKind::AutofocusFinished => autofocus_finished(fields),
        EventKind::SafetyChanged => safety_changed(fields),
        EventKind::RotatorMoveStarted => rotator_move_started(fields),
        EventKind::RotatorMoved => rotator_moved(fields),
        EventKind::RotatorMovedMechanical => rotator_moved(fields),
        EventKind::MountSlewStarted => mount_slew_started(fields),
        EventKind::MountSlewed => mount_slewed(fields),
        EventKind::SequenceEntityFailed => sequence_entity_failed(fields),
        EventKind::SequenceFinished => sequence_finished(fields),
        EventKind::ImageSaveFailed => image_save_failed(fields),
        EventKind::FlatBrightnessChanged => flat_brightness_changed(fields),
        EventKind::FlatLightToggled => flat_light_toggled(fields),
        EventKind::ChatstronomyCommandFailed => command_failed(fields),
        EventKind::NinaNotification => nina_notification(fields),
        EventKind::NinaLog => nina_log(fields),
        _ => None,
    }
}

/// `r` holds the details of an event: the typed ones where the fields hold them, else the fields
/// themselves where there are any.
pub open spec fn decodes(name: Seq<char>, fields: Seq<JsonField>, r: Option<EventDetails>) -> bool {
    if reads_details(kind_of(name), fields, None) {
        match r {
            None => fields.len() == 0,
            Some(EventDetails::Unknown(kept)) => fields.len() > 0 && kept@ == fields,
            Some(_) => false,
        }
    } else {
        r is Some && reads_details(kind_of(name), fields, r)
    }
}

pub fn decode_event_details(event: &str, fields: Vec<JsonField>) -> (r: Option<EventDetails>)
    ensures
        decodes(event@, fields@, r),
{
    match typed_details(event_kind(event), &fields) {
        Some(details) => Some(details),
        None => if fields.len() == 0 {
            None
        } else {
            Some(EventDetails::Unknown(fields))
        },
    }
}

/// The names that every event has.
pub open spec fn is_envelope(name: Seq<char>) -> bool {
    name == "Time"@ || name == "Event"@ || name == "ChatEnabled"@
}

/// The fields that are particular to an event, in order.
pub open spec fn particulars(fields: Seq<JsonField>) -> Seq<JsonField>
    decreases fields.len(),
{
    if fields.len() == 0 {
        fields
    } else if is_envelope(fields.last().name@) {
        particulars(fields.drop_last())
    } else {
        particulars(fields.drop_last()).push(fields.last())
    }
}

/// Delivery is on where the event does not say otherwise.
pub open spec fn enabled_of(v: Option<JsonValue>) -> Option<bool> {
    match v {
        None => Some(true),
        _ => bool_of(v),
    }
}

/// `r` is the event that a value describes. It describes none where it is no object, or lacks a
/// time or a name, or where its delivery flag is no truth value.
pub open spec fn reads_event(value: JsonValue, r: Option<Event>) -> bool {
    match value {
        JsonValue::Object(fields) => {
            let time = text_of(lookup(fields@, "Time"@));
            let name = text_of(lookup(fields@, "Event"@));
            let enabled = enabled_of(lookup(fields@, "ChatEnabled"@));
            match r {
                Some(e) => {
                    &&& time == Some(e.time)
                    &&& name == Some(e.event)
                    &&& enabled == Some(e.chat_enabled)
                    &&& decodes(e.event@, particulars(fields@), e.details)
                },
                None => time is None || name is None || enabled is None,
            }
        },
        _ => r is None,
    }
}

impl Event {
    /// Reads an event.
    pub fn from_json(value: JsonValue) -> (r: Option<Event>)
        ensures
            reads_event(value, r),
    {
        let mut fields = match value {
            JsonValue::Object(fields) => fields,
            _ => {
                return None;
            },
        };
        let time = text_member(find(&fields, "Time"));
        let name = text_member(find(&fields, "Event"));
        let flag = find(&fields, "ChatEnabled");
        let enabled: Option<bool> = match flag {
            None => Some(true),
            _ => bool_member(flag),
        };
        let ghost all = fields@;
        let mut rest: Vec<JsonField> = Vec::new();
        assert(all.subrange(0, 0) =~= Seq::<JsonField>::empty());
        assert(all.subrange(0, all.len() as int) =~= all);
        let ghost mut done: int = 0;
        while fields.len() > 0
            invariant
                0 <= done <= all.len(),
                fields@ == all.subrange(done, all.len() as int),
                rest@ == particulars(all.subrange(0, done)),
            decreases fields@.len(),
        {
            let field = fields.remove(0);
            proof {
                let now = all.subrange(0, done + 1);
                assert(now.drop_last() =~= all.subrange(0, done));
                assert(now.last() == field);
                assert(fields@ =~= all.subrange(done + 1, all.len() as int));
                done = done + 1;
            }
            if !(same(field.name.as_str(), "Time") || same(field.name.as_str(), "Event") || same(
                field.name.as_str(),
                "ChatEnabled",
            )) {
                rest.push(field);
            }
        }
        assert(all.subrange(0, done) =~= all);
        match (time, name, enabled) {
            (Some(time), Some(event), Some(chat_enabled)) => {
                let details = decode_event_details(event.as_str(), rest);
                Some(Event { time, event, chat_enabled, details })
            },
            _ => None,
        }
    }
}

/// Every value of a list reads as the event at the same place.
pub open spec fn read_all(values: Seq<JsonValue>, events: Seq<Event>) -> bool {
    &&& values.len() == events.len()
    &&& forall|i: int| 0 <= i < values.len() ==> reads_event(#[trigger] values[i], Some(events[i]))
}

/// Some value of a list does not read as an event.
pub open spec fn one_unread(values: Seq<JsonValue>) -> bool {
    exists|i: int| 0 <= i < values.len() && reads_event(#[trigger] values[i], None)
}

impl EventHistoryResponse {
    /// Reads a page of the history. `None` where the value is no object, where a member is
    /// missing or of another type, or where one of the events is malformed.
    pub fn from_json(value: JsonValue) -> (r: Option<EventHistoryResponse>)
        ensures
            match value {
                JsonValue::Object(fields) => {
                    let list = lookup(fields@, "Response"@);
                    let error = text_of(lookup(fields@, "Error"@));
                    let status = i32_of(lookup(fields@, "StatusCode"@));
                    let success = bool_of(lookup(fields@, "Success"@));
                    let kind = text_of(lookup(fields@, "Type"@));
                    match r {
                        Some(h) => {
                            &&& list matches Some(JsonValue::List(items)) && read_all(
                                items@,
                                h.response@,
                            )
                            &&& error == Some(h.error)
                            &&& status == Some(h.status_code)
                            &&& success == Some(h.success)
                            &&& kind == Some(h.response_type)
                        },
                        None => error is None || status is None || success is None || kind is None
                            || !(list matches Some(JsonValue::List(_))) || (list matches Some(
                            JsonValue::List(items),
                        ) && one_unread(items@)),
                    }
                },
                _ => r is None,
            },
    {
        let fields = match value {
            JsonValue::Object(fields) => fields,
            _ => {
                return None;
            },
        };
        let error = text_member(find(&fields, "Error"));
        let status: Option<i32> = i32_member(find(&fields, "StatusCode"));
        let success: Option<bool> = bool_member(find(&fields, "Success"));
        let kind = text_member(find(&fields, "Type"));
        let list = take_member(fields, "Response");
        let (error, status_code, success, response_type): (String, i32, bool, String) = match (
            error,
            status,
            success,
            kind,
        ) {
            (Some(error), Some(status), Some(success), Some(kind)) => (
                error,
                status,
                success,
                kind,
            ),
            _ => {
                return None;
            },
        };
        let items = match list {
            Some(JsonValue::List(items)) => items,
            _ => {
                return None;
            },
        };
        let response = match read_events(items) {
            Some(response) => response,
            None => {
                return None;
            },
        };
        Some(EventHistoryResponse { response, error, status_code, success, response_type })
    }
}

/// Reads a list of events.
fn read_events(values: Vec<JsonValue>) -> (r: Option<Vec<Event>>)
    ensures
        match r {
            Some(events) => read_all(values@, events@),
            None => one_unread(values@),
        },
{
    let mut items = values;
    let ghost all = values@;
    let mut events: Vec<Event> = Vec::new();
    assert(all.subrange(0, all.len() as int) =~= all);
    while items.len() > 0
        invariant
            all == values@,
            events@.len() + items@.len() == all.len(),
            items@ == all.subrange(events@.len() as int, all.len() as int),
            forall|i: int|
                0 <= i < events@.len() ==> reads_event(#[trigger] all[i], Some(events@[i])),
        decreases items@.len(),
    {
        let ghost at = events@.len() as int;
        let item = items.remove(0);
        assert(item == all[at]);
        match Event::from_json(item) {
            Some(event) => {
                events.push(event);
                assert(items@ =~= all.subrange(events@.len() as int, all.len() as int));
            },
            None => {
                assert(reads_event(all[at], None));
                return None;
            },
        }
    }
    Some(events)
}

/// Takes a member out of an object.
fn take_member(fields: Vec<JsonField>, name: &str) -> (r: Option<JsonValue>)
    ensures
        r == lookup(fields@, name@),
    decreases fields@.len(),
{
    let mut fields = fields;
    if fields.len() == 0 {
        return None;
    }
    let ghost all = fields@;
    let first = fields.remove(0);
    assert(fields@ =~= all.subrange(1, all.len() as int));
    if same(first.name.as_str(), name) {
        Some(first.value)
    } else {
        take_member(fields, name)
    }
}

} // verus!
