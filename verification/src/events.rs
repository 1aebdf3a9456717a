//! Events reported by the controller: their typed details, how they are read from JSON, and the
//! delivery switch that governs each of them.

use vstd::hash_map::StringHashMap;
use vstd::prelude::*;
use crate::double::Double;
use crate::event_types::{
    kind_of, EventKind, API_CAPTURE_FINISHED, CAMERA_DOWNLOAD_TIMEOUT,
    CHATSTRONOMY_COMMAND_FAILED, ERROR_AF, ERROR_PLATESOLVE, FILTERWHEEL_CHANGED, IMAGE_SAVE,
    MOUNT_SLEW_STARTED, NINA_LOG, NINA_NOTIFICATION, ROTATOR_MOVE_STARTED, WEATHER_CHANGED,
    WEATHER_HIGH_WIND,
};
use crate::json::JsonField;
use crate::text::{
    cat3, cat4, clone_opt, ends_with, has_prefix, has_suffix, same, starts_with,
};

verus! {

/// A slot of the filter wheel.
#[derive(Clone, Debug)]
pub struct FilterInfo {
    pub name: String,
    pub id: i32,
}

impl FilterInfo {
    pub fn is_unknown(&self) -> (r: bool)
        ensures
            r == (self.name@.len() == 0 || self.id < 0),
    {
        self.name.as_str().is_empty() || self.id < 0
    }

    pub fn copy(&self) -> (r: FilterInfo)
        ensures
            r == *self,
    {
        FilterInfo { name: self.name.clone(), id: self.id }
    }
}

/// Where a target lies on the sky.
#[derive(Clone, Debug)]
pub struct TargetCoordinates {
    pub ra: Double,
    pub dec: Double,
    pub ra_string: String,
    pub dec_string: String,
    pub epoch: String,
    pub ra_degrees: Double,
}

impl TargetCoordinates {
    pub open spec fn unknown(&self) -> bool {
        self.ra_string@.len() == 0 && self.dec_string@.len() == 0 && self.ra.nan()
    }

    /// Both coordinates on a line of their own, where they are known.
    pub open spec fn display_text(&self) -> Option<Seq<char>> {
        if self.unknown() {
            None
        } else {
            Some("RA: "@ + self.ra_string@ + "\nDec: "@ + self.dec_string@)
        }
    }

    /// Every coordinate field came back as the sentinel for "unknown".
    pub fn is_unknown(&self) -> (r: bool)
        ensures
            r == self.unknown(),
    {
        self.ra_string.as_str().is_empty() && self.dec_string.as_str().is_empty()
            && self.ra.is_nan()
    }

    pub fn display(&self) -> (r: Option<String>)
        ensures
            crate::text::opt_view(r) == self.display_text(),
    {
        if self.is_unknown() {
            None
        } else {
            Some(cat4("RA: ", self.ra_string.as_str(), "\nDec: ", self.dec_string.as_str()))
        }
    }

    pub fn copy(&self) -> (r: TargetCoordinates)
        ensures
            r == *self,
    {
        TargetCoordinates {
            ra: self.ra,
            dec: self.dec,
            ra_string: self.ra_string.clone(),
            dec_string: self.dec_string.clone(),
            epoch: self.epoch.clone(),
            ra_degrees: self.ra_degrees,
        }
    }
}

pub fn copy_coordinates(c: &Option<TargetCoordinates>) -> (r: Option<TargetCoordinates>)
    ensures
        r == *c,
{
    match c {
        Some(x) => Some(x.copy()),
        None => None,
    }
}

/// A position of the mount, as far as it was reported.
#[derive(Clone, Debug)]
pub struct EventCoordinates {
    pub ra: Option<Double>,
    pub ra_degrees: Option<Double>,
    pub ra_string: Option<String>,
    pub dec: Option<Double>,
    pub dec_string: Option<String>,
    pub epoch: Option<String>,
    pub altitude: Option<Double>,
    pub azimuth: Option<Double>,
}

/// A number with `places` digits and a unit behind it, or dashes for a missing one.
pub open spec fn measured(value: Option<Double>, places: nat, unit: Seq<char>) -> Seq<char> {
    match value {
        Some(v) => v.fixed_text(places) + unit,
        None => "--"@,
    }
}

pub fn measured_text(value: Option<Double>, places: usize, unit: &str) -> (r: String)
    requires
        places <= 20,
    ensures
        r@ == measured(value, places as nat, unit@),
{
    match value {
        Some(v) => crate::text::cat2(v.fixed(places).as_str(), unit),
        None => String::from_str("--"),
    }
}

impl EventCoordinates {
    pub open spec fn ra_text(&self) -> Seq<char> {
        match self.ra_string {
            Some(s) => s@,
            None => match self.ra {
                Some(h) => h.fixed_text(5) + " h"@,
                None => measured(self.ra_degrees, 5, "°"@),
            },
        }
    }

    pub open spec fn dec_text(&self) -> Seq<char> {
        match self.dec_string {
            Some(s) => s@,
            None => measured(self.dec, 5, "°"@),
        }
    }

    pub open spec fn equatorial_text(&self) -> Seq<char> {
        let position = "RA "@ + self.ra_text() + " · Dec "@ + self.dec_text();
        match self.epoch {
            Some(epoch) => if epoch@.len() > 0 {
                position + " ("@ + epoch@ + ")"@
            } else {
                position
            },
            None => position,
        }
    }

    pub open spec fn horizontal_text(&self) -> Seq<char> {
        "Alt "@ + measured(self.altitude, 2, "°"@) + " · Az "@ + measured(
            self.azimuth,
            2,
            "°"@,
        )
    }

    pub open spec fn has_horizontal(&self) -> bool {
        self.altitude is Some || self.azimuth is Some
    }

    pub open spec fn has_equatorial(&self) -> bool {
        self.ra is Some || self.ra_degrees is Some || self.ra_string is Some || self.dec is Some
            || self.dec_string is Some
    }

    /// The position in equatorial coordinates, in horizontal ones, or in both, as reported.
    pub open spec fn display_text(&self) -> Seq<char> {
        if !self.has_horizontal() {
            self.equatorial_text()
        } else if self.has_equatorial() {
            self.equatorial_text() + " · "@ + self.horizontal_text()
        } else {
            self.horizontal_text()
        }
    }

    fn equatorial(&self) -> (r: String)
        ensures
            r@ == self.equatorial_text(),
    {
        let ra: String = match &self.ra_string {
            Some(s) => s.clone(),
            None => match self.ra {
                Some(h) => crate::text::cat2(h.fixed(5).as_str(), " h"),
                None => measured_text(self.ra_degrees, 5, "°"),
            },
        };
        let dec: String = match &self.dec_string {
            Some(s) => s.clone(),
            None => measured_text(self.dec, 5, "°"),
        };
        let position = cat4("RA ", ra.as_str(), " · Dec ", dec.as_str());
        match &self.epoch {
            Some(epoch) => if epoch.as_str().is_empty() {
                position
            } else {
                cat4(position.as_str(), " (", epoch.as_str(), ")")
            },
            None => position,
        }
    }

    fn horizontal(&self) -> (r: String)
        ensures
            r@ == self.horizontal_text(),
    {
        let altitude = measured_text(self.altitude, 2, "°");
        let azimuth = measured_text(self.azimuth, 2, "°");
        cat4("Alt ", altitude.as_str(), " · Az ", azimuth.as_str())
    }

    pub fn display(&self) -> (r: String)
        ensures
            r@ == self.display_text(),
    {
        if self.altitude.is_none() && self.azimuth.is_none() {
            self.equatorial()
        } else if self.ra.is_some() || self.ra_degrees.is_some() || self.ra_string.is_some()
            || self.dec.is_some() || self.dec_string.is_some() {
            cat3(self.equatorial().as_str(), " · ", self.horizontal().as_str())
        } else {
            self.horizontal()
        }
    }

    pub fn copy(&self) -> (r: EventCoordinates)
        ensures
            r == *self,
    {
        EventCoordinates {
            ra: self.ra,
            ra_degrees: self.ra_degrees,
            ra_string: clone_opt(&self.ra_string),
            dec: self.dec,
            dec_string: clone_opt(&self.dec_string),
            epoch: clone_opt(&self.epoch),
            altitude: self.altitude,
            azimuth: self.azimuth,
        }
    }
}

/// Readings of the weather station, as far as it has them.
#[derive(Clone, Copy, Debug, PartialEq, Eq, Structural)]
pub struct WeatherConditions {
    pub wind_speed_meters_per_second: Option<Double>,
    pub wind_gust_meters_per_second: Option<Double>,
    pub wind_direction_degrees: Option<Double>,
    pub temperature_celsius: Option<Double>,
    pub dew_point_celsius: Option<Double>,
    pub humidity_percent: Option<Double>,
    pub pressure_hectopascals: Option<Double>,
    pub cloud_cover_percent: Option<Double>,
    pub rain_rate_millimeters_per_hour: Option<Double>,
    pub sky_temperature_celsius: Option<Double>,
    pub sky_brightness_lux: Option<Double>,
    pub sky_quality_magnitudes_per_square_arcsecond: Option<Double>,
    pub star_fwhm_arcseconds: Option<Double>,
}

impl WeatherConditions {
    pub open spec fn has_wind(&self) -> bool {
        self.wind_speed_meters_per_second is Some || self.wind_gust_meters_per_second is Some
            || self.wind_direction_degrees is Some
    }

    pub open spec fn empty(&self) -> bool {
        !self.has_wind() && self.temperature_celsius is None && self.dew_point_celsius is None
            && self.humidity_percent is None && self.pressure_hectopascals is None
            && self.cloud_cover_percent is None && self.rain_rate_millimeters_per_hour is None
            && self.sky_temperature_celsius is None && self.sky_brightness_lux is None
            && self.sky_quality_magnitudes_per_square_arcsecond is None
            && self.star_fwhm_arcseconds is None
    }

    /// No reading at all.
    pub fn none() -> (r: WeatherConditions)
        ensures
            r.empty(),
    {
        WeatherConditions {
            wind_speed_meters_per_second: None,
            wind_gust_meters_per_second: None,
            wind_direction_degrees: None,
            temperature_celsius: None,
            dew_point_celsius: None,
            humidity_percent: None,
            pressure_hectopascals: None,
            cloud_cover_percent: None,
            rain_rate_millimeters_per_hour: None,
            sky_temperature_celsius: None,
            sky_brightness_lux: None,
            sky_quality_magnitudes_per_square_arcsecond: None,
            star_fwhm_arcseconds: None,
        }
    }

    pub fn has_wind_reading(&self) -> (r: bool)
        ensures
            r == self.has_wind(),
    {
        self.wind_speed_meters_per_second.is_some() || self.wind_gust_meters_per_second.is_some()
            || self.wind_direction_degrees.is_some()
    }

    pub fn is_empty(&self) -> (r: bool)
        ensures
            r == self.empty(),
    {
        !self.has_wind_reading() && self.temperature_celsius.is_none()
            && self.dew_point_celsius.is_none() && self.humidity_percent.is_none()
            && self.pressure_hectopascals.is_none() && self.cloud_cover_percent.is_none()
            && self.rain_rate_millimeters_per_hour.is_none()
            && self.sky_temperature_celsius.is_none() && self.sky_brightness_lux.is_none()
            && self.sky_quality_magnitudes_per_square_arcsecond.is_none()
            && self.star_fwhm_arcseconds.is_none()
    }
}

impl Default for WeatherConditions {
    fn default() -> (r: Self)
        ensures
            r.empty(),
    {
        WeatherConditions::none()
    }
}

/// What an event carries beyond its name and time.
#[allow(inconsistent_fields)]
#[derive(Debug)]
pub enum EventDetails {
    FilterWheelChange { new: FilterInfo, previous: FilterInfo },
    /// The start of a scheduler target. Only the name is guaranteed.
    TargetStart {
        target_name: String,
        project_name: Option<String>,
        rotation: Option<Double>,
        target_end_time: Option<String>,
        coordinates: Option<TargetCoordinates>,
    },
    WaitStart { wait_end_time: String },
    /// One measurement of an autofocus run.
    AutofocusPointAdded { position: i32, hfr: Double },
    /// A completed autofocus run, named by the timestamp of its report.
    AutofocusFinished {
        report_timestamp: String,
        filter: Option<String>,
        position: Option<Double>,
        temperature: Option<Double>,
    },
    SafetyChanged { is_safe: bool },
    RotatorMoveStarted {
        position: Option<Double>,
        mechanical_position: Option<Double>,
        motion_id: Option<i64>,
        observed_in_progress: Option<bool>,
    },
    /// A rotator move, logical or mechanical by the event's name, in degrees.
    RotatorMoved {
        from: Option<Double>,
        to: Option<Double>,
        position: Option<Double>,
        mechanical_from: Option<Double>,
        mechanical_to: Option<Double>,
        mechanical_position: Option<Double>,
        motion_id: Option<i64>,
        duration_seconds: Option<Double>,
        end_detection: Option<String>,
        observed_in_progress: Option<bool>,
    },
    MountSlewStarted {
        from: EventCoordinates,
        target: Option<EventCoordinates>,
        motion_id: Option<i64>,
        observed_in_progress: Option<bool>,
    },
    MountSlewed {
        from: EventCoordinates,
        to: EventCoordinates,
        target: Option<EventCoordinates>,
        motion_id: Option<i64>,
        duration_seconds: Option<Double>,
        end_detection: Option<String>,
        observed_in_progress: Option<bool>,
    },
    /// A dome slew, in degrees of azimuth.
    DomeSlewed { from: Double, to: Double },
    SequenceEntityFailed { entity: String, entity_type: String, error: String },
    SequenceFinished { outcome: String, status: String, had_failures: bool },
    ImageSaveFailed { stage: String, disk_full: bool, error: String },
    FlatBrightnessChanged { previous: i32, new: i32 },
    FlatLightToggled { on: Option<bool> },
    WeatherChanged { changed_fields: String, summary: Option<String>, conditions: WeatherConditions },
    WeatherHighWind {
        is_high_wind: bool,
        threshold_meters_per_second: Option<Double>,
        conditions: WeatherConditions,
    },
    /// A command that was accepted and failed later.
    CommandFailed { command: String, error: String },
    NinaNotification { level: String, header: String, message: String },
    NinaLog { level: String, source: String, member: String, line: i32, message: String },
    /// The fields of an event that has no typed form, kept as they came.
    Unknown(Vec<JsonField>),
}

/// An event of the controller's history.
#[derive(Debug)]
pub struct Event {
    pub time: String,
    pub event: String,
    pub chat_enabled: bool,
    pub details: Option<EventDetails>,
}

/// A page of the controller's history.
#[derive(Debug)]
pub struct EventHistoryResponse {
    pub response: Vec<Event>,
    pub error: String,
    pub status_code: i32,
    pub success: bool,
    pub response_type: String,
}

/// The delivery switch that governs an event.
#[derive(Clone, Copy, Debug, PartialEq, Eq, Hash, Structural)]
pub enum EventDeliveryScope {
    Images,
    Autofocus,
    Guiding,
    Mount,
    SlewMotion,
    Sequence,
    Safety,
    TargetScheduler,
    FilterFocuserRotator,
    RotatorMotion,
    EquipmentConnections,
    Observatory,
    WeatherChanges,
    HighWindAlerts,
    CommandFailures,
    NinaNotifications,
    NinaLogs,
    Other,
}

/// The name of a device's connection or disconnection.
pub open spec fn connection_name(event: Seq<char>) -> bool {
    has_suffix(event, "-CONNECTED"@) || has_suffix(event, "-DISCONNECTED"@)
}

/// The delivery switch that governs events of this name.
pub open spec fn scope_of(event: Seq<char>) -> EventDeliveryScope {
    if event == NINA_NOTIFICATION@ {
        EventDeliveryScope::NinaNotifications
    } else if event == NINA_LOG@ {
        EventDeliveryScope::NinaLogs
    } else if event == MOUNT_SLEW_STARTED@ {
        EventDeliveryScope::SlewMotion
    } else if event == ROTATOR_MOVE_STARTED@ {
        EventDeliveryScope::RotatorMotion
    } else if event == WEATHER_CHANGED@ {
        EventDeliveryScope::WeatherChanges
    } else if event == WEATHER_HIGH_WIND@ {
        EventDeliveryScope::HighWindAlerts
    } else if has_prefix(event, "TS-"@) {
        EventDeliveryScope::TargetScheduler
    } else if has_prefix(event, "SEQUENCE-"@) {
        EventDeliveryScope::Sequence
    } else if has_prefix(event, "SAFETY-"@) {
        EventDeliveryScope::Safety
    } else if event == CHATSTRONOMY_COMMAND_FAILED@ {
        EventDeliveryScope::CommandFailures
    } else if has_prefix(event, "IMAGE-"@) || event == API_CAPTURE_FINISHED@ || event
        == CAMERA_DOWNLOAD_TIMEOUT@ {
        EventDeliveryScope::Images
    } else if has_prefix(event, "AUTOFOCUS-"@) || event == ERROR_AF@ {
        EventDeliveryScope::Autofocus
    } else if connection_name(event) {
        EventDeliveryScope::EquipmentConnections
    } else if has_prefix(event, "GUIDER-"@) {
        EventDeliveryScope::Guiding
    } else if has_prefix(event, "MOUNT-"@) || event == ERROR_PLATESOLVE@ {
        EventDeliveryScope::Mount
    } else if has_prefix(event, "FILTERWHEEL-"@) || has_prefix(event, "ROTATOR-"@) || has_prefix(
        event,
        "FOCUSER-"@,
    ) {
        EventDeliveryScope::FilterFocuserRotator
    } else if has_prefix(event, "DOME-"@) || has_prefix(event, "FLAT-"@) {
        EventDeliveryScope::Observatory
    } else {
        EventDeliveryScope::Other
    }
}

pub fn is_connection_name(event: &str) -> (r: bool)
    ensures
        r == connection_name(event@),
{
    ends_with(event, "-CONNECTED") || ends_with(event, "-DISCONNECTED")
}

pub fn event_delivery_scope(event: &str) -> (r: EventDeliveryScope)
    ensures
        r == scope_of(event@),
{
    if same(event, NINA_NOTIFICATION) {
        return EventDeliveryScope::NinaNotifications;
    }
    if same(event, NINA_LOG) {
        return EventDeliveryScope::NinaLogs;
    }
    if same(event, MOUNT_SLEW_STARTED) {
        return EventDeliveryScope::SlewMotion;
    }
    if same(event, ROTATOR_MOVE_STARTED) {
        return EventDeliveryScope::RotatorMotion;
    }
    if same(event, WEATHER_CHANGED) {
        return EventDeliveryScope::WeatherChanges;
    }
    if same(event, WEATHER_HIGH_WIND) {
        return EventDeliveryScope::HighWindAlerts;
    }
    if starts_with(event, "TS-") {
        return EventDeliveryScope::TargetScheduler;
    }
    if starts_with(event, "SEQUENCE-") {
        return EventDeliveryScope::Sequence;
    }
    if starts_with(event, "SAFETY-") {
        return EventDeliveryScope::Safety;
    }
    if same(event, CHATSTRONOMY_COMMAND_FAILED) {
        return EventDeliveryScope::CommandFailures;
    }
    if starts_with(event, "IMAGE-") || same(event, API_CAPTURE_FINISHED) || same(
        event,
        CAMERA_DOWNLOAD_TIMEOUT,
    ) {
        return EventDeliveryScope::Images;
    }
    if starts_with(event, "AUTOFOCUS-") || same(event, ERROR_AF) {
        return EventDeliveryScope::Autofocus;
    }
    if is_connection_name(event) {
        return EventDeliveryScope::EquipmentConnections;
    }
    if starts_with(event, "GUIDER-") {
        return EventDeliveryScope::Guiding;
    }
    if starts_with(event, "MOUNT-") || same(event, ERROR_PLATESOLVE) {
        return EventDeliveryScope::Mount;
    }
    if starts_with(event, "FILTERWHEEL-") || starts_with(event, "ROTATOR-") || starts_with(
        event,
        "FOCUSER-",
    ) {
        return EventDeliveryScope::FilterFocuserRotator;
    }
    if starts_with(event, "DOME-") || starts_with(event, "FLAT-") {
        return EventDeliveryScope::Observatory;
    }
    EventDeliveryScope::Other
}

impl Event {
    /// The event tells of a device's connection or disconnection.
    pub fn is_connection_event(&self) -> (r: bool)
        ensures
            r == connection_name(self.event@),
    {
        is_connection_name(self.event.as_str())
    }

    pub open spec fn kind(&self) -> EventKind {
        kind_of(self.event@)
    }

    pub open spec fn scope(&self) -> EventDeliveryScope {
        scope_of(self.event@)
    }
}


/// The events of the given name, in order.
pub open spec fn named(events: Seq<Event>, name: Seq<char>) -> Seq<Event>
    decreases events.len(),
{
    if events.len() == 0 {
        events
    } else if events.last().event@ == name {
        named(events.drop_last(), name).push(events.last())
    } else {
        named(events.drop_last(), name)
    }
}

/// The events that tell of connections and disconnections, in order.
pub open spec fn connections(events: Seq<Event>) -> Seq<Event>
    decreases events.len(),
{
    if events.len() == 0 {
        events
    } else if connection_name(events.last().event@) {
        connections(events.drop_last()).push(events.last())
    } else {
        connections(events.drop_last())
    }
}

/// What a list of references refers to.
pub open spec fn referents(events: Seq<&Event>) -> Seq<Event> {
    events.map_values(|e: &Event| *e)
}

impl EventHistoryResponse {
    /// The events of one type.
    pub fn get_events_by_type(&self, event_type: &str) -> (r: Vec<&Event>)
        ensures
            referents(r@) == named(self.response@, event_type@),
    {
        let mut out: Vec<&Event> = Vec::new();
        let mut i: usize = 0;
        assert(referents(out@) =~= self.response@.subrange(0, 0));
        while i < self.response.len()
            invariant
                i <= self.response@.len(),
                referents(out@) == named(self.response@.subrange(0, i as int), event_type@),
            decreases self.response@.len() - i,
        {
            let event = &self.response[i];
            proof {
                let now = self.response@.subrange(0, i + 1);
                assert(now.drop_last() =~= self.response@.subrange(0, i as int));
                assert(referents(out@.push(event)) =~= referents(out@).push(*event));
            }
            if same(event.event.as_str(), event_type) {
                out.push(event);
            }
            i += 1;
        }
        assert(self.response@.subrange(0, i as int) =~= self.response@);
        out
    }

    /// The filter changes.
    pub fn get_filterwheel_changes(&self) -> (r: Vec<&Event>)
        ensures
            referents(r@) == named(self.response@, FILTERWHEEL_CHANGED@),
    {
        self.get_events_by_type(FILTERWHEEL_CHANGED)
    }

    /// The saved images.
    pub fn get_image_saves(&self) -> (r: Vec<&Event>)
        ensures
            referents(r@) == named(self.response@, IMAGE_SAVE@),
    {
        self.get_events_by_type(IMAGE_SAVE)
    }

    /// The connections and disconnections.
    pub fn get_connection_events(&self) -> (r: Vec<&Event>)
        ensures
            referents(r@) == connections(self.response@),
    {
        let mut out: Vec<&Event> = Vec::new();
        let mut i: usize = 0;
        assert(referents(out@) =~= self.response@.subrange(0, 0));
        while i < self.response.len()
            invariant
                i <= self.response@.len(),
                referents(out@) == connections(self.response@.subrange(0, i as int)),
            decreases self.response@.len() - i,
        {
            let event = &self.response[i];
            proof {
                let now = self.response@.subrange(0, i + 1);
                assert(now.drop_last() =~= self.response@.subrange(0, i as int));
                assert(referents(out@.push(event)) =~= referents(out@).push(*event));
            }
            if event.is_connection_event() {
                out.push(event);
            }
            i += 1;
        }
        assert(self.response@.subrange(0, i as int) =~= self.response@);
        out
    }

    /// How often each type occurs.
    pub fn count_events_by_type(&self) -> (r: StringHashMap<usize>)
        ensures
            forall|name: Seq<char>| #[trigger]
                r@.contains_key(name) == (named(self.response@, name).len() > 0),
            forall|name: Seq<char>| #[trigger]
                r@.contains_key(name) ==> r@[name] == named(self.response@, name).len(),
    {
        let mut counts: StringHashMap<usize> = StringHashMap::new();
        let mut i: usize = 0;
        let ghost none = self.response@.subrange(0, 0);
        assert(forall|name: Seq<char>| #[trigger] named(none, name).len() == 0);
        while i < self.response.len()
            invariant
                i <= self.response@.len(),
                forall|name: Seq<char>| #[trigger]
                    counts@.contains_key(name) == (named(
                        self.response@.subrange(0, i as int),
                        name,
                    ).len() > 0),
                forall|name: Seq<char>| #[trigger]
                    counts@.contains_key(name) ==> counts@[name] == named(
                        self.response@.subrange(0, i as int),
                        name,
                    ).len() && counts@[name] <= i,
            decreases self.response@.len() - i,
        {
            let event = &self.response[i];
            proof {
                let now = self.response@.subrange(0, i + 1);
                assert(now.drop_last() =~= self.response@.subrange(0, i as int));
                assert(now.last() == *event);
            }
            let count: usize = match counts.get(event.event.as_str()) {
                Some(n) => *n,
                None => 0,
            };
            counts.insert(event.event.clone(), count + 1);
            i += 1;
        }
        assert(self.response@.subrange(0, i as int) =~= self.response@);
        counts
    }
}

} // verus!
