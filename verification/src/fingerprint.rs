//! A text that changes where the status message should be posted anew.

use vstd::prelude::*;
use crate::calendar::{elapsed_nanos, since, span_between, Moment, Span};
use crate::double::{Double, SIXTY, TWO};
use crate::events::WeatherConditions;
use crate::sequence::{CameraInfo, SequenceOperationKind, TrackedSequenceOperation};
use crate::text::{
    cat2, cat3, cat5, dec_int, decimal_int, in_order, join, joined, no_texts, opt_view, place,
    push_text, quoted, quoted_text, str_or, view_or, views,
};
use crate::updater_state::{SafetyState, StateView, UpdaterState};

verus! {

/// A number that may be missing.
pub open spec fn opt_number_mark(n: Option<int>) -> Seq<char> {
    match n {
        Some(x) => "Some("@ + dec_int(x) + ")"@,
        None => "None"@,
    }
}

fn opt_number(n: Option<i128>) -> (r: String)
    ensures
        r@ == opt_number_mark(
            match n {
                Some(x) => Some(x as int),
                None => None,
            },
        ),
{
    match n {
        Some(x) => cat3("Some(", decimal_int(x).as_str(), ")"),
        None => String::from_str("None"),
    }
}

/// A truth value.
pub open spec fn bool_mark(b: bool) -> Seq<char> {
    if b {
        "true"@
    } else {
        "false"@
    }
}

fn bool_text(b: bool) -> (r: &'static str)
    ensures
        r@ == bool_mark(b),
{
    if b {
        "true"
    } else {
        "false"
    }
}

/// A truth value that may be missing.
pub open spec fn opt_bool_mark(b: Option<bool>) -> Seq<char> {
    match b {
        Some(x) => "Some("@ + bool_mark(x) + ")"@,
        None => "None"@,
    }
}

fn opt_bool(b: Option<bool>) -> (r: String)
    ensures
        r@ == opt_bool_mark(b),
{
    match b {
        Some(x) => cat3("Some(", bool_text(x), ")"),
        None => String::from_str("None"),
    }
}

/// A text that may be missing.
pub open spec fn opt_text_mark(t: Option<Seq<char>>) -> Seq<char> {
    match t {
        Some(x) => "Some("@ + quoted_text(x) + ")"@,
        None => "None"@,
    }
}

fn opt_quoted(t: &Option<String>) -> (r: String)
    ensures
        r@ == opt_text_mark(opt_view(*t)),
{
    match t {
        Some(x) => cat3("Some(", quoted(x.as_str()).as_str(), ")"),
        None => String::from_str("None"),
    }
}

/// A double that may be missing.
pub open spec fn opt_double_mark(x: Option<Double>) -> Seq<char> {
    match x {
        Some(v) => "Some("@ + v.shortest_text() + ")"@,
        None => "None"@,
    }
}

fn opt_double(x: Option<Double>) -> (r: String)
    ensures
        r@ == opt_double_mark(x),
{
    match x {
        Some(v) => cat3("Some(", v.shortest().as_str(), ")"),
        None => String::from_str("None"),
    }
}

/// Weather readings, each with its name.
pub open spec fn reading_marks(c: WeatherConditions) -> Seq<Seq<char>> {
    seq![
        "wind_speed_meters_per_second: "@ + opt_double_mark(c.wind_speed_meters_per_second),
        "wind_gust_meters_per_second: "@ + opt_double_mark(c.wind_gust_meters_per_second),
        "wind_direction_degrees: "@ + opt_double_mark(c.wind_direction_degrees),
        "temperature_celsius: "@ + opt_double_mark(c.temperature_celsius),
        "dew_point_celsius: "@ + opt_double_mark(c.dew_point_celsius),
        "humidity_percent: "@ + opt_double_mark(c.humidity_percent),
        "pressure_hectopascals: "@ + opt_double_mark(c.pressure_hectopascals),
        "cloud_cover_percent: "@ + opt_double_mark(c.cloud_cover_percent),
        "rain_rate_millimeters_per_hour: "@ + opt_double_mark(
            c.rain_rate_millimeters_per_hour,
        ),
        "sky_temperature_celsius: "@ + opt_double_mark(c.sky_temperature_celsius),
        "sky_brightness_lux: "@ + opt_double_mark(c.sky_brightness_lux),
        "sky_quality_magnitudes_per_square_arcsecond: "@ + opt_double_mark(
            c.sky_quality_magnitudes_per_square_arcsecond,
        ),
        "star_fwhm_arcseconds: "@ + opt_double_mark(c.star_fwhm_arcseconds),
    ]
}

/// Weather readings that may be missing.
pub open spec fn weather_mark(w: Option<WeatherConditions>) -> Seq<char> {
    match w {
        None => "None"@,
        Some(c) => "Some(WeatherConditions { "@ + joined(reading_marks(c), ", "@) + " })"@,
    }
}

fn reading(name: &str, value: Option<Double>) -> (r: String)
    ensures
        r@ == name@ + opt_double_mark(value),
{
    cat2(name, opt_double(value).as_str())
}

fn readings(c: &WeatherConditions) -> (r: Vec<String>)
    ensures
        views(r@) == reading_marks(*c),
{
    let mut parts = no_texts();
    push_text(
        &mut parts,
        reading("wind_speed_meters_per_second: ", c.wind_speed_meters_per_second),
    );
    push_text(&mut parts, reading("wind_gust_meters_per_second: ", c.wind_gust_meters_per_second));
    push_text(&mut parts, reading("wind_direction_degrees: ", c.wind_direction_degrees));
    push_text(&mut parts, reading("temperature_celsius: ", c.temperature_celsius));
    push_text(&mut parts, reading("dew_point_celsius: ", c.dew_point_celsius));
    push_text(&mut parts, reading("humidity_percent: ", c.humidity_percent));
    push_text(&mut parts, reading("pressure_hectopascals: ", c.pressure_hectopascals));
    push_text(&mut parts, reading("cloud_cover_percent: ", c.cloud_cover_percent));
    push_text(
        &mut parts,
        reading("rain_rate_millimeters_per_hour: ", c.rain_rate_millimeters_per_hour),
    );
    push_text(&mut parts, reading("sky_temperature_celsius: ", c.sky_temperature_celsius));
    push_text(&mut parts, reading("sky_brightness_lux: ", c.sky_brightness_lux));
    push_text(
        &mut parts,
        reading(
            "sky_quality_magnitudes_per_square_arcsecond: ",
            c.sky_quality_magnitudes_per_square_arcsecond,
        ),
    );
    push_text(&mut parts, reading("star_fwhm_arcseconds: ", c.star_fwhm_arcseconds));
    assert(views(parts@) =~= reading_marks(*c));
    parts
}

fn weather(w: &Option<WeatherConditions>) -> (r: String)
    ensures
        r@ == weather_mark(*w),
{
    match w {
        None => String::from_str("None"),
        Some(c) => cat3(
            "Some(WeatherConditions { ",
            join(&readings(c), ", ").as_str(),
            " })",
        ),
    }
}

pub open spec fn safety_mark(s: SafetyState) -> Seq<char> {
    match s {
        SafetyState::Unknown => "Unknown"@,
        SafetyState::ConnectedUnknown => "ConnectedUnknown"@,
        SafetyState::Safe => "Safe"@,
        SafetyState::Unsafe => "Unsafe"@,
        SafetyState::Disconnected => "Disconnected"@,
    }
}

fn safety(s: SafetyState) -> (r: &'static str)
    ensures
        r@ == safety_mark(s),
{
    match s {
        SafetyState::Unknown => "Unknown",
        SafetyState::ConnectedUnknown => "ConnectedUnknown",
        SafetyState::Safe => "Safe",
        SafetyState::Unsafe => "Unsafe",
        SafetyState::Disconnected => "Disconnected",
    }
}

/// The camera's temperature to half a degree.
pub open spec fn half_degrees(camera: Option<CameraInfo>) -> int {
    match camera {
        Some(c) => c.temperature.product(Double { bits: TWO }).rounded_i64(),
        None => i64::MIN as int,
    }
}

fn half_degree_bucket(camera: &Option<CameraInfo>) -> (r: i64)
    ensures
        r == half_degrees(*camera),
{
    match camera {
        Some(c) => c.temperature.times(Double { bits: TWO }).round_i64(),
        None => i64::MIN,
    }
}

/// When the solve was made that an operation shows.
pub open spec fn solve_mark(kind: SequenceOperationKind) -> Seq<char> {
    match crate::sequence::output_of(kind) {
        Some(o) => view_or(o.solve_time, ""@),
        None => ""@,
    }
}

fn solve_time(kind: &SequenceOperationKind) -> (r: String)
    ensures
        r@ == solve_mark(*kind),
{
    match crate::sequence::operation_plate_solve_output(kind) {
        Some(o) => String::from_str(str_or(&o.solve_time, "")),
        None => String::from_str(""),
    }
}

/// What about an operation is worth a new status message. Waits count by the minute, temperatures
/// by half a degree.
pub open spec fn bucket_mark(t: TrackedSequenceOperation, now: Moment) -> Seq<char> {
    match t.operation.kind {
        SequenceOperationKind::TimeWait { .. } => "wait:"@ + dec_int(
            match t.estimated_end {
                Some(end) => span_between(now, end).whole_minutes(),
                None => -1,
            },
        ),
        SequenceOperationKind::CameraCooling { .. } => "cool:"@ + dec_int(half_degrees(t.camera)),
        SequenceOperationKind::CameraWarming { .. } => "warm:"@ + dec_int(half_degrees(t.camera)),
        SequenceOperationKind::MountSlew { coordinates, .. } => "slew:"@ + (match coordinates {
            Some(c) => view_or(c.ra_string, ""@),
            None => ""@,
        }),
        SequenceOperationKind::MountCenter { .. } => "center:"@ + solve_mark(t.operation.kind),
        SequenceOperationKind::PlateSolve { .. } => "solve:"@ + solve_mark(t.operation.kind),
        SequenceOperationKind::AstronomicalWait {
            target_altitude_degrees,
            current_altitude_degrees,
            comparator,
            expected_time,
        } => "astro:"@ + opt_number_mark(bits_of(target_altitude_degrees)) + ":"@
            + opt_number_mark(bits_of(current_altitude_degrees)) + ":"@ + view_or(comparator, ""@)
            + ":"@ + view_or(expected_time, ""@),
        SequenceOperationKind::SafetyWait { is_safe, .. } => "safety:"@ + (match is_safe {
            Some(true) => "safe"@,
            Some(false) => "unsafe"@,
            None => "disconnected"@,
        }),
        SequenceOperationKind::ConditionWait { wait_interval } => "condition:"@ + dec_int(
            match wait_interval {
                Some(span) => span.whole_seconds(),
                None => -1,
            },
        ),
        SequenceOperationKind::ManualWait => "manual"@,
    }
}

pub open spec fn bits_of(x: Option<Double>) -> Option<int> {
    match x {
        Some(v) => Some(v.bits as int),
        None => None,
    }
}

fn bits(x: Option<Double>) -> (r: Option<i128>)
    ensures
        bits_of(x) == (match r {
            Some(n) => Some(n as int),
            None => None,
        }),
{
    match x {
        Some(v) => Some(v.bits as i128),
        None => None,
    }
}

fn bucket(t: &TrackedSequenceOperation, now: Moment) -> (r: String)
    requires
        t.wf(),
        now.wf(),
    ensures
        r@ == bucket_mark(*t, now),
{
    match &t.operation.kind {
        SequenceOperationKind::TimeWait { .. } => {
            let minutes: i64 = match t.estimated_end {
                Some(end) => since(end, now).num_minutes(),
                None => -1,
            };
            cat2("wait:", decimal_int(minutes as i128).as_str())
        },
        SequenceOperationKind::CameraCooling { .. } => {
            let n: i64 = half_degree_bucket(&t.camera);
            cat2("cool:", decimal_int(n as i128).as_str())
        },
        SequenceOperationKind::CameraWarming { .. } => {
            let n: i64 = half_degree_bucket(&t.camera);
            cat2("warm:", decimal_int(n as i128).as_str())
        },
        SequenceOperationKind::MountSlew { coordinates, .. } => match coordinates {
            Some(c) => cat2("slew:", str_or(&c.ra_string, "")),
            None => cat2("slew:", ""),
        },
        SequenceOperationKind::MountCenter { .. } => cat2(
            "center:",
            solve_time(&t.operation.kind).as_str(),
        ),
        SequenceOperationKind::PlateSolve { .. } => cat2(
            "solve:",
            solve_time(&t.operation.kind).as_str(),
        ),
        SequenceOperationKind::AstronomicalWait {
            target_altitude_degrees,
            current_altitude_degrees,
            comparator,
            expected_time,
        } => {
            let mut out = cat5(
                "astro:",
                opt_number(bits(*target_altitude_degrees)).as_str(),
                ":",
                opt_number(bits(*current_altitude_degrees)).as_str(),
                ":",
            );
            out.append(str_or(comparator, ""));
            out.append(":");
            out.append(str_or(expected_time, ""));
            out
        },
        SequenceOperationKind::SafetyWait { is_safe, .. } => cat2(
            "safety:",
            match is_safe {
                Some(safe) => if *safe {
                    "safe"
                } else {
                    "unsafe"
                },
                None => "disconnected",
            },
        ),
        SequenceOperationKind::ConditionWait { wait_interval } => {
            let seconds: i64 = match wait_interval {
                Some(span) => span.num_seconds(),
                None => -1,
            };
            cat2("condition:", decimal_int(seconds as i128).as_str())
        },
        SequenceOperationKind::ManualWait => String::from_str("manual"),
    }
}

/// The marks of the operations that are delivered, before they are put in order.
pub open spec fn operation_marks(running: Seq<TrackedSequenceOperation>, now: Moment) -> Seq<
    Seq<char>,
>
    decreases running.len(),
{
    if running.len() == 0 {
        Seq::empty()
    } else {
        let before = operation_marks(running.drop_last(), now);
        let t = running.last();
        if t.operation.chat_enabled {
            before.push(t.operation.key@ + ":"@ + bucket_mark(t, now))
        } else {
            before
        }
    }
}

/// The wait of the scheduler, by the minute.
pub open spec fn wait_mark(s: StateView, now: Moment) -> Seq<char> {
    match s.scheduler_wait {
        None => "none"@,
        Some(end) => if elapsed_nanos(now, end) > 0 {
            "pending:"@ + dec_int(span_between(now, end).whole_minutes())
        } else {
            "scheduled-time-reached"@
        },
    }
}

pub open spec fn target_name_mark(s: StateView) -> Seq<char> {
    match s.current_target {
        Some(t) => t.name@,
        None => ""@,
    }
}

pub open spec fn target_end_mark(s: StateView) -> int {
    match s.current_target {
        Some(t) => match t.target_end_time {
            Some(end) => end.moment.seconds as int,
            None => 0,
        },
        None => 0,
    }
}

/// The minutes until the meridian flip.
pub open spec fn flip_mark(s: StateView) -> int {
    match s.meridian_flip_time {
        Some(h) => h.product(Double { bits: SIXTY }).rounded_i64(),
        None => -1,
    }
}

pub open spec fn opt_or(t: Option<Seq<char>>, fallback: Seq<char>) -> Seq<char> {
    match t {
        Some(x) => x,
        None => fallback,
    }
}

/// Everything that drives the status message. The position of the mount is left out: it drifts
/// all the time.
pub open spec fn marks(s: StateView, now: Moment) -> Seq<Seq<char>> {
    let ops = in_order(operation_marks(s.board.running, now));
    seq![
        "t="@ + target_name_mark(s),
        "te="@ + dec_int(target_end_mark(s)),
        "f="@ + (match s.last_filter {
            Some(f) => f.name@,
            None => ""@,
        }),
        "m="@ + opt_or(s.last_mount_event, ""@),
        "g="@ + opt_or(s.last_guider_event, ""@),
        "w="@ + wait_mark(s, now),
        "sr="@ + bool_mark(s.sequence_running),
        "sf="@ + (match s.sequence_failure {
            Some(f) => f.error,
            None => ""@,
        }),
        "so="@ + opt_text_mark(s.sequence_outcome),
        "safe="@ + safety_mark(s.safety_state),
        "dc="@ + opt_bool_mark(s.dome_connected),
        "dso="@ + opt_bool_mark(s.dome_shutter_open),
        "daz="@ + opt_double_mark(s.dome_azimuth),
        "dp="@ + opt_bool_mark(s.dome_parked),
        "dh="@ + opt_bool_mark(s.dome_homed),
        "fc="@ + opt_bool_mark(s.flat_connected),
        "fcs="@ + opt_text_mark(s.flat_cover_state),
        "fl="@ + opt_bool_mark(s.flat_light_on),
        "fb="@ + opt_number_mark(
            match s.flat_brightness {
                Some(n) => Some(n as int),
                None => None,
            },
        ),
        "wc="@ + opt_bool_mark(s.weather_connected),
        "wx="@ + weather_mark(s.weather_conditions),
        "wh="@ + opt_bool_mark(s.weather_high_wind),
        "whx="@ + weather_mark(s.weather_high_wind_conditions),
        "wht="@ + opt_double_mark(s.weather_high_wind_threshold_meters_per_second),
        "sw="@ + opt_bool_mark(s.switch_connected),
        "flip="@ + dec_int(flip_mark(s)),
        "ops="@ + joined(ops, ","@),
    ]
}

/// The text that changes where the status message should be posted anew.
pub open spec fn fingerprint(s: StateView, now: Moment) -> Seq<char> {
    joined(marks(s, now), "|"@)
}

impl UpdaterState {
    fn operations_mark(&self, now: Moment) -> (r: String)
        requires
            self.wf(),
            now.wf(),
        ensures
            r@ == joined(in_order(operation_marks(self.board.running@, now)), ","@),
    {
        let mut list = no_texts();
        let mut i: usize = 0;
        let ghost all = self.board.running@;
        assert(all.subrange(0, 0) =~= Seq::<TrackedSequenceOperation>::empty());
        while i < self.board.running.len()
            invariant
                i <= self.board.running@.len(),
                all == self.board.running@,
                self.wf(),
                now.wf(),
                views(list@) == in_order(operation_marks(all.subrange(0, i as int), now)),
            decreases self.board.running@.len() - i,
        {
            let t = &self.board.running[i];
            proof {
                let seen = all.subrange(0, i + 1);
                assert(seen.drop_last() =~= all.subrange(0, i as int));
                assert(seen.last() == *t);
                let before = operation_marks(all.subrange(0, i as int), now);
                let mark = t.operation.key@ + ":"@ + bucket_mark(*t, now);
                assert(before.push(mark).drop_last() =~= before);
                assert(before.push(mark).last() == mark);
            }
            if t.operation.chat_enabled {
                let text = cat3(t.operation.key.as_str(), ":", bucket(t, now).as_str());
                place(&mut list, text);
            }
            i += 1;
        }
        assert(all.subrange(0, i as int) =~= all);
        join(&list, ",")
    }

    fn first_marks(&self, now: Moment) -> (r: Vec<String>)
        requires
            self.wf(),
            now.wf(),
        ensures
            views(r@) == marks(self@, now).subrange(0, 10),
    {
        let mut parts = no_texts();
        let target: &str = match &self.current_target {
            Some(t) => t.name.as_str(),
            None => "",
        };
        push_text(&mut parts, cat2("t=", target));
        let end: i64 = match &self.current_target {
            Some(t) => match t.target_end_time {
                Some(end) => end.moment.seconds,
                None => 0,
            },
            None => 0,
        };
        push_text(&mut parts, cat2("te=", decimal_int(end as i128).as_str()));
        let filter: &str = match &self.last_filter {
            Some(f) => f.name.as_str(),
            None => "",
        };
        push_text(&mut parts, cat2("f=", filter));
        push_text(&mut parts, cat2("m=", str_or(&self.last_mount_event, "")));
        push_text(&mut parts, cat2("g=", str_or(&self.last_guider_event, "")));
        let wait = match self.scheduler_wait {
            None => String::from_str("none"),
            Some(end) => {
                let left: Span = since(end, now);
                if left.nanos > 0 {
                    let minutes: i64 = left.num_minutes();
                    cat2("pending:", decimal_int(minutes as i128).as_str())
                } else {
                    String::from_str("scheduled-time-reached")
                }
            },
        };
        push_text(&mut parts, cat2("w=", wait.as_str()));
        push_text(&mut parts, cat2("sr=", bool_text(self.sequence_running)));
        let failure: &str = match &self.sequence_failure {
            Some(f) => f.error.as_str(),
            None => "",
        };
        push_text(&mut parts, cat2("sf=", failure));
        push_text(&mut parts, cat2("so=", opt_quoted(&self.sequence_outcome).as_str()));
        push_text(&mut parts, cat2("safe=", safety(self.safety_state)));
        assert(views(parts@) =~= marks(self@, now).subrange(0, 10));
        parts
    }

    /// The text that changes where the status message should be posted anew.
    pub fn status_fingerprint(&self, now: Moment) -> (r: String)
        requires
            self.wf(),
            now.wf(),
        ensures
            r@ == fingerprint(self@, now),
    {
        let mut parts = self.first_marks(now);
        push_text(&mut parts, cat2("dc=", opt_bool(self.dome_connected).as_str()));
        push_text(&mut parts, cat2("dso=", opt_bool(self.dome_shutter_open).as_str()));
        push_text(&mut parts, cat2("daz=", opt_double(self.dome_azimuth).as_str()));
        push_text(&mut parts, cat2("dp=", opt_bool(self.dome_parked).as_str()));
        push_text(&mut parts, cat2("dh=", opt_bool(self.dome_homed).as_str()));
        push_text(&mut parts, cat2("fc=", opt_bool(self.flat_connected).as_str()));
        push_text(&mut parts, cat2("fcs=", opt_quoted(&self.flat_cover_state).as_str()));
        push_text(&mut parts, cat2("fl=", opt_bool(self.flat_light_on).as_str()));
        let brightness: Option<i128> = match self.flat_brightness {
            Some(n) => Some(n as i128),
            None => None,
        };
        push_text(&mut parts, cat2("fb=", opt_number(brightness).as_str()));
        push_text(&mut parts, cat2("wc=", opt_bool(self.weather_connected).as_str()));
        push_text(&mut parts, cat2("wx=", weather(&self.weather_conditions).as_str()));
        push_text(&mut parts, cat2("wh=", opt_bool(self.weather_high_wind).as_str()));
        push_text(&mut parts, cat2("whx=", weather(&self.weather_high_wind_conditions).as_str()));
        push_text(
            &mut parts,
            cat2(
                "wht=",
                opt_double(self.weather_high_wind_threshold_meters_per_second).as_str(),
            ),
        );
        push_text(&mut parts, cat2("sw=", opt_bool(self.switch_connected).as_str()));
        let flip: i64 = match self.meridian_flip_time {
            Some(h) => h.times(Double { bits: SIXTY }).round_i64(),
            None => -1,
        };
        push_text(&mut parts, cat2("flip=", decimal_int(flip as i128).as_str()));
        push_text(&mut parts, cat2("ops=", self.operations_mark(now).as_str()));
        assert(views(parts@) =~= marks(self@, now));
        join(&parts, "|")
    }
}

} // verus!
