//! Long-running operations of the imaging sequence, and how far they have come.

use std::sync::Arc;
use vstd::prelude::*;
use crate::calendar::{
    after, can_step, elapsed_nanos, since, span_between, spans_are_what_was_stepped, stepped,
    Moment, Span, FIRST_SECOND, LAST_SECOND, MAX_SPAN_NANOS,
};
use crate::double::{Double, HUNDRED, ONE, TENTH};
use crate::double_order::{hundredths_are_percents, percent_of, percents_grow};
use crate::events::EventCoordinates;
use crate::text::{clone_opt, eq_ignore_ascii_case, same_ignoring_case};

verus! {

/// What a plate solve found.
#[derive(Debug)]
pub struct PlateSolveOutput {
    pub solve_time: Option<String>,
    pub success: Option<bool>,
    pub coordinates: Option<EventCoordinates>,
    pub position_angle: Option<Double>,
    pub pixel_scale: Option<Double>,
    pub radius_degrees: Option<Double>,
    pub separation_arcseconds: Option<Double>,
    pub ra_error: Option<String>,
    pub dec_error: Option<String>,
    pub ra_pixel_error: Option<Double>,
    pub dec_pixel_error: Option<Double>,
    pub flipped: Option<bool>,
    pub thumbnail: Option<Arc<Vec<u8>>>,
    pub thumbnail_media_type: Option<String>,
}

/// `Arc::clone`: another handle of the same value.
#[verifier::external_body]
fn share(picture: &Arc<Vec<u8>>) -> (r: Arc<Vec<u8>>)
    ensures
        r == *picture,
{
    picture.clone()
}

pub fn copy_position(c: &Option<EventCoordinates>) -> (r: Option<EventCoordinates>)
    ensures
        r == *c,
{
    match c {
        Some(x) => Some(x.copy()),
        None => None,
    }
}

impl PlateSolveOutput {
    pub fn copy(&self) -> (r: PlateSolveOutput)
        ensures
            r == *self,
    {
        PlateSolveOutput {
            solve_time: clone_opt(&self.solve_time),
            success: self.success,
            coordinates: copy_position(&self.coordinates),
            position_angle: self.position_angle,
            pixel_scale: self.pixel_scale,
            radius_degrees: self.radius_degrees,
            separation_arcseconds: self.separation_arcseconds,
            ra_error: clone_opt(&self.ra_error),
            dec_error: clone_opt(&self.dec_error),
            ra_pixel_error: self.ra_pixel_error,
            dec_pixel_error: self.dec_pixel_error,
            flipped: self.flipped,
            thumbnail: match &self.thumbnail {
                Some(picture) => Some(share(picture)),
                None => None,
            },
            thumbnail_media_type: clone_opt(&self.thumbnail_media_type),
        }
    }
}

pub fn copy_output(o: &Option<PlateSolveOutput>) -> (r: Option<PlateSolveOutput>)
    ensures
        r == *o,
{
    match o {
        Some(x) => Some(x.copy()),
        None => None,
    }
}

/// The kinds of operations that are followed.
#[allow(inconsistent_fields)]
#[derive(Debug)]
pub enum SequenceOperationKind {
    TimeWait { target_time: Option<Moment>, configured_duration: Option<Span> },
    CameraCooling { target_temperature: Double, minimum_duration: Option<Span> },
    CameraWarming { minimum_duration: Option<Span> },
    MountSlew { coordinates: Option<EventCoordinates>, may_be_center: bool },
    MountCenter {
        coordinates: Option<EventCoordinates>,
        rotation: Option<Double>,
        output: Option<PlateSolveOutput>,
    },
    PlateSolve {
        coordinates: Option<EventCoordinates>,
        rotation: Option<Double>,
        output: Option<PlateSolveOutput>,
    },
    AstronomicalWait {
        target_altitude_degrees: Option<Double>,
        current_altitude_degrees: Option<Double>,
        comparator: Option<String>,
        expected_time: Option<String>,
    },
    SafetyWait { is_safe: Option<bool>, wait_interval: Option<Span> },
    ConditionWait { wait_interval: Option<Span> },
    ManualWait,
}

/// Kinds without what they carry.
#[derive(Clone, Copy, Debug, PartialEq, Eq, Structural)]
pub enum OperationClass {
    TimeWait,
    CameraCooling,
    CameraWarming,
    MountSlew,
    MountCenter,
    PlateSolve,
    AstronomicalWait,
    SafetyWait,
    ConditionWait,
    ManualWait,
}

pub open spec fn class_of(kind: SequenceOperationKind) -> OperationClass {
    match kind {
        SequenceOperationKind::TimeWait { .. } => OperationClass::TimeWait,
        SequenceOperationKind::CameraCooling { .. } => OperationClass::CameraCooling,
        SequenceOperationKind::CameraWarming { .. } => OperationClass::CameraWarming,
        SequenceOperationKind::MountSlew { .. } => OperationClass::MountSlew,
        SequenceOperationKind::MountCenter { .. } => OperationClass::MountCenter,
        SequenceOperationKind::PlateSolve { .. } => OperationClass::PlateSolve,
        SequenceOperationKind::AstronomicalWait { .. } => OperationClass::AstronomicalWait,
        SequenceOperationKind::SafetyWait { .. } => OperationClass::SafetyWait,
        SequenceOperationKind::ConditionWait { .. } => OperationClass::ConditionWait,
        SequenceOperationKind::ManualWait => OperationClass::ManualWait,
    }
}

/// The operation heats or cools the camera.
pub open spec fn thermal(kind: SequenceOperationKind) -> bool {
    kind is CameraCooling || kind is CameraWarming
}

impl SequenceOperationKind {
    pub fn class(&self) -> (r: OperationClass)
        ensures
            r == class_of(*self),
    {
        match self {
            SequenceOperationKind::TimeWait { .. } => OperationClass::TimeWait,
            SequenceOperationKind::CameraCooling { .. } => OperationClass::CameraCooling,
            SequenceOperationKind::CameraWarming { .. } => OperationClass::CameraWarming,
            SequenceOperationKind::MountSlew { .. } => OperationClass::MountSlew,
            SequenceOperationKind::MountCenter { .. } => OperationClass::MountCenter,
            SequenceOperationKind::PlateSolve { .. } => OperationClass::PlateSolve,
            SequenceOperationKind::AstronomicalWait { .. } => OperationClass::AstronomicalWait,
            SequenceOperationKind::SafetyWait { .. } => OperationClass::SafetyWait,
            SequenceOperationKind::ConditionWait { .. } => OperationClass::ConditionWait,
            SequenceOperationKind::ManualWait => OperationClass::ManualWait,
        }
    }

    pub fn is_thermal(&self) -> (r: bool)
        ensures
            r == thermal(*self),
    {
        match self {
            SequenceOperationKind::CameraCooling { .. } => true,
            SequenceOperationKind::CameraWarming { .. } => true,
            _ => false,
        }
    }

    pub fn copy(&self) -> (r: SequenceOperationKind)
        ensures
            r == *self,
    {
        match self {
            SequenceOperationKind::TimeWait { target_time, configured_duration } => {
                SequenceOperationKind::TimeWait {
                    target_time: *target_time,
                    configured_duration: *configured_duration,
                }
            },
            SequenceOperationKind::CameraCooling { target_temperature, minimum_duration } => {
                SequenceOperationKind::CameraCooling {
                    target_temperature: *target_temperature,
                    minimum_duration: *minimum_duration,
                }
            },
            SequenceOperationKind::CameraWarming { minimum_duration } => {
                SequenceOperationKind::CameraWarming { minimum_duration: *minimum_duration }
            },
            SequenceOperationKind::MountSlew { coordinates, may_be_center } => {
                SequenceOperationKind::MountSlew {
                    coordinates: copy_position(coordinates),
                    may_be_center: *may_be_center,
                }
            },
            SequenceOperationKind::MountCenter { coordinates, rotation, output } => {
                SequenceOperationKind::MountCenter {
                    coordinates: copy_position(coordinates),
                    rotation: *rotation,
                    output: copy_output(output),
                }
            },
            SequenceOperationKind::PlateSolve { coordinates, rotation, output } => {
                SequenceOperationKind::PlateSolve {
                    coordinates: copy_position(coordinates),
                    rotation: *rotation,
                    output: copy_output(output),
                }
            },
            SequenceOperationKind::AstronomicalWait {
                target_altitude_degrees,
                current_altitude_degrees,
                comparator,
                expected_time,
            } => SequenceOperationKind::AstronomicalWait {
                target_altitude_degrees: *target_altitude_degrees,
                current_altitude_degrees: *current_altitude_degrees,
                comparator: clone_opt(comparator),
                expected_time: clone_opt(expected_time),
            },
            SequenceOperationKind::SafetyWait { is_safe, wait_interval } => {
                SequenceOperationKind::SafetyWait {
                    is_safe: *is_safe,
                    wait_interval: *wait_interval,
                }
            },
            SequenceOperationKind::ConditionWait { wait_interval } => {
                SequenceOperationKind::ConditionWait { wait_interval: *wait_interval }
            },
            SequenceOperationKind::ManualWait => SequenceOperationKind::ManualWait,
        }
    }
}

/// An operation as a snapshot of the sequence shows it.
#[derive(Debug)]
pub struct SequenceOperation {
    /// The operation's place in the sequence.
    pub key: String,
    pub name: String,
    pub status: String,
    pub chat_enabled: bool,
    pub kind: SequenceOperationKind,
}

impl SequenceOperation {
    pub open spec fn active(&self) -> bool {
        same_ignoring_case(self.status@, "RUNNING"@)
    }

    pub open spec fn failed(&self) -> bool {
        same_ignoring_case(self.status@, "FAILED"@)
    }

    pub open spec fn finished(&self) -> bool {
        same_ignoring_case(self.status@, "FINISHED"@)
    }

    pub fn is_active(&self) -> (r: bool)
        ensures
            r == self.active(),
    {
        eq_ignore_ascii_case(self.status.as_str(), "RUNNING")
    }

    pub fn is_failed(&self) -> (r: bool)
        ensures
            r == self.failed(),
    {
        eq_ignore_ascii_case(self.status.as_str(), "FAILED")
    }

    pub fn is_finished(&self) -> (r: bool)
        ensures
            r == self.finished(),
    {
        eq_ignore_ascii_case(self.status.as_str(), "FINISHED")
    }

    pub fn copy(&self) -> (r: SequenceOperation)
        ensures
            r == *self,
    {
        SequenceOperation {
            key: self.key.clone(),
            name: self.name.clone(),
            status: self.status.clone(),
            chat_enabled: self.chat_enabled,
            kind: self.kind.copy(),
        }
    }
}

/// The result of the plate solve that an operation made.
pub open spec fn output_of(kind: SequenceOperationKind) -> Option<PlateSolveOutput> {
    match kind {
        SequenceOperationKind::MountCenter { output, .. } => output,
        SequenceOperationKind::PlateSolve { output, .. } => output,
        _ => None,
    }
}

pub open spec fn opt_output(o: Option<&PlateSolveOutput>) -> Option<PlateSolveOutput> {
    match o {
        Some(x) => Some(*x),
        None => None,
    }
}

pub fn operation_plate_solve_output(kind: &SequenceOperationKind) -> (r: Option<&PlateSolveOutput>)
    ensures
        opt_output(r) == output_of(*kind),
{
    match kind {
        SequenceOperationKind::MountCenter { output: Some(output), .. } => Some(output),
        SequenceOperationKind::PlateSolve { output: Some(output), .. } => Some(output),
        _ => None,
    }
}

/// A slew that may be a centering, taken as a centering.
pub open spec fn promoted(kind: SequenceOperationKind) -> SequenceOperationKind {
    match kind {
        SequenceOperationKind::MountSlew { coordinates, may_be_center } => if may_be_center {
            SequenceOperationKind::MountCenter { coordinates, rotation: None, output: None }
        } else {
            kind
        },
        _ => kind,
    }
}

pub open spec fn ambiguous(kind: SequenceOperationKind) -> bool {
    match kind {
        SequenceOperationKind::MountSlew { may_be_center, .. } => may_be_center,
        _ => false,
    }
}

/// Takes a slew that may be a centering as a centering, and tells whether it did.
pub fn promote_ambiguous_slew_to_center(operation: &mut SequenceOperation) -> (r: bool)
    ensures
        r == ambiguous(old(operation).kind),
        *final(operation) == (SequenceOperation {
            kind: promoted(old(operation).kind),
            ..*old(operation)
        }),
{
    let coordinates: Option<EventCoordinates> = match &operation.kind {
        SequenceOperationKind::MountSlew { coordinates, may_be_center } => if *may_be_center {
            copy_position(coordinates)
        } else {
            return false;
        },
        _ => {
            return false;
        },
    };
    operation.kind = SequenceOperationKind::MountCenter {
        coordinates,
        rotation: None,
        output: None,
    };
    true
}

/// The state of the camera.
#[derive(Clone, Debug)]
pub struct CameraInfo {
    pub connected: bool,
    pub can_set_temperature: bool,
    pub cooler_on: bool,
    pub cooler_power: Double,
    pub temperature: Double,
    pub temperature_set_point: Double,
    pub at_target_temp: bool,
    pub name: String,
    pub display_name: String,
}

pub fn copy_camera(camera: &Option<CameraInfo>) -> (r: Option<CameraInfo>)
    ensures
        r == *camera,
{
    match camera {
        Some(c) => Some(
            CameraInfo {
                connected: c.connected,
                can_set_temperature: c.can_set_temperature,
                cooler_on: c.cooler_on,
                cooler_power: c.cooler_power,
                temperature: c.temperature,
                temperature_set_point: c.temperature_set_point,
                at_target_temp: c.at_target_temp,
                name: c.name.clone(),
                display_name: c.display_name.clone(),
            },
        ),
        None => None,
    }
}

/// The camera's temperature, where it has a finite one.
pub open spec fn known_temperature(camera: Option<CameraInfo>) -> Option<Double> {
    match camera {
        Some(c) => if c.temperature.finite() {
            Some(c.temperature)
        } else {
            None
        },
        None => None,
    }
}

pub fn camera_temperature(camera: &Option<CameraInfo>) -> (r: Option<Double>)
    ensures
        r == known_temperature(*camera),
{
    match camera {
        Some(c) => if c.temperature.is_finite() {
            Some(c.temperature)
        } else {
            None
        },
        None => None,
    }
}

/// An operation that is under way.
#[derive(Debug)]
pub struct TrackedSequenceOperation {
    pub operation: SequenceOperation,
    pub started_at: Moment,
    pub estimated_end: Option<Moment>,
    pub initial_temperature: Option<Double>,
    pub camera: Option<CameraInfo>,
    pub last_milestone: u8,
    /// The identity of the plate-solve result seen last.
    pub last_output_key: Option<u64>,
}

/// The span that an operation's end is reckoned by, unless it names its end itself.
pub open spec fn reckoned_span(kind: SequenceOperationKind) -> Option<Span> {
    match kind {
        SequenceOperationKind::TimeWait { target_time, configured_duration } => if target_time
            is Some {
            None
        } else {
            configured_duration
        },
        SequenceOperationKind::CameraWarming { minimum_duration } => minimum_duration,
        _ => None,
    }
}

/// The spans that an operation names are spans of the calendar.
pub open spec fn spans_wf(kind: SequenceOperationKind) -> bool {
    match kind {
        SequenceOperationKind::TimeWait { configured_duration, .. } => configured_duration matches Some(
            s,
        ) ==> s.wf(),
        SequenceOperationKind::CameraCooling { minimum_duration, .. } => minimum_duration matches Some(
            s,
        ) ==> s.wf(),
        SequenceOperationKind::CameraWarming { minimum_duration } => minimum_duration matches Some(
            s,
        ) ==> s.wf(),
        SequenceOperationKind::SafetyWait { wait_interval, .. } => wait_interval matches Some(s)
            ==> s.wf(),
        SequenceOperationKind::ConditionWait { wait_interval } => wait_interval matches Some(s)
            ==> s.wf(),
        _ => true,
    }
}

/// The times and spans that an operation names are those of the calendar.
pub open spec fn kind_wf(kind: SequenceOperationKind) -> bool {
    &&& spans_wf(kind)
    &&& kind matches SequenceOperationKind::TimeWait { target_time: Some(end), .. } ==> end.wf()
}

/// The end that is reckoned for the operation lies in the calendar when it starts at `start`.
pub open spec fn reckonable(kind: SequenceOperationKind, start: Moment) -> bool {
    reckoned_span(kind) matches Some(span) ==> can_step(start, span.nanos as int)
}

/// The operation's times lie in the calendar when it starts at `start`.
pub open spec fn timely(kind: SequenceOperationKind, start: Moment) -> bool {
    kind_wf(kind) && reckonable(kind, start)
}

/// The times lie in the calendar that are reckoned for an operation while it is running.
pub open spec fn timely_while_running(operation: SequenceOperation, start: Moment) -> bool {
    &&& kind_wf(operation.kind)
    &&& operation.active() ==> reckonable(operation.kind, start)
}

fn span_fits(span: Option<Span>) -> (r: bool)
    ensures
        r == (span matches Some(s) ==> s.wf()),
{
    match span {
        Some(s) => -MAX_SPAN_NANOS <= s.nanos && s.nanos <= MAX_SPAN_NANOS,
        None => true,
    }
}

fn step_fits(start: Moment, span: Option<Span>) -> (r: bool)
    requires
        start.wf(),
    ensures
        r == (span matches Some(s) ==> s.wf() && can_step(start, s.nanos as int)),
{
    match span {
        Some(s) => span_fits(span) && after(start, s).is_some(),
        None => true,
    }
}

fn last_second_of_minute(seconds: i64) -> (r: bool)
    ensures
        r == (seconds % 60 == 59),
{
    if seconds >= 0 {
        seconds % 60 == 59
    } else {
        let back: i64 = -(seconds + 1);
        proof {
            assert(seconds as int == -1 - back);
            assert((seconds % 60 == 59) == (back % 60 == 0)) by (nonlinear_arith)
                requires
                    seconds as int == -1 - back,
            ;
        }
        back % 60 == 0
    }
}

fn moment_fits(m: Moment) -> (r: bool)
    ensures
        r == m.wf(),
{
    FIRST_SECOND <= m.seconds && m.seconds <= LAST_SECOND && (m.nanos < 1_000_000_000 || (m.nanos
        < 2_000_000_000 && last_second_of_minute(m.seconds)))
}

/// Whether the operation's times lie in the calendar when it starts at `start`.
pub fn is_timely(kind: &SequenceOperationKind, start: Moment) -> (r: bool)
    requires
        start.wf(),
    ensures
        r == timely(*kind, start),
{
    match kind {
        SequenceOperationKind::TimeWait { target_time, configured_duration } => match target_time {
            Some(end) => span_fits(*configured_duration) && moment_fits(*end),
            None => step_fits(start, *configured_duration),
        },
        SequenceOperationKind::CameraCooling { minimum_duration, .. } => span_fits(
            *minimum_duration,
        ),
        SequenceOperationKind::CameraWarming { minimum_duration } => step_fits(
            start,
            *minimum_duration,
        ),
        SequenceOperationKind::SafetyWait { wait_interval, .. } => span_fits(*wait_interval),
        SequenceOperationKind::ConditionWait { wait_interval } => span_fits(*wait_interval),
        _ => true,
    }
}

/// Whether the times lie in the calendar that are reckoned for an operation while it is running.
pub fn is_timely_while_running(operation: &SequenceOperation, start: Moment) -> (r: bool)
    requires
        start.wf(),
    ensures
        r == timely_while_running(*operation, start),
{
    if operation.is_active() {
        is_timely(&operation.kind, start)
    } else {
        has_calendar_times(&operation.kind)
    }
}

/// Whether the times and spans that an operation names are those of the calendar.
pub fn has_calendar_times(kind: &SequenceOperationKind) -> (r: bool)
    ensures
        r == kind_wf(*kind),
{
    match kind {
        SequenceOperationKind::TimeWait { target_time, configured_duration } => span_fits(
            *configured_duration,
        ) && match target_time {
            Some(end) => moment_fits(*end),
            None => true,
        },
        SequenceOperationKind::CameraCooling { minimum_duration, .. } => span_fits(
            *minimum_duration,
        ),
        SequenceOperationKind::CameraWarming { minimum_duration } => span_fits(*minimum_duration),
        SequenceOperationKind::SafetyWait { wait_interval, .. } => span_fits(*wait_interval),
        SequenceOperationKind::ConditionWait { wait_interval } => span_fits(*wait_interval),
        _ => true,
    }
}

/// The end of a wait that starts at `start`.
pub open spec fn wait_end(kind: SequenceOperationKind, start: Moment) -> Option<Moment> {
    match kind {
        SequenceOperationKind::TimeWait { target_time, configured_duration } => match target_time {
            Some(end) => Some(end),
            None => match configured_duration {
                Some(span) => Some(stepped(start, span.nanos as int)),
                None => None,
            },
        },
        _ => None,
    }
}

/// The end of an operation that starts at `start`, as far as it can be told then.
pub open spec fn first_estimate(kind: SequenceOperationKind, start: Moment) -> Option<Moment> {
    match kind {
        SequenceOperationKind::CameraWarming { minimum_duration } => match minimum_duration {
            Some(span) => Some(stepped(start, span.nanos as int)),
            None => None,
        },
        _ => wait_end(kind, start),
    }
}

/// A whole number held within eight bits.
pub open spec fn saturated_u8(n: int) -> u8 {
    if n < 0 {
        0
    } else if n > 255 {
        255
    } else {
        n as u8
    }
}

/// The share of the time from `start` to `end` that has passed at `now`, in percent: computed on
/// whole milliseconds in double precision.
pub open spec fn time_percent(start: Moment, end: Moment, now: Moment) -> u8 {
    let total = span_between(start, end).whole_milliseconds();
    let passed = span_between(start, now).whole_milliseconds();
    if total <= 0 {
        100
    } else {
        let elapsed = if passed < 0 {
            0
        } else if passed > total {
            total
        } else {
            passed
        };
        saturated_u8(percent_of(elapsed as nat, total as nat))
    }
}

/// A number held between zero and one.
pub open spec fn unit_clamped(x: Double) -> Double {
    if x.lt(Double { bits: 0 }) {
        Double { bits: 0 }
    } else if (Double { bits: ONE }).lt(x) {
        Double { bits: ONE }
    } else {
        x
    }
}

/// The share of the way from the first temperature to the target that the camera has come, in
/// percent; nothing where there is hardly any way.
pub open spec fn cooling_percent(initial: Double, target: Double, camera: CameraInfo) -> Option<
    u8,
> {
    let total = initial.difference(target).absolute();
    if camera.at_target_temp {
        Some(100)
    } else if total.lt(Double { bits: TENTH }) || !camera.temperature.finite() {
        None
    } else {
        let remaining = camera.temperature.difference(target).absolute();
        let share = unit_clamped((Double { bits: ONE }).difference(remaining.quotient(total)));
        Some(saturated_u8(share.product(Double { bits: HUNDRED }).rounded_i64()))
    }
}

/// The greatest of 75, 50 and 25 that has been reached, or zero.
pub open spec fn reached_milestone(progress: u8) -> u8 {
    if progress >= 75 {
        75
    } else if progress >= 50 {
        50
    } else if progress >= 25 {
        25
    } else {
        0
    }
}

pub fn completed_milestone(progress: u8) -> (r: u8)
    ensures
        r == reached_milestone(progress),
{
    if progress >= 75 {
        75
    } else if progress >= 50 {
        50
    } else if progress >= 25 {
        25
    } else {
        0
    }
}

fn to_u8(n: i64) -> (r: u8)
    ensures
        r == saturated_u8(n as int),
{
    if n < 0 {
        0
    } else if n > 255 {
        255
    } else {
        n as u8
    }
}

fn elapsed_percent(start: Moment, end: Moment, now: Moment) -> (r: u8)
    requires
        start.wf(),
        end.wf(),
        now.wf(),
    ensures
        r == time_percent(start, end, now),
{
    let total: i64 = since(end, start).num_milliseconds();
    if total <= 0 {
        return 100;
    }
    let passed: i64 = since(now, start).num_milliseconds();
    let elapsed: i64 = if passed < 0 {
        0
    } else if passed > total {
        total
    } else {
        passed
    };
    let share: Double = Double::from_whole(elapsed as u64).over(Double::from_whole(total as u64));
    to_u8(share.times(Double { bits: HUNDRED }).round_i64())
}

impl TrackedSequenceOperation {
    /// The times that the operation names lie in the calendar.
    pub open spec fn valid(&self) -> bool {
        &&& self.started_at.wf()
        &&& self.estimated_end matches Some(end) ==> end.wf()
        &&& kind_wf(self.operation.kind)
    }

    /// So do those that are reckoned for it while it is under way.
    pub open spec fn wf(&self) -> bool {
        self.valid() && reckonable(self.operation.kind, self.started_at)
    }

    pub open spec fn begun(
        operation: SequenceOperation,
        now: Moment,
        camera: Option<CameraInfo>,
    ) -> TrackedSequenceOperation {
        TrackedSequenceOperation {
            operation,
            started_at: now,
            estimated_end: first_estimate(operation.kind, now),
            initial_temperature: known_temperature(camera),
            camera,
            last_milestone: 0,
            last_output_key: None,
        }
    }

    pub fn new(operation: SequenceOperation, now: Moment, camera: Option<CameraInfo>) -> (r: Self)
        requires
            now.wf(),
            timely(operation.kind, now),
        ensures
            r == TrackedSequenceOperation::begun(operation, now, camera),
            r.wf(),
    {
        let estimated_end: Option<Moment> = match &operation.kind {
            SequenceOperationKind::TimeWait { target_time, configured_duration } => {
                match target_time {
                    Some(target) => Some(*target),
                    None => match configured_duration {
                        Some(span) => after(now, *span),
                        None => None,
                    },
                }
            },
            SequenceOperationKind::CameraWarming { minimum_duration } => match minimum_duration {
                Some(span) => after(now, *span),
                None => None,
            },
            _ => None,
        };
        let initial_temperature: Option<Double> = camera_temperature(&camera);
        TrackedSequenceOperation {
            operation,
            started_at: now,
            estimated_end,
            initial_temperature,
            camera,
            last_milestone: 0,
            last_output_key: None,
        }
    }

    /// Reckons the end of a wait anew from its own settings.
    pub fn restore_intrinsic_wait_estimate(&mut self)
        requires
            old(self).wf(),
        ensures
            *final(self) == (TrackedSequenceOperation {
                estimated_end: wait_end(old(self).operation.kind, old(self).started_at),
                ..*old(self)
            }),
            final(self).wf(),
    {
        let end: Option<Moment> = match &self.operation.kind {
            SequenceOperationKind::TimeWait { target_time, configured_duration } => {
                match target_time {
                    Some(target) => Some(*target),
                    None => match configured_duration {
                        Some(span) => after(self.started_at, *span),
                        None => None,
                    },
                }
            },
            _ => None,
        };
        self.estimated_end = end;
    }

    /// How far the operation has come, in percent, where that can be told.
    pub open spec fn percent(&self, now: Moment) -> Option<u8> {
        match self.operation.kind {
            SequenceOperationKind::TimeWait { .. } => match self.estimated_end {
                Some(end) => Some(time_percent(self.started_at, end, now)),
                None => None,
            },
            SequenceOperationKind::CameraCooling { target_temperature, .. } => match (
                self.initial_temperature,
                self.camera,
            ) {
                (Some(initial), Some(camera)) => cooling_percent(
                    initial,
                    target_temperature,
                    camera,
                ),
                _ => None,
            },
            SequenceOperationKind::CameraWarming { minimum_duration } => match self.estimated_end {
                Some(end) => Some(time_percent(self.started_at, end, now)),
                None => match minimum_duration {
                    Some(span) => Some(
                        time_percent(
                            self.started_at,
                            stepped(self.started_at, span.nanos as int),
                            now,
                        ),
                    ),
                    None => None,
                },
            },
            _ => None,
        }
    }

    pub fn progress_percent(&self, now: Moment) -> (r: Option<u8>)
        requires
            self.wf(),
            now.wf(),
        ensures
            r == self.percent(now),
    {
        match &self.operation.kind {
            SequenceOperationKind::TimeWait { .. } => match self.estimated_end {
                Some(end) => Some(elapsed_percent(self.started_at, end, now)),
                None => None,
            },
            SequenceOperationKind::CameraCooling { target_temperature, .. } => {
                let initial: Double = match self.initial_temperature {
                    Some(initial) => initial,
                    None => {
                        return None;
                    },
                };
                let camera = match &self.camera {
                    Some(camera) => camera,
                    None => {
                        return None;
                    },
                };
                if camera.at_target_temp {
                    return Some(100);
                }
                let total: Double = initial.minus(*target_temperature).abs();
                if total.less(Double { bits: TENTH }) || !camera.temperature.is_finite() {
                    return None;
                }
                let remaining: Double = camera.temperature.minus(*target_temperature).abs();
                let raw: Double = (Double { bits: ONE }).minus(remaining.over(total));
                let share: Double = if raw.less(Double { bits: 0 }) {
                    Double { bits: 0 }
                } else if (Double { bits: ONE }).less(raw) {
                    Double { bits: ONE }
                } else {
                    raw
                };
                Some(to_u8(share.times(Double { bits: HUNDRED }).round_i64()))
            },
            SequenceOperationKind::CameraWarming { minimum_duration } => {
                let end: Moment = match self.estimated_end {
                    Some(end) => end,
                    None => match minimum_duration {
                        Some(span) => match after(self.started_at, *span) {
                            Some(end) => end,
                            None => {
                                return None;
                            },
                        },
                        None => {
                            return None;
                        },
                    },
                };
                Some(elapsed_percent(self.started_at, end, now))
            },
            _ => None,
        }
    }

    /// The greatest milestone that has been reached and not been told of.
    pub open spec fn due_milestone(&self, now: Moment) -> Option<u8> {
        match self.percent(now) {
            None => None,
            Some(progress) => if progress >= 75 && self.last_milestone < 75 {
                Some(75)
            } else if progress >= 50 && self.last_milestone < 50 {
                Some(50)
            } else if progress >= 25 && self.last_milestone < 25 {
                Some(25)
            } else {
                None
            },
        }
    }

    pub fn next_milestone(&self, now: Moment) -> (r: Option<u8>)
        requires
            self.wf(),
            now.wf(),
        ensures
            r == self.due_milestone(now),
    {
        match self.progress_percent(now) {
            None => None,
            Some(progress) => if progress >= 75 && self.last_milestone < 75 {
                Some(75)
            } else if progress >= 50 && self.last_milestone < 50 {
                Some(50)
            } else if progress >= 25 && self.last_milestone < 25 {
                Some(25)
            } else {
                None
            },
        }
    }

    pub fn copy(&self) -> (r: TrackedSequenceOperation)
        ensures
            r == *self,
    {
        TrackedSequenceOperation {
            operation: self.operation.copy(),
            started_at: self.started_at,
            estimated_end: self.estimated_end,
            initial_temperature: self.initial_temperature,
            camera: copy_camera(&self.camera),
            last_milestone: self.last_milestone,
            last_output_key: self.last_output_key,
        }
    }
}

/// Once a milestone has been told of, neither it nor a lower one is told of again.
pub proof fn milestones_only_rise(t: TrackedSequenceOperation, now: Moment, milestone: u8)
    requires
        t.due_milestone(now) == Some(milestone),
    ensures
        t.last_milestone < milestone,
        milestone == 25 || milestone == 50 || milestone == 75,
        t.percent(now)->0 >= milestone,
{
}

/// The progress of a timed wait lies between 0, where it stands until the wait starts, and 100,
/// where it stands from the planned end on, and never falls. Inside leap seconds the bounds hold
/// too, but not the rest: counting from or to a leap second, the calendar's spans do not always
/// grow with time.
pub proof fn progress_never_falls(
    t: TrackedSequenceOperation,
    end: Moment,
    now: Moment,
    later: Moment,
)
    requires
        t.operation.kind is TimeWait,
        t.estimated_end == Some(end),
        t.started_at.wf() && end.wf() && now.wf() && later.wf(),
        span_between(t.started_at, end).whole_milliseconds() >= 1,
        !later.earlier(now),
    ensures
        t.percent(now) is Some && t.percent(later) is Some,
        t.percent(now)->0 <= 100 && t.percent(later)->0 <= 100,
        t.started_at.nanos < 1_000_000_000 && now.nanos < 1_000_000_000 && later.nanos
            < 1_000_000_000 ==> t.percent(now)->0 <= t.percent(later)->0,
        now.nanos < 1_000_000_000 && !t.started_at.earlier(now) ==> t.percent(now)->0 == 0,
        t.started_at.nanos < 1_000_000_000 && now.nanos < 1_000_000_000 && end.nanos
            < 1_000_000_000 && !now.earlier(end) ==> t.percent(now)->0 == 100,
{
    let start = t.started_at;
    let total = span_between(start, end).whole_milliseconds();
    let (x, y) = (clamped_millis(start, end, now), clamped_millis(start, end, later));
    let (a, b, c) = (
        elapsed_nanos(start, now),
        elapsed_nanos(start, later),
        elapsed_nanos(start, end),
    );
    assert(span_between(start, end).nanos == c);
    assert(span_between(start, now).nanos == a && span_between(start, later).nanos == b);
    percents_grow(x as nat, total as nat, total as nat);
    percents_grow(y as nat, total as nat, total as nat);
    if now.nanos < 1_000_000_000 && !start.earlier(now) {
        assert(a <= 0);
    }
    if start.nanos < 1_000_000_000 && now.nanos < 1_000_000_000 {
        if later.nanos < 1_000_000_000 {
            assert(a <= b);
            if a >= 0 {
                vstd::arithmetic::div_mod::lemma_div_is_ordered(a, b, 1_000_000);
            }
            percents_grow(x as nat, y as nat, total as nat);
        }
        if end.nanos < 1_000_000_000 && !now.earlier(end) {
            assert(c <= a);
            vstd::arithmetic::div_mod::lemma_div_is_ordered(c, a, 1_000_000);
        }
    }
}

/// After `n` hundredths of a timed wait its progress is `n`, where a hundredth is a whole number
/// of milliseconds.
pub proof fn progress_counts_hundredths(
    t: TrackedSequenceOperation,
    end: Moment,
    now: Moment,
    n: nat,
    unit: nat,
)
    requires
        t.operation.kind is TimeWait,
        t.estimated_end == Some(end),
        n <= 100,
        unit > 0,
        100 * unit < 0x20_0000_0000_0000,
        span_between(t.started_at, end).whole_milliseconds() == 100 * unit,
        span_between(t.started_at, now).whole_milliseconds() == n * unit,
    ensures
        t.percent(now) == Some(n as u8),
{
    assert(n * unit <= 100 * unit) by (nonlinear_arith)
        requires
            n <= 100,
    ;
    hundredths_are_percents(n, unit);
}

/// A wait that starts outside of leap seconds and is to last `100 * unit` milliseconds has come to
/// `n` percent after `n * unit` milliseconds: a wait of 100 seconds counts the seconds.
pub proof fn round_waits_count_up(t: TrackedSequenceOperation, n: nat, unit: nat)
    requires
        t.operation.kind is TimeWait,
        t.started_at.wf(),
        t.started_at.nanos < 1_000_000_000,
        n <= 100,
        unit > 0,
        100 * unit < 0x20_0000_0000_0000,
        can_step(t.started_at, (100_000_000 * unit) as int),
        t.estimated_end == Some(stepped(t.started_at, (100_000_000 * unit) as int)),
    ensures
        t.percent(stepped(t.started_at, (1_000_000 * (n * unit)) as int)) == Some(n as u8),
{
    let start = t.started_at;
    let part = n * unit;
    assert(0 <= part <= 100 * unit) by (nonlinear_arith)
        requires
            part == n * unit,
            n <= 100,
    ;
    let end = stepped(start, (100_000_000 * unit) as int);
    let now = stepped(start, (1_000_000 * part) as int);
    assert(can_step(start, (1_000_000 * part) as int));
    spans_are_what_was_stepped(start, (100_000_000 * unit) as int);
    spans_are_what_was_stepped(start, (1_000_000 * part) as int);
    assert(span_between(start, end).nanos == 100_000_000 * unit);
    assert(span_between(start, now).nanos == 1_000_000 * part);
    assert((1_000_000 * part) / 1_000_000 == part);
    progress_counts_hundredths(t, end, now, n, unit);
}

/// The whole milliseconds passed since the start, held between none and all.
spec fn clamped_millis(start: Moment, end: Moment, now: Moment) -> int {
    let total = span_between(start, end).whole_milliseconds();
    let passed = span_between(start, now).whole_milliseconds();
    if passed < 0 {
        0
    } else if passed > total {
        total
    } else {
        passed
    }
}

} // verus!
