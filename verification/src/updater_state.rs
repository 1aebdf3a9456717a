//! What is known of a telescope, inferred from its events.

use vstd::prelude::*;
use crate::calendar::{
    parse_nina_timestamp, parse_nina_timestamp_with_context, timestamp, timestamp_in, Moment,
    ZonedMoment,
};
use crate::clock::Tick;
use crate::double::Double;
use crate::event_types::{event_kind, EventKind};
use crate::events::{
    Event, EventDeliveryScope, EventDetails, FilterInfo, TargetCoordinates, WeatherConditions,
};
use crate::operations::{keys_distinct, BoardView, SequenceBoard};
use crate::seen_set::BoundedSeenSet;
use crate::sequence::{SequenceOperationKind, TrackedSequenceOperation};
use crate::text::{cat2, opt_view, same};

verus! {

/// How many events, images and results are remembered: more than any history page holds.
pub const SEEN_SET_CAPACITY: usize = 20_000;

/// Failed cycles in a row before a telescope counts as offline.
pub const OFFLINE_FAILURE_THRESHOLD: u32 = 3;

/// Where a target is known from.
#[derive(Clone, Copy, Debug, PartialEq, Eq, Structural)]
pub enum TargetSource {
    Sequence,
    TsTargetStart,
}

/// The target being observed.
#[derive(Debug)]
pub struct TargetInfo {
    pub name: String,
    pub source: TargetSource,
    pub coordinates: Option<TargetCoordinates>,
    pub project: Option<String>,
    pub rotation: Option<Double>,
    pub target_end_time: Option<ZonedMoment>,
}

impl TargetInfo {
    pub open spec fn wf(&self) -> bool {
        self.target_end_time matches Some(end) ==> end.wf()
    }

    pub fn copy(&self) -> (r: TargetInfo)
        ensures
            r == *self,
    {
        TargetInfo {
            name: self.name.clone(),
            source: self.source,
            coordinates: crate::events::copy_coordinates(&self.coordinates),
            project: crate::text::clone_opt(&self.project),
            rotation: self.rotation,
            target_end_time: self.target_end_time,
        }
    }
}

/// What the safety monitor is known to say.
#[derive(Clone, Copy, Debug, PartialEq, Eq, Structural)]
pub enum SafetyState {
    Unknown,
    ConnectedUnknown,
    Safe,
    Unsafe,
    Disconnected,
}

impl SafetyState {
    pub open spec fn text(self) -> Option<Seq<char>> {
        match self {
            SafetyState::Unknown => None,
            SafetyState::ConnectedUnknown => Some("🛡️ Safety monitor connected; state unknown"@),
            SafetyState::Safe => Some("🛡️ Conditions safe"@),
            SafetyState::Unsafe => Some("⚠️ Conditions unsafe"@),
            SafetyState::Disconnected => Some("⚠️ Safety monitor disconnected"@),
        }
    }

    pub fn status_text(self) -> (r: Option<&'static str>)
        ensures
            match r {
                Some(t) => self.text() == Some(t@),
                None => self.text() is None,
            },
    {
        match self {
            SafetyState::Unknown => None,
            SafetyState::ConnectedUnknown => Some("🛡️ Safety monitor connected; state unknown"),
            SafetyState::Safe => Some("🛡️ Conditions safe"),
            SafetyState::Unsafe => Some("⚠️ Conditions unsafe"),
            SafetyState::Disconnected => Some("⚠️ Safety monitor disconnected"),
        }
    }
}

/// A failure in the sequence.
#[derive(Debug)]
pub struct SequenceFailureInfo {
    pub entity: String,
    pub entity_type: String,
    pub error: String,
}

/// The characters of a [`SequenceFailureInfo`].
pub struct FailureView {
    pub entity: Seq<char>,
    pub entity_type: Seq<char>,
    pub error: Seq<char>,
}

impl View for SequenceFailureInfo {
    type V = FailureView;

    open spec fn view(&self) -> FailureView {
        FailureView { entity: self.entity@, entity_type: self.entity_type@, error: self.error@ }
    }
}

pub open spec fn failure_view(f: Option<SequenceFailureInfo>) -> Option<FailureView> {
    match f {
        Some(x) => Some(x@),
        None => None,
    }
}

/// The times that an event names.
#[derive(Clone, Copy, Debug, PartialEq, Eq, Structural)]
pub struct EventTimes {
    /// When the event occurred.
    pub at: Option<ZonedMoment>,
    /// When the wait ends that the event announces.
    pub wait_end: Option<ZonedMoment>,
    /// When the target ends that the event announces.
    pub target_end: Option<ZonedMoment>,
}

pub open spec fn opt_moment(z: Option<ZonedMoment>) -> Option<Moment> {
    match z {
        Some(z) => Some(z.moment),
        None => None,
    }
}

impl EventTimes {
    pub open spec fn wf(&self) -> bool {
        &&& self.at matches Some(z) ==> z.wf()
        &&& self.wait_end matches Some(z) ==> z.wf()
        &&& self.target_end matches Some(z) ==> z.wf()
    }

    /// When the event occurred, in UTC.
    pub open spec fn occurred(&self) -> Option<Moment> {
        opt_moment(self.at)
    }

    fn at_utc(&self) -> (r: Option<Moment>)
        ensures
            r == self.occurred(),
    {
        match self.at {
            Some(z) => Some(z.moment),
            None => None,
        }
    }
}

/// The times that the texts of an event name.
pub open spec fn times_of(event: Event) -> EventTimes {
    EventTimes {
        at: timestamp(event.time@),
        wait_end: match event.details {
            Some(EventDetails::WaitStart { wait_end_time }) => timestamp_in(
                wait_end_time@,
                Some(event.time@),
            ),
            _ => None,
        },
        target_end: match event.details {
            Some(EventDetails::TargetStart { target_end_time, .. }) => match target_end_time {
                Some(end) => timestamp_in(end@, Some(event.time@)),
                None => None,
            },
            _ => None,
        },
    }
}

pub fn read_times(event: &Event) -> (r: EventTimes)
    ensures
        r == times_of(*event),
        r.wf(),
{
    let wait_end: Option<ZonedMoment> = match &event.details {
        Some(EventDetails::WaitStart { wait_end_time }) => parse_nina_timestamp_with_context(
            wait_end_time.as_str(),
            Some(event.time.as_str()),
        ),
        _ => None,
    };
    let target_end: Option<ZonedMoment> = match &event.details {
        Some(EventDetails::TargetStart { target_end_time, .. }) => match target_end_time {
            Some(end) => parse_nina_timestamp_with_context(
                end.as_str(),
                Some(event.time.as_str()),
            ),
            None => None,
        },
        _ => None,
    };
    EventTimes { at: parse_nina_timestamp(event.time.as_str()), wait_end, target_end }
}

/// A weather event holds the readings that its name promises; any other event passes.
pub open spec fn usable(event: Event) -> bool {
    match event.kind() {
        EventKind::WeatherChanged => match event.details {
            Some(EventDetails::WeatherChanged { conditions, .. }) => !conditions.empty(),
            _ => false,
        },
        EventKind::WeatherHighWind => match event.details {
            Some(EventDetails::WeatherHighWind { conditions, .. }) => conditions.has_wind(),
            _ => false,
        },
        _ => true,
    }
}

pub fn has_usable_weather_details(event: &Event) -> (r: bool)
    ensures
        r == usable(*event),
{
    match event_kind(event.event.as_str()) {
        EventKind::WeatherChanged => match &event.details {
            Some(EventDetails::WeatherChanged { conditions, .. }) => !conditions.is_empty(),
            _ => false,
        },
        EventKind::WeatherHighWind => match &event.details {
            Some(EventDetails::WeatherHighWind { conditions, .. }) => conditions.has_wind_reading(),
            _ => false,
        },
        _ => true,
    }
}

/// What is known of a telescope.
pub struct UpdaterState {
    pub events_seen: BoundedSeenSet,
    /// Switched-off events seen, by scope and time alone.
    pub disabled_event_tombstones: BoundedSeenSet,
    pub images_seen: BoundedSeenSet,
    pub current_target: Option<TargetInfo>,
    /// Hours until the meridian flip.
    pub meridian_flip_time: Option<Double>,
    /// All containers of the sequence, and those running.
    pub sequence_container_counts: Option<(usize, usize)>,
    pub last_image_time: Option<Tick>,
    pub skipped_images_count: u32,
    pub last_filter: Option<FilterInfo>,
    pub last_mount_event: Option<String>,
    pub last_guider_event: Option<String>,
    pub sequence_running: bool,
    /// A failure of the sequence that runs or ran last.
    pub sequence_failure: Option<SequenceFailureInfo>,
    pub sequence_outcome: Option<String>,
    /// The planned end of the scheduler's wait.
    pub scheduler_wait: Option<Moment>,
    /// The newest transition of the scheduler that was applied: older ones are ignored.
    pub scheduler_wait_latest_at: Option<Moment>,
    pub safety_state: SafetyState,
    pub dome_connected: Option<bool>,
    pub dome_shutter_open: Option<bool>,
    pub dome_azimuth: Option<Double>,
    pub dome_parked: Option<bool>,
    pub dome_homed: Option<bool>,
    pub flat_connected: Option<bool>,
    pub flat_cover_state: Option<String>,
    pub flat_light_on: Option<bool>,
    pub flat_brightness: Option<i32>,
    pub weather_connected: Option<bool>,
    pub weather_conditions: Option<WeatherConditions>,
    pub weather_conditions_at: Option<Moment>,
    pub weather_high_wind: Option<bool>,
    pub weather_high_wind_conditions: Option<WeatherConditions>,
    pub weather_high_wind_conditions_at: Option<Moment>,
    pub weather_high_wind_threshold_meters_per_second: Option<Double>,
    pub switch_connected: Option<bool>,
    /// The operations of the sequence.
    pub board: SequenceBoard,
    /// What the status message last posted was about.
    pub last_status_fingerprint: Option<String>,
    /// The telescope is reported as connected.
    pub connected: bool,
    /// Failed cycles since the last successful one.
    pub consecutive_failures: u32,
}

/// The content of an [`UpdaterState`].
pub struct StateView {
    pub events_seen: Seq<Seq<char>>,
    pub disabled_event_tombstones: Seq<Seq<char>>,
    pub images_seen: Seq<Seq<char>>,
    pub current_target: Option<TargetInfo>,
    pub meridian_flip_time: Option<Double>,
    pub sequence_container_counts: Option<(usize, usize)>,
    pub last_image_time: Option<Tick>,
    pub skipped_images_count: u32,
    pub last_filter: Option<FilterInfo>,
    pub last_mount_event: Option<Seq<char>>,
    pub last_guider_event: Option<Seq<char>>,
    pub sequence_running: bool,
    pub sequence_failure: Option<FailureView>,
    pub sequence_outcome: Option<Seq<char>>,
    pub scheduler_wait: Option<Moment>,
    pub scheduler_wait_latest_at: Option<Moment>,
    pub safety_state: SafetyState,
    pub dome_connected: Option<bool>,
    pub dome_shutter_open: Option<bool>,
    pub dome_azimuth: Option<Double>,
    pub dome_parked: Option<bool>,
    pub dome_homed: Option<bool>,
    pub flat_connected: Option<bool>,
    pub flat_cover_state: Option<Seq<char>>,
    pub flat_light_on: Option<bool>,
    pub flat_brightness: Option<i32>,
    pub weather_connected: Option<bool>,
    pub weather_conditions: Option<WeatherConditions>,
    pub weather_conditions_at: Option<Moment>,
    pub weather_high_wind: Option<bool>,
    pub weather_high_wind_conditions: Option<WeatherConditions>,
    pub weather_high_wind_conditions_at: Option<Moment>,
    pub weather_high_wind_threshold_meters_per_second: Option<Double>,
    pub switch_connected: Option<bool>,
    pub board: BoardView,
    pub last_status_fingerprint: Option<Seq<char>>,
    pub connected: bool,
    pub consecutive_failures: u32,
}

/// Which of the sequence's operations a revocation keeps.
#[derive(Clone, Copy, Debug, PartialEq, Eq, Structural)]
pub enum Retention {
    /// All but slews, centerings and plate solves.
    NotMount,
    /// Slews, centerings and plate solves only.
    OnlyMount,
    /// All but waits for safety.
    NotSafety,
}

pub open spec fn about_mount(kind: SequenceOperationKind) -> bool {
    kind is MountSlew || kind is MountCenter || kind is PlateSolve
}

pub open spec fn keeps(rule: Retention, kind: SequenceOperationKind) -> bool {
    match rule {
        Retention::NotMount => !about_mount(kind),
        Retention::OnlyMount => about_mount(kind),
        Retention::NotSafety => !(kind is SafetyWait),
    }
}

/// The operations that a revocation keeps, in order.
pub open spec fn retained(
    running: Seq<TrackedSequenceOperation>,
    rule: Retention,
) -> Seq<TrackedSequenceOperation>
    decreases running.len(),
{
    if running.len() == 0 {
        running
    } else if keeps(rule, running.last().operation.kind) {
        retained(running.drop_last(), rule).push(running.last())
    } else {
        retained(running.drop_last(), rule)
    }
}

/// What is kept of operations under distinct keys is under distinct keys.
proof fn lemma_retained(running: Seq<TrackedSequenceOperation>, rule: Retention)
    requires
        keys_distinct(running),
    ensures
        keys_distinct(retained(running, rule)),
        forall|i: int|
            0 <= i < retained(running, rule).len() ==> running.contains(
                #[trigger] retained(running, rule)[i],
            ),
    decreases running.len(),
{
    if running.len() > 0 {
        let front = running.drop_last();
        assert forall|i: int, j: int|
            #![trigger front[i], front[j]]
            0 <= i < j < front.len() implies front[i].operation.key@
            != front[j].operation.key@ by {
            assert(front[i] == running[i] && front[j] == running[j]);
        }
        lemma_retained(front, rule);
        let before = retained(front, rule);
        let all = retained(running, rule);
        let last = running[running.len() - 1];
        assert forall|i: int| 0 <= i < before.len() implies running.contains(#[trigger] before[i])
            && before[i].operation.key@ != last.operation.key@ by {
            let k = choose|k: int| 0 <= k < front.len() && front[k] == before[i];
            assert(front.contains(before[i]));
            assert(running[k] == before[i]);
        }
        assert forall|i: int| 0 <= i < all.len() implies running.contains(#[trigger] all[i]) by {
            if i < before.len() {
                assert(all[i] == before[i]);
            } else {
                assert(all[i] == last);
            }
        }
        assert forall|i: int, j: int|
            #![trigger all[i], all[j]]
            0 <= i < j < all.len() implies all[i].operation.key@ != all[j].operation.key@ by {
            assert(all[i] == before[i]);
            if j < before.len() {
                assert(all[j] == before[j]);
            }
        }
    }
}

fn retention_keeps(rule: Retention, kind: &SequenceOperationKind) -> (r: bool)
    ensures
        r == keeps(rule, *kind),
{
    let mount: bool = match kind {
        SequenceOperationKind::MountSlew { .. } => true,
        SequenceOperationKind::MountCenter { .. } => true,
        SequenceOperationKind::PlateSolve { .. } => true,
        _ => false,
    };
    match rule {
        Retention::NotMount => !mount,
        Retention::OnlyMount => mount,
        Retention::NotSafety => match kind {
            SequenceOperationKind::SafetyWait { .. } => false,
            _ => true,
        },
    }
}

impl StateView {
    /// A transition of the scheduler that occurred at `at` is applied: not an older one than the
    /// newest, and not one of unknown time once a time is known.
    pub open spec fn accepts(self, at: Option<Moment>) -> bool {
        match (self.scheduler_wait_latest_at, at) {
            (Some(current), Some(candidate)) => !candidate.earlier(current),
            (Some(_), None) => false,
            _ => true,
        }
    }

    /// The state after a transition of the scheduler was accepted.
    pub open spec fn advanced(self, at: Option<Moment>) -> StateView {
        match at {
            Some(candidate) => StateView { scheduler_wait_latest_at: Some(candidate), ..self },
            None => self,
        }
    }

    /// The state after the scheduler announced a wait: a new plan replaces the old one, even
    /// where its end is not known.
    pub open spec fn waiting(self, at: Option<Moment>, end: Option<Moment>) -> StateView {
        StateView { scheduler_wait: end, ..self.advanced(at) }
    }

    /// The state after a wait was switched off: the plan is gone, and older announcements cannot
    /// bring it back.
    pub open spec fn wait_hidden(self, at: Option<Moment>) -> StateView {
        StateView {
            scheduler_wait: None,
            scheduler_wait_latest_at: match at {
                Some(candidate) => if self.scheduler_wait_latest_at is None
                    || self.scheduler_wait_latest_at->0.earlier(candidate) {
                    Some(candidate)
                } else {
                    self.scheduler_wait_latest_at
                },
                None => self.scheduler_wait_latest_at,
            },
            ..self
        }
    }

    /// The state after an event that ends a wait. Where its time is unknown, the plan is gone
    /// nevertheless.
    pub open spec fn wait_over(self, at: Option<Moment>) -> StateView {
        match at {
            None => StateView { scheduler_wait: None, ..self },
            Some(_) => if self.accepts(at) {
                StateView { scheduler_wait: None, ..self.advanced(at) }
            } else {
                self
            },
        }
    }

    /// The state after the weather station connected or disconnected: readings are gone, and so
    /// is an alert, unless high wind is on.
    pub open spec fn new_weather_epoch(self, connected: bool) -> StateView {
        let calm = StateView {
            weather_connected: Some(connected),
            weather_conditions: None,
            weather_conditions_at: None,
            ..self
        };
        if self.weather_high_wind == Some(true) {
            calm
        } else {
            StateView {
                weather_high_wind: None,
                weather_high_wind_conditions: None,
                weather_high_wind_conditions_at: None,
                weather_high_wind_threshold_meters_per_second: None,
                ..calm
            }
        }
    }

    pub open spec fn dome_link(self, connected: bool) -> StateView {
        StateView {
            dome_connected: Some(connected),
            dome_shutter_open: None,
            dome_azimuth: None,
            dome_parked: None,
            dome_homed: None,
            ..self
        }
    }

    pub open spec fn flat_link(self, connected: bool) -> StateView {
        StateView {
            flat_connected: Some(connected),
            flat_cover_state: None,
            flat_light_on: None,
            flat_brightness: None,
            ..self
        }
    }

    /// The state after the sequence finished.
    pub open spec fn sequence_ended(self, details: Option<EventDetails>, at: Option<Moment>) -> StateView {
        let over = StateView { sequence_running: false, ..self }.wait_over(at);
        match details {
            Some(EventDetails::SequenceFinished { outcome, status, had_failures }) => {
                let told = StateView { sequence_outcome: Some(outcome@), ..over };
                if (had_failures || outcome@ == "failed"@ || outcome@
                    == "completed_with_failures"@) && self.sequence_failure is None {
                    StateView {
                        sequence_failure: Some(
                            FailureView {
                                entity: "Sequence"@,
                                entity_type: "Sequence root"@,
                                error: "N.I.N.A. ended the sequence with status "@ + status@,
                            },
                        ),
                        ..told
                    }
                } else {
                    told
                }
            },
            _ => StateView { sequence_outcome: None, ..over },
        }
    }

    /// The state after an item of the sequence failed.
    pub open spec fn item_failed(self, details: Option<EventDetails>) -> StateView {
        StateView {
            sequence_failure: Some(
                match details {
                    Some(EventDetails::SequenceEntityFailed { entity, entity_type, error }) => {
                        FailureView {
                            entity: entity@,
                            entity_type: entity_type@,
                            error: error@,
                        }
                    },
                    _ => FailureView {
                        entity: "Sequence item"@,
                        entity_type: "Unknown"@,
                        error: "N.I.N.A. reported that the sequence item failed"@,
                    },
                },
            ),
            ..self
        }
    }

    /// The state after what an event tells, apart from the status message.
    pub open spec fn told(
        self,
        kind: EventKind,
        name: Seq<char>,
        details: Option<EventDetails>,
        times: EventTimes,
        now: Moment,
    ) -> StateView {
        let at = times.occurred();
        match kind {
            EventKind::MountParked => StateView { last_mount_event: Some(name), ..self },
            EventKind::MountUnparked => StateView { last_mount_event: Some(name), ..self },
            EventKind::MountHomed => StateView { last_mount_event: Some(name), ..self },
            EventKind::MountSlewed => StateView { last_mount_event: Some(name), ..self },
            EventKind::MountCenter => StateView {
                last_mount_event: Some(name),
                board: BoardView { center: Some(now), ..self.board },
                ..self
            },
            EventKind::GuiderStart => StateView { last_guider_event: Some(name), ..self },
            EventKind::GuiderStop => StateView { last_guider_event: Some(name), ..self },
            EventKind::SequenceStarting => StateView {
                sequence_running: true,
                sequence_failure: None,
                sequence_outcome: None,
                ..self
            }.wait_over(at),
            EventKind::SequenceFinished => self.sequence_ended(details, at),
            EventKind::SequenceEntityFailed => self.item_failed(details),
            EventKind::TsTargetstart => self.wait_over(at),
            EventKind::TsNewtargetstart => self.wait_over(at),
            EventKind::TsWaitstart => self.waiting(at, opt_moment(times.wait_end)),
            EventKind::SafetyConnected => StateView {
                safety_state: SafetyState::ConnectedUnknown,
                ..self
            },
            EventKind::SafetyDisconnected => StateView {
                safety_state: SafetyState::Disconnected,
                ..self
            },
            EventKind::SafetyChanged => match details {
                Some(EventDetails::SafetyChanged { is_safe }) => StateView {
                    safety_state: if is_safe {
                        SafetyState::Safe
                    } else {
                        SafetyState::Unsafe
                    },
                    ..self
                },
                _ => self,
            },
            EventKind::DomeConnected => self.dome_link(true),
            EventKind::DomeDisconnected => self.dome_link(false),
            EventKind::DomeShutterOpened => StateView { dome_shutter_open: Some(true), ..self },
            EventKind::DomeShutterClosed => StateView { dome_shutter_open: Some(false), ..self },
            EventKind::DomeHomed => StateView {
                dome_homed: Some(true),
                dome_parked: Some(false),
                dome_azimuth: None,
                ..self
            },
            EventKind::DomeParked => StateView {
                dome_parked: Some(true),
                dome_homed: Some(false),
                dome_azimuth: None,
                ..self
            },
            EventKind::DomeSynced => StateView { dome_azimuth: None, ..self },
            EventKind::DomeSlewed => match details {
                Some(EventDetails::DomeSlewed { from, to }) => StateView {
                    dome_azimuth: Some(to),
                    dome_parked: Some(false),
                    dome_homed: Some(false),
                    ..self
                },
                _ => self,
            },
            EventKind::FlatConnected => self.flat_link(true),
            EventKind::FlatDisconnected => self.flat_link(false),
            EventKind::FlatCoverOpened => StateView { flat_cover_state: Some("Open"@), ..self },
            EventKind::FlatCoverClosed => StateView { flat_cover_state: Some("Closed"@), ..self },
            EventKind::FlatLightToggled => StateView {
                flat_light_on: match details {
                    Some(EventDetails::FlatLightToggled { on }) => on,
                    _ => None,
                },
                ..self
            },
            EventKind::FlatBrightnessChanged => match details {
                Some(EventDetails::FlatBrightnessChanged { previous, new }) => StateView {
                    flat_brightness: Some(new),
                    ..self
                },
                _ => self,
            },
            EventKind::WeatherConnected => self.new_weather_epoch(true),
            EventKind::WeatherDisconnected => self.new_weather_epoch(false),
            EventKind::WeatherChanged => match details {
                Some(EventDetails::WeatherChanged { conditions, .. }) => StateView {
                    weather_conditions: if conditions.empty() {
                        None
                    } else {
                        Some(conditions)
                    },
                    weather_conditions_at: if conditions.empty() {
                        None
                    } else {
                        at
                    },
                    ..self
                },
                _ => self,
            },
            EventKind::WeatherHighWind => match details {
                Some(
                    EventDetails::WeatherHighWind {
                        is_high_wind,
                        threshold_meters_per_second,
                        conditions,
                    },
                ) => StateView {
                    weather_high_wind: Some(is_high_wind),
                    weather_high_wind_threshold_meters_per_second: threshold_meters_per_second,
                    weather_high_wind_conditions: if conditions.empty() {
                        None
                    } else {
                        Some(conditions)
                    },
                    weather_high_wind_conditions_at: if conditions.empty() {
                        None
                    } else {
                        at
                    },
                    ..self
                },
                _ => self,
            },
            EventKind::SwitchConnected => StateView { switch_connected: Some(true), ..self },
            EventKind::SwitchDisconnected => StateView { switch_connected: Some(false), ..self },
            _ => self,
        }
    }

    /// The event tells something new.
    pub open spec fn takes(self, event: Event, times: EventTimes) -> bool {
        usable(event) && (event.kind() == EventKind::TsWaitstart ==> self.accepts(
            times.occurred(),
        ))
    }

    /// The state after an event, given the times that it names.
    pub open spec fn applied(self, event: Event, times: EventTimes, now: Moment) -> StateView {
        if self.takes(event, times) {
            StateView {
                last_status_fingerprint: None,
                ..self.told(event.kind(), event.event@, event.details, times, now)
            }
        } else {
            self
        }
    }

    /// The state after events under a delivery switch were switched off: nothing that came
    /// through the switch is left. `timed` tells whether the moment of that, `at`, was given.
    pub open spec fn scope_hidden(
        self,
        scope: EventDeliveryScope,
        timed: bool,
        at: Option<Moment>,
    ) -> StateView {
        match scope {
            EventDeliveryScope::TargetScheduler => if timed {
                StateView { current_target: None, ..self }.wait_hidden(at)
            } else {
                StateView { current_target: None, scheduler_wait: None, ..self }
            },
            EventDeliveryScope::FilterFocuserRotator => StateView { last_filter: None, ..self },
            EventDeliveryScope::Mount => StateView {
                last_mount_event: None,
                meridian_flip_time: None,
                board: BoardView {
                    center: None,
                    running: retained(self.board.running, Retention::NotMount),
                    ..self.board
                },
                ..self
            },
            EventDeliveryScope::Guiding => StateView { last_guider_event: None, ..self },
            EventDeliveryScope::Sequence => StateView {
                sequence_running: false,
                sequence_failure: None,
                sequence_outcome: None,
                sequence_container_counts: None,
                board: BoardView {
                    running: retained(self.board.running, Retention::OnlyMount),
                    ..self.board
                },
                ..self
            },
            EventDeliveryScope::Safety => StateView {
                safety_state: SafetyState::Unknown,
                board: BoardView {
                    running: retained(self.board.running, Retention::NotSafety),
                    ..self.board
                },
                ..self
            },
            EventDeliveryScope::WeatherChanges => StateView {
                weather_conditions: None,
                weather_conditions_at: None,
                ..self
            },
            EventDeliveryScope::HighWindAlerts => StateView {
                weather_high_wind: None,
                weather_high_wind_conditions: None,
                weather_high_wind_conditions_at: None,
                weather_high_wind_threshold_meters_per_second: None,
                ..self
            },
            EventDeliveryScope::Images => StateView {
                last_image_time: None,
                skipped_images_count: 0,
                ..self
            },
            EventDeliveryScope::Observatory => StateView {
                dome_shutter_open: None,
                dome_azimuth: None,
                dome_parked: None,
                dome_homed: None,
                flat_cover_state: None,
                flat_light_on: None,
                flat_brightness: None,
                ..self
            },
            EventDeliveryScope::EquipmentConnections => StateView {
                dome_connected: None,
                flat_connected: None,
                weather_connected: None,
                switch_connected: None,
                ..self
            },
            _ => self,
        }
    }

    /// The same, with the status message due anew.
    pub open spec fn revoked(
        self,
        scope: EventDeliveryScope,
        timed: bool,
        at: Option<Moment>,
    ) -> StateView {
        StateView { last_status_fingerprint: None, ..self.scope_hidden(scope, timed, at) }
    }
}

impl UpdaterState {
    pub open spec fn view(&self) -> StateView {
        StateView {
            events_seen: self.events_seen.keys(),
            disabled_event_tombstones: self.disabled_event_tombstones.keys(),
            images_seen: self.images_seen.keys(),
            current_target: self.current_target,
            meridian_flip_time: self.meridian_flip_time,
            sequence_container_counts: self.sequence_container_counts,
            last_image_time: self.last_image_time,
            skipped_images_count: self.skipped_images_count,
            last_filter: self.last_filter,
            last_mount_event: opt_view(self.last_mount_event),
            last_guider_event: opt_view(self.last_guider_event),
            sequence_running: self.sequence_running,
            sequence_failure: failure_view(self.sequence_failure),
            sequence_outcome: opt_view(self.sequence_outcome),
            scheduler_wait: self.scheduler_wait,
            scheduler_wait_latest_at: self.scheduler_wait_latest_at,
            safety_state: self.safety_state,
            dome_connected: self.dome_connected,
            dome_shutter_open: self.dome_shutter_open,
            dome_azimuth: self.dome_azimuth,
            dome_parked: self.dome_parked,
            dome_homed: self.dome_homed,
            flat_connected: self.flat_connected,
            flat_cover_state: opt_view(self.flat_cover_state),
            flat_light_on: self.flat_light_on,
            flat_brightness: self.flat_brightness,
            weather_connected: self.weather_connected,
            weather_conditions: self.weather_conditions,
            weather_conditions_at: self.weather_conditions_at,
            weather_high_wind: self.weather_high_wind,
            weather_high_wind_conditions: self.weather_high_wind_conditions,
            weather_high_wind_conditions_at: self.weather_high_wind_conditions_at,
            weather_high_wind_threshold_meters_per_second:
                self.weather_high_wind_threshold_meters_per_second,
            switch_connected: self.switch_connected,
            board: self.board@,
            last_status_fingerprint: opt_view(self.last_status_fingerprint),
            connected: self.connected,
            consecutive_failures: self.consecutive_failures,
        }
    }

    /// The sets are bounded and the times lie in the calendar.
    pub open spec fn wf(&self) -> bool {
        &&& self.events_seen.wf()
        &&& self.events_seen.limit() == SEEN_SET_CAPACITY
        &&& self.disabled_event_tombstones.wf()
        &&& self.disabled_event_tombstones.limit() == SEEN_SET_CAPACITY
        &&& self.images_seen.wf()
        &&& self.images_seen.limit() == SEEN_SET_CAPACITY
        &&& self.board.wf()
        &&& self.current_target matches Some(t) ==> t.wf()
        &&& self.scheduler_wait matches Some(m) ==> m.wf()
        &&& self.scheduler_wait_latest_at matches Some(m) ==> m.wf()
        &&& self.weather_conditions_at matches Some(m) ==> m.wf()
        &&& self.weather_high_wind_conditions_at matches Some(m) ==> m.wf()
    }

    /// Nothing is known.
    pub fn new() -> (r: Self)
        ensures
            r.wf(),
            r@ == StateView::nothing(),
    {
        let board = SequenceBoard::new(SEEN_SET_CAPACITY);
        let r = UpdaterState {
            events_seen: BoundedSeenSet::new(SEEN_SET_CAPACITY),
            disabled_event_tombstones: BoundedSeenSet::new(SEEN_SET_CAPACITY),
            images_seen: BoundedSeenSet::new(SEEN_SET_CAPACITY),
            current_target: None,
            meridian_flip_time: None,
            sequence_container_counts: None,
            last_image_time: None,
            skipped_images_count: 0,
            last_filter: None,
            last_mount_event: None,
            last_guider_event: None,
            sequence_running: false,
            sequence_failure: None,
            sequence_outcome: None,
            scheduler_wait: None,
            scheduler_wait_latest_at: None,
            safety_state: SafetyState::Unknown,
            dome_connected: None,
            dome_shutter_open: None,
            dome_azimuth: None,
            dome_parked: None,
            dome_homed: None,
            flat_connected: None,
            flat_cover_state: None,
            flat_light_on: None,
            flat_brightness: None,
            weather_connected: None,
            weather_conditions: None,
            weather_conditions_at: None,
            weather_high_wind: None,
            weather_high_wind_conditions: None,
            weather_high_wind_conditions_at: None,
            weather_high_wind_threshold_meters_per_second: None,
            switch_connected: None,
            board,
            last_status_fingerprint: None,
            connected: false,
            consecutive_failures: 0,
        };
        assert(r@.board.running =~= Seq::<TrackedSequenceOperation>::empty());
        assert(r@.board.outputs =~= Seq::<Seq<char>>::empty());
        r
    }

    /// The planned end of the scheduler's wait.
    pub fn scheduler_wait_end(&self) -> (r: Option<Moment>)
        ensures
            r == self@.scheduler_wait,
    {
        self.scheduler_wait
    }

    /// Applies a transition of the scheduler in its order, and tells whether it was applied.
    pub fn accept_scheduler_transition(&mut self, occurred_at: Option<Moment>) -> (r: bool)
        requires
            old(self).wf(),
            occurred_at matches Some(m) ==> m.wf(),
        ensures
            final(self).wf(),
            r == old(self)@.accepts(occurred_at),
            final(self)@ == (if r {
                old(self)@.advanced(occurred_at)
            } else {
                old(self)@
            }),
    {
        match (self.scheduler_wait_latest_at, occurred_at) {
            (Some(current), Some(candidate)) => if candidate.before(current) {
                false
            } else {
                self.scheduler_wait_latest_at = Some(candidate);
                true
            },
            (Some(_), None) => false,
            (None, Some(candidate)) => {
                self.scheduler_wait_latest_at = Some(candidate);
                true
            },
            (None, None) => true,
        }
    }

    /// Records a wait that the scheduler announced, given the times that the announcement names,
    /// and tells whether it was recorded.
    pub fn record_wait(&mut self, at: Option<Moment>, end: Option<Moment>) -> (r: bool)
        requires
            old(self).wf(),
            at matches Some(m) ==> m.wf(),
            end matches Some(m) ==> m.wf(),
        ensures
            final(self).wf(),
            r == old(self)@.accepts(at),
            final(self)@ == (if r {
                old(self)@.waiting(at, end)
            } else {
                old(self)@
            }),
    {
        if !self.accept_scheduler_transition(at) {
            return false;
        }
        self.scheduler_wait = end;
        true
    }

    /// Records a wait that the scheduler announced.
    pub fn record_scheduler_wait(&mut self, event: &Event) -> (r: bool)
        requires
            old(self).wf(),
        ensures
            final(self).wf(),
            r == old(self)@.accepts(times_of(*event).occurred()),
            final(self)@ == (if r {
                old(self)@.waiting(
                    times_of(*event).occurred(),
                    opt_moment(times_of(*event).wait_end),
                )
            } else {
                old(self)@
            }),
    {
        let times: EventTimes = read_times(event);
        let end: Option<Moment> = match times.wait_end {
            Some(z) => Some(z.moment),
            None => None,
        };
        self.record_wait(times.at_utc(), end)
    }

    /// Forgets the scheduler's wait.
    pub fn clear_scheduler_waits(&mut self)
        requires
            old(self).wf(),
        ensures
            final(self).wf(),
            final(self)@ == (StateView { scheduler_wait: None, ..old(self)@ }),
    {
        self.scheduler_wait = None;
    }

    /// Forgets a wait that was switched off at `at`, so that no older announcement brings it back.
    pub fn hide_wait(&mut self, at: Option<Moment>)
        requires
            old(self).wf(),
            at matches Some(m) ==> m.wf(),
        ensures
            final(self).wf(),
            final(self)@ == old(self)@.wait_hidden(at),
    {
        self.scheduler_wait = None;
        if let Some(candidate) = at {
            match self.scheduler_wait_latest_at {
                Some(current) => if current.before(candidate) {
                    self.scheduler_wait_latest_at = Some(candidate);
                },
                None => {
                    self.scheduler_wait_latest_at = Some(candidate);
                },
            }
        }
    }

    /// Forgets a wait that was switched off at the time that a text names.
    pub fn clear_scheduler_waits_for_privacy(&mut self, event_time: &str)
        requires
            old(self).wf(),
        ensures
            final(self).wf(),
            final(self)@ == old(self)@.wait_hidden(opt_moment(timestamp(event_time@))),
    {
        let at: Option<Moment> = match parse_nina_timestamp(event_time) {
            Some(z) => Some(z.moment),
            None => None,
        };
        self.hide_wait(at);
    }

    /// Ends the wait at `at`.
    pub fn end_wait(&mut self, at: Option<Moment>)
        requires
            old(self).wf(),
            at matches Some(m) ==> m.wf(),
        ensures
            final(self).wf(),
            final(self)@ == old(self)@.wait_over(at),
    {
        if at.is_none() {
            self.scheduler_wait = None;
            return;
        }
        if self.accept_scheduler_transition(at) {
            self.scheduler_wait = None;
        }
    }

    /// Ends the wait at the time that a text names.
    pub fn clear_scheduler_waits_at(&mut self, event_time: &str)
        requires
            old(self).wf(),
        ensures
            final(self).wf(),
            final(self)@ == old(self)@.wait_over(opt_moment(timestamp(event_time@))),
    {
        let at: Option<Moment> = match parse_nina_timestamp(event_time) {
            Some(z) => Some(z.moment),
            None => None,
        };
        self.end_wait(at);
    }

    /// Starts a new epoch of weather readings.
    fn clear_weather_connection_epoch(&mut self)
        requires
            old(self).wf(),
            old(self).weather_connected is Some,
        ensures
            final(self).wf(),
            final(self)@ == old(self)@.new_weather_epoch(old(self).weather_connected->0),
    {
        self.weather_conditions = None;
        self.weather_conditions_at = None;
        let latched: bool = match self.weather_high_wind {
            Some(high) => high,
            None => false,
        };
        if !latched {
            self.weather_high_wind = None;
            self.weather_high_wind_conditions = None;
            self.weather_high_wind_conditions_at = None;
            self.weather_high_wind_threshold_meters_per_second = None;
        }
    }

    fn finish_sequence(&mut self, details: &Option<EventDetails>, at: Option<Moment>)
        requires
            old(self).wf(),
            at matches Some(m) ==> m.wf(),
        ensures
            final(self).wf(),
            final(self)@ == old(self)@.sequence_ended(*details, at),
    {
        self.sequence_running = false;
        self.end_wait(at);
        match details {
            Some(EventDetails::SequenceFinished { outcome, status, had_failures }) => {
                self.sequence_outcome = Some(outcome.clone());
                if (*had_failures || same(outcome.as_str(), "failed") || same(
                    outcome.as_str(),
                    "completed_with_failures",
                )) && self.sequence_failure.is_none() {
                    self.sequence_failure = Some(
                        SequenceFailureInfo {
                            entity: String::from_str("Sequence"),
                            entity_type: String::from_str("Sequence root"),
                            error: cat2(
                                "N.I.N.A. ended the sequence with status ",
                                status.as_str(),
                            ),
                        },
                    );
                }
            },
            _ => {
                self.sequence_outcome = None;
            },
        }
    }

    fn fail_item(&mut self, details: &Option<EventDetails>)
        requires
            old(self).wf(),
        ensures
            final(self).wf(),
            final(self)@ == old(self)@.item_failed(*details),
    {
        self.sequence_failure = Some(
            match details {
                Some(EventDetails::SequenceEntityFailed { entity, entity_type, error }) => {
                    SequenceFailureInfo {
                        entity: entity.clone(),
                        entity_type: entity_type.clone(),
                        error: error.clone(),
                    }
                },
                _ => SequenceFailureInfo {
                    entity: String::from_str("Sequence item"),
                    entity_type: String::from_str("Unknown"),
                    error: String::from_str("N.I.N.A. reported that the sequence item failed"),
                },
            },
        );
    }

    fn link_dome(&mut self, connected: bool)
        requires
            old(self).wf(),
        ensures
            final(self).wf(),
            final(self)@ == old(self)@.dome_link(connected),
    {
        self.dome_connected = Some(connected);
        self.dome_shutter_open = None;
        self.dome_azimuth = None;
        self.dome_parked = None;
        self.dome_homed = None;
    }

    fn link_flat(&mut self, connected: bool)
        requires
            old(self).wf(),
        ensures
            final(self).wf(),
            final(self)@ == old(self)@.flat_link(connected),
    {
        self.flat_connected = Some(connected);
        self.flat_cover_state = None;
        self.flat_light_on = None;
        self.flat_brightness = None;
    }

    #[verifier::spinoff_prover]
    #[verifier::rlimit(60)]
    fn tell(&mut self, kind: EventKind, event: &Event, times: EventTimes, now: Moment)
        requires
            old(self).wf(),
            times.wf(),
            now.wf(),
            kind == EventKind::TsWaitstart ==> old(self)@.accepts(times.occurred()),
        ensures
            final(self).wf(),
            final(self)@ == old(self)@.told(kind, event.event@, event.details, times, now),
    {
        let at: Option<Moment> = times.at_utc();
        match kind {
            EventKind::MountParked | EventKind::MountUnparked | EventKind::MountHomed
            | EventKind::MountSlewed => {
                self.last_mount_event = Some(event.event.clone());
            },
            EventKind::MountCenter => {
                self.last_mount_event = Some(event.event.clone());
                self.board.center_event_seen_at = Some(now);
            },
            EventKind::GuiderStart | EventKind::GuiderStop => {
                self.last_guider_event = Some(event.event.clone());
            },
            EventKind::SequenceStarting => {
                self.sequence_running = true;
                self.sequence_failure = None;
                self.sequence_outcome = None;
                self.end_wait(at);
            },
            EventKind::SequenceFinished => {
                self.finish_sequence(&event.details, at);
            },
            EventKind::SequenceEntityFailed => {
                self.fail_item(&event.details);
            },
            EventKind::TsTargetstart | EventKind::TsNewtargetstart => {
                self.end_wait(at);
            },
            EventKind::TsWaitstart => {
                let end: Option<Moment> = match times.wait_end {
                    Some(z) => Some(z.moment),
                    None => None,
                };
                self.record_wait(at, end);
            },
            EventKind::SafetyConnected => {
                self.safety_state = SafetyState::ConnectedUnknown;
            },
            EventKind::SafetyDisconnected => {
                self.safety_state = SafetyState::Disconnected;
            },
            EventKind::SafetyChanged => {
                if let Some(EventDetails::SafetyChanged { is_safe }) = &event.details {
                    self.safety_state = if *is_safe {
                        SafetyState::Safe
                    } else {
                        SafetyState::Unsafe
                    };
                }
            },
            EventKind::DomeConnected => {
                self.link_dome(true);
            },
            EventKind::DomeDisconnected => {
                self.link_dome(false);
            },
            EventKind::DomeShutterOpened => {
                self.dome_shutter_open = Some(true);
            },
            EventKind::DomeShutterClosed => {
                self.dome_shutter_open = Some(false);
            },
            EventKind::DomeHomed => {
                self.dome_homed = Some(true);
                self.dome_parked = Some(false);
                self.dome_azimuth = None;
            },
            EventKind::DomeParked => {
                self.dome_parked = Some(true);
                self.dome_homed = Some(false);
                self.dome_azimuth = None;
            },
            EventKind::DomeSynced => {
                self.dome_azimuth = None;
            },
            EventKind::DomeSlewed => {
                if let Some(EventDetails::DomeSlewed { to, .. }) = &event.details {
                    self.dome_azimuth = Some(*to);
                    self.dome_parked = Some(false);
                    self.dome_homed = Some(false);
                }
            },
            EventKind::FlatConnected => {
                self.link_flat(true);
            },
            EventKind::FlatDisconnected => {
                self.link_flat(false);
            },
            EventKind::FlatCoverOpened => {
                self.flat_cover_state = Some(String::from_str("Open"));
            },
            EventKind::FlatCoverClosed => {
                self.flat_cover_state = Some(String::from_str("Closed"));
            },
            EventKind::FlatLightToggled => {
                self.flat_light_on = match &event.details {
                    Some(EventDetails::FlatLightToggled { on }) => *on,
                    _ => None,
                };
            },
            EventKind::FlatBrightnessChanged => {
                if let Some(EventDetails::FlatBrightnessChanged { new, .. }) = &event.details {
                    self.flat_brightness = Some(*new);
                }
            },
            EventKind::WeatherConnected => {
                self.weather_connected = Some(true);
                self.clear_weather_connection_epoch();
            },
            EventKind::WeatherDisconnected => {
                self.weather_connected = Some(false);
                self.clear_weather_connection_epoch();
            },
            EventKind::WeatherChanged => {
                if let Some(EventDetails::WeatherChanged { conditions, .. }) = &event.details {
                    let empty: bool = conditions.is_empty();
                    self.weather_conditions = if empty {
                        None
                    } else {
                        Some(*conditions)
                    };
                    self.weather_conditions_at = if empty {
                        None
                    } else {
                        at
                    };
                }
            },
            EventKind::WeatherHighWind => {
                if let Some(
                    EventDetails::WeatherHighWind {
                        is_high_wind,
                        threshold_meters_per_second,
                        conditions,
                    },
                ) = &event.details {
                    let empty: bool = conditions.is_empty();
                    self.weather_high_wind = Some(*is_high_wind);
                    self.weather_high_wind_threshold_meters_per_second =
                    *threshold_meters_per_second;
                    self.weather_high_wind_conditions = if empty {
                        None
                    } else {
                        Some(*conditions)
                    };
                    self.weather_high_wind_conditions_at = if empty {
                        None
                    } else {
                        at
                    };
                }
            },
            EventKind::SwitchConnected => {
                self.switch_connected = Some(true);
            },
            EventKind::SwitchDisconnected => {
                self.switch_connected = Some(false);
            },
            _ => {},
        }
    }

    /// Takes in what an event tells, given the times that it names, and says whether it told
    /// anything.
    pub fn apply_event(&mut self, event: &Event, times: EventTimes, now: Moment) -> (r: bool)
        requires
            old(self).wf(),
            times.wf(),
            now.wf(),
        ensures
            final(self).wf(),
            r == old(self)@.takes(*event, times),
            final(self)@ == old(self)@.applied(*event, times, now),
    {
        if !has_usable_weather_details(event) {
            return false;
        }
        let kind: EventKind = event_kind(event.event.as_str());
        if kind == EventKind::TsWaitstart {
            let accepted: bool = match (self.scheduler_wait_latest_at, times.at_utc()) {
                (Some(current), Some(candidate)) => !candidate.before(current),
                (Some(_), None) => false,
                _ => true,
            };
            if !accepted {
                return false;
            }
        }
        self.tell(kind, event, times, now);
        self.last_status_fingerprint = None;
        true
    }

    /// Takes in what an event tells.
    pub fn apply_event_state(&mut self, event: &Event, now: Moment) -> (r: bool)
        requires
            old(self).wf(),
            now.wf(),
        ensures
            final(self).wf(),
            r == old(self)@.takes(*event, times_of(*event)),
            final(self)@ == old(self)@.applied(*event, times_of(*event), now),
    {
        let times: EventTimes = read_times(event);
        self.apply_event(event, times, now)
    }

    fn retain_operations(&mut self, rule: Retention)
        requires
            old(self).wf(),
        ensures
            final(self).wf(),
            final(self)@ == (StateView {
                board: BoardView {
                    running: retained(old(self)@.board.running, rule),
                    ..old(self)@.board
                },
                ..old(self)@
            }),
    {
        let ghost all = self.board.running@;
        let mut kept: Vec<TrackedSequenceOperation> = Vec::new();
        let ghost mut done: int = 0;
        assert(all.subrange(0, 0) =~= Seq::<TrackedSequenceOperation>::empty());
        assert(all.subrange(0, all.len() as int) =~= all);
        while self.board.running.len() > 0
            invariant
                0 <= done <= all.len(),
                self.board.running@ == all.subrange(done, all.len() as int),
                kept@ == retained(all.subrange(0, done), rule),
                keys_distinct(all),
                forall|i: int| 0 <= i < all.len() ==> (#[trigger] all[i]).wf(),
                forall|i: int| 0 <= i < kept@.len() ==> (#[trigger] kept@[i]).wf(),
                self.wf(),
                self@ == (StateView {
                    board: BoardView { running: self.board.running@, ..old(self)@.board },
                    ..old(self)@
                }),
            decreases self.board.running@.len(),
        {
            let ghost before = self.board.running@;
            let t = self.board.running.remove(0);
            proof {
                let now_seen = all.subrange(0, done + 1);
                assert(now_seen.drop_last() =~= all.subrange(0, done));
                assert(now_seen.last() == t);
                assert(t == all[done]);
                assert(self.board.running@ =~= all.subrange(done + 1, all.len() as int));
                done = done + 1;
            }
            if retention_keeps(rule, &t.operation.kind) {
                kept.push(t);
            }
        }
        assert(all.subrange(0, done) =~= all);
        self.board.running = kept;
        proof {
            lemma_retained(all, rule);
        }
    }

    /// Forgets all that came through a delivery switch that is now off. `at`, where `timed` says
    /// so, is the moment of that.
    pub fn revoke_scope(&mut self, scope: EventDeliveryScope, timed: bool, at: Option<Moment>)
        requires
            old(self).wf(),
            at matches Some(m) ==> m.wf(),
        ensures
            final(self).wf(),
            final(self)@ == old(self)@.revoked(scope, timed, at),
    {
        match scope {
            EventDeliveryScope::TargetScheduler => {
                self.current_target = None;
                if timed {
                    self.hide_wait(at);
                } else {
                    self.clear_scheduler_waits();
                }
            },
            EventDeliveryScope::FilterFocuserRotator => {
                self.last_filter = None;
            },
            EventDeliveryScope::Mount => {
                self.last_mount_event = None;
                self.board.center_event_seen_at = None;
                self.meridian_flip_time = None;
                self.retain_operations(Retention::NotMount);
            },
            EventDeliveryScope::Guiding => {
                self.last_guider_event = None;
            },
            EventDeliveryScope::Sequence => {
                self.sequence_running = false;
                self.sequence_failure = None;
                self.sequence_outcome = None;
                self.sequence_container_counts = None;
                self.retain_operations(Retention::OnlyMount);
            },
            EventDeliveryScope::Safety => {
                self.safety_state = SafetyState::Unknown;
                self.retain_operations(Retention::NotSafety);
            },
            EventDeliveryScope::WeatherChanges => {
                self.weather_conditions = None;
                self.weather_conditions_at = None;
            },
            EventDeliveryScope::HighWindAlerts => {
                self.weather_high_wind = None;
                self.weather_high_wind_conditions = None;
                self.weather_high_wind_conditions_at = None;
                self.weather_high_wind_threshold_meters_per_second = None;
            },
            EventDeliveryScope::Images => {
                self.last_image_time = None;
                self.skipped_images_count = 0;
            },
            EventDeliveryScope::Observatory => {
                self.dome_shutter_open = None;
                self.dome_azimuth = None;
                self.dome_parked = None;
                self.dome_homed = None;
                self.flat_cover_state = None;
                self.flat_light_on = None;
                self.flat_brightness = None;
            },
            EventDeliveryScope::EquipmentConnections => {
                self.dome_connected = None;
                self.flat_connected = None;
                self.weather_connected = None;
                self.switch_connected = None;
            },
            _ => {},
        }
        self.last_status_fingerprint = None;
    }
}

impl StateView {
    /// Nothing is known.
    pub open spec fn nothing() -> StateView {
        StateView {
            events_seen: Seq::empty(),
            disabled_event_tombstones: Seq::empty(),
            images_seen: Seq::empty(),
            current_target: None,
            meridian_flip_time: None,
            sequence_container_counts: None,
            last_image_time: None,
            skipped_images_count: 0,
            last_filter: None,
            last_mount_event: None,
            last_guider_event: None,
            sequence_running: false,
            sequence_failure: None,
            sequence_outcome: None,
            scheduler_wait: None,
            scheduler_wait_latest_at: None,
            safety_state: SafetyState::Unknown,
            dome_connected: None,
            dome_shutter_open: None,
            dome_azimuth: None,
            dome_parked: None,
            dome_homed: None,
            flat_connected: None,
            flat_cover_state: None,
            flat_light_on: None,
            flat_brightness: None,
            weather_connected: None,
            weather_conditions: None,
            weather_conditions_at: None,
            weather_high_wind: None,
            weather_high_wind_conditions: None,
            weather_high_wind_conditions_at: None,
            weather_high_wind_threshold_meters_per_second: None,
            switch_connected: None,
            board: BoardView {
                running: Seq::empty(),
                outputs: Seq::empty(),
                limit: SEEN_SET_CAPACITY as nat,
                center: None,
            },
            last_status_fingerprint: None,
            connected: false,
            consecutive_failures: 0,
        }
    }
}

} // verus!
