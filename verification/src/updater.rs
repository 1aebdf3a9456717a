//! One telescope's updater: takes in what the controller reports and decides what to tell.

use std::collections::hash_map::RandomState;
use std::hash::BuildHasher;
use vstd::prelude::*;
use crate::autofocus_delivery::{
    autofocus_unavailable_message, unavailable_message, AutofocusRetryPolicy, DueAction,
    PendingAutofocusDelivery, ReadOutcome, Resolution,
};
use crate::backoff::{
    backoff_delay, next_wait, DEFAULT_RECONNECT_INITIAL_SECS, DEFAULT_RECONNECT_MAX_SECS,
};
use crate::calendar::{Moment, ZonedMoment};
use crate::chat::{ChatMessage, ChatTarget, MessageView};
use crate::clock::{Duration, Tick, MAX_NANOS};
use crate::double::Double;
use crate::event_messages::opt_message;
use crate::event_rate_limit::new_hasher;
use crate::event_types::{event_kind, EventKind};
use crate::events::{
    event_delivery_scope, scope_of, Event, EventDeliveryScope, EventDetails, FilterInfo,
};
use crate::lifecycle_messages::{connectivity_message, connectivity_notification};
use crate::operations::{
    fits, notes_wf, operation_fits, plate_solve_output_key, reconciled, Incoming, OperationNote,
};
use crate::seen_set::after_sighting;
use crate::sequence::{
    output_of, thermal, CameraInfo, SequenceOperation, TrackedSequenceOperation,
};
use crate::source::SharedRigSource;
use crate::telescope_messages::{unknown_filter, ImageMetadata};
use crate::text::{
    cat2, eq_ignore_ascii_case, hex, hexadecimal, same, same_ignoring_case, views,
};
use crate::updater_state::{
    has_usable_weather_details, opt_moment, read_times, times_of, usable, EventTimes, StateView,
    TargetInfo, TargetSource, UpdaterState, OFFLINE_FAILURE_THRESHOLD, SEEN_SET_CAPACITY,
};

verus! {

/// An event with the times that it names and the hashes that it is remembered by.
#[derive(Debug)]
pub struct PreparedEvent {
    pub event: Event,
    pub times: EventTimes,
    /// Of the whole event.
    pub key: u64,
    /// Of its time and delivery scope alone.
    pub tombstone: u64,
}

/// What tells one event from another: its time, its name and its details. Whether it is delivered
/// plays no part.
pub struct EventIdentity<'a> {
    pub time: &'a str,
    pub name: &'a str,
    pub details: &'a Option<EventDetails>,
}

/// The identity of an event.
pub fn event_identity(event: &Event) -> (r: EventIdentity<'_>)
    ensures
        r.time@ == event.time@,
        r.name@ == event.event@,
        *r.details == event.details,
{
    EventIdentity {
        time: event.time.as_str(),
        name: event.event.as_str(),
        details: &event.details,
    }
}

/// `RandomState::hash_one` of an event's time, of its name, and of its details as they are
/// printed for debugging. Nothing is known of the number: the hasher's keys differ from run to
/// run.
#[verifier::external_body]
fn hash_event(hasher: &RandomState, identity: &EventIdentity<'_>) -> (r: u64) {
    hasher.hash_one((identity.time, identity.name, format!("{:?}", identity.details)))
}

/// What tells one switched-off event from another: its time and its delivery scope, and nothing of
/// what it says.
pub struct TombstoneIdentity<'a> {
    pub time: &'a str,
    pub scope: EventDeliveryScope,
}

/// The identity of an event that is switched off.
pub fn tombstone_identity(event: &Event) -> (r: TombstoneIdentity<'_>)
    ensures
        r.time@ == event.time@,
        r.scope == event.scope(),
{
    TombstoneIdentity {
        time: event.time.as_str(),
        scope: event_delivery_scope(event.event.as_str()),
    }
}

/// `RandomState::hash_one` of a time and a delivery scope. Nothing is known of the number: the
/// hasher's keys differ from run to run.
#[verifier::external_body]
fn hash_tombstone(hasher: &RandomState, identity: &TombstoneIdentity<'_>) -> (r: u64) {
    hasher.hash_one((identity.time, identity.scope))
}

/// `RandomState::hash_one` of an image's description as it is printed for debugging. Nothing is
/// known of the number: the hasher's keys differ from run to run.
#[verifier::external_body]
fn hash_image(hasher: &RandomState, image: &ImageMetadata) -> (r: u64) {
    hasher.hash_one(format!("{:?}", image))
}

/// The key that an event is remembered by: nothing of what the event says can be read from it.
pub open spec fn event_name(key: u64) -> Seq<char> {
    "e:"@ + hex(key as nat, 16)
}

/// The key that a switched-off event is remembered by.
pub open spec fn tombstone_name(key: u64) -> Seq<char> {
    "d:"@ + hex(key as nat, 16)
}

/// The key that an image is remembered by.
pub open spec fn image_name(key: u64) -> Seq<char> {
    "i:"@ + hex(key as nat, 16)
}

impl PreparedEvent {
    pub open spec fn wf(&self) -> bool {
        self.times.wf()
    }
}

pub open spec fn all_wf(items: Seq<PreparedEvent>) -> bool {
    forall|i: int| 0 <= i < items.len() ==> (#[trigger] items[i]).wf()
}

/// A page of events was prepared.
pub open spec fn prepared_from(items: Seq<PreparedEvent>, events: Seq<Event>) -> bool {
    &&& items.len() == events.len()
    &&& forall|i: int|
        0 <= i < items.len() ==> (#[trigger] items[i]).event == events[i] && items[i].times
            == times_of(events[i])
}

/// An event that is delivered stands before a switched-off one of the same scope: the switch was
/// turned off after it, so it is not told of any more.
pub open spec fn is_hidden(items: Seq<PreparedEvent>, i: int) -> bool {
    items[i].event.chat_enabled && exists|j: int|
        i < j < items.len() && !(#[trigger] items[j]).event.chat_enabled && items[j].event.scope()
            == items[i].event.scope()
}

fn hidden(items: &Vec<PreparedEvent>, i: usize) -> (r: bool)
    requires
        i < items@.len(),
    ensures
        r == is_hidden(items@, i as int),
{
    if !items[i].event.chat_enabled {
        return false;
    }
    let scope: EventDeliveryScope = event_delivery_scope(items[i].event.event.as_str());
    let n: usize = items.len();
    let mut j: usize = i + 1;
    while j < n
        invariant
            i < j <= n == items@.len(),
            items@[i as int].event.chat_enabled,
            scope == items@[i as int].event.scope(),
            forall|k: int|
                i < k < j ==> (#[trigger] items@[k]).event.chat_enabled || items@[k].event.scope()
                    != scope,
        decreases items@.len() - j,
    {
        if !items[j].event.chat_enabled && event_delivery_scope(items[j].event.event.as_str())
            == scope {
            assert(!items@[j as int].event.chat_enabled);
            return true;
        }
        j += 1;
    }
    false
}

/// A filter change between two filters of the same name.
pub open spec fn same_filter(event: Event) -> bool {
    event.kind() == EventKind::FilterwheelChanged && match event.details {
        Some(EventDetails::FilterWheelChange { new, previous }) => new.name@ == previous.name@
            && !unknown_filter(new),
        _ => false,
    }
}

fn is_same_filter(event: &Event) -> (r: bool)
    ensures
        r == same_filter(*event),
{
    event_kind(event.event.as_str()) == EventKind::FilterwheelChanged && match &event.details {
        Some(EventDetails::FilterWheelChange { new, previous }) => same(
            new.name.as_str(),
            previous.name.as_str(),
        ) && !new.is_unknown(),
        _ => false,
    }
}

/// The filter that a change leads to, where it is known.
pub open spec fn changed_filter(event: Event) -> Option<FilterInfo> {
    if event.kind() == EventKind::FilterwheelChanged {
        match event.details {
            Some(EventDetails::FilterWheelChange { new, .. }) => if unknown_filter(new) {
                None
            } else {
                Some(new)
            },
            _ => None,
        }
    } else {
        None
    }
}

/// The target that an event starts. Instruction sets are no targets.
pub open spec fn started_target(event: Event, end: Option<ZonedMoment>) -> Option<TargetInfo> {
    if event.kind() == EventKind::TsTargetstart || event.kind() == EventKind::TsNewtargetstart {
        match event.details {
            Some(
                EventDetails::TargetStart {
                    target_name,
                    project_name,
                    rotation,
                    target_end_time,
                    coordinates,
                },
            ) => if target_name@ == "Sequential Instruction Set"@ {
                None
            } else {
                Some(
                    TargetInfo {
                        name: target_name,
                        source: TargetSource::TsTargetStart,
                        coordinates,
                        project: project_name,
                        rotation,
                        target_end_time: end,
                    },
                )
            },
            _ => None,
        }
    } else {
        None
    }
}

fn target_started(event: &Event, end: Option<ZonedMoment>) -> (r: Option<TargetInfo>)
    requires
        end matches Some(z) ==> z.wf(),
    ensures
        r == started_target(*event, end),
        r matches Some(t) ==> t.wf(),
{
    let kind: EventKind = event_kind(event.event.as_str());
    if kind != EventKind::TsTargetstart && kind != EventKind::TsNewtargetstart {
        return None;
    }
    match &event.details {
        Some(
            EventDetails::TargetStart {
                target_name,
                project_name,
                rotation,
                target_end_time,
                coordinates,
            },
        ) => if same(target_name.as_str(), "Sequential Instruction Set") {
            None
        } else {
            Some(
                TargetInfo {
                    name: target_name.clone(),
                    source: TargetSource::TsTargetStart,
                    coordinates: crate::events::copy_coordinates(coordinates),
                    project: crate::text::clone_opt(project_name),
                    rotation: *rotation,
                    target_end_time: end,
                },
            )
        },
        _ => None,
    }
}

/// All that one telescope's updater knows.
pub struct UpdaterView {
    pub state: StateView,
    pub pending: Option<PendingAutofocusDelivery>,
}

impl UpdaterView {
    /// After events under a delivery switch were switched off.
    pub open spec fn revoked(self, scope: EventDeliveryScope, timed: bool, at: Option<Moment>) -> UpdaterView {
        UpdaterView {
            state: self.state.revoked(scope, timed, at),
            pending: if scope == EventDeliveryScope::Autofocus {
                None
            } else {
                self.pending
            },
        }
    }

    /// With a switched-off event remembered.
    pub open spec fn buried(self, key: u64) -> UpdaterView {
        UpdaterView {
            state: StateView {
                disabled_event_tombstones: after_sighting(
                    self.state.disabled_event_tombstones,
                    tombstone_name(key),
                    SEEN_SET_CAPACITY as nat,
                ),
                ..self.state
            },
            ..self
        }
    }

    /// With an event remembered.
    pub open spec fn noted(self, key: u64) -> UpdaterView {
        UpdaterView {
            state: StateView {
                events_seen: after_sighting(
                    self.state.events_seen,
                    event_name(key),
                    SEEN_SET_CAPACITY as nat,
                ),
                ..self.state
            },
            ..self
        }
    }

    /// With an image remembered.
    pub open spec fn pictured(self, key: u64) -> UpdaterView {
        UpdaterView {
            state: StateView {
                images_seen: after_sighting(
                    self.state.images_seen,
                    image_name(key),
                    SEEN_SET_CAPACITY as nat,
                ),
                ..self.state
            },
            ..self
        }
    }
}

/// A target found in the history, with the time of its start.
pub struct FoundTarget {
    pub at: Option<ZonedMoment>,
    pub target: TargetInfo,
}

/// A target start is newer than the one found before: by its time, and by its place in the
/// history where neither has one.
pub open spec fn is_newer(at: Option<ZonedMoment>, found: Option<FoundTarget>) -> bool {
    match found {
        None => true,
        Some(f) => match (at, f.at) {
            (Some(candidate), Some(latest)) => latest.moment.earlier(candidate.moment),
            (Some(_), None) => true,
            (None, Some(_)) => false,
            (None, None) => true,
        },
    }
}

/// What taking in the history has led to.
pub struct BaselineView {
    pub updater: UpdaterView,
    pub found: Option<FoundTarget>,
}

/// Takes in one event of the history.
pub open spec fn baseline_step(
    s: BaselineView,
    items: Seq<PreparedEvent>,
    i: int,
    now: Moment,
) -> BaselineView {
    let item = items[i];
    let event = item.event;
    if is_hidden(items, i) {
        s
    } else if !event.chat_enabled {
        BaselineView {
            updater: s.updater.buried(item.tombstone).revoked(
                event.scope(),
                true,
                item.times.occurred(),
            ),
            found: if event.scope() == EventDeliveryScope::TargetScheduler {
                None
            } else {
                s.found
            },
        }
    } else if same_filter(event) {
        s
    } else {
        let filtered = match changed_filter(event) {
            Some(f) => StateView { last_filter: Some(f), ..s.updater.state },
            None => s.updater.state,
        };
        BaselineView {
            updater: UpdaterView {
                state: filtered.applied(event, item.times, now),
                ..s.updater
            }.noted(item.key),
            found: match started_target(event, item.times.target_end) {
                Some(target) => if is_newer(item.times.at, s.found) {
                    Some(FoundTarget { at: item.times.at, target })
                } else {
                    s.found
                },
                None => s.found,
            },
        }
    }
}

/// Takes in the first `n` events of the history.
pub open spec fn baseline_steps(
    s: BaselineView,
    items: Seq<PreparedEvent>,
    n: int,
    now: Moment,
) -> BaselineView
    decreases n,
{
    if n <= 0 {
        s
    } else {
        baseline_step(baseline_steps(s, items, n - 1, now), items, n - 1, now)
    }
}

/// What is known after the history.
pub open spec fn after_baseline(u: UpdaterView, items: Seq<PreparedEvent>, now: Moment) -> UpdaterView {
    let s = baseline_steps(
        BaselineView { updater: u, found: None },
        items,
        items.len() as int,
        now,
    );
    match s.found {
        Some(f) => UpdaterView {
            state: StateView { current_target: Some(f.target), ..s.updater.state },
            ..s.updater
        },
        None => s.updater,
    }
}

/// What there is to tell of an event, and what has to be asked for first.
#[derive(Debug)]
pub enum Notice {
    /// Nothing.
    Silent,
    /// The event itself.
    Generic,
    /// A target started, in place of another or as the first one.
    TargetStarted { previous: Option<TargetInfo>, target: TargetInfo },
    /// The filter changed; the filter wheel may have to be asked.
    FilterChanged,
    /// The mount; its position may have to be asked for.
    Mount,
    /// The guider; its state has to be asked for.
    Guider,
    /// The sequence.
    Sequence,
    /// The rotator was synchronized; its position has to be asked for.
    RotatorSynced,
    /// Somebody focused; the focuser has to be asked.
    FocuserFocused,
}

/// The event is looked at: weather events need readings, and a change between two known filters
/// has to be a change.
pub open spec fn processable(event: Event) -> bool {
    !event.chat_enabled || (usable(event) && match event.details {
        Some(EventDetails::FilterWheelChange { new, previous }) => event.kind()
            == EventKind::FilterwheelChanged && !unknown_filter(new) && !unknown_filter(previous)
            ==> new.name@ != previous.name@,
        _ => true,
    })
}

pub fn should_process_event(event: &Event) -> (r: bool)
    ensures
        r == processable(*event),
{
    if !event.chat_enabled {
        return true;
    }
    if !has_usable_weather_details(event) {
        return false;
    }
    if event_kind(event.event.as_str()) == EventKind::FilterwheelChanged {
        if let Some(EventDetails::FilterWheelChange { new, previous }) = &event.details {
            if !new.is_unknown() && !previous.is_unknown() {
                return !same(new.name.as_str(), previous.name.as_str());
            }
        }
    }
    true
}

/// The event repeats that high wind is on.
pub open spec fn repeats_alert(s: StateView, event: Event) -> bool {
    s.weather_high_wind == Some(true) && match event.details {
        Some(EventDetails::WeatherHighWind { is_high_wind, .. }) => is_high_wind,
        _ => false,
    }
}

/// The kind of message that an event calls for, apart from targets.
pub open spec fn plain_notice(kind: EventKind) -> Notice {
    match kind {
        EventKind::FilterwheelChanged => Notice::FilterChanged,
        EventKind::AutofocusFinished => Notice::Silent,
        EventKind::MountBeforeFlip => Notice::Mount,
        EventKind::MountAfterFlip => Notice::Mount,
        EventKind::MountParked => Notice::Mount,
        EventKind::MountUnparked => Notice::Mount,
        EventKind::MountHomed => Notice::Mount,
        EventKind::MountCenter => Notice::Mount,
        EventKind::MountSlewStarted => Notice::Mount,
        EventKind::MountSlewed => Notice::Mount,
        EventKind::GuiderStart => Notice::Guider,
        EventKind::GuiderDither => Notice::Guider,
        EventKind::SequenceStarting => Notice::Sequence,
        EventKind::SequenceFinished => Notice::Sequence,
        EventKind::SequenceEntityFailed => Notice::Sequence,
        EventKind::RotatorSynced => Notice::RotatorSynced,
        EventKind::FocuserUserFocused => Notice::FocuserFocused,
        EventKind::ImageSave => Notice::Silent,
        _ => Notice::Generic,
    }
}

fn notice_of(kind: EventKind) -> (r: Notice)
    ensures
        r == plain_notice(kind),
{
    match kind {
        EventKind::FilterwheelChanged => Notice::FilterChanged,
        EventKind::AutofocusFinished => Notice::Silent,
        EventKind::MountBeforeFlip | EventKind::MountAfterFlip | EventKind::MountParked
        | EventKind::MountUnparked | EventKind::MountHomed | EventKind::MountCenter
        | EventKind::MountSlewStarted | EventKind::MountSlewed => Notice::Mount,
        EventKind::GuiderStart | EventKind::GuiderDither => Notice::Guider,
        EventKind::SequenceStarting | EventKind::SequenceFinished
        | EventKind::SequenceEntityFailed => Notice::Sequence,
        EventKind::RotatorSynced => Notice::RotatorSynced,
        EventKind::FocuserUserFocused => Notice::FocuserFocused,
        EventKind::ImageSave => Notice::Silent,
        _ => Notice::Generic,
    }
}

/// The updater and what there is to tell, after an event that is delivered and new.
pub open spec fn handled(
    u: UpdaterView,
    item: PreparedEvent,
    now: Moment,
    tick: Tick,
    retry: AutofocusRetryPolicy,
) -> (UpdaterView, Notice) {
    let event = item.event;
    let applied = UpdaterView { state: u.state.applied(event, item.times, now), ..u };
    if !u.state.takes(event, item.times) {
        (u, Notice::Silent)
    } else if repeats_alert(u.state, event) {
        (applied, Notice::Silent)
    } else if event.kind() == EventKind::TsTargetstart || event.kind()
        == EventKind::TsNewtargetstart {
        match started_target(event, item.times.target_end) {
            None => (applied, Notice::Silent),
            Some(target) => (
                UpdaterView {
                    state: StateView { current_target: Some(target), ..applied.state },
                    ..applied
                },
                match u.state.current_target {
                    Some(previous) => if previous.name@ == target.name@ {
                        Notice::Silent
                    } else {
                        Notice::TargetStarted { previous: Some(previous), target }
                    },
                    None => Notice::TargetStarted { previous: None, target },
                },
            ),
        }
    } else if event.kind() == EventKind::AutofocusFinished {
        (
            UpdaterView {
                pending: Some(PendingAutofocusDelivery::queued(event, tick, retry)),
                ..applied
            },
            Notice::Silent,
        )
    } else {
        (applied, plain_notice(event.kind()))
    }
}

/// The updater and what there is to tell, after one event of a page.
pub open spec fn live_step(
    u: UpdaterView,
    items: Seq<PreparedEvent>,
    i: int,
    now: Moment,
    tick: Tick,
    retry: AutofocusRetryPolicy,
) -> (UpdaterView, Notice) {
    let item = items[i];
    let event = item.event;
    if is_hidden(items, i) || !processable(event) {
        (u, Notice::Silent)
    } else if !event.chat_enabled {
        if u.state.disabled_event_tombstones.contains(tombstone_name(item.tombstone)) {
            (u.buried(item.tombstone), Notice::Silent)
        } else {
            (
                u.buried(item.tombstone).revoked(event.scope(), true, item.times.occurred()),
                Notice::Silent,
            )
        }
    } else if u.state.events_seen.contains(event_name(item.key)) {
        (u.noted(item.key), Notice::Silent)
    } else {
        handled(u.noted(item.key), item, now, tick, retry)
    }
}

/// One telescope's updater.
pub struct ChatUpdater {
    pub source: SharedRigSource,
    pub state: UpdaterState,
    pub chat_target: ChatTarget,
    pub telescope_name: String,
    pub image_cooldown: Duration,
    pub reconnect_initial: Duration,
    pub reconnect_max: Duration,
    /// Tell of starting up and of going offline and coming back.
    pub announce_lifecycle: bool,
    pub autofocus_retry: AutofocusRetryPolicy,
    pub pending_autofocus: Option<PendingAutofocusDelivery>,
    /// The history has been taken in: whatever comes later is news.
    pub event_baseline_complete: bool,
    pub hasher: RandomState,
}

impl ChatUpdater {
    pub open spec fn view(&self) -> UpdaterView {
        UpdaterView { state: self.state@, pending: self.pending_autofocus }
    }

    pub open spec fn name(&self) -> Seq<char> {
        self.telescope_name@
    }

    pub open spec fn cooldown(&self) -> Duration {
        self.image_cooldown
    }

    pub open spec fn first_wait(&self) -> Duration {
        self.reconnect_initial
    }

    pub open spec fn longest_wait(&self) -> Duration {
        self.reconnect_max
    }

    pub open spec fn announces(&self) -> bool {
        self.announce_lifecycle
    }

    pub open spec fn policy(&self) -> AutofocusRetryPolicy {
        self.autofocus_retry
    }

    pub open spec fn has_baseline(&self) -> bool {
        self.event_baseline_complete
    }

    /// Everything stays as it is but what is known, and whether the history has been taken in.
    pub open spec fn same_setup(&self, other: &ChatUpdater) -> bool {
        &&& self.name() == other.name()
        &&& self.cooldown() == other.cooldown()
        &&& self.first_wait() == other.first_wait()
        &&& self.longest_wait() == other.longest_wait()
        &&& self.announces() == other.announces()
        &&& self.policy() == other.policy()
        &&& self.source == other.source
        &&& self.chat_target == other.chat_target
        &&& self.hasher == other.hasher
    }

    /// Everything but what is known stays as it is.
    pub open spec fn same_settings(&self, other: &ChatUpdater) -> bool {
        &&& self.same_setup(other)
        &&& self.has_baseline() == other.has_baseline()
    }

    pub open spec fn wf(&self) -> bool {
        &&& self.state.wf()
        &&& self.policy().wf()
        &&& self.pending_autofocus matches Some(d) ==> d.wf()
    }

    /// An updater that knows nothing yet.
    pub fn new(source: SharedRigSource, telescope_name: String, chat_target: ChatTarget) -> (r: Self)
        ensures
            r.wf(),
            r@.state == StateView::nothing(),
            r@.pending is None,
            r.source == source,
            r.chat_target == chat_target,
            r.name() == telescope_name@,
            r.cooldown().nanos == 60_000_000_000,
            r.first_wait().nanos == 60_000_000_000,
            r.longest_wait().nanos == 600_000_000_000,
            r.announces(),
            !r.has_baseline(),
            r.policy().max_attempts == 5,
            r.policy().initial_delay.nanos == 1_000_000_000,
            r.policy().max_delay.nanos == 8_000_000_000,
            r.policy().not_ready_timeout.nanos == 120_000_000_000,
            r.policy().overall_timeout.nanos == 120_000_000_000,
    {
        ChatUpdater {
            source,
            state: UpdaterState::new(),
            chat_target,
            telescope_name,
            image_cooldown: Duration::from_secs(60),
            reconnect_initial: Duration::from_secs(DEFAULT_RECONNECT_INITIAL_SECS),
            reconnect_max: Duration::from_secs(DEFAULT_RECONNECT_MAX_SECS),
            announce_lifecycle: true,
            autofocus_retry: AutofocusRetryPolicy::standard(),
            pending_autofocus: None,
            event_baseline_complete: false,
            hasher: new_hasher(),
        }
    }

    pub fn telescope_name(&self) -> (r: &str)
        ensures
            r@ == self.name(),
    {
        self.telescope_name.as_str()
    }

    /// Tells of an image only so many seconds after the last one.
    pub fn with_image_cooldown(self, cooldown_seconds: u64) -> (r: Self)
        ensures
            r.cooldown().nanos == cooldown_seconds * 1_000_000_000,
            r@ == self@,
            self.wf() ==> r.wf(),
            r.name() == self.name(),
            r.first_wait() == self.first_wait(),
            r.longest_wait() == self.longest_wait(),
            r.announces() == self.announces(),
            r.policy() == self.policy(),
            r.has_baseline() == self.has_baseline(),
            r.source == self.source,
            r.chat_target == self.chat_target,
            r.hasher == self.hasher,
    {
        ChatUpdater { image_cooldown: Duration::from_secs(cooldown_seconds), ..self }
    }

    /// Sets the waits between attempts to reach the telescope.
    pub fn with_reconnect_backoff(self, initial_seconds: u64, max_seconds: u64) -> (r: Self)
        ensures
            r.first_wait().nanos == initial_seconds * 1_000_000_000,
            r.longest_wait().nanos == max_seconds * 1_000_000_000,
            r@ == self@,
            self.wf() ==> r.wf(),
            r.name() == self.name(),
            r.cooldown() == self.cooldown(),
            r.announces() == self.announces(),
            r.policy() == self.policy(),
            r.has_baseline() == self.has_baseline(),
            r.source == self.source,
            r.chat_target == self.chat_target,
            r.hasher == self.hasher,
    {
        ChatUpdater {
            reconnect_initial: Duration::from_secs(initial_seconds),
            reconnect_max: Duration::from_secs(max_seconds),
            ..self
        }
    }

    /// Switches messages about coming and going on or off.
    pub fn with_lifecycle_announcements(self, announce: bool) -> (r: Self)
        ensures
            r.announces() == announce,
            r@ == self@,
            self.wf() ==> r.wf(),
            r.name() == self.name(),
            r.cooldown() == self.cooldown(),
            r.first_wait() == self.first_wait(),
            r.longest_wait() == self.longest_wait(),
            r.policy() == self.policy(),
            r.has_baseline() == self.has_baseline(),
            r.source == self.source,
            r.chat_target == self.chat_target,
            r.hasher == self.hasher,
    {
        ChatUpdater { announce_lifecycle: announce, ..self }
    }

    /// The first wait when the telescope cannot be reached.
    pub fn reconnect_initial(&self) -> (r: Duration)
        ensures
            r == self.first_wait(),
    {
        self.reconnect_initial
    }

    /// The wait that follows `current`.
    pub fn next_reconnect_delay(&self, current: Duration) -> (r: Duration)
        requires
            2 * current.nanos <= MAX_NANOS,
        ensures
            r == next_wait(current, self.first_wait(), self.longest_wait()),
    {
        backoff_delay(current, self.reconnect_initial, self.reconnect_max)
    }

    /// How long to wait after a cycle, and how long after the next one should that fail. Cycles
    /// that reached the telescope follow each other at `poll_interval`.
    pub fn after_cycle(&self, reachable: bool, poll_interval: Duration, delay: Duration) -> (r: (
        Duration,
        Duration,
    ))
        requires
            !reachable ==> 2 * delay.nanos <= MAX_NANOS,
        ensures
            r == (if reachable {
                (poll_interval, self.first_wait())
            } else {
                (delay, next_wait(delay, self.first_wait(), self.longest_wait()))
            }),
    {
        if reachable {
            (poll_interval, self.reconnect_initial)
        } else {
            (delay, self.next_reconnect_delay(delay))
        }
    }

    /// How autofocus reports are asked for.
    pub fn autofocus_retry(&self) -> (r: AutofocusRetryPolicy)
        ensures
            r == self.policy(),
    {
        self.autofocus_retry
    }

    /// The history has been taken in.
    pub fn event_baseline_complete(&self) -> (r: bool)
        ensures
            r == self.has_baseline(),
    {
        self.event_baseline_complete
    }

    /// Whether the start of monitoring is told of.
    pub fn wants_welcome(&self, services: usize) -> (r: bool)
        ensures
            r == (self.announces() && services > 0),
    {
        self.announce_lifecycle && services > 0
    }

    /// Reads the times of events and hashes them.
    pub fn prepare_events(&self, events: Vec<Event>) -> (r: Vec<PreparedEvent>)
        ensures
            prepared_from(r@, events@),
            all_wf(r@),
    {
        let mut events = events;
        let ghost all = events@;
        let mut out: Vec<PreparedEvent> = Vec::new();
        while events.len() > 0
            invariant
                out@.len() + events@.len() == all.len(),
                events@ == all.subrange(out@.len() as int, all.len() as int),
                all_wf(out@),
                forall|i: int|
                    0 <= i < out@.len() ==> (#[trigger] out@[i]).event == all[i] && out@[i].times
                        == times_of(all[i]),
            decreases events@.len(),
        {
            let event = events.remove(0);
            let times: EventTimes = read_times(&event);
            let key: u64 = hash_event(&self.hasher, &event_identity(&event));
            let tombstone: u64 = hash_tombstone(&self.hasher, &tombstone_identity(&event));
            out.push(PreparedEvent { event, times, key, tombstone });
            assert(events@ =~= all.subrange(out@.len() as int, all.len() as int));
        }
        out
    }

    fn revoke(&mut self, scope: EventDeliveryScope, timed: bool, at: Option<Moment>)
        requires
            old(self).wf(),
            at matches Some(m) ==> m.wf(),
        ensures
            final(self).wf(),
            final(self)@ == old(self)@.revoked(scope, timed, at),
            final(self).same_settings(old(self)),
    {
        self.state.revoke_scope(scope, timed, at);
        if scope == EventDeliveryScope::Autofocus {
            self.pending_autofocus = None;
        }
    }

    fn bury(&mut self, key: u64) -> (r: bool)
        requires
            old(self).wf(),
        ensures
            final(self).wf(),
            r == old(self)@.state.disabled_event_tombstones.contains(tombstone_name(key)),
            final(self)@ == old(self)@.buried(key),
            final(self).same_settings(old(self)),
    {
        let name = cat2("d:", hexadecimal(key, 16).as_str());
        self.state.disabled_event_tombstones.check_and_insert(name)
    }

    fn note(&mut self, key: u64) -> (r: bool)
        requires
            old(self).wf(),
        ensures
            final(self).wf(),
            r == old(self)@.state.events_seen.contains(event_name(key)),
            final(self)@ == old(self)@.noted(key),
            final(self).same_settings(old(self)),
    {
        let name = cat2("e:", hexadecimal(key, 16).as_str());
        self.state.events_seen.check_and_insert(name)
    }

    /// Forgets all that came through the delivery switch of an event that is switched off.
    pub fn revoke_state_for_disabled_event(&mut self, event_type: &str, event_time: Option<&str>)
        requires
            old(self).wf(),
        ensures
            final(self).wf(),
            final(self)@ == old(self)@.revoked(
                scope_of(event_type@),
                event_time is Some,
                match event_time {
                    Some(time) => opt_moment(crate::calendar::timestamp(time@)),
                    None => None,
                },
            ),
            final(self).same_settings(old(self)),
    {
        let at: Option<Moment> = match event_time {
            Some(time) => crate::calendar::parse_moment(time),
            None => None,
        };
        self.revoke(event_delivery_scope(event_type), event_time.is_some(), at);
    }

    /// Takes in the history.
    pub fn process_baseline(&mut self, items: &Vec<PreparedEvent>, now: Moment)
        requires
            old(self).wf(),
            all_wf(items@),
            now.wf(),
        ensures
            final(self).wf(),
            final(self)@ == after_baseline(old(self)@, items@, now),
            final(self).same_setup(old(self)),
            final(self).has_baseline(),
    {
        let ghost start = BaselineView { updater: self@, found: None };
        let mut found_at: Option<ZonedMoment> = None;
        let mut found: Option<TargetInfo> = None;
        let mut i: usize = 0;
        while i < items.len()
            invariant
                i <= items@.len(),
                self.wf(),
                all_wf(items@),
                now.wf(),
                self.same_settings(old(self)),
                found matches Some(t) ==> t.wf(),
                ({
                    let s = baseline_steps(start, items@, i as int, now);
                    &&& s.updater == self@
                    &&& s.found == found_view(found_at, found)
                }),
            decreases items@.len() - i,
        {
            let ghost before = baseline_steps(start, items@, i as int, now);
            let item = &items[i];
            let event = &item.event;
            let times: EventTimes = item.times;
            proof {
                assert(items@[i as int].wf());
            }
            let scope: EventDeliveryScope = event_delivery_scope(event.event.as_str());
            let skip: bool = hidden(items, i);
            if skip {
            } else if !event.chat_enabled {
                self.bury(item.tombstone);
                if scope == EventDeliveryScope::TargetScheduler {
                    found = None;
                    found_at = None;
                }
                let at: Option<Moment> = match times.at {
                    Some(z) => Some(z.moment),
                    None => None,
                };
                self.revoke(scope, true, at);
            } else if !is_same_filter(event) {
                if event_kind(event.event.as_str()) == EventKind::FilterwheelChanged {
                    if let Some(EventDetails::FilterWheelChange { new, .. }) = &event.details {
                        if !new.is_unknown() {
                            self.state.last_filter = Some(new.copy());
                        }
                    }
                }
                if let Some(target) = target_started(event, times.target_end) {
                    let newer: bool = match &found {
                        None => true,
                        Some(_) => match (times.at, found_at) {
                            (Some(candidate), Some(latest)) => latest.moment.before(
                                candidate.moment,
                            ),
                            (Some(_), None) => true,
                            (None, Some(_)) => false,
                            (None, None) => true,
                        },
                    };
                    if newer {
                        found = Some(target);
                        found_at = times.at;
                    }
                }
                self.state.apply_event(event, times, now);
                self.note(item.key);
            }
            i += 1;
            assert(baseline_steps(start, items@, i as int, now) == baseline_step(
                before,
                items@,
                i - 1,
                now,
            ));
        }
        if let Some(target) = found {
            self.state.current_target = Some(target);
        }
        self.event_baseline_complete = true;
    }

    /// Reads and takes in the history.
    pub fn process_baseline_events(&mut self, events: Vec<Event>, now: Moment)
        requires
            old(self).wf(),
            now.wf(),
        ensures
            final(self).wf(),
            exists|items: Seq<PreparedEvent>|
                #[trigger] prepared_from(items, events@) && final(self)@ == after_baseline(
                    old(self)@,
                    items,
                    now,
                ),
            final(self).same_setup(old(self)),
            final(self).has_baseline(),
    {
        let items = self.prepare_events(events);
        self.process_baseline(&items, now);
        assert(prepared_from(items@, events@));
    }

    /// Takes in an event that is delivered and new, and says what there is to tell.
    fn handle(&mut self, item: &PreparedEvent, now: Moment, tick: Tick) -> (r: Notice)
        requires
            old(self).wf(),
            item.wf(),
            now.wf(),
        ensures
            final(self).wf(),
            (final(self)@, r) == handled(old(self)@, *item, now, tick, old(self).policy()),
            final(self).same_settings(old(self)),
    {
        let event = &item.event;
        let high: bool = match self.state.weather_high_wind {
            Some(on) => on,
            None => false,
        };
        let repeated: bool = high && match &event.details {
            Some(EventDetails::WeatherHighWind { is_high_wind, .. }) => *is_high_wind,
            _ => false,
        };
        if !self.state.apply_event(event, item.times, now) {
            return Notice::Silent;
        }
        if repeated {
            return Notice::Silent;
        }
        let kind: EventKind = event_kind(event.event.as_str());
        if kind == EventKind::TsTargetstart || kind == EventKind::TsNewtargetstart {
            return match target_started(event, item.times.target_end) {
                None => Notice::Silent,
                Some(target) => {
                    let previous: Option<TargetInfo> = match &self.state.current_target {
                        Some(t) => Some(t.copy()),
                        None => None,
                    };
                    self.state.current_target = Some(target.copy());
                    match previous {
                        Some(p) => if same(p.name.as_str(), target.name.as_str()) {
                            Notice::Silent
                        } else {
                            Notice::TargetStarted { previous: Some(p), target }
                        },
                        None => Notice::TargetStarted { previous: None, target },
                    }
                },
            };
        }
        if kind == EventKind::AutofocusFinished {
            self.pending_autofocus = Some(
                PendingAutofocusDelivery::new(event, tick, self.autofocus_retry),
            );
            return Notice::Silent;
        }
        notice_of(kind)
    }

    /// Takes in one event of a page and says what there is to tell.
    pub fn receive_event(&mut self, items: &Vec<PreparedEvent>, i: usize, now: Moment, tick: Tick) -> (r:
        Notice)
        requires
            old(self).wf(),
            i < items@.len(),
            all_wf(items@),
            now.wf(),
        ensures
            final(self).wf(),
            (final(self)@, r) == live_step(
                old(self)@,
                items@,
                i as int,
                now,
                tick,
                old(self).policy(),
            ),
            final(self).same_settings(old(self)),
    {
        let item = &items[i];
        let event = &item.event;
        proof {
            assert(items@[i as int].wf());
        }
        if hidden(items, i) {
            return Notice::Silent;
        }
        if !should_process_event(event) {
            return Notice::Silent;
        }
        if !event.chat_enabled {
            if !self.bury(item.tombstone) {
                let at: Option<Moment> = match item.times.at {
                    Some(z) => Some(z.moment),
                    None => None,
                };
                self.revoke(event_delivery_scope(event.event.as_str()), true, at);
            }
            return Notice::Silent;
        }
        if self.note(item.key) {
            return Notice::Silent;
        }
        self.handle(item, now, tick)
    }
}

spec fn found_view(at: Option<ZonedMoment>, target: Option<TargetInfo>) -> Option<FoundTarget> {
    match target {
        Some(t) => Some(FoundTarget { at, target: t }),
        None => None,
    }
}

/// The filters of a change: what the event leaves open is filled in with the filter that the
/// wheel has now and with the last filter known.
pub open spec fn filters_of(
    event: Event,
    selected: Option<FilterInfo>,
    last: Option<FilterInfo>,
) -> Option<(FilterInfo, FilterInfo)> {
    match event.details {
        Some(EventDetails::FilterWheelChange { new, previous }) => Some(
            (
                if unknown_filter(previous) && last is Some {
                    last->0
                } else {
                    previous
                },
                if unknown_filter(new) && selected is Some {
                    selected->0
                } else {
                    new
                },
            ),
        ),
        _ => None,
    }
}

/// The filter wheel has to be asked which filter it has.
pub fn filter_lookup_wanted(event: &Event) -> (r: bool)
    ensures
        r == (event.details matches Some(EventDetails::FilterWheelChange { new, .. })
            && unknown_filter(new)),
{
    match &event.details {
        Some(EventDetails::FilterWheelChange { new, .. }) => new.is_unknown(),
        _ => false,
    }
}

/// The target that the scheduler set has come to its end.
pub open spec fn target_over(s: StateView, now: Moment) -> bool {
    match s.current_target {
        Some(t) => t.source == TargetSource::TsTargetStart && match t.target_end_time {
            Some(end) => !now.earlier(end.moment),
            None => false,
        },
        None => false,
    }
}

pub open spec fn target_expired(s: StateView, now: Moment) -> StateView {
    if target_over(s, now) {
        StateView { current_target: None, last_status_fingerprint: None, ..s }
    } else {
        s
    }
}

/// The state after the sequence showed a target, with its delivery switch, and the target before and
/// the one after where they differ.
pub open spec fn projected(s: StateView, projection: Option<(String, bool)>, now: Moment) -> (
    StateView,
    Option<(Option<TargetInfo>, TargetInfo)>,
) {
    let left = target_expired(s, now);
    match projection {
        None => (left, None),
        Some(p) => {
            let target = TargetInfo {
                name: p.0,
                source: TargetSource::Sequence,
                coordinates: None,
                project: None,
                rotation: None,
                target_end_time: None,
            };
            if !p.1 {
                (StateView { current_target: None, ..left }, None)
            } else if left.current_target matches Some(t) && (t.source
                == TargetSource::TsTargetStart || t.name@ == p.0@) {
                (left, None)
            } else {
                (
                    StateView { current_target: Some(target), ..left },
                    Some((left.current_target, target)),
                )
            }
        },
    }
}

/// The state after a change of the filter, and the filters before and after where there is something
/// to tell.
pub open spec fn settled(s: StateView, event: Event, selected: Option<FilterInfo>) -> (
    StateView,
    Option<(FilterInfo, FilterInfo)>,
) {
    match filters_of(event, selected, s.last_filter) {
        None => (s, None),
        Some((previous, new)) => (
            if unknown_filter(new) {
                s
            } else {
                StateView { last_filter: Some(new), ..s }
            },
            if !unknown_filter(new) && !unknown_filter(previous) && new.name@ == previous.name@ {
                None
            } else {
                Some((previous, new))
            },
        ),
    }
}

impl UpdaterState {
    /// Drops a target of the scheduler that has come to its end, and tells whether there was one.
    pub fn expire_target_scheduler_target(&mut self, now: Moment) -> (r: bool)
        requires
            old(self).wf(),
        ensures
            final(self).wf(),
            r == target_over(old(self)@, now),
            final(self)@ == target_expired(old(self)@, now),
    {
        let over: bool = match &self.current_target {
            Some(t) => t.source == TargetSource::TsTargetStart && match t.target_end_time {
                Some(end) => !now.before(end.moment),
                None => false,
            },
            None => false,
        };
        if over {
            self.current_target = None;
            self.last_status_fingerprint = None;
        }
        over
    }

    /// Takes in the target that the sequence shows, with its delivery switch, and gives the
    /// target before and the one after where they differ. A target that is switched off is
    /// forgotten. A target of the scheduler is not replaced.
    pub fn reconcile_sequence_target(
        &mut self,
        projection: Option<(String, bool)>,
        now: Moment,
    ) -> (r: Option<(Option<TargetInfo>, TargetInfo)>)
        requires
            old(self).wf(),
        ensures
            final(self).wf(),
            r matches Some(change) ==> change.1.wf() && (change.0 matches Some(p) ==> p.wf()),
            (final(self)@, r) == projected(old(self)@, projection, now),
            ({
                let s = target_expired(old(self)@, now);
                match projection {
                    None => r is None && final(self)@ == s,
                    Some(p) => if !p.1 {
                        r is None && final(self)@ == (StateView { current_target: None, ..s })
                    } else if s.current_target matches Some(t) && (t.source
                        == TargetSource::TsTargetStart || t.name@ == p.0@) {
                        r is None && final(self)@ == s
                    } else {
                        let target = TargetInfo {
                            name: p.0,
                            source: TargetSource::Sequence,
                            coordinates: None,
                            project: None,
                            rotation: None,
                            target_end_time: None,
                        };
                        &&& r == Some((s.current_target, target))
                        &&& final(self)@ == (StateView { current_target: Some(target), ..s })
                    },
                }
            }),
    {
        self.expire_target_scheduler_target(now);
        let (name, chat_enabled): (String, bool) = match projection {
            Some(p) => p,
            None => {
                return None;
            },
        };
        if !chat_enabled {
            self.current_target = None;
            return None;
        }
        if let Some(t) = &self.current_target {
            if t.source == TargetSource::TsTargetStart || same(t.name.as_str(), name.as_str()) {
                return None;
            }
        }
        let target = TargetInfo {
            name,
            source: TargetSource::Sequence,
            coordinates: None,
            project: None,
            rotation: None,
            target_end_time: None,
        };
        let previous: Option<TargetInfo> = match &self.current_target {
            Some(t) => Some(t.copy()),
            None => None,
        };
        self.current_target = Some(target.copy());
        Some((previous, target))
    }

    /// Takes in a change of the filter, given the filter that the wheel has now where it was
    /// asked. Gives the filters before and after where there is something to tell.
    pub fn settle_filter_change(&mut self, event: &Event, selected: Option<FilterInfo>) -> (r:
        Option<(FilterInfo, FilterInfo)>)
        requires
            old(self).wf(),
        ensures
            final(self).wf(),
            (final(self)@, r) == settled(old(self)@, *event, selected),
            match filters_of(*event, selected, old(self)@.last_filter) {
                None => r is None && final(self)@ == old(self)@,
                Some((previous, new)) => {
                    &&& final(self)@ == (StateView {
                        last_filter: if unknown_filter(new) {
                            old(self)@.last_filter
                        } else {
                            Some(new)
                        },
                        ..old(self)@
                    })
                    &&& r == (if !unknown_filter(new) && !unknown_filter(previous) && new.name@
                        == previous.name@ {
                        None
                    } else {
                        Some((previous, new))
                    })
                },
            },
    {
        let (mut new, mut previous): (FilterInfo, FilterInfo) = match &event.details {
            Some(EventDetails::FilterWheelChange { new, previous }) => (
                new.copy(),
                previous.copy(),
            ),
            _ => {
                return None;
            },
        };
        if new.is_unknown() {
            if let Some(f) = selected {
                new = f;
            }
        }
        if previous.is_unknown() {
            if let Some(f) = &self.last_filter {
                previous = f.copy();
            }
        }
        if !new.is_unknown() {
            self.last_filter = Some(new.copy());
            if !previous.is_unknown() && same(new.name.as_str(), previous.name.as_str()) {
                return None;
            }
        }
        Some((previous, new))
    }
}

/// Images before the last switched-off one are not told of any more.
pub open spec fn image_hidden(images: Seq<ImageMetadata>, i: int) -> bool {
    exists|j: int| i < j < images.len() && !(#[trigger] images[j]).chat_enabled
}

fn is_image_hidden(images: &Vec<ImageMetadata>, i: usize) -> (r: bool)
    requires
        i < images@.len(),
    ensures
        r == image_hidden(images@, i as int),
{
    let n: usize = images.len();
    let mut j: usize = i + 1;
    while j < n
        invariant
            i < j <= n == images@.len(),
            forall|k: int| i < k < j ==> (#[trigger] images@[k]).chat_enabled,
        decreases images@.len() - j,
    {
        if !images[j].chat_enabled {
            assert(!images@[j as int].chat_enabled);
            return true;
        }
        j += 1;
    }
    false
}

/// What to do about an image.
#[derive(Clone, Copy, Debug, PartialEq, Eq, Structural)]
pub enum ImageNotice {
    /// Nothing: it is known or not delivered.
    Silent,
    /// It is new, but there is nobody to tell.
    Unheard,
    /// It is new, and passed over: the cooldown lasts so long yet.
    Skip { remaining: Duration },
    /// Tell of it; so many images were passed over since the last one.
    Post { skipped: u32 },
}

/// The updater and what to do, after an image that is new.
pub open spec fn image_handled(u: UpdaterView, cooldown: Duration, tick: Tick) -> (
    UpdaterView,
    ImageNotice,
) {
    let waited: u128 = match u.state.last_image_time {
        None => cooldown.nanos,
        Some(last) => tick.since_spec(last).nanos,
    };
    if waited >= cooldown.nanos {
        (u, ImageNotice::Post { skipped: u.state.skipped_images_count })
    } else {
        (
            UpdaterView {
                state: StateView {
                    skipped_images_count: (u.state.skipped_images_count + 1) as u32,
                    ..u.state
                },
                ..u
            },
            ImageNotice::Skip {
                remaining: Duration { nanos: (cooldown.nanos - waited) as u128 },
            },
        )
    }
}

/// The updater after an image was told of: the cooldown starts when the message has gone out.
pub open spec fn image_told(u: UpdaterView, tick: Tick) -> UpdaterView {
    UpdaterView {
        state: StateView { last_image_time: Some(tick), skipped_images_count: 0, ..u.state },
        ..u
    }
}

/// The updater and what to do, after one image of a page.
pub open spec fn image_step(
    u: UpdaterView,
    images: Seq<ImageMetadata>,
    i: int,
    key: u64,
    services: nat,
    cooldown: Duration,
    tick: Tick,
) -> (UpdaterView, ImageNotice) {
    let seen = u.state.images_seen.contains(image_name(key));
    if image_hidden(images, i) {
        (u, ImageNotice::Silent)
    } else if !images[i].chat_enabled {
        if seen {
            (u.pictured(key), ImageNotice::Silent)
        } else {
            (
                u.pictured(key).revoked(EventDeliveryScope::Images, false, None),
                ImageNotice::Silent,
            )
        }
    } else if seen {
        (u.pictured(key), ImageNotice::Silent)
    } else if services == 0 {
        (u.pictured(key), ImageNotice::Unheard)
    } else {
        image_handled(u.pictured(key), cooldown, tick)
    }
}

/// The statuses of containers that are running.
pub open spec fn running_count(statuses: Seq<String>) -> nat
    decreases statuses.len(),
{
    if statuses.len() == 0 {
        0
    } else {
        running_count(statuses.drop_last()) + (if same_ignoring_case(
            statuses.last()@,
            "RUNNING"@,
        ) {
            1nat
        } else {
            0nat
        })
    }
}

/// Counts the containers of a sequence, by their statuses, and those that are running.
pub fn sequence_container_counts(statuses: &Vec<String>) -> (r: (usize, usize))
    ensures
        r.0 == statuses@.len(),
        r.1 == running_count(statuses@),
{
    let mut count: usize = 0;
    let mut i: usize = 0;
    assert(statuses@.subrange(0, 0) =~= Seq::<String>::empty());
    while i < statuses.len()
        invariant
            i <= statuses@.len(),
            count <= i,
            count == running_count(statuses@.subrange(0, i as int)),
        decreases statuses@.len() - i,
    {
        proof {
            let now = statuses@.subrange(0, i + 1);
            assert(now.drop_last() =~= statuses@.subrange(0, i as int));
        }
        if eq_ignore_ascii_case(statuses[i].as_str(), "RUNNING") {
            count += 1;
        }
        i += 1;
    }
    assert(statuses@.subrange(0, i as int) =~= statuses@);
    (statuses.len(), count)
}

impl ChatUpdater {
    fn picture(&mut self, key: u64) -> (r: bool)
        requires
            old(self).wf(),
        ensures
            final(self).wf(),
            r == old(self)@.state.images_seen.contains(image_name(key)),
            final(self)@ == old(self)@.pictured(key),
            final(self).same_settings(old(self)),
    {
        let name = cat2("i:", hexadecimal(key, 16).as_str());
        self.state.images_seen.check_and_insert(name)
    }

    /// Takes in one image of a page, remembered by the given hash, and says what to do about it.
    pub fn receive_hashed_image(
        &mut self,
        images: &Vec<ImageMetadata>,
        i: usize,
        key: u64,
        services: usize,
        tick: Tick,
    ) -> (r: ImageNotice)
        requires
            old(self).wf(),
            i < images@.len(),
            old(self)@.state.skipped_images_count < u32::MAX,
        ensures
            final(self).wf(),
            (final(self)@, r) == image_step(
                old(self)@,
                images@,
                i as int,
                key,
                services as nat,
                old(self).cooldown(),
                tick,
            ),
            final(self).same_settings(old(self)),
    {
        if is_image_hidden(images, i) {
            return ImageNotice::Silent;
        }
        let seen: bool = self.picture(key);
        if !images[i].chat_enabled {
            if !seen {
                self.revoke(EventDeliveryScope::Images, false, None);
            }
            return ImageNotice::Silent;
        }
        if seen {
            return ImageNotice::Silent;
        }
        if services == 0 {
            return ImageNotice::Unheard;
        }
        let waited: u128 = match self.state.last_image_time {
            None => self.image_cooldown.nanos,
            Some(last) => tick.since(last).nanos,
        };
        if waited >= self.image_cooldown.nanos {
            ImageNotice::Post { skipped: self.state.skipped_images_count }
        } else {
            self.state.skipped_images_count = self.state.skipped_images_count + 1;
            ImageNotice::Skip {
                remaining: Duration { nanos: self.image_cooldown.nanos - waited },
            }
        }
    }

    /// Starts the cooldown, now that the message about an image has gone out.
    pub fn image_posted(&mut self, tick: Tick)
        requires
            old(self).wf(),
        ensures
            final(self).wf(),
            final(self)@ == image_told(old(self)@, tick),
            final(self).same_settings(old(self)),
    {
        self.state.last_image_time = Some(tick);
        self.state.skipped_images_count = 0;
    }

    /// Takes in one image of a page and says what to do about it.
    pub fn receive_image(
        &mut self,
        images: &Vec<ImageMetadata>,
        i: usize,
        services: usize,
        tick: Tick,
    ) -> (r: ImageNotice)
        requires
            old(self).wf(),
            i < images@.len(),
            old(self)@.state.skipped_images_count < u32::MAX,
        ensures
            final(self).wf(),
            exists|key: u64|
                (final(self)@, r) == #[trigger] image_step(
                    old(self)@,
                    images@,
                    i as int,
                    key,
                    services as nat,
                    old(self).cooldown(),
                    tick,
                ),
            final(self).same_settings(old(self)),
    {
        let key: u64 = hash_image(&self.hasher, &images[i]);
        self.receive_hashed_image(images, i, key, services, tick)
    }

    /// Remembers an image of the history.
    pub fn remember_image(&mut self, images: &Vec<ImageMetadata>, i: usize)
        requires
            old(self).wf(),
            i < images@.len(),
        ensures
            final(self).wf(),
            final(self).same_settings(old(self)),
            if image_hidden(images@, i as int) || !images@[i as int].chat_enabled {
                final(self)@ == old(self)@
            } else {
                exists|key: u64| final(self)@ == #[trigger] old(self)@.pictured(key)
            },
    {
        if is_image_hidden(images, i) || !images[i].chat_enabled {
            return;
        }
        let key: u64 = hash_image(&self.hasher, &images[i]);
        self.picture(key);
    }

    /// Records whether a cycle reached the telescope, and gives the message that this calls for:
    /// going offline is told of after several failures in a row, coming back at once.
    pub fn record_reachability(&mut self, reachable: bool, services: usize, now: Moment) -> (r:
        Option<ChatMessage>)
        requires
            old(self).wf(),
            !reachable ==> old(self)@.state.consecutive_failures < u32::MAX,
            now.wf(),
        ensures
            final(self).wf(),
            final(self).same_settings(old(self)),
            final(self)@.pending == old(self)@.pending,
            final(self)@.state == reached(old(self)@.state, reachable),
            opt_message(r) == outage_news(
                old(self).name(),
                old(self)@.state,
                reachable,
                services as nat,
                old(self).announces(),
                now,
            ),
            opt_message(r) == (if final(self)@.state.connected == old(
                self,
            )@.state.connected || services == 0 || !old(self).announces() {
                None
            } else {
                Some(
                    connectivity_message(
                        old(self).name(),
                        reachable,
                        final(self)@.state.consecutive_failures,
                        now,
                    ),
                )
            }),
    {
        if reachable {
            self.state.consecutive_failures = 0;
            if self.state.connected {
                return None;
            }
            self.state.connected = true;
        } else {
            self.state.consecutive_failures = self.state.consecutive_failures + 1;
            if !self.state.connected || self.state.consecutive_failures
                < OFFLINE_FAILURE_THRESHOLD {
                return None;
            }
            self.state.connected = false;
        }
        if services == 0 || !self.announce_lifecycle {
            return None;
        }
        Some(
            connectivity_notification(
                self.telescope_name.as_str(),
                reachable,
                self.state.consecutive_failures,
                now,
            ),
        )
    }

    /// Gives the mark of the state where the status message should be posted anew. A target of
    /// the scheduler that is over is dropped first.
    pub fn status_due(&mut self, can_upsert: bool, now: Moment) -> (r: Option<String>)
        requires
            old(self).wf(),
            now.wf(),
        ensures
            final(self).wf(),
            final(self).same_settings(old(self)),
            final(self)@ == (UpdaterView {
                state: target_expired(old(self)@.state, now),
                ..old(self)@
            }),
            ({
                let s = target_expired(old(self)@.state, now);
                let mark = crate::fingerprint::fingerprint(s, now);
                crate::text::opt_view(r) == (if !can_upsert || s.last_status_fingerprint == Some(
                    mark,
                ) {
                    None
                } else {
                    Some(mark)
                })
            }),
    {
        self.state.expire_target_scheduler_target(now);
        if !can_upsert {
            return None;
        }
        let mark = self.state.status_fingerprint(now);
        if let Some(last) = &self.state.last_status_fingerprint {
            if same(last.as_str(), mark.as_str()) {
                return None;
            }
        }
        Some(mark)
    }

    /// Remembers what the status message that was just posted is about.
    pub fn status_posted(&mut self, mark: String)
        requires
            old(self).wf(),
        ensures
            final(self).wf(),
            final(self).same_settings(old(self)),
            final(self)@ == (UpdaterView {
                state: StateView { last_status_fingerprint: Some(mark@), ..old(self)@.state },
                ..old(self)@
            }),
    {
        self.state.last_status_fingerprint = Some(mark);
    }
}

/// The state after a cycle.
pub open spec fn reached(s: StateView, reachable: bool) -> StateView {
    if reachable {
        StateView { consecutive_failures: 0, connected: true, ..s }
    } else {
        let failures = (s.consecutive_failures + 1) as u32;
        StateView {
            consecutive_failures: failures,
            connected: s.connected && failures < OFFLINE_FAILURE_THRESHOLD,
            ..s
        }
    }
}

/// What there is to tell after a cycle: that the telescope went offline or came back, where that
/// changed, where there is anybody to tell and where such news are wanted.
pub open spec fn outage_news(
    telescope: Seq<char>,
    s: StateView,
    reachable: bool,
    services: nat,
    announced: bool,
    now: Moment,
) -> Option<MessageView> {
    let after = reached(s, reachable);
    if after.connected == s.connected || services == 0 || !announced {
        None
    } else {
        Some(connectivity_message(telescope, reachable, after.consecutive_failures, now))
    }
}

/// The items of a snapshot are its operations, each with a hash where it has a plate-solve result.
pub open spec fn items_of(items: Seq<Incoming>, operations: Seq<SequenceOperation>) -> bool {
    &&& items.len() == operations.len()
    &&& forall|i: int|
        0 <= i < items.len() ==> (#[trigger] items[i]).operation == operations[i]
            && (items[i].output_key is Some <==> output_of(operations[i].kind) is Some)
}

/// The snapshot's times lie in the calendar. Of operations that are running and not suppressed
/// that holds of their reckoned end too.
pub open spec fn can_take_operations(
    u: &ChatUpdater,
    operations: Seq<SequenceOperation>,
    suppressed: Seq<Seq<char>>,
    now: Moment,
) -> bool {
    &&& now.wf()
    &&& forall|i: int|
        0 <= i < operations.len() ==> fits(#[trigger] operations[i], suppressed, now)
    &&& forall|i: int, j: int|
        #![trigger operations[i], u.state.board.running@[j]]
        0 <= i < operations.len() && 0 <= j < u.state.board.running@.len() && operations[i].key@
            == u.state.board.running@[j].operation.key@ ==> fits(
            operations[i],
            suppressed,
            u.state.board.running@[j].started_at,
        )
}

/// Some running operation of the list heats or cools the camera.
pub open spec fn some_thermal(operations: Seq<SequenceOperation>) -> bool {
    exists|i: int|
        0 <= i < operations.len() && (#[trigger] operations[i]).active() && thermal(
            operations[i].kind,
        )
}

/// Some operation that is followed heats or cools the camera.
pub open spec fn some_thermal_running(running: Seq<TrackedSequenceOperation>) -> bool {
    exists|i: int|
        0 <= i < running.len() && thermal((#[trigger] running[i]).operation.kind)
}

/// What to do about an autofocus report that has not been delivered.
#[derive(Debug)]
pub enum AutofocusStep {
    Idle,
    /// Read the report, for so long at most.
    Read { timeout: Duration },
    /// The report is given up: tell of that, where there is anybody to tell.
    GivenUp { message: Option<ChatMessage> },
    /// The report that was read is to be told of.
    Deliver,
}

/// The message that a report is given up, where there is anybody to tell.
pub open spec fn given_up(
    u: &ChatUpdater,
    services: nat,
    d: PendingAutofocusDelivery,
    now: Moment,
) -> Option<MessageView> {
    if services > 0 {
        Some(unavailable_message(u.name(), d, now))
    } else {
        None
    }
}

impl ChatUpdater {
    /// The camera has to be asked for its temperature.
    pub fn camera_snapshot_wanted(&self, operations: &Vec<SequenceOperation>) -> (r: bool)
        ensures
            r == (self.source.capabilities.equipment_snapshots && (some_thermal(operations@)
                || some_thermal_running(self.state.board.running@))),
    {
        if !self.source.capabilities.equipment_snapshots {
            return false;
        }
        let mut i: usize = 0;
        while i < operations.len()
            invariant
                i <= operations@.len(),
                self.source.capabilities.equipment_snapshots,
                forall|j: int|
                    0 <= j < i ==> !((#[trigger] operations@[j]).active() && thermal(
                        operations@[j].kind,
                    )),
            decreases operations@.len() - i,
        {
            if operations[i].is_active() && operations[i].kind.is_thermal() {
                assert(operations@[i as int].active());
                return true;
            }
            i += 1;
        }
        let mut k: usize = 0;
        while k < self.state.board.running.len()
            invariant
                k <= self.state.board.running@.len(),
                self.source.capabilities.equipment_snapshots,
                !some_thermal(operations@),
                forall|j: int|
                    0 <= j < k ==> !thermal(
                        (#[trigger] self.state.board.running@[j]).operation.kind,
                    ),
            decreases self.state.board.running@.len() - k,
        {
            if self.state.board.running[k].operation.kind.is_thermal() {
                assert(thermal(self.state.board.running@[k as int].operation.kind));
                return true;
            }
            k += 1;
        }
        false
    }

    /// Whether the snapshot's times lie in the calendar.
    pub fn operations_fit(
        &self,
        operations: &Vec<SequenceOperation>,
        suppressed: &Vec<String>,
        now: Moment,
    ) -> (r: bool)
        requires
            self.wf(),
            now.wf(),
        ensures
            r == can_take_operations(self, operations@, views(suppressed@), now),
    {
        let ghost names = views(suppressed@);
        let mut i: usize = 0;
        while i < operations.len()
            invariant
                i <= operations@.len(),
                self.wf(),
                now.wf(),
                names == views(suppressed@),
                forall|k: int| 0 <= k < i ==> fits(#[trigger] operations@[k], names, now),
                forall|k: int, j: int|
                    #![trigger operations@[k], self.state.board.running@[j]]
                    0 <= k < i && 0 <= j < self.state.board.running@.len() && operations@[k].key@
                        == self.state.board.running@[j].operation.key@ ==> fits(
                        operations@[k],
                        names,
                        self.state.board.running@[j].started_at,
                    ),
            decreases operations@.len() - i,
        {
            let operation = &operations[i];
            if !operation_fits(operation, suppressed, now) {
                return false;
            }
            let mut n: usize = 0;
            while n < self.state.board.running.len()
                invariant
                    i < operations@.len(),
                    *operation == operations@[i as int],
                    n <= self.state.board.running@.len(),
                    self.wf(),
                    names == views(suppressed@),
                    forall|j: int|
                        0 <= j < n && operations@[i as int].key@ == (
                        #[trigger] self.state.board.running@[j]).operation.key@ ==> fits(
                            operations@[i as int],
                            names,
                            self.state.board.running@[j].started_at,
                        ),
                decreases self.state.board.running@.len() - n,
            {
                let running = &self.state.board.running[n];
                assert(running.wf());
                if same(operation.key.as_str(), running.operation.key.as_str()) && !operation_fits(
                    operation,
                    suppressed,
                    running.started_at,
                ) {
                    return false;
                }
                n += 1;
            }
            i += 1;
        }
        true
    }

    /// Brings the operations up to date with a snapshot of the sequence and says what there is to
    /// tell.
    pub fn reconcile_sequence_operations(
        &mut self,
        operations: Vec<SequenceOperation>,
        suppressed: &Vec<String>,
        camera: Option<CameraInfo>,
        now: Moment,
        announce: bool,
    ) -> (r: Vec<OperationNote>)
        requires
            old(self).wf(),
            can_take_operations(old(self), operations@, views(suppressed@), now),
        ensures
            final(self).wf(),
            final(self).same_settings(old(self)),
            notes_wf(r@),
            exists|items: Seq<Incoming>|
                {
                    &&& #[trigger] items_of(items, operations@)
                    &&& (final(self)@.state.board, r@) == reconciled(
                        old(self)@.state.board,
                        items,
                        views(suppressed@),
                        camera,
                        now,
                        announce,
                    )
                },
            final(self)@ == (UpdaterView {
                state: StateView { board: final(self)@.state.board, ..old(self)@.state },
                ..old(self)@
            }),
    {
        let mut operations = operations;
        let ghost all = operations@;
        let mut items: Vec<Incoming> = Vec::new();
        while operations.len() > 0
            invariant
                items@.len() + operations@.len() == all.len(),
                operations@ == all.subrange(items@.len() as int, all.len() as int),
                forall|i: int|
                    0 <= i < items@.len() ==> (#[trigger] items@[i]).operation == all[i] && (
                    items@[i].output_key is Some <==> output_of(all[i].kind) is Some),
            decreases operations@.len(),
        {
            let operation = operations.remove(0);
            let output_key: Option<u64> = plate_solve_output_key(&self.hasher, &operation);
            items.push(Incoming { operation, output_key });
            assert(operations@ =~= all.subrange(items@.len() as int, all.len() as int));
        }
        assert(items_of(items@, all));
        self.state.board.reconcile(items, suppressed, camera, now, announce)
    }

    /// Takes in what a snapshot of the sequence says beside its operations.
    pub fn take_sequence_facts(
        &mut self,
        meridian_flip_time: Option<Double>,
        container_statuses: &Vec<String>,
    )
        requires
            old(self).wf(),
        ensures
            final(self).wf(),
            final(self).same_settings(old(self)),
            ({
                let s = final(self)@.state;
                &&& s.sequence_container_counts matches Some(counts) && counts.0
                    == container_statuses@.len() && counts.1 == running_count(
                    container_statuses@,
                )
                &&& final(self)@ == (UpdaterView {
                    state: StateView {
                        meridian_flip_time,
                        sequence_container_counts: s.sequence_container_counts,
                        ..old(self)@.state
                    },
                    ..old(self)@
                })
            }),
    {
        self.state.meridian_flip_time = meridian_flip_time;
        self.state.sequence_container_counts = Some(sequence_container_counts(container_statuses));
    }

    fn give_up(&self, services: usize, d: &PendingAutofocusDelivery, now: Moment) -> (r: Option<
        ChatMessage,
    >)
        requires
            now.wf(),
        ensures
            opt_message(r) == given_up(self, services as nat, *d, now),
    {
        if services > 0 {
            Some(autofocus_unavailable_message(self.telescope_name.as_str(), d, now))
        } else {
            None
        }
    }

    /// Says what to do about an autofocus report that has not been delivered.
    pub fn poll_autofocus_delivery(&mut self, tick: Tick, services: usize, now: Moment) -> (r:
        AutofocusStep)
        requires
            old(self).wf(),
            now.wf(),
        ensures
            final(self).wf(),
            final(self).same_settings(old(self)),
            final(self)@.state == old(self)@.state,
            match old(self)@.pending {
                None => r is Idle && final(self)@.pending is None,
                Some(d) => match d.due_action(tick) {
                    DueAction::Wait => r is Idle && final(self)@.pending == Some(d),
                    DueAction::Read { timeout } => r == (AutofocusStep::Read { timeout })
                        && final(self)@.pending == Some(d),
                    DueAction::GiveUp => {
                        &&& final(self)@.pending is None
                        &&& r matches AutofocusStep::GivenUp { message } && opt_message(message)
                            == given_up(old(self), services as nat, d, now)
                    },
                },
            },
    {
        let action: DueAction = match &self.pending_autofocus {
            None => {
                return AutofocusStep::Idle;
            },
            Some(d) => d.due(tick),
        };
        match action {
            DueAction::Wait => AutofocusStep::Idle,
            DueAction::Read { timeout } => AutofocusStep::Read { timeout },
            DueAction::GiveUp => {
                let message: Option<ChatMessage> = match &self.pending_autofocus {
                    Some(d) => self.give_up(services, d, now),
                    None => None,
                };
                self.pending_autofocus = None;
                AutofocusStep::GivenUp { message }
            },
        }
    }

    /// Says what to do once an autofocus report was read, or was not.
    pub fn finish_autofocus_read(
        &mut self,
        outcome: &ReadOutcome,
        tick: Tick,
        services: usize,
        now: Moment,
    ) -> (r: AutofocusStep)
        requires
            old(self).wf(),
            now.wf(),
            old(self)@.pending matches Some(d) ==> d.can_wait(tick),
        ensures
            final(self).wf(),
            final(self).same_settings(old(self)),
            final(self)@.state == old(self)@.state,
            match old(self)@.pending {
                None => r is Idle && final(self)@.pending is None,
                Some(d) => match d.resolved(*outcome, tick) {
                    Resolution::Deliver => r is Deliver && final(self)@.pending is None,
                    Resolution::Retry(later) => r is Idle && final(self)@.pending == Some(later),
                    Resolution::Unavailable => {
                        &&& final(self)@.pending is None
                        &&& r matches AutofocusStep::GivenUp { message } && opt_message(message)
                            == given_up(old(self), services as nat, d, now)
                    },
                },
            },
    {
        let d = match self.pending_autofocus.take() {
            Some(d) => d,
            None => {
                return AutofocusStep::Idle;
            },
        };
        let message: Option<ChatMessage> = self.give_up(services, &d, now);
        match d.resolve(outcome, tick) {
            Resolution::Deliver => AutofocusStep::Deliver,
            Resolution::Retry(later) => {
                self.pending_autofocus = Some(later);
                AutofocusStep::Idle
            },
            Resolution::Unavailable => AutofocusStep::GivenUp { message },
        }
    }
}

} // verus!
