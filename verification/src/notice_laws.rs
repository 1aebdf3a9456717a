//! What is promised of the news: which events are told of, in which kind of message, and what an
//! event changes beyond the state.

use vstd::prelude::*;
use crate::autofocus_delivery::AutofocusRetryPolicy;
use crate::calendar::Moment;
use crate::clock::{Duration, Tick};
use crate::event_laws::names_tell_kinds;
use crate::events::{Event, EventDeliveryScope, EventDetails, FilterInfo};
use crate::lifecycle_messages::connectivity_message;
use crate::telescope_messages::ImageMetadata;
use crate::text::same_ignoring_case;
use crate::updater::{
    baseline_step, event_name, filters_of, image_name, image_step, image_told, live_step,
    outage_news, projected, reached, running_count, settled, target_expired, target_over,
        tombstone_name, BaselineView, ImageNotice, Notice,
    PreparedEvent, UpdaterView,
};
use crate::updater_state::{StateView, TargetInfo, TargetSource};

verus! {

/// No event of the page is switched off.
pub open spec fn all_delivered(items: Seq<PreparedEvent>) -> bool {
    forall|j: int| 0 <= j < items.len() ==> (#[trigger] items[j]).event.chat_enabled
}

/// Every new event is told of, unless it is one of these: the end of an autofocus run, which is
/// told of with its report; a saved image, which is told of as an image; a target start, a wait, a
/// weather event or a filter change, which may tell nothing new.
#[verifier::spinoff_prover]
pub proof fn new_events_are_told_of(
    u: UpdaterView,
    items: Seq<PreparedEvent>,
    i: int,
    now: Moment,
    tick: Tick,
    retry: AutofocusRetryPolicy,
)
    requires
        0 <= i < items.len(),
        all_delivered(items),
        !u.state.events_seen.contains(event_name(items[i].key)),
        items[i].event.event@ != "AUTOFOCUS-FINISHED"@,
        items[i].event.event@ != "IMAGE-SAVE"@,
        items[i].event.event@ != "TS-TARGETSTART"@,
        items[i].event.event@ != "TS-NEWTARGETSTART"@,
        items[i].event.event@ != "TS-WAITSTART"@,
        items[i].event.event@ != "WEATHER-CHANGED"@,
        items[i].event.event@ != "WEATHER-HIGH-WIND"@,
        items[i].event.event@ != "FILTERWHEEL-CHANGED"@,
        !(items[i].event.details matches Some(EventDetails::WeatherHighWind { .. })),
    ensures
        !(live_step(u, items, i, now, tick, retry).1 is Silent),
{
    names_tell_kinds(items[i].event.event@);
}

/// A weather event that brings readings is told of. One that says that high wind is on is told of
/// where it was not known to be on, and not again.
#[verifier::spinoff_prover]
pub proof fn new_readings_are_told_of(
    u: UpdaterView,
    items: Seq<PreparedEvent>,
    i: int,
    now: Moment,
    tick: Tick,
    retry: AutofocusRetryPolicy,
)
    requires
        0 <= i < items.len(),
        all_delivered(items),
        !u.state.events_seen.contains(event_name(items[i].key)),
    ensures
        items[i].event.event@ == "WEATHER-CHANGED"@
            && (items[i].event.details matches Some(EventDetails::WeatherChanged { conditions,
            .. }) && !conditions.empty()) ==> live_step(u, items, i, now, tick, retry).1
            == Notice::Generic,
        items[i].event.event@ == "WEATHER-HIGH-WIND"@
            && (items[i].event.details matches Some(EventDetails::WeatherHighWind { is_high_wind,
            conditions, .. }) && (conditions.wind_speed_meters_per_second is Some
            || conditions.wind_gust_meters_per_second is Some
            || conditions.wind_direction_degrees is Some)
            && (!is_high_wind || u.state.weather_high_wind != Some(true)))
            ==> live_step(u, items, i, now, tick, retry).1 == Notice::Generic,
        items[i].event.event@ == "WEATHER-HIGH-WIND"@
            && (items[i].event.details matches Some(EventDetails::WeatherHighWind { is_high_wind,
            .. }) && is_high_wind) && u.state.weather_high_wind == Some(true)
            ==> live_step(u, items, i, now, tick, retry).1 == Notice::Silent,
{
    names_tell_kinds(items[i].event.event@);
}

/// A wait of the scheduler is told of where it is not older than what is known of waits.
#[verifier::spinoff_prover]
pub proof fn new_waits_are_told_of(
    u: UpdaterView,
    items: Seq<PreparedEvent>,
    i: int,
    now: Moment,
    tick: Tick,
    retry: AutofocusRetryPolicy,
    at: Moment,
)
    requires
        0 <= i < items.len(),
        all_delivered(items),
        !u.state.events_seen.contains(event_name(items[i].key)),
        items[i].event.event@ == "TS-WAITSTART"@,
        items[i].times.at matches Some(z) && z.moment == at,
        !(items[i].event.details matches Some(EventDetails::WeatherHighWind { .. })),
    ensures
        (u.state.scheduler_wait_latest_at matches Some(latest) ==> !at.earlier(latest))
            ==> live_step(u, items, i, now, tick, retry).1 == Notice::Generic,
        (u.state.scheduler_wait_latest_at matches Some(latest) && at.earlier(latest))
            ==> live_step(u, items, i, now, tick, retry).1 == Notice::Silent,
{
    names_tell_kinds(items[i].event.event@);
}

/// A filter change is told of unless it is one between two known filters of the same name.
#[verifier::spinoff_prover]
pub proof fn filter_changes_are_told_of(
    u: UpdaterView,
    items: Seq<PreparedEvent>,
    i: int,
    now: Moment,
    tick: Tick,
    retry: AutofocusRetryPolicy,
    new: FilterInfo,
    previous: FilterInfo,
)
    requires
        0 <= i < items.len(),
        all_delivered(items),
        !u.state.events_seen.contains(event_name(items[i].key)),
        items[i].event.event@ == "FILTERWHEEL-CHANGED"@,
        items[i].event.details == Some(EventDetails::FilterWheelChange { new, previous }),
    ensures
        new.name@ != previous.name@ || new.name@.len() == 0 || new.id < 0 || previous.id < 0
            ==> live_step(u, items, i, now, tick, retry).1 == Notice::FilterChanged,
        new.name@ == previous.name@ && new.name@.len() > 0 && new.id >= 0 && previous.id >= 0
            ==> live_step(u, items, i, now, tick, retry) == (u, Notice::Silent),
{
    names_tell_kinds(items[i].event.event@);
}

/// A new event of the mount, of guiding or of the sequence is told of in the message made for such
/// events, and so are a synchronized rotator and a focusing by hand. No other event is.
#[verifier::spinoff_prover]
pub proof fn messages_fit_their_events(
    u: UpdaterView,
    items: Seq<PreparedEvent>,
    i: int,
    now: Moment,
    tick: Tick,
    retry: AutofocusRetryPolicy,
)
    requires
        0 <= i < items.len(),
        all_delivered(items),
        !u.state.events_seen.contains(event_name(items[i].key)),
        !(items[i].event.details matches Some(EventDetails::WeatherHighWind { .. })),
    ensures
        (live_step(u, items, i, now, tick, retry).1 is Mount)
            == (items[i].event.event@ == "MOUNT-BEFORE-FLIP"@ || items[i].event.event@
            == "MOUNT-AFTER-FLIP"@ || items[i].event.event@ == "MOUNT-PARKED"@
            || items[i].event.event@ == "MOUNT-UNPARKED"@ || items[i].event.event@
            == "MOUNT-HOMED"@ || items[i].event.event@ == "MOUNT-CENTER"@ || items[i].event.event@
            == "MOUNT-SLEW-STARTED"@ || items[i].event.event@ == "MOUNT-SLEWED"@),
        (live_step(u, items, i, now, tick, retry).1 is Guider)
            == (items[i].event.event@ == "GUIDER-START"@ || items[i].event.event@
            == "GUIDER-DITHER"@),
        (live_step(u, items, i, now, tick, retry).1 is Sequence)
            == (items[i].event.event@ == "SEQUENCE-STARTING"@ || items[i].event.event@
            == "SEQUENCE-FINISHED"@ || items[i].event.event@ == "SEQUENCE-ENTITY-FAILED"@),
        (live_step(u, items, i, now, tick, retry).1 is RotatorSynced)
            == (items[i].event.event@ == "ROTATOR-SYNCED"@),
        (live_step(u, items, i, now, tick, retry).1 is FocuserFocused)
            == (items[i].event.event@ == "FOCUSER-USER-FOCUSED"@),
        (live_step(u, items, i, now, tick, retry).1 is FilterChanged)
            ==> (items[i].event.event@ == "FILTERWHEEL-CHANGED"@),
        (live_step(u, items, i, now, tick, retry).1 is TargetStarted)
            ==> (items[i].event.event@ == "TS-TARGETSTART"@ || items[i].event.event@
            == "TS-NEWTARGETSTART"@),
        items[i].event.event@ == "AUTOFOCUS-FINISHED"@ || items[i].event.event@ == "IMAGE-SAVE"@
            ==> live_step(u, items, i, now, tick, retry).1 is Silent,
{
    names_tell_kinds(items[i].event.event@);
}

/// A target start makes the target that it names the current one, with its own particulars. It is
/// told of where another target or none was current, with that one as the one before. The start of
/// a plain instruction set makes no target.
#[verifier::spinoff_prover]
pub proof fn started_targets_are_told_of_once(
    u: UpdaterView,
    items: Seq<PreparedEvent>,
    i: int,
    now: Moment,
    tick: Tick,
    retry: AutofocusRetryPolicy,
    target_name: String,
    project_name: Option<String>,
    rotation: Option<crate::double::Double>,
    target_end_time: Option<String>,
    coordinates: Option<crate::events::TargetCoordinates>,
)
    requires
        0 <= i < items.len(),
        all_delivered(items),
        !u.state.events_seen.contains(event_name(items[i].key)),
        items[i].event.event@ == "TS-TARGETSTART"@ || items[i].event.event@ == "TS-NEWTARGETSTART"@,
        items[i].event.details == Some(EventDetails::TargetStart { target_name, project_name,
            rotation, target_end_time, coordinates }),
    ensures
        target_name@ != "Sequential Instruction Set"@
            ==> (live_step(u, items, i, now, tick, retry).0.state.current_target matches Some(t)
            && t.name == target_name && t.project == project_name && t.rotation == rotation
            && t.coordinates == coordinates && t.target_end_time == items[i].times.target_end
            && t.source == TargetSource::TsTargetStart),
        target_name@ == "Sequential Instruction Set"@
            ==> live_step(u, items, i, now, tick, retry).0.state.current_target
            == u.state.current_target && live_step(u, items, i, now, tick, retry).1 is Silent,
        target_name@ != "Sequential Instruction Set"@ && u.state.current_target is None
            ==> (live_step(u, items, i, now, tick,
            retry).1 matches Notice::TargetStarted { previous, target } && previous is None
            && target.name == target_name),
        target_name@ != "Sequential Instruction Set"@
            && (u.state.current_target matches Some(t) && t.name@ != target_name@)
            ==> (live_step(u, items, i, now, tick,
            retry).1 matches Notice::TargetStarted { previous, target } && previous
            == u.state.current_target && target.name == target_name),
        (u.state.current_target matches Some(t) && t.name@ == target_name@)
            ==> live_step(u, items, i, now, tick, retry).1 is Silent,
{
    names_tell_kinds(items[i].event.event@);
}

/// A new event changes the state as it says, and the current target only where it starts one; the
/// report of an autofocus run is waited for from the end of that run on, and from no other event.
#[verifier::spinoff_prover]
pub proof fn live_events_change_the_state_as_told(
    u: UpdaterView,
    items: Seq<PreparedEvent>,
    i: int,
    now: Moment,
    tick: Tick,
    retry: AutofocusRetryPolicy,
)
    requires
        0 <= i < items.len(),
        all_delivered(items),
        !u.state.events_seen.contains(event_name(items[i].key)),
        items[i].event.event@ != "FILTERWHEEL-CHANGED"@,
        !(items[i].event.details matches Some(EventDetails::WeatherHighWind { .. })),
        items[i].event.event@ != "WEATHER-CHANGED"@,
        items[i].event.event@ != "WEATHER-HIGH-WIND"@,
    ensures
        live_step(u, items, i, now, tick, retry).0.state
            == (StateView { current_target: live_step(u, items, i, now, tick,
            retry).0.state.current_target, ..u.noted(items[i].key).state.applied(items[i].event,
            items[i].times, now) }),
        items[i].event.event@ != "TS-TARGETSTART"@ && items[i].event.event@ != "TS-NEWTARGETSTART"@
            ==> live_step(u, items, i, now, tick, retry).0.state.current_target
            == u.state.current_target,
        items[i].event.event@ != "AUTOFOCUS-FINISHED"@
            ==> live_step(u, items, i, now, tick, retry).0.pending == u.pending,
        items[i].event.event@ == "AUTOFOCUS-FINISHED"@
            ==> (live_step(u, items, i, now, tick, retry).0.pending matches Some(d) && d.event_time
            == items[i].event.time && d.queued_at == tick && d.next_attempt_at == tick
            && d.attempts == 0 && d.retry == retry),
{
    names_tell_kinds(items[i].event.event@);
}

/// A run whose report is waited for is remembered by what its event told: the report's timestamp,
/// the filter, the position and the temperature.
#[verifier::spinoff_prover]
pub proof fn pending_runs_hold_what_the_event_told(
    u: UpdaterView,
    items: Seq<PreparedEvent>,
    i: int,
    now: Moment,
    tick: Tick,
    retry: AutofocusRetryPolicy,
    report_timestamp: String,
    filter: Option<String>,
    position: Option<crate::double::Double>,
    temperature: Option<crate::double::Double>,
)
    requires
        0 <= i < items.len(),
        all_delivered(items),
        !u.state.events_seen.contains(event_name(items[i].key)),
        items[i].event.event@ == "AUTOFOCUS-FINISHED"@,
        items[i].event.details == Some(EventDetails::AutofocusFinished { report_timestamp, filter,
            position, temperature }),
    ensures
        live_step(u, items, i, now, tick, retry).0.pending matches Some(d) && d.report_timestamp
            == Some(report_timestamp) && d.filter == filter && d.position == position
            && d.temperature == temperature,
{
    names_tell_kinds(items[i].event.event@);
}

/// A switched-off event clears what came through its switch, once; nothing is told of it, and it is
/// remembered among the switched-off ones.
pub proof fn switching_off_clears_the_scope_once(
    u: UpdaterView,
    items: Seq<PreparedEvent>,
    i: int,
    now: Moment,
    tick: Tick,
    retry: AutofocusRetryPolicy,
)
    requires
        0 <= i < items.len(),
        !items[i].event.chat_enabled,
    ensures
        ({
            let (v, notice) = live_step(u, items, i, now, tick, retry);
            let known = u.state.disabled_event_tombstones.contains(
                tombstone_name(items[i].tombstone),
            );
            let at = match items[i].times.at {
                Some(z) => Some(z.moment),
                None => None,
            };
            &&& notice is Silent
            &&& known ==> v.state == u.buried(items[i].tombstone).state && v.pending == u.pending
            &&& !known ==> v.state == u.buried(items[i].tombstone).state.revoked(
                items[i].event.scope(),
                true,
                at,
            )
            &&& !known && items[i].event.scope() == EventDeliveryScope::Autofocus
                ==> v.pending is None
            &&& items[i].event.scope() != EventDeliveryScope::Autofocus ==> v.pending == u.pending
        }),
{
}

/// The history changes the state as its events tell, and nothing of it is left to be told.
pub proof fn the_history_changes_the_state_as_told(
    s: BaselineView,
    items: Seq<PreparedEvent>,
    i: int,
    now: Moment,
)
    requires
        0 <= i < items.len(),
        all_delivered(items),
        items[i].event.event@ != "FILTERWHEEL-CHANGED"@,
    ensures
        ({
            let t = baseline_step(s, items, i, now);
            let applied = s.updater.state.applied(items[i].event, items[i].times, now);
            &&& t.updater.state == (UpdaterView { state: applied, ..s.updater }).noted(
                items[i].key,
            ).state
            &&& t.updater.pending == s.updater.pending
            &&& items[i].event.event@ != "TS-TARGETSTART"@ && items[i].event.event@
                != "TS-NEWTARGETSTART"@ ==> t.found == s.found
        }),
{
    names_tell_kinds(items[i].event.event@);
}

/// A switched-off event of the history clears what came through its switch, and of the scheduler
/// also the target found so far.
pub proof fn the_history_clears_what_is_switched_off(
    s: BaselineView,
    items: Seq<PreparedEvent>,
    i: int,
    now: Moment,
)
    requires
        0 <= i < items.len(),
        !items[i].event.chat_enabled,
    ensures
        ({
            let t = baseline_step(s, items, i, now);
            let scope = items[i].event.scope();
            let at = match items[i].times.at {
                Some(z) => Some(z.moment),
                None => None,
            };
            &&& t.updater.state == s.updater.buried(items[i].tombstone).state.revoked(
                scope,
                true,
                at,
            )
            &&& scope == EventDeliveryScope::TargetScheduler ==> t.found is None
            &&& scope != EventDeliveryScope::TargetScheduler ==> t.found == s.found
        }),
{
}

/// Three failed cycles in a row, and no fewer, make a connected telescope count as offline; one
/// that succeeds makes it count as connected.
pub proof fn three_failures_make_an_outage(s: StateView)
    requires
        s.consecutive_failures < 1000,
    ensures
        reached(s, true).connected && reached(s, true).consecutive_failures == 0,
        reached(s, false).consecutive_failures == s.consecutive_failures + 1,
        s.connected ==> reached(s, false).connected == (s.consecutive_failures + 1 < 3),
        !s.connected ==> !reached(s, false).connected,
{
}

/// Containers are counted as running by their status, in any case of letters.
pub proof fn running_containers_are_counted(statuses: Seq<String>, status: String)
    ensures
        running_count(statuses.push(status)) == running_count(statuses) + (if same_ignoring_case(
            status@,
            "RUNNING"@,
        ) {
            1nat
        } else {
            0nat
        }),
        running_count(Seq::empty()) == 0,
{
    assert(statuses.push(status).drop_last() =~= statuses);
}

/// A target of the scheduler is dropped from its end on and not before; one of the sequence file,
/// or without an end, stays.
pub proof fn targets_last_until_their_end(s: StateView, now: Moment)
    ensures
        s.current_target is None ==> target_expired(s, now) == s,
        s.current_target matches Some(t) ==> {
            &&& t.source == TargetSource::Sequence || t.target_end_time is None ==> target_expired(
                s,
                now,
            ) == s
            &&& t.source == TargetSource::TsTargetStart
                ==> (t.target_end_time matches Some(end) ==> {
                &&& now.earlier(end.moment) ==> target_expired(s, now) == s
                &&& !now.earlier(end.moment) ==> target_expired(s, now) == (StateView {
                    current_target: None,
                    last_status_fingerprint: None,
                    ..s
                })
            })
        },
        target_over(s, now) <==> target_expired(s, now).current_target != s.current_target,
{
}

/// What a filter change leaves open is filled in from what is known: the filter before from the
/// last one known, the filter since from the one that the wheel has. What the event says stands.
pub proof fn filter_changes_are_filled_in(
    event: Event,
    new: FilterInfo,
    previous: FilterInfo,
    selected: Option<FilterInfo>,
    last: Option<FilterInfo>,
)
    requires
        event.details == Some(EventDetails::FilterWheelChange { new, previous }),
    ensures
        filters_of(event, selected, last) is Some,
        ({
            let (before, since) = filters_of(event, selected, last)->0;
            &&& new.name@.len() > 0 && new.id >= 0 ==> since == new
            &&& previous.name@.len() > 0 && previous.id >= 0 ==> before == previous
            &&& new.name@.len() == 0 || new.id < 0 ==> since == (match selected {
                Some(f) => f,
                None => new,
            })
            &&& previous.name@.len() == 0 || previous.id < 0 ==> before == (match last {
                Some(f) => f,
                None => previous,
            })
        }),
{
}

/// A filter change in the history makes its new filter the last known one, where that filter has a
/// name and a number.
pub proof fn the_history_tells_the_filter(
    s: BaselineView,
    items: Seq<PreparedEvent>,
    i: int,
    now: Moment,
    new: FilterInfo,
    previous: FilterInfo,
)
    requires
        0 <= i < items.len(),
        all_delivered(items),
        items[i].event.event@ == "FILTERWHEEL-CHANGED"@,
        items[i].event.details == Some(EventDetails::FilterWheelChange { new, previous }),
        new.name@ != previous.name@,
    ensures
        new.name@.len() > 0 && new.id >= 0 ==> baseline_step(
            s,
            items,
            i,
            now,
        ).updater.state.last_filter == Some(new),
        new.name@.len() == 0 || new.id < 0 ==> baseline_step(
            s,
            items,
            i,
            now,
        ).updater.state.last_filter == s.updater.state.last_filter,
        baseline_step(s, items, i, now).found == s.found,
{
    names_tell_kinds(items[i].event.event@);
}

/// Of the targets that the history starts, the one that started last stands; of those without a
/// time the last in order, but none of them over one with a time.
pub proof fn the_history_tells_the_newest_target(
    s: BaselineView,
    items: Seq<PreparedEvent>,
    i: int,
    now: Moment,
    target_name: String,
    project_name: Option<String>,
    rotation: Option<crate::double::Double>,
    target_end_time: Option<String>,
    coordinates: Option<crate::events::TargetCoordinates>,
)
    requires
        0 <= i < items.len(),
        all_delivered(items),
        items[i].event.event@ == "TS-TARGETSTART"@ || items[i].event.event@
            == "TS-NEWTARGETSTART"@,
        items[i].event.details == Some(
            EventDetails::TargetStart {
                target_name,
                project_name,
                rotation,
                target_end_time,
                coordinates,
            },
        ),
        target_name@ != "Sequential Instruction Set"@,
    ensures
        ({
            let found = baseline_step(s, items, i, now).found;
            let at = items[i].times.at;
            &&& found is Some
            &&& found == s.found || (found->0.at == at && found->0.target.name == target_name
                && found->0.target.coordinates == coordinates && found->0.target.project
                == project_name && found->0.target.rotation == rotation
                && found->0.target.target_end_time == items[i].times.target_end)
            &&& s.found is None ==> found->0.target.name == target_name
            &&& s.found matches Some(f) ==> {
                &&& at is None && f.at is Some ==> found == s.found
                &&& at is None && f.at is None ==> found->0.target.name == target_name
                &&& at is Some && f.at is None ==> found->0.target.name == target_name
                &&& at matches Some(a) ==> (f.at matches Some(b) ==> {
                    &&& b.moment.earlier(a.moment) ==> found->0.target.name == target_name
                    &&& !b.moment.earlier(a.moment) ==> found == s.found
                })
            }
        }),
{
    names_tell_kinds(items[i].event.event@);
}

/// Images that fall into the cooldown are counted one by one, and the next one that is told of
/// bears their number; telling of it starts the count and the cooldown anew.
pub proof fn skipped_images_are_counted(
    u: UpdaterView,
    images: Seq<ImageMetadata>,
    i: int,
    key: u64,
    services: nat,
    cooldown: Duration,
    tick: Tick,
    sent: Tick,
)
    requires
        0 <= i < images.len(),
        forall|j: int| 0 <= j < images.len() ==> (#[trigger] images[j]).chat_enabled,
        !u.state.images_seen.contains(image_name(key)),
        services > 0,
        u.state.skipped_images_count < u32::MAX,
    ensures
        ({
            let (v, notice) = image_step(u, images, i, key, services, cooldown, tick);
            &&& u.state.last_image_time is None ==> notice == (ImageNotice::Post {
                skipped: u.state.skipped_images_count,
            })
            &&& u.state.last_image_time matches Some(last) ==> {
                let waited: int = if tick.nanos >= last.nanos {
                    tick.nanos - last.nanos
                } else {
                    0
                };
                &&& waited >= cooldown.nanos ==> notice == (ImageNotice::Post {
                    skipped: u.state.skipped_images_count,
                })
                &&& waited < cooldown.nanos ==> (notice matches ImageNotice::Skip { remaining }
                    && remaining.nanos == cooldown.nanos - waited && v.state.skipped_images_count
                    == u.state.skipped_images_count + 1)
            }
            &&& notice is Post ==> v.state.skipped_images_count == u.state.skipped_images_count
            &&& image_told(v, sent).state.skipped_images_count == 0
            &&& image_told(v, sent).state.last_image_time == Some(sent)
        }),
{
}

/// The sequence's target becomes the current one where it is delivered and none is current or one
/// of
/// the sequence with another name, and that is told with the one before. A target of the scheduler
/// stands until its end, and a target that is switched off is forgotten, without a word.
pub proof fn sequence_targets_yield_to_the_scheduler(
    s: StateView,
    name: String,
    enabled: bool,
    now: Moment,
)
    requires
        !target_over(s, now),
    ensures
        projected(s, None, now) == (s, None::<(Option<TargetInfo>, TargetInfo)>),
        !enabled ==> projected(s, Some((name, enabled)), now).0.current_target is None && projected(
            s,
            Some((name, enabled)),
            now,
        ).1 is None,
        enabled && (s.current_target matches Some(t) && (t.source == TargetSource::TsTargetStart
            || t.name@ == name@)) ==> projected(s, Some((name, enabled)), now) == (
            s,
            None::<(Option<TargetInfo>, TargetInfo)>,
        ),
        enabled && (s.current_target matches Some(t) ==> t.source == TargetSource::Sequence
            && t.name@ != name@) ==> {
            let (after, news) = projected(s, Some((name, enabled)), now);
            &&& after.current_target matches Some(t) && t.name == name && t.source
                == TargetSource::Sequence && t.coordinates is None && t.target_end_time is None
            &&& news matches Some(change) && change.0 == s.current_target && Some(change.1)
                == after.current_target
            &&& after == (StateView { current_target: after.current_target, ..s })
        },
{
}

/// After its end a target of the scheduler no longer stands in the way of the sequence's.
pub proof fn ended_targets_give_way(s: StateView, name: String, now: Moment)
    requires
        target_over(s, now),
    ensures
        projected(s, Some((name, true)), now).0.current_target matches Some(t) && t.name == name,
        projected(s, Some((name, true)), now).1 matches Some(change) && change.0 is None,
        projected(s, None, now).0.current_target is None,
{
}

/// After a filter change the new filter is the last known one where it has a name and a number, and
/// the last known one stays where it has not. Between two known filters of one name nothing is
/// told.
pub proof fn the_last_filter_is_the_new_one(
    s: StateView,
    event: Event,
    new: FilterInfo,
    previous: FilterInfo,
    selected: Option<FilterInfo>,
)
    requires
        event.details == Some(EventDetails::FilterWheelChange { new, previous }),
        new.name@.len() > 0 && new.id >= 0,
    ensures
        settled(s, event, selected).0 == (StateView { last_filter: Some(new), ..s }),
        previous.name@.len() > 0 && previous.id >= 0 && previous.name@ == new.name@ ==> settled(
            s,
            event,
            selected,
        ).1 is None,
        previous.name@.len() > 0 && previous.id >= 0 && previous.name@ != new.name@ ==> (settled(
            s,
            event,
            selected,
        ).1 matches Some(change) && change.0 == previous && change.1 == new),
        (previous.name@.len() == 0 || previous.id < 0) && s.last_filter is None ==> (settled(
            s,
            event,
            selected,
        ).1 matches Some(change) && change.0 == previous && change.1 == new),
{
}

/// A filter change to a filter that nobody knows leaves the last known one.
pub proof fn unknown_filters_are_not_remembered(
    s: StateView,
    event: Event,
    new: FilterInfo,
    previous: FilterInfo,
)
    requires
        event.details == Some(EventDetails::FilterWheelChange { new, previous }),
        new.name@.len() == 0 || new.id < 0,
    ensures
        settled(s, event, None).0 == s,
        settled(s, event, None).1 is Some,
{
}

/// Going offline is told of with the third failure in a row and not again with the next ones;
/// coming
/// back is told of with the first success, and not where the telescope was not offline. Nothing is
/// told where nobody is there or such news are not wanted.
pub proof fn outages_are_told_of_once(
    telescope: Seq<char>,
    s: StateView,
    services: nat,
    now: Moment,
)
    requires
        services > 0,
        s.consecutive_failures < 1000,
    ensures
        s.connected && s.consecutive_failures == 2 ==> outage_news(
            telescope,
            s,
            false,
            services,
            true,
            now,
        ) == Some(connectivity_message(telescope, false, 3, now)),
        s.connected && s.consecutive_failures < 2 ==> outage_news(
            telescope,
            s,
            false,
            services,
            true,
            now,
        ) is None,
        !s.connected ==> outage_news(telescope, s, false, services, true, now) is None,
        !s.connected ==> outage_news(telescope, s, true, services, true, now) == Some(
            connectivity_message(telescope, true, 0, now),
        ),
        s.connected ==> outage_news(telescope, s, true, services, true, now) is None,
        forall|reachable: bool| #[trigger]
            outage_news(telescope, s, reachable, services, false, now) is None,
        forall|reachable: bool| #[trigger]
            outage_news(telescope, s, reachable, 0, true, now) is None,
{
}

} // verus!
