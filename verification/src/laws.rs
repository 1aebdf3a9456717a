//! What holds of the updater as a whole, whatever the controller reports.

use vstd::prelude::*;
use crate::autofocus_delivery::AutofocusRetryPolicy;
use crate::calendar::Moment;
use crate::clock::{Duration, Tick};
use crate::event_types::EventKind;
use crate::events::{Event, EventDeliveryScope, EventDetails};
use crate::fingerprint::{fingerprint, marks};
use crate::seen_set::{
    a_sighted_key_is_known, a_sighting_keeps_the_latest, after_sighting, among_latest,
};
use crate::sequence::TrackedSequenceOperation;
use crate::status::{placed_operation, shown_operations};
use crate::telescope_messages::ImageMetadata;
use crate::updater::{
    after_baseline, baseline_step, baseline_steps, changed_filter, event_name, handled,
    image_hidden, image_name, image_step, image_told, is_hidden, live_step, processable, reached,
    same_filter, target_expired, tombstone_name, BaselineView, ImageNotice, Notice, PreparedEvent,
    UpdaterView,
};
use crate::updater_state::{
    retained, EventTimes, Retention, SafetyState, StateView, OFFLINE_FAILURE_THRESHOLD,
    SEEN_SET_CAPACITY,
};

verus! {

/// An event that stands before a switched-off one of its scope changes nothing, and nothing is
/// told of it.
pub proof fn hidden_events_change_nothing(
    u: UpdaterView,
    s: BaselineView,
    items: Seq<PreparedEvent>,
    i: int,
    now: Moment,
    tick: Tick,
    retry: AutofocusRetryPolicy,
)
    requires
        0 <= i < items.len(),
        is_hidden(items, i),
    ensures
        live_step(u, items, i, now, tick, retry) == (u, Notice::Silent),
        baseline_step(s, items, i, now) == s,
{
}

/// The place in a page that an event has once the one at `i` is left out.
spec fn place_without(i: int, n: int) -> int {
    if n < i {
        n
    } else {
        n + 1
    }
}

/// Leaving out an event that is hidden hides no other event, and uncovers none.
proof fn lemma_hidden_without(items: Seq<PreparedEvent>, i: int, n: int)
    requires
        0 <= i < items.len(),
        is_hidden(items, i),
        0 <= n < items.len() - 1,
    ensures
        items.remove(i)[n] == items[place_without(i, n)],
        is_hidden(items.remove(i), n) == is_hidden(items, place_without(i, n)),
{
    let rest = items.remove(i);
    let m = place_without(i, n);
    if is_hidden(rest, n) {
        let j = choose|j: int|
            n < j < rest.len() && !(#[trigger] rest[j]).event.chat_enabled && rest[j].event.scope()
                == rest[n].event.scope();
        assert(items[place_without(i, j)] == rest[j]);
    }
    if is_hidden(items, m) {
        let j = choose|j: int|
            m < j < items.len() && !(#[trigger] items[j]).event.chat_enabled
                && items[j].event.scope() == items[m].event.scope();
        assert(j != i);
        let k = if j < i {
            j
        } else {
            j - 1
        };
        assert(rest[k] == items[j]);
    }
}

/// A history ends alike with and without an event that stands before a switched-off one of its
/// scope.
pub proof fn histories_end_alike_without_hidden_events(
    u: UpdaterView,
    items: Seq<PreparedEvent>,
    i: int,
    now: Moment,
)
    requires
        0 <= i < items.len(),
        is_hidden(items, i),
    ensures
        after_baseline(u, items.remove(i), now) == after_baseline(u, items, now),
{
    let start = BaselineView { updater: u, found: None };
    lemma_baseline_without(start, items, i, items.len() - 1, now);
}

proof fn lemma_baseline_without(
    s: BaselineView,
    items: Seq<PreparedEvent>,
    i: int,
    n: int,
    now: Moment,
)
    requires
        0 <= i < items.len(),
        is_hidden(items, i),
        0 <= n <= items.len() - 1,
    ensures
        baseline_steps(s, items.remove(i), n, now) == baseline_steps(
            s,
            items,
            place_without(i, n),
            now,
        ),
    decreases n,
{
    if n > 0 {
        lemma_baseline_without(s, items, i, n - 1, now);
        lemma_hidden_without(items, i, n - 1);
    }
    if n == i {
        assert(baseline_steps(s, items, i + 1, now) == baseline_steps(s, items, i, now));
    }
}

/// A page is received alike with and without an event that stands before a switched-off one of its
/// scope: the same is told of every other event, and the same is known afterwards.
pub proof fn pages_end_alike_without_hidden_events(
    u: UpdaterView,
    items: Seq<PreparedEvent>,
    i: int,
    n: int,
    times: Seq<(Moment, Tick)>,
    retry: AutofocusRetryPolicy,
)
    requires
        0 <= i < items.len(),
        is_hidden(items, i),
        times.len() == items.len(),
        0 <= n < items.len() - 1,
    ensures
        ({
            let rest = items.remove(i);
            let later = times.remove(i);
            let m = if n < i {
                n
            } else {
                n + 1
            };
            live_step(
                live_steps(u, rest, n, later, retry),
                rest,
                n,
                later[n].0,
                later[n].1,
                retry,
            ) == live_step(
                live_steps(u, items, m, times, retry),
                items,
                m,
                times[m].0,
                times[m].1,
                retry,
            )
        }),
        live_steps(u, items.remove(i), items.len() - 1, times.remove(i), retry) == live_steps(
            u,
            items,
            items.len() as int,
            times,
            retry,
        ),
{
    lemma_page_without(u, items, i, n, times, retry);
    lemma_hidden_without(items, i, n);
    lemma_page_without(u, items, i, items.len() - 1, times, retry);
}

proof fn lemma_page_without(
    u: UpdaterView,
    items: Seq<PreparedEvent>,
    i: int,
    n: int,
    times: Seq<(Moment, Tick)>,
    retry: AutofocusRetryPolicy,
)
    requires
        0 <= i < items.len(),
        is_hidden(items, i),
        times.len() == items.len(),
        0 <= n <= items.len() - 1,
    ensures
        live_steps(u, items.remove(i), n, times.remove(i), retry) == live_steps(
            u,
            items,
            place_without(i, n),
            times,
            retry,
        ),
    decreases n,
{
    if n > 0 {
        lemma_page_without(u, items, i, n - 1, times, retry);
        lemma_hidden_without(items, i, n - 1);
        assert(times.remove(i)[n - 1] == times[place_without(i, n - 1)]);
    }
    if n == i {
        assert(live_steps(u, items, i + 1, times, retry) == live_steps(u, items, i, times, retry));
    }
}

/// Two events that differ in their details alone.
pub open spec fn differ_in_details(a: PreparedEvent, b: PreparedEvent) -> bool {
    &&& a.event.time == b.event.time
    &&& a.event.event == b.event.event
    &&& a.event.chat_enabled == b.event.chat_enabled
    &&& a.times.at == b.times.at
    &&& a.tombstone == b.tombstone
}

/// The details of a switched-off event reach neither the state nor a message: whatever they are,
/// the outcome is the same.
pub proof fn switched_off_details_have_no_effect(
    u: UpdaterView,
    s: BaselineView,
    items: Seq<PreparedEvent>,
    i: int,
    other: PreparedEvent,
    now: Moment,
    tick: Tick,
    retry: AutofocusRetryPolicy,
)
    requires
        0 <= i < items.len(),
        !items[i].event.chat_enabled,
        differ_in_details(items[i], other),
    ensures
        live_step(u, items.update(i, other), i, now, tick, retry) == live_step(
            u,
            items,
            i,
            now,
            tick,
            retry,
        ),
        live_step(u, items, i, now, tick, retry).1 == Notice::Silent,
        baseline_step(s, items.update(i, other), i, now) == baseline_step(s, items, i, now),
{
}

/// Two pages that differ in the details of switched-off events alone.
pub open spec fn differ_in_hidden_details(a: Seq<PreparedEvent>, b: Seq<PreparedEvent>) -> bool {
    &&& a.len() == b.len()
    &&& forall|i: int|
        #![trigger a[i]]
        #![trigger b[i]]
        0 <= i < a.len() ==> a[i] == b[i] || (!a[i].event.chat_enabled && differ_in_details(
            a[i],
            b[i],
        ))
}

proof fn lemma_hidden_alike(a: Seq<PreparedEvent>, b: Seq<PreparedEvent>, i: int)
    requires
        differ_in_hidden_details(a, b),
        0 <= i < a.len(),
    ensures
        is_hidden(a, i) == is_hidden(b, i),
{
    assert(a[i].event.chat_enabled == b[i].event.chat_enabled);
    assert(a[i].event.scope() == b[i].event.scope());
    if is_hidden(a, i) {
        let j = choose|j: int|
            i < j < a.len() && !(#[trigger] a[j]).event.chat_enabled && a[j].event.scope()
                == a[i].event.scope();
        assert(!b[j].event.chat_enabled && b[j].event.scope() == b[i].event.scope());
    }
    if is_hidden(b, i) {
        let j = choose|j: int|
            i < j < b.len() && !(#[trigger] b[j]).event.chat_enabled && b[j].event.scope()
                == b[i].event.scope();
        assert(!a[j].event.chat_enabled && a[j].event.scope() == a[i].event.scope());
    }
}

/// A history is taken in alike whatever the details of its switched-off events are.
pub proof fn histories_hide_switched_off_details(
    u: UpdaterView,
    a: Seq<PreparedEvent>,
    b: Seq<PreparedEvent>,
    now: Moment,
)
    requires
        differ_in_hidden_details(a, b),
    ensures
        after_baseline(u, a, now) == after_baseline(u, b, now),
{
    lemma_baseline_alike(BaselineView { updater: u, found: None }, a, b, a.len() as int, now);
}

proof fn lemma_baseline_alike(
    s: BaselineView,
    a: Seq<PreparedEvent>,
    b: Seq<PreparedEvent>,
    n: int,
    now: Moment,
)
    requires
        differ_in_hidden_details(a, b),
        0 <= n <= a.len(),
    ensures
        baseline_steps(s, a, n, now) == baseline_steps(s, b, n, now),
    decreases n,
{
    if n > 0 {
        lemma_baseline_alike(s, a, b, n - 1, now);
        lemma_hidden_alike(a, b, n - 1);
    }
}

/// The updater after the first `n` events of a page, each received at its own time.
pub open spec fn live_steps(
    u: UpdaterView,
    items: Seq<PreparedEvent>,
    n: int,
    times: Seq<(Moment, Tick)>,
    retry: AutofocusRetryPolicy,
) -> UpdaterView
    decreases n,
{
    if n <= 0 {
        u
    } else {
        live_step(
            live_steps(u, items, n - 1, times, retry),
            items,
            n - 1,
            times[n - 1].0,
            times[n - 1].1,
            retry,
        ).0
    }
}

/// A page is received alike whatever the details of its switched-off events are: the same is told
/// of each event, and the same is known afterwards.
pub proof fn pages_hide_switched_off_details(
    u: UpdaterView,
    a: Seq<PreparedEvent>,
    b: Seq<PreparedEvent>,
    n: int,
    times: Seq<(Moment, Tick)>,
    retry: AutofocusRetryPolicy,
)
    requires
        differ_in_hidden_details(a, b),
        0 <= n < a.len(),
    ensures
        live_step(live_steps(u, a, n, times, retry), a, n, times[n].0, times[n].1, retry)
            == live_step(live_steps(u, b, n, times, retry), b, n, times[n].0, times[n].1, retry),
    decreases n,
{
    if n > 0 {
        pages_hide_switched_off_details(u, a, b, n - 1, times, retry);
    }
    lemma_hidden_alike(a, b, n);
}

/// Nothing of a history that was taken in is told when it is read again, apart from changes
/// between two filters of one name, which the history passes over.
pub proof fn the_history_is_not_told_again(
    u: UpdaterView,
    items: Seq<PreparedEvent>,
    i: int,
    now: Moment,
    later: Moment,
    tick: Tick,
    retry: AutofocusRetryPolicy,
)
    requires
        0 <= i < items.len() <= SEEN_SET_CAPACITY,
        !same_filter(items[i].event),
    ensures
        live_step(after_baseline(u, items, now), items, i, later, tick, retry).1 == Notice::Silent,
{
    if !is_hidden(items, i) && items[i].event.chat_enabled {
        let start = BaselineView { updater: u, found: None };
        lemma_history_is_known(start, items, i, items.len() as int, now);
        let known = baseline_steps(start, items, items.len() as int, now).updater.state.events_seen;
        let k = choose|k: int|
            0 <= k < known.len() && #[trigger] known[k] == event_name(items[i].key);
        assert(known.contains(event_name(items[i].key)));
    }
}

proof fn lemma_history_is_known(
    s: BaselineView,
    items: Seq<PreparedEvent>,
    i: int,
    n: int,
    now: Moment,
)
    requires
        0 <= i < n <= items.len() <= SEEN_SET_CAPACITY,
        !is_hidden(items, i),
        items[i].event.chat_enabled,
        !same_filter(items[i].event),
    ensures
        among_latest(
            baseline_steps(s, items, n, now).updater.state.events_seen,
            event_name(items[i].key),
            (n - i) as nat,
        ),
    decreases n,
{
    let before = baseline_steps(s, items, n - 1, now);
    let item = items[n - 1];
    let name = event_name(items[i].key);
    let filtered = match changed_filter(item.event) {
        Some(f) => StateView { last_filter: Some(f), ..before.updater.state },
        None => before.updater.state,
    };
    lemma_applied_keeps_memory(filtered, item.event, item.times, now);
    let keys = before.updater.state.events_seen;
    let known = baseline_steps(s, items, n, now).updater.state.events_seen;
    if i == n - 1 {
        a_sighted_key_is_known(keys, name, SEEN_SET_CAPACITY as nat);
        assert(known[known.len() - 1] == name);
    } else {
        lemma_history_is_known(s, items, i, n - 1, now);
        let k = choose|k: int|
            0 <= k < keys.len() && #[trigger] keys[k] == name && keys.len() - k <= n - 1 - i;
        if known == keys {
            assert(known[k] == name);
        } else {
            a_sighting_keeps_the_latest(
                keys,
                event_name(item.key),
                SEEN_SET_CAPACITY as nat,
                name,
                (n - 1 - i) as nat,
            );
        }
    }
}

/// An event is remembered from its first sighting on, and in every state that still remembers it,
/// nothing is told of it and nothing but the order of sightings changes.
pub proof fn events_are_told_of_once(
    u: UpdaterView,
    items: Seq<PreparedEvent>,
    i: int,
    now: Moment,
    tick: Tick,
    retry: AutofocusRetryPolicy,
    later: UpdaterView,
)
    requires
        0 <= i < items.len(),
        items[i].event.chat_enabled,
    ensures
        !is_hidden(items, i) && processable(items[i].event) ==> live_step(
            u,
            items,
            i,
            now,
            tick,
            retry,
        ).0.state.events_seen.contains(event_name(items[i].key)),
        later.state.events_seen.contains(event_name(items[i].key)) ==> ({
            let (after, notice) = live_step(later, items, i, now, tick, retry);
            notice == Notice::Silent && same_but_memory(after, later)
        }),
{
    let item = items[i];
    a_sighted_key_is_known(u.state.events_seen, event_name(item.key), SEEN_SET_CAPACITY as nat);
    lemma_handling_keeps_memory(u.noted(item.key), item, now, tick, retry);
}

/// Two updaters that differ at most in what was seen when.
pub open spec fn same_but_memory(a: UpdaterView, b: UpdaterView) -> bool {
    a == (UpdaterView {
        state: StateView {
            events_seen: a.state.events_seen,
            disabled_event_tombstones: a.state.disabled_event_tombstones,
            images_seen: a.state.images_seen,
            ..b.state
        },
        ..b
    })
}

/// A page of events that the memory can hold and that is received a second time is silent, and
/// nothing but the order of sightings changes: targets, filters, equipment, sequence, weather and
/// waits stay as they are.
pub proof fn a_page_received_again_is_silent(
    u: UpdaterView,
    items: Seq<PreparedEvent>,
    n: int,
    times: Seq<(Moment, Tick)>,
    later: Seq<(Moment, Tick)>,
    retry: AutofocusRetryPolicy,
)
    requires
        items.len() <= SEEN_SET_CAPACITY,
        0 <= n <= items.len(),
    ensures
        ({
            let first = live_steps(u, items, items.len() as int, times, retry);
            let again = live_steps(first, items, n, later, retry);
            &&& same_but_memory(again, first)
            &&& n < items.len() ==> live_step(
                again,
                items,
                n,
                later[n].0,
                later[n].1,
                retry,
            ).1 == Notice::Silent
        }),
{
    let len = items.len() as int;
    let first = live_steps(u, items, len, times, retry);
    assert forall|i: int|
        #![trigger items[i]]
        0 <= i < len implies recalls(first, items, i, (len - i) as nat) by {
        lemma_page_is_known(u, items, i, len, times, retry);
    }
    lemma_second_pass(first, items, n, later, retry);
    if n < len {
        let again = live_steps(first, items, n, later, retry);
        assert(recalls(again, items, n, len as nat));
        lemma_recalled_is_silent(again, items, n, len as nat, later[n].0, later[n].1, retry);
    }
}

/// What an event leaves behind in the memory is among the `k` latest sightings of its kind.
spec fn recalls(u: UpdaterView, items: Seq<PreparedEvent>, i: int, k: nat) -> bool {
    let item = items[i];
    if is_hidden(items, i) || !processable(item.event) {
        true
    } else if item.event.chat_enabled {
        among_latest(u.state.events_seen, event_name(item.key), k)
    } else {
        among_latest(u.state.disabled_event_tombstones, tombstone_name(item.tombstone), k)
    }
}

proof fn lemma_latest_contains(keys: Seq<Seq<char>>, key: Seq<char>, k: nat)
    requires
        among_latest(keys, key, k),
    ensures
        keys.contains(key),
{
    let i = choose|i: int| 0 <= i < keys.len() && #[trigger] keys[i] == key && keys.len() - i <= k;
    assert(keys[i] == key);
}

proof fn lemma_recalled_is_silent(
    u: UpdaterView,
    items: Seq<PreparedEvent>,
    i: int,
    k: nat,
    now: Moment,
    tick: Tick,
    retry: AutofocusRetryPolicy,
)
    requires
        0 <= i < items.len(),
        recalls(u, items, i, k),
    ensures
        live_step(u, items, i, now, tick, retry).1 == Notice::Silent,
        same_but_memory(live_step(u, items, i, now, tick, retry).0, u),
{
    let item = items[i];
    if !is_hidden(items, i) && processable(item.event) {
        if item.event.chat_enabled {
            lemma_latest_contains(u.state.events_seen, event_name(item.key), k);
        } else {
            lemma_latest_contains(
                u.state.disabled_event_tombstones,
                tombstone_name(item.tombstone),
                k,
            );
        }
    }
}

/// One step of a page moves what is remembered back by one place at most.
proof fn lemma_step_recalls(
    u: UpdaterView,
    items: Seq<PreparedEvent>,
    i: int,
    k: nat,
    n: int,
    now: Moment,
    tick: Tick,
    retry: AutofocusRetryPolicy,
)
    requires
        0 <= i < items.len(),
        0 <= n < items.len(),
        recalls(u, items, i, k),
        k < SEEN_SET_CAPACITY,
    ensures
        recalls(live_step(u, items, n, now, tick, retry).0, items, i, k + 1),
{
    let capacity = SEEN_SET_CAPACITY as nat;
    let item = items[n];
    let after = live_step(u, items, n, now, tick, retry).0;
    lemma_handling_keeps_memory(u.noted(item.key), item, now, tick, retry);
    let name = event_name(items[i].key);
    let mark = tombstone_name(items[i].tombstone);
    let events = u.state.events_seen;
    let marks = u.state.disabled_event_tombstones;
    if !is_hidden(items, i) && processable(items[i].event) {
        if items[i].event.chat_enabled {
            a_sighting_keeps_the_latest(events, event_name(item.key), capacity, name, k);
            let at = choose|at: int|
                0 <= at < events.len() && #[trigger] events[at] == name && events.len() - at <= k;
            assert(events[at] == name && events.len() - at <= k + 1);
            assert(among_latest(events, name, k + 1));
            assert(after.state.events_seen == events || after.state.events_seen == after_sighting(
                events,
                event_name(item.key),
                capacity,
            ));
        } else {
            a_sighting_keeps_the_latest(marks, tombstone_name(item.tombstone), capacity, mark, k);
            let at = choose|at: int|
                0 <= at < marks.len() && #[trigger] marks[at] == mark && marks.len() - at <= k;
            assert(marks[at] == mark && marks.len() - at <= k + 1);
            assert(among_latest(marks, mark, k + 1));
            assert(after.state.disabled_event_tombstones == marks
                || after.state.disabled_event_tombstones == after_sighting(
                marks,
                tombstone_name(item.tombstone),
                capacity,
            ));
        }
    }
}

proof fn lemma_page_is_known(
    u: UpdaterView,
    items: Seq<PreparedEvent>,
    i: int,
    n: int,
    times: Seq<(Moment, Tick)>,
    retry: AutofocusRetryPolicy,
)
    requires
        0 <= i < n <= items.len() <= SEEN_SET_CAPACITY,
    ensures
        recalls(live_steps(u, items, n, times, retry), items, i, (n - i) as nat),
    decreases n,
{
    let before = live_steps(u, items, n - 1, times, retry);
    let (now, tick) = times[n - 1];
    if i < n - 1 {
        lemma_page_is_known(u, items, i, n - 1, times, retry);
        lemma_step_recalls(before, items, i, (n - 1 - i) as nat, n - 1, now, tick, retry);
    } else {
        let item = items[i];
        let after = live_step(before, items, i, now, tick, retry).0;
        let capacity = SEEN_SET_CAPACITY as nat;
        lemma_handling_keeps_memory(before.noted(item.key), item, now, tick, retry);
        if !is_hidden(items, i) && processable(item.event) {
            if item.event.chat_enabled {
                let name = event_name(item.key);
                a_sighted_key_is_known(before.state.events_seen, name, capacity);
                let keys = after.state.events_seen;
                assert(keys == after_sighting(before.state.events_seen, name, capacity));
                assert(keys[keys.len() - 1] == name);
            } else {
                let mark = tombstone_name(item.tombstone);
                a_sighted_key_is_known(before.state.disabled_event_tombstones, mark, capacity);
                let keys = after.state.disabled_event_tombstones;
                assert(keys == after_sighting(
                    before.state.disabled_event_tombstones,
                    mark,
                    capacity,
                ));
                assert(keys[keys.len() - 1] == mark);
            }
        }
    }
}

proof fn lemma_second_pass(
    first: UpdaterView,
    items: Seq<PreparedEvent>,
    n: int,
    times: Seq<(Moment, Tick)>,
    retry: AutofocusRetryPolicy,
)
    requires
        0 <= n <= items.len() <= SEEN_SET_CAPACITY,
        forall|i: int|
            #![trigger items[i]]
            0 <= i < items.len() ==> recalls(
                first,
                items,
                i,
                (items.len() - i) as nat,
            ),
    ensures
        same_but_memory(live_steps(first, items, n, times, retry), first),
        forall|i: int|
            #![trigger items[i]]
            n <= i < items.len() ==> recalls(
                live_steps(first, items, n, times, retry),
                items,
                i,
                (items.len() - i + n) as nat,
            ),
    decreases n,
{
    if n > 0 {
        lemma_second_pass(first, items, n - 1, times, retry);
        let before = live_steps(first, items, n - 1, times, retry);
        let (now, tick) = times[n - 1];
        assert(recalls(before, items, n - 1, items.len()));
        lemma_recalled_is_silent(before, items, n - 1, items.len(), now, tick, retry);
        assert forall|i: int|
            #![trigger items[i]]
            n <= i < items.len() implies recalls(
            live_steps(first, items, n, times, retry),
            items,
            i,
            (items.len() - i + n) as nat,
        ) by {
            let k = (items.len() - i + n - 1) as nat;
            assert(recalls(before, items, i, k));
            lemma_step_recalls(before, items, i, k, n - 1, now, tick, retry);
        }
    } else {
        assert forall|i: int|
            #![trigger items[i]]
            n <= i < items.len() implies recalls(
            live_steps(first, items, n, times, retry),
            items,
            i,
            (items.len() - i + n) as nat,
        ) by {
            assert(recalls(first, items, i, (items.len() - i) as nat));
        }
    }
}

proof fn lemma_applied_keeps_memory(s: StateView, event: Event, times: EventTimes, now: Moment)
    ensures
        s.applied(event, times, now).events_seen == s.events_seen,
        s.applied(event, times, now).images_seen == s.images_seen,
        s.applied(event, times, now).disabled_event_tombstones == s.disabled_event_tombstones,
{
}

proof fn lemma_handling_keeps_memory(
    u: UpdaterView,
    item: PreparedEvent,
    now: Moment,
    tick: Tick,
    retry: AutofocusRetryPolicy,
)
    ensures
        handled(u, item, now, tick, retry).0.state.events_seen == u.state.events_seen,
        handled(u, item, now, tick, retry).0.state.disabled_event_tombstones
            == u.state.disabled_event_tombstones,
{
    lemma_applied_keeps_memory(u.state, item.event, item.times, now);
}

/// A switched-off event revokes once: repeating it finds it remembered.
pub proof fn tombstones_are_remembered(
    u: UpdaterView,
    items: Seq<PreparedEvent>,
    i: int,
    now: Moment,
    tick: Tick,
    retry: AutofocusRetryPolicy,
)
    requires
        0 <= i < items.len(),
        !items[i].event.chat_enabled,
    ensures
        live_step(u, items, i, now, tick, retry).0.state.disabled_event_tombstones.contains(
            tombstone_name(items[i].tombstone),
        ),
{
    a_sighted_key_is_known(
        u.state.disabled_event_tombstones,
        tombstone_name(items[i].tombstone),
        SEEN_SET_CAPACITY as nat,
    );
}

/// `a` is no later than `b`, as far as both are known.
pub open spec fn no_later(a: Option<Moment>, b: Option<Moment>) -> bool {
    match (a, b) {
        (Some(x), Some(y)) => !y.earlier(x),
        (Some(_), None) => false,
        (None, _) => true,
    }
}

/// The newest transition of the scheduler never goes back in time, whatever is told or switched
/// off.
pub proof fn scheduler_time_never_goes_back(
    s: StateView,
    event: Event,
    times: EventTimes,
    now: Moment,
    scope: EventDeliveryScope,
    timed: bool,
    at: Option<Moment>,
)
    ensures
        no_later(s.scheduler_wait_latest_at, s.applied(event, times, now).scheduler_wait_latest_at),
        no_later(s.scheduler_wait_latest_at, s.revoked(scope, timed, at).scheduler_wait_latest_at),
{
}

/// A wait that was switched off is not brought back by an announcement that is older.
pub proof fn hidden_waits_stay_hidden(
    s: StateView,
    hidden_at: Moment,
    event: Event,
    times: EventTimes,
    now: Moment,
)
    requires
        event.kind() == EventKind::TsWaitstart,
        times.occurred() matches Some(at) ==> at.earlier(hidden_at),
    ensures
        ({
            let hidden = s.wait_hidden(Some(hidden_at));
            hidden.scheduler_wait is None && hidden.applied(event, times, now) == hidden
        }),
{
}

/// An alert of high wind outlasts the weather station's connection: only readings that say so, or
/// switching alerts off, end it.
pub proof fn high_wind_outlasts_reconnection(
    s: StateView,
    event: Event,
    times: EventTimes,
    now: Moment,
)
    requires
        s.weather_high_wind == Some(true),
        event.kind() != EventKind::WeatherHighWind,
    ensures
        s.applied(event, times, now).weather_high_wind == Some(true),
        s.applied(event, times, now).weather_high_wind_conditions
            == s.weather_high_wind_conditions,
        s.applied(event, times, now).weather_high_wind_threshold_meters_per_second
            == s.weather_high_wind_threshold_meters_per_second,
{
}

/// A recovery from high wind does not outlast the weather station's connection.
pub proof fn recoveries_end_with_the_connection(
    s: StateView,
    event: Event,
    times: EventTimes,
    now: Moment,
)
    requires
        s.weather_high_wind != Some(true),
        event.kind() == EventKind::WeatherConnected || event.kind()
            == EventKind::WeatherDisconnected,
    ensures
        s.applied(event, times, now).weather_high_wind is None,
        s.applied(event, times, now).weather_high_wind_conditions is None,
        s.applied(event, times, now).weather_conditions is None,
{
}

/// Starts of motions, flips and dithers pass by: they leave the state as it is.
pub proof fn brief_activity_leaves_the_state(
    s: StateView,
    event: Event,
    times: EventTimes,
    now: Moment,
)
    requires
        event.kind() == EventKind::MountSlewStarted || event.kind() == EventKind::MountBeforeFlip
            || event.kind() == EventKind::MountAfterFlip || event.kind()
            == EventKind::GuiderDither || event.kind() == EventKind::RotatorMoveStarted,
    ensures
        s.applied(event, times, now) == (StateView { last_status_fingerprint: None, ..s }),
{
}

/// The dome is not both parked and at home.
pub open spec fn dome_is_consistent(s: StateView) -> bool {
    !(s.dome_parked == Some(true) && s.dome_homed == Some(true))
}

/// The dome is never both parked and at home, whatever is told or switched off.
pub proof fn the_dome_stays_consistent(
    s: StateView,
    event: Event,
    times: EventTimes,
    now: Moment,
    scope: EventDeliveryScope,
    timed: bool,
    at: Option<Moment>,
)
    requires
        dome_is_consistent(s),
    ensures
        dome_is_consistent(s.applied(event, times, now)),
        dome_is_consistent(s.revoked(scope, timed, at)),
        dome_is_consistent(StateView::nothing()),
{
}

/// Switching off a delivery scope leaves alone what came through the others.
pub proof fn revocation_spares_other_scopes(
    s: StateView,
    scope: EventDeliveryScope,
    timed: bool,
    at: Option<Moment>,
)
    ensures
        ({
            let r = s.revoked(scope, timed, at);
            &&& scope != EventDeliveryScope::TargetScheduler ==> r.current_target
                == s.current_target && r.scheduler_wait == s.scheduler_wait
            &&& scope != EventDeliveryScope::FilterFocuserRotator ==> r.last_filter
                == s.last_filter
            &&& scope != EventDeliveryScope::Mount ==> r.last_mount_event == s.last_mount_event
                && r.meridian_flip_time == s.meridian_flip_time && r.board.center
                == s.board.center
            &&& scope != EventDeliveryScope::Guiding ==> r.last_guider_event
                == s.last_guider_event
            &&& scope != EventDeliveryScope::Sequence ==> r.sequence_running
                == s.sequence_running && r.sequence_failure == s.sequence_failure
                && r.sequence_outcome == s.sequence_outcome && r.sequence_container_counts
                == s.sequence_container_counts
            &&& scope != EventDeliveryScope::Safety ==> r.safety_state == s.safety_state
            &&& scope != EventDeliveryScope::WeatherChanges ==> r.weather_conditions
                == s.weather_conditions
            &&& scope != EventDeliveryScope::HighWindAlerts ==> r.weather_high_wind
                == s.weather_high_wind
            &&& scope != EventDeliveryScope::Images ==> r.last_image_time == s.last_image_time
                && r.skipped_images_count == s.skipped_images_count
            &&& scope != EventDeliveryScope::Observatory ==> r.dome_shutter_open
                == s.dome_shutter_open && r.dome_azimuth == s.dome_azimuth && r.dome_parked
                == s.dome_parked && r.dome_homed == s.dome_homed && r.flat_cover_state
                == s.flat_cover_state && r.flat_light_on == s.flat_light_on && r.flat_brightness
                == s.flat_brightness
            &&& scope != EventDeliveryScope::EquipmentConnections ==> r.dome_connected
                == s.dome_connected && r.flat_connected == s.flat_connected && r.weather_connected
                == s.weather_connected && r.switch_connected == s.switch_connected
            &&& r.events_seen == s.events_seen && r.images_seen == s.images_seen
                && r.disabled_event_tombstones == s.disabled_event_tombstones
            &&& r.board.outputs == s.board.outputs
        }),
{
}

/// Switching off a delivery scope leaves nothing that came through it.
pub proof fn revocation_leaves_nothing(
    s: StateView,
    timed: bool,
    at: Option<Moment>,
)
    ensures
        s.revoked(EventDeliveryScope::TargetScheduler, timed, at).current_target is None,
        s.revoked(EventDeliveryScope::TargetScheduler, timed, at).scheduler_wait is None,
        s.revoked(EventDeliveryScope::FilterFocuserRotator, timed, at).last_filter is None,
        s.revoked(EventDeliveryScope::Mount, timed, at).last_mount_event is None,
        s.revoked(EventDeliveryScope::Guiding, timed, at).last_guider_event is None,
        s.revoked(EventDeliveryScope::Sequence, timed, at).sequence_failure is None,
        s.revoked(EventDeliveryScope::Sequence, timed, at).sequence_outcome is None,
        s.revoked(EventDeliveryScope::Safety, timed, at).safety_state == SafetyState::Unknown,
        s.revoked(EventDeliveryScope::WeatherChanges, timed, at).weather_conditions is None,
        s.revoked(EventDeliveryScope::HighWindAlerts, timed, at).weather_high_wind is None,
        forall|i: int|
            0 <= i < s.revoked(EventDeliveryScope::Mount, timed, at).board.running.len()
                ==> !crate::updater_state::about_mount(
                (#[trigger] s.revoked(
                    EventDeliveryScope::Mount,
                    timed,
                    at,
                ).board.running[i]).operation.kind,
            ),
        forall|i: int|
            0 <= i < s.revoked(EventDeliveryScope::Sequence, timed, at).board.running.len()
                ==> crate::updater_state::about_mount(
                (#[trigger] s.revoked(
                    EventDeliveryScope::Sequence,
                    timed,
                    at,
                ).board.running[i]).operation.kind,
            ),
{
    lemma_retained(s.board.running, Retention::NotMount);
    lemma_retained(s.board.running, Retention::OnlyMount);
}

proof fn lemma_retained(running: Seq<TrackedSequenceOperation>, rule: Retention)
    ensures
        forall|i: int|
            0 <= i < retained(running, rule).len() ==> crate::updater_state::keeps(
                rule,
                (#[trigger] retained(running, rule)[i]).operation.kind,
            ),
    decreases running.len(),
{
    if running.len() > 0 {
        lemma_retained(running.drop_last(), rule);
    }
}

/// The state after `n` failed cycles.
pub open spec fn after_failures(s: StateView, n: nat) -> StateView
    decreases n,
{
    if n == 0 {
        s
    } else {
        reached(after_failures(s, (n - 1) as nat), false)
    }
}

/// A connected telescope counts as connected until several cycles have failed in a row, and as
/// offline from then on; one successful cycle brings it back.
pub proof fn offline_needs_failures_in_a_row(s: StateView, n: nat)
    requires
        s.connected,
        s.consecutive_failures == 0,
        n < u32::MAX,
    ensures
        after_failures(s, n).connected == (n < OFFLINE_FAILURE_THRESHOLD),
        after_failures(s, n).consecutive_failures == n,
        reached(after_failures(s, n), true).connected,
        reached(after_failures(s, n), true).consecutive_failures == 0,
    decreases n,
{
    if n > 0 {
        offline_needs_failures_in_a_row(s, (n - 1) as nat);
    }
}

/// The status shows no operation that is not delivered.
pub proof fn the_status_shows_delivered_operations_only(running: Seq<TrackedSequenceOperation>)
    ensures
        forall|i: int|
            0 <= i < shown_operations(running).len() ==> (#[trigger] shown_operations(
                running,
            )[i]).operation.chat_enabled,
    decreases running.len(),
{
    if running.len() > 0 {
        the_status_shows_delivered_operations_only(running.drop_last());
        if running.last().operation.chat_enabled {
            lemma_placed_enabled(shown_operations(running.drop_last()), running.last());
        }
    }
}

proof fn lemma_placed_enabled(list: Seq<TrackedSequenceOperation>, t: TrackedSequenceOperation)
    requires
        t.operation.chat_enabled,
        forall|i: int| 0 <= i < list.len() ==> (#[trigger] list[i]).operation.chat_enabled,
    ensures
        forall|i: int|
            0 <= i < placed_operation(list, t).len() ==> (#[trigger] placed_operation(
                list,
                t,
            )[i]).operation.chat_enabled,
    decreases list.len(),
{
    if list.len() > 0 {
        let front = list.drop_last();
        assert forall|i: int| 0 <= i < front.len() implies (#[trigger] front[i]).operation.chat_enabled by {
            assert(front[i] == list[i]);
        }
        assert(list.last() == list[list.len() - 1]);
        lemma_placed_enabled(front, t);
        let all = placed_operation(list, t);
        assert forall|i: int| 0 <= i < all.len() implies (#[trigger] all[i]).operation.chat_enabled by {
            if crate::text::precedes(t.operation.key@, list.last().operation.key@) {
                let rest = placed_operation(front, t);
                if i < rest.len() {
                    assert(all[i] == rest[i]);
                }
            } else if i < list.len() {
                assert(all[i] == list[i]);
            }
        }
    }
}

/// Of several completed autofocus runs only the newest one waits for its report.
pub proof fn newer_runs_supersede_older_ones(
    u: UpdaterView,
    item: PreparedEvent,
    now: Moment,
    tick: Tick,
    retry: AutofocusRetryPolicy,
)
    requires
        item.event.kind() == EventKind::AutofocusFinished,
        !(item.event.details matches Some(EventDetails::WeatherHighWind { .. })),
    ensures
        handled(u, item, now, tick, retry).0.pending == Some(
            crate::autofocus_delivery::PendingAutofocusDelivery::queued(item.event, tick, retry),
        ),
{
}

/// That a command failed is told of at its first sighting, whatever has been told and switched
/// off before.
pub proof fn command_failures_are_always_told(
    u: UpdaterView,
    items: Seq<PreparedEvent>,
    i: int,
    now: Moment,
    tick: Tick,
    retry: AutofocusRetryPolicy,
)
    requires
        0 <= i < items.len(),
        items[i].event.kind() == EventKind::ChatstronomyCommandFailed,
        items[i].event.chat_enabled,
        items[i].event.details matches Some(d) ==> d is CommandFailed || d is Unknown,
        !is_hidden(items, i),
        !u.state.events_seen.contains(event_name(items[i].key)),
    ensures
        live_step(u, items, i, now, tick, retry).1 == Notice::Generic,
{
}

/// An image that stands before a switched-off one changes nothing, and nothing is told of it.
pub proof fn hidden_images_change_nothing(
    u: UpdaterView,
    images: Seq<ImageMetadata>,
    i: int,
    key: u64,
    services: nat,
    cooldown: Duration,
    tick: Tick,
)
    requires
        0 <= i < images.len(),
        image_hidden(images, i),
    ensures
        image_step(u, images, i, key, services, cooldown, tick) == (u, ImageNotice::Silent),
{
}

/// An image is remembered from its first sighting on, and in every state that still remembers it,
/// nothing is told of it and nothing but the order of sightings changes.
pub proof fn images_are_told_of_once(
    u: UpdaterView,
    images: Seq<ImageMetadata>,
    i: int,
    key: u64,
    services: nat,
    cooldown: Duration,
    tick: Tick,
    later: UpdaterView,
)
    requires
        0 <= i < images.len(),
    ensures
        !image_hidden(images, i) ==> image_step(
            u,
            images,
            i,
            key,
            services,
            cooldown,
            tick,
        ).0.state.images_seen.contains(image_name(key)),
        later.state.images_seen.contains(image_name(key)) ==> ({
            let (after, notice) = image_step(later, images, i, key, services, cooldown, tick);
            notice == ImageNotice::Silent && same_but_memory(after, later)
        }),
{
    a_sighted_key_is_known(u.state.images_seen, image_name(key), SEEN_SET_CAPACITY as nat);
}

/// An image of a page is received and, where it is told of, the message goes out.
pub open spec fn image_round(
    u: UpdaterView,
    images: Seq<ImageMetadata>,
    i: int,
    key: u64,
    services: nat,
    cooldown: Duration,
    received: Tick,
    sent: Tick,
) -> UpdaterView {
    let (after, notice) = image_step(u, images, i, key, services, cooldown, received);
    if notice is Post {
        image_told(after, sent)
    } else {
        after
    }
}

/// The updater after the first `n` images of a page, each with its key and with the times at which
/// it was received and the message about it was sent.
pub open spec fn image_rounds(
    u: UpdaterView,
    images: Seq<ImageMetadata>,
    n: int,
    keys: Seq<u64>,
    services: nat,
    cooldown: Duration,
    times: Seq<(Tick, Tick)>,
) -> UpdaterView
    decreases n,
{
    if n <= 0 {
        u
    } else {
        image_round(
            image_rounds(u, images, n - 1, keys, services, cooldown, times),
            images,
            n - 1,
            keys[n - 1],
            services,
            cooldown,
            times[n - 1].0,
            times[n - 1].1,
        )
    }
}

/// A page of images that the memory can hold and that is received a second time is silent, and
/// nothing but the order of sightings changes.
pub proof fn images_received_again_are_silent(
    u: UpdaterView,
    images: Seq<ImageMetadata>,
    n: int,
    keys: Seq<u64>,
    services: nat,
    cooldown: Duration,
    times: Seq<(Tick, Tick)>,
    later: Seq<(Tick, Tick)>,
)
    requires
        images.len() <= SEEN_SET_CAPACITY,
        keys.len() == images.len(),
        0 <= n <= images.len(),
    ensures
        ({
            let first = image_rounds(
                u,
                images,
                images.len() as int,
                keys,
                services,
                cooldown,
                times,
            );
            let again = image_rounds(first, images, n, keys, services, cooldown, later);
            &&& same_but_memory(again, first)
            &&& n < images.len() ==> image_step(
                again,
                images,
                n,
                keys[n],
                services,
                cooldown,
                later[n].0,
            ).1 == ImageNotice::Silent
        }),
{
    let len = images.len() as int;
    let first = image_rounds(u, images, len, keys, services, cooldown, times);
    assert forall|i: int| 0 <= i < len && !image_hidden(images, i) implies among_latest(
        first.state.images_seen,
        image_name(#[trigger] keys[i]),
        (len - i) as nat,
    ) by {
        lemma_images_are_known(u, images, i, len, keys, services, cooldown, times);
    }
    lemma_second_images(first, images, n, keys, services, cooldown, later);
    if n < len && !image_hidden(images, n) {
        let again = image_rounds(first, images, n, keys, services, cooldown, later);
        lemma_latest_contains(again.state.images_seen, image_name(keys[n]), len as nat);
    }
}

proof fn lemma_images_are_known(
    u: UpdaterView,
    images: Seq<ImageMetadata>,
    i: int,
    n: int,
    keys: Seq<u64>,
    services: nat,
    cooldown: Duration,
    times: Seq<(Tick, Tick)>,
)
    requires
        0 <= i < n <= images.len() <= SEEN_SET_CAPACITY,
        !image_hidden(images, i),
    ensures
        among_latest(
            image_rounds(u, images, n, keys, services, cooldown, times).state.images_seen,
            image_name(keys[i]),
            (n - i) as nat,
        ),
    decreases n,
{
    let capacity = SEEN_SET_CAPACITY as nat;
    let before = image_rounds(
        u,
        images,
        n - 1,
        keys,
        services,
        cooldown,
        times,
    ).state.images_seen;
    let after = image_rounds(u, images, n, keys, services, cooldown, times).state.images_seen;
    let name = image_name(keys[i]);
    if i == n - 1 {
        a_sighted_key_is_known(before, name, capacity);
        assert(after[after.len() - 1] == name);
    } else {
        lemma_images_are_known(u, images, i, n - 1, keys, services, cooldown, times);
        lemma_sighting_recalls(before, after, image_name(keys[n - 1]), name, (n - 1 - i) as nat);
    }
}

proof fn lemma_sighting_recalls(
    before: Seq<Seq<char>>,
    after: Seq<Seq<char>>,
    key: Seq<char>,
    name: Seq<char>,
    k: nat,
)
    requires
        among_latest(before, name, k),
        k < SEEN_SET_CAPACITY,
        after == before || after == after_sighting(before, key, SEEN_SET_CAPACITY as nat),
    ensures
        among_latest(after, name, k + 1),
{
    a_sighting_keeps_the_latest(before, key, SEEN_SET_CAPACITY as nat, name, k);
    let at = choose|at: int|
        0 <= at < before.len() && #[trigger] before[at] == name && before.len() - at <= k;
    assert(before[at] == name && before.len() - at <= k + 1);
}

proof fn lemma_second_images(
    first: UpdaterView,
    images: Seq<ImageMetadata>,
    n: int,
    keys: Seq<u64>,
    services: nat,
    cooldown: Duration,
    times: Seq<(Tick, Tick)>,
)
    requires
        0 <= n <= images.len() <= SEEN_SET_CAPACITY,
        forall|i: int|
            0 <= i < images.len() && !image_hidden(images, i) ==> among_latest(
                first.state.images_seen,
                image_name(#[trigger] keys[i]),
                (images.len() - i) as nat,
            ),
    ensures
        same_but_memory(image_rounds(first, images, n, keys, services, cooldown, times), first),
        forall|i: int|
            n <= i < images.len() && !image_hidden(images, i) ==> among_latest(
                image_rounds(
                    first,
                    images,
                    n,
                    keys,
                    services,
                    cooldown,
                    times,
                ).state.images_seen,
                image_name(#[trigger] keys[i]),
                (images.len() - i + n) as nat,
            ),
    decreases n,
{
    if n > 0 {
        lemma_second_images(first, images, n - 1, keys, services, cooldown, times);
        let before = image_rounds(first, images, n - 1, keys, services, cooldown, times);
        let after = image_rounds(first, images, n, keys, services, cooldown, times);
        if !image_hidden(images, n - 1) {
            lemma_latest_contains(
                before.state.images_seen,
                image_name(keys[n - 1]),
                images.len(),
            );
        }
        assert forall|i: int|
            n <= i < images.len() && !image_hidden(images, i) implies among_latest(
            after.state.images_seen,
            image_name(#[trigger] keys[i]),
            (images.len() - i + n) as nat,
        ) by {
            lemma_sighting_recalls(
                before.state.images_seen,
                after.state.images_seen,
                image_name(keys[n - 1]),
                image_name(keys[i]),
                (images.len() - i + n - 1) as nat,
            );
        }
    }
}

/// After an image was told of, and while images are not switched off, none is told of until the
/// cooldown is over; those in between are counted, and the next one that is told of says how many
/// they were. Telling of it starts the cooldown and the count anew.
pub proof fn images_keep_the_cooldown(
    u: UpdaterView,
    images: Seq<ImageMetadata>,
    i: int,
    key: u64,
    services: nat,
    cooldown: Duration,
    posted: Tick,
    received: Tick,
    sent: Tick,
)
    requires
        0 <= i < images.len(),
        images[i].chat_enabled,
        u.state.last_image_time == Some(posted),
        u.state.skipped_images_count < u32::MAX,
    ensures
        ({
            let notice = image_step(u, images, i, key, services, cooldown, received).1;
            let after = image_round(u, images, i, key, services, cooldown, received, sent).state;
            match notice {
                ImageNotice::Post { skipped } => {
                    &&& received.since_spec(posted).nanos >= cooldown.nanos
                    &&& skipped == u.state.skipped_images_count
                    &&& after.last_image_time == Some(sent)
                    &&& after.skipped_images_count == 0
                },
                ImageNotice::Skip { remaining } => {
                    &&& received.since_spec(posted).nanos + remaining.nanos == cooldown.nanos
                    &&& remaining.nanos > 0
                    &&& after.last_image_time == Some(posted)
                    &&& after.skipped_images_count == u.state.skipped_images_count + 1
                },
                _ => {
                    &&& after.last_image_time == Some(posted)
                    &&& after.skipped_images_count == u.state.skipped_images_count
                },
            }
        }),
{
}

/// A status that was just posted is not due again at the same time.
pub proof fn a_posted_status_is_not_due(s: StateView, now: Moment)
    ensures
        ({
            let expired = target_expired(s, now);
            let posted = StateView {
                last_status_fingerprint: Some(fingerprint(expired, now)),
                ..expired
            };
            target_expired(posted, now) == posted && fingerprint(posted, now) == fingerprint(
                expired,
                now,
            )
        }),
{
    let expired = target_expired(s, now);
    let posted = StateView {
        last_status_fingerprint: Some(fingerprint(expired, now)),
        ..expired
    };
    assert(marks(posted, now) =~= marks(expired, now));
}

} // verus!
