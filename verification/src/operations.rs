//! Follows the operations of the sequence from snapshot to snapshot.

use std::collections::hash_map::RandomState;
use std::hash::BuildHasher;
use vstd::prelude::*;
use crate::calendar::{elapsed_nanos, since, Moment};
use crate::double::Double;
use crate::seen_set::{after_sighting, BoundedSeenSet};
use crate::sequence::{
    ambiguous, camera_temperature, class_of, completed_milestone, copy_camera, has_calendar_times,
    is_timely_while_running, kind_wf, known_temperature, operation_plate_solve_output, output_of,
    promote_ambiguous_slew_to_center, promoted, reached_milestone, reckonable, thermal,
    timely_while_running, wait_end, CameraInfo, PlateSolveOutput, SequenceOperation,
    SequenceOperationKind, TrackedSequenceOperation,
};
use crate::text::{cat2, hex, hexadecimal, same, views};

verus! {

/// What has happened to an operation.
#[derive(Clone, Copy, Debug, PartialEq, Eq, Structural)]
pub enum OperationUpdate {
    Started,
    Progress(u8),
    Output,
    Finished { attach_output: bool },
    Ended { attach_output: bool },
    Failed { attach_output: bool },
}

/// An operation of a snapshot with the identity of its plate-solve result.
#[derive(Debug)]
pub struct Incoming {
    pub operation: SequenceOperation,
    pub output_key: Option<u64>,
}

/// What there is to tell of an operation.
#[derive(Debug)]
pub struct OperationNote {
    pub running: TrackedSequenceOperation,
    pub update: OperationUpdate,
}

/// What tells one plate-solve result from another: when it was solved, whether it succeeded, its
/// angle and its separation by their bits, and the size of its picture.
pub struct OutputIdentity<'a> {
    pub solve_time: &'a Option<String>,
    pub success: Option<bool>,
    pub position_angle: Option<u64>,
    pub separation_arcseconds: Option<u64>,
    pub picture_len: Option<usize>,
}

/// The bits of a number that may be missing.
pub open spec fn opt_bits(value: Option<Double>) -> Option<u64> {
    match value {
        Some(v) => Some(v.bits),
        None => None,
    }
}

fn bits_of(value: Option<Double>) -> (r: Option<u64>)
    ensures
        r == opt_bits(value),
{
    match value {
        Some(v) => Some(v.bits),
        None => None,
    }
}

/// The identity of a plate-solve result.
pub fn output_identity(output: &PlateSolveOutput) -> (r: OutputIdentity<'_>)
    ensures
        *r.solve_time == output.solve_time,
        r.success == output.success,
        r.position_angle == opt_bits(output.position_angle),
        r.separation_arcseconds == opt_bits(output.separation_arcseconds),
        r.picture_len is Some <==> output.thumbnail is Some,
        output.thumbnail is Some ==> r.picture_len->0 == output.thumbnail->0@.len(),
{
    let picture_len: Option<usize> = match &output.thumbnail {
        Some(picture) => Some(picture.len()),
        None => None,
    };
    OutputIdentity {
        solve_time: &output.solve_time,
        success: output.success,
        position_angle: bits_of(output.position_angle),
        separation_arcseconds: bits_of(output.separation_arcseconds),
        picture_len,
    }
}

/// `RandomState::hash_one` of the identity of a plate-solve result. Nothing is known of the number:
/// the hasher's keys differ from run to run.
#[verifier::external_body]
fn hash_output(hasher: &RandomState, identity: &OutputIdentity<'_>) -> (r: u64) {
    hasher.hash_one((
        identity.solve_time,
        identity.success,
        identity.position_angle,
        identity.separation_arcseconds,
        identity.picture_len,
    ))
}

/// The hash of the identity of an operation's plate-solve result, where it has one.
pub fn plate_solve_output_key(hasher: &RandomState, operation: &SequenceOperation) -> (r: Option<
    u64,
>)
    ensures
        r is Some <==> output_of(operation.kind) is Some,
{
    match operation_plate_solve_output(&operation.kind) {
        Some(output) => {
            let identity = output_identity(output);
            Some(hash_output(hasher, &identity))
        },
        None => None,
    }
}

/// The key under which a plate-solve result is remembered.
pub open spec fn output_name(key: u64) -> Seq<char> {
    "p:"@ + hex(key as nat, 16)
}

pub fn output_key_name(key: u64) -> (r: String)
    ensures
        r@ == output_name(key),
{
    cat2("p:", hexadecimal(key, 16).as_str())
}

/// The result is claimed: it is to be told of, and it has not been claimed before.
pub open spec fn claims(seen: Seq<Seq<char>>, chat_enabled: bool, key: Option<u64>) -> bool {
    chat_enabled && key is Some && !seen.contains(output_name(key->0))
}

/// The claimed results after a claim. An operation that is not delivered claims nothing.
pub open spec fn after_claim(
    seen: Seq<Seq<char>>,
    limit: nat,
    chat_enabled: bool,
    key: Option<u64>,
) -> Seq<Seq<char>> {
    if chat_enabled && key is Some {
        after_sighting(seen, output_name(key->0), limit)
    } else {
        seen
    }
}

/// Claims a plate-solve result for delivery and tells whether it was not claimed before. What is
/// not delivered claims nothing, so that it can still be told of once delivery is on.
pub fn claim_plate_solve_output(
    seen: &mut BoundedSeenSet,
    chat_enabled: bool,
    key: Option<u64>,
) -> (r: bool)
    requires
        old(seen).wf(),
    ensures
        final(seen).wf(),
        final(seen).limit() == old(seen).limit(),
        r == claims(old(seen).keys(), chat_enabled, key),
        final(seen).keys() == after_claim(old(seen).keys(), old(seen).limit(), chat_enabled, key),
{
    if !chat_enabled {
        return false;
    }
    match key {
        Some(k) => {
            !seen.check_and_insert(output_key_name(k))
        },
        None => false,
    }
}

/// The operation under a key.
pub open spec fn running_at(running: Seq<TrackedSequenceOperation>, key: Seq<char>) -> Option<
    TrackedSequenceOperation,
>
    decreases running.len(),
{
    if running.len() == 0 {
        None
    } else if running[0].operation.key@ == key {
        Some(running[0])
    } else {
        running_at(running.subrange(1, running.len() as int), key)
    }
}

/// The snapshot's operation under a key.
pub open spec fn incoming_at(incoming: Seq<Incoming>, key: Seq<char>) -> Option<Incoming>
    decreases incoming.len(),
{
    if incoming.len() == 0 {
        None
    } else if incoming[0].operation.key@ == key {
        Some(incoming[0])
    } else {
        incoming_at(incoming.subrange(1, incoming.len() as int), key)
    }
}

/// An operation that is known to be a centering stays one, though the snapshot may not tell.
pub open spec fn recognized(
    item: Incoming,
    running: Seq<TrackedSequenceOperation>,
) -> Incoming {
    match running_at(running, item.operation.key@) {
        Some(t) => if t.operation.kind is MountCenter {
            promoted_item(item)
        } else {
            item
        },
        None => item,
    }
}

pub open spec fn promoted_item(item: Incoming) -> Incoming {
    Incoming {
        operation: SequenceOperation { kind: promoted(item.operation.kind), ..item.operation },
        ..item
    }
}

pub open spec fn promoted_running(t: TrackedSequenceOperation) -> TrackedSequenceOperation {
    TrackedSequenceOperation {
        operation: SequenceOperation { kind: promoted(t.operation.kind), ..t.operation },
        ..t
    }
}

/// The list with one more operation; it takes the place of one with the same key.
pub open spec fn put(list: Seq<Incoming>, item: Incoming) -> Seq<Incoming>
    decreases list.len(),
{
    if list.len() == 0 {
        list.push(item)
    } else if list.last().operation.key@ == item.operation.key@ {
        list.drop_last().push(item)
    } else {
        put(list.drop_last(), item).push(list.last())
    }
}

/// The operations of a snapshot that may be told of: those that the snapshot does not suppress,
/// one for each key.
pub open spec fn admitted(
    items: Seq<Incoming>,
    suppressed: Seq<Seq<char>>,
    running: Seq<TrackedSequenceOperation>,
) -> Seq<Incoming>
    decreases items.len(),
{
    if items.len() == 0 {
        items
    } else {
        let before = admitted(items.drop_last(), suppressed, running);
        if suppressed.contains(items.last().operation.key@) {
            before
        } else {
            put(before, recognized(items.last(), running))
        }
    }
}

/// The operation is, or may be, a centering that is under way.
pub open spec fn is_running_center(item: Incoming) -> bool {
    item.operation.active() && (item.operation.kind is MountCenter || ambiguous(
        item.operation.kind,
    ))
}

/// The first running centering at or behind a position; the list's length where there is none.
pub open spec fn center_place(items: Seq<Incoming>, from: int) -> int
    decreases items.len() - from,
{
    if from >= items.len() {
        items.len() as int
    } else if is_running_center(items[from]) {
        from
    } else {
        center_place(items, from + 1)
    }
}

/// The operations under way with the one under a key taken as a centering.
pub open spec fn with_center(
    running: Seq<TrackedSequenceOperation>,
    key: Seq<char>,
) -> Seq<TrackedSequenceOperation> {
    running.map_values(
        |t: TrackedSequenceOperation|
            if t.operation.key@ == key {
                promoted_running(t)
            } else {
                t
            },
    )
}

/// What following one operation leads to.
pub struct Followed {
    /// The operation, while it is under way.
    pub kept: Option<TrackedSequenceOperation>,
    pub notes: Seq<OperationNote>,
    pub outputs: Seq<Seq<char>>,
}

/// The operation with the camera as it is now, where the operation heats or cools it.
pub open spec fn with_camera(
    t: TrackedSequenceOperation,
    camera: Option<CameraInfo>,
) -> TrackedSequenceOperation {
    if thermal(t.operation.kind) {
        TrackedSequenceOperation { camera, ..t }
    } else {
        t
    }
}

/// The operation as the snapshot shows it, with the camera or the end of the wait brought up to
/// date.
pub open spec fn refreshed(
    t: TrackedSequenceOperation,
    next: SequenceOperation,
    camera: Option<CameraInfo>,
) -> TrackedSequenceOperation {
    if thermal(next.kind) {
        TrackedSequenceOperation {
            operation: next,
            initial_temperature: if t.initial_temperature is None {
                known_temperature(camera)
            } else {
                t.initial_temperature
            },
            camera,
            ..t
        }
    } else if next.kind is TimeWait {
        TrackedSequenceOperation {
            operation: next,
            estimated_end: wait_end(next.kind, t.started_at),
            ..t
        }
    } else {
        TrackedSequenceOperation { operation: next, ..t }
    }
}

/// How an operation that no longer runs has come to its end.
pub open spec fn ending(next: SequenceOperation, attach_output: bool) -> OperationUpdate {
    if next.failed() {
        OperationUpdate::Failed { attach_output }
    } else if next.finished() {
        OperationUpdate::Finished { attach_output }
    } else {
        OperationUpdate::Ended { attach_output }
    }
}

/// Another operation stands in the place of this one.
pub open spec fn replaced(t: TrackedSequenceOperation, next: SequenceOperation) -> bool {
    t.operation.name@ != next.name@ || class_of(t.operation.kind) != class_of(next.kind)
}

/// Follows an operation to what the snapshot shows under its key.
pub open spec fn followed(
    t: TrackedSequenceOperation,
    next: Option<Incoming>,
    suppressed: bool,
    camera: Option<CameraInfo>,
    now: Moment,
    outputs: Seq<Seq<char>>,
    limit: nat,
) -> Followed {
    let none = Seq::<OperationNote>::empty();
    if suppressed {
        Followed { kept: None, notes: none, outputs }
    } else if next is None || replaced(t, next->0.operation) {
        Followed {
            kept: None,
            notes: none.push(
                OperationNote {
                    running: with_camera(t, camera),
                    update: OperationUpdate::Ended { attach_output: false },
                },
            ),
            outputs,
        }
    } else {
        let item = next->0;
        if !item.operation.active() {
            let attach = claims(outputs, item.operation.chat_enabled, item.output_key);
            Followed {
                kept: None,
                notes: none.push(
                    OperationNote {
                        running: TrackedSequenceOperation {
                            operation: item.operation,
                            last_output_key: item.output_key,
                            ..with_camera(t, camera)
                        },
                        update: ending(item.operation, attach),
                    },
                ),
                outputs: after_claim(
                    outputs,
                    limit,
                    item.operation.chat_enabled,
                    item.output_key,
                ),
            }
        } else {
            let fresh = refreshed(t, item.operation, camera);
            let due = fresh.due_milestone(now);
            let told = match due {
                Some(milestone) => TrackedSequenceOperation { last_milestone: milestone, ..fresh },
                None => fresh,
            };
            let progress = match due {
                Some(milestone) => none.push(
                    OperationNote {
                        running: told,
                        update: OperationUpdate::Progress(milestone),
                    },
                ),
                None => none,
            };
            if item.output_key is Some && item.output_key != told.last_output_key {
                let shown = TrackedSequenceOperation { last_output_key: item.output_key, ..told };
                Followed {
                    kept: Some(shown),
                    notes: if claims(outputs, item.operation.chat_enabled, item.output_key) {
                        progress.push(
                            OperationNote { running: shown, update: OperationUpdate::Output },
                        )
                    } else {
                        progress
                    },
                    outputs: after_claim(
                        outputs,
                        limit,
                        item.operation.chat_enabled,
                        item.output_key,
                    ),
                }
            } else {
                Followed { kept: Some(told), notes: progress, outputs }
            }
        }
    }
}

/// All that is known of the sequence's operations.
pub struct BoardView {
    pub running: Seq<TrackedSequenceOperation>,
    pub outputs: Seq<Seq<char>>,
    pub limit: nat,
    pub center: Option<Moment>,
}

/// The board and what there is to tell.
pub struct Progressed {
    pub running: Seq<TrackedSequenceOperation>,
    pub notes: Seq<OperationNote>,
    pub outputs: Seq<Seq<char>>,
}

/// Follows all operations in order.
pub open spec fn followed_all(
    running: Seq<TrackedSequenceOperation>,
    incoming: Seq<Incoming>,
    suppressed: Seq<Seq<char>>,
    camera: Option<CameraInfo>,
    now: Moment,
    outputs: Seq<Seq<char>>,
    limit: nat,
) -> Progressed
    decreases running.len(),
{
    if running.len() == 0 {
        Progressed { running, notes: Seq::empty(), outputs }
    } else {
        let before = followed_all(
            running.drop_last(),
            incoming,
            suppressed,
            camera,
            now,
            outputs,
            limit,
        );
        let key = running.last().operation.key@;
        let step = followed(
            running.last(),
            incoming_at(incoming, key),
            suppressed.contains(key),
            camera,
            now,
            before.outputs,
            limit,
        );
        Progressed {
            running: match step.kept {
                Some(t) => before.running.push(t),
                None => before.running,
            },
            notes: before.notes + step.notes,
            outputs: step.outputs,
        }
    }
}

/// A running operation that was not followed before.
pub open spec fn begun(
    item: Incoming,
    camera: Option<CameraInfo>,
    now: Moment,
    announce: bool,
) -> TrackedSequenceOperation {
    let own_camera = if thermal(item.operation.kind) {
        camera
    } else {
        None
    };
    let fresh = TrackedSequenceOperation::begun(item.operation, now, own_camera);
    TrackedSequenceOperation {
        last_milestone: if announce {
            0
        } else {
            match fresh.percent(now) {
                Some(progress) => reached_milestone(progress),
                None => 0,
            }
        },
        last_output_key: item.output_key,
        ..fresh
    }
}

/// Starts to follow the running operations that were not followed before, in order. Where
/// nothing is announced, what has been reached counts as told.
pub open spec fn begun_all(
    s: Progressed,
    incoming: Seq<Incoming>,
    center: Option<Seq<char>>,
    camera: Option<CameraInfo>,
    now: Moment,
    announce: bool,
    limit: nat,
) -> Progressed
    decreases incoming.len(),
{
    if incoming.len() == 0 {
        s
    } else {
        let before = begun_all(s, incoming.drop_last(), center, camera, now, announce, limit);
        let item = incoming.last();
        if !item.operation.active() || running_at(before.running, item.operation.key@) is Some {
            before
        } else {
            let t = begun(item, camera, now, announce);
            let fresh = claims(before.outputs, item.operation.chat_enabled, item.output_key);
            let started = if announce && center != Some(item.operation.key@) {
                before.notes.push(OperationNote { running: t, update: OperationUpdate::Started })
            } else {
                before.notes
            };
            Progressed {
                running: before.running.push(t),
                notes: if announce && fresh {
                    started.push(OperationNote { running: t, update: OperationUpdate::Output })
                } else {
                    started
                },
                outputs: after_claim(
                    before.outputs,
                    limit,
                    item.operation.chat_enabled,
                    item.output_key,
                ),
            }
        }
    }
}

/// A sign of a centering counts for two minutes.
pub open spec fn fresh_center(center: Option<Moment>, now: Moment) -> Option<Moment> {
    match center {
        Some(seen) => if elapsed_nanos(seen, now) > 120_000_000_000 {
            None
        } else {
            Some(seen)
        },
        None => None,
    }
}

/// The notes of operations that are delivered.
pub open spec fn deliverable(notes: Seq<OperationNote>) -> Seq<OperationNote>
    decreases notes.len(),
{
    if notes.len() == 0 {
        notes
    } else if notes.last().running.operation.chat_enabled {
        deliverable(notes.drop_last()).push(notes.last())
    } else {
        deliverable(notes.drop_last())
    }
}

/// The board after a snapshot of the sequence, and what there is to tell.
pub open spec fn reconciled(
    board: BoardView,
    items: Seq<Incoming>,
    suppressed: Seq<Seq<char>>,
    camera: Option<CameraInfo>,
    now: Moment,
    announce: bool,
) -> (BoardView, Seq<OperationNote>) {
    let center = fresh_center(board.center, now);
    let incoming = admitted(items, suppressed, board.running);
    let place = if center is Some {
        center_place(incoming, 0)
    } else {
        incoming.len() as int
    };
    let found = place < incoming.len();
    let incoming2 = if found {
        incoming.update(place, promoted_item(incoming[place]))
    } else {
        incoming
    };
    let center_key = if found {
        Some(incoming[place].operation.key@)
    } else {
        None
    };
    let running2 = if found {
        with_center(board.running, incoming[place].operation.key@)
    } else {
        board.running
    };
    let first = followed_all(
        running2,
        incoming2,
        suppressed,
        camera,
        now,
        board.outputs,
        board.limit,
    );
    let second = begun_all(first, incoming2, center_key, camera, now, announce, board.limit);
    (
        BoardView {
            running: second.running,
            outputs: second.outputs,
            limit: board.limit,
            center: if found {
                None
            } else {
                center
            },
        },
        if announce {
            deliverable(second.notes)
        } else {
            Seq::empty()
        },
    )
}

/// No two operations are followed under the same key.
pub open spec fn keys_distinct(running: Seq<TrackedSequenceOperation>) -> bool {
    forall|i: int, j: int|
        #![trigger running[i], running[j]]
        0 <= i < j < running.len() ==> running[i].operation.key@ != running[j].operation.key@
}

/// The times of a snapshot's operation lie in the calendar when it starts at `start`: what it
/// names, and, where it is running and not suppressed, what is reckoned for it.
pub open spec fn fits(
    operation: SequenceOperation,
    suppressed: Seq<Seq<char>>,
    start: Moment,
) -> bool {
    &&& kind_wf(operation.kind)
    &&& !suppressed.contains(operation.key@) ==> timely_while_running(operation, start)
}

/// Whether the times of a snapshot's operation lie in the calendar when it starts at `start`.
pub fn operation_fits(
    operation: &SequenceOperation,
    suppressed: &Vec<String>,
    start: Moment,
) -> (r: bool)
    requires
        start.wf(),
    ensures
        r == fits(*operation, views(suppressed@), start),
{
    if contains_text(suppressed, operation.key.as_str()) {
        has_calendar_times(&operation.kind)
    } else {
        is_timely_while_running(operation, start)
    }
}

/// The operations of the sequence that are under way, and the plate-solve results told of.
pub struct SequenceBoard {
    pub running: Vec<TrackedSequenceOperation>,
    pub outputs_seen: BoundedSeenSet,
    /// When a centering was last heard of that no operation has been recognized by.
    pub center_event_seen_at: Option<Moment>,
}

impl SequenceBoard {
    pub open spec fn view(&self) -> BoardView {
        BoardView {
            running: self.running@,
            outputs: self.outputs_seen.keys(),
            limit: self.outputs_seen.limit(),
            center: self.center_event_seen_at,
        }
    }

    pub open spec fn wf(&self) -> bool {
        &&& self.outputs_seen.wf()
        &&& forall|i: int| 0 <= i < self.running@.len() ==> (#[trigger] self.running@[i]).wf()
        &&& self.center_event_seen_at matches Some(at) ==> at.wf()
        &&& keys_distinct(self.running@)
    }

    /// The snapshot's times lie in the calendar. Of operations that are running and not suppressed
    /// that holds of their reckoned end too: of those that start now, and of those that have been
    /// under way.
    pub open spec fn can_take(
        &self,
        items: Seq<Incoming>,
        suppressed: Seq<Seq<char>>,
        now: Moment,
    ) -> bool {
        &&& now.wf()
        &&& forall|i: int|
            0 <= i < items.len() ==> fits((#[trigger] items[i]).operation, suppressed, now)
        &&& forall|i: int, j: int|
            #![trigger items[i], self.running@[j]]
            0 <= i < items.len() && 0 <= j < self.running@.len() && items[i].operation.key@
                == self.running@[j].operation.key@ ==> fits(
                items[i].operation,
                suppressed,
                self.running@[j].started_at,
            )
    }

    pub fn new(capacity: usize) -> (r: Self)
        ensures
            r.wf(),
            r@.running.len() == 0,
            r@.outputs.len() == 0,
            r@.limit == (if capacity == 0 {
                1
            } else {
                capacity as nat
            }),
            r@.center is None,
    {
        SequenceBoard {
            running: Vec::new(),
            outputs_seen: BoundedSeenSet::new(capacity),
            center_event_seen_at: None,
        }
    }
}

fn find_running<'a>(running: &'a Vec<TrackedSequenceOperation>, key: &str) -> (r: Option<
    &'a TrackedSequenceOperation,
>)
    ensures
        match r {
            Some(t) => running_at(running@, key@) == Some(*t),
            None => running_at(running@, key@) is None,
        },
{
    let mut i: usize = 0;
    assert(running@.subrange(0, running@.len() as int) =~= running@);
    while i < running.len()
        invariant
            i <= running@.len(),
            running_at(running@.subrange(i as int, running@.len() as int), key@) == running_at(
                running@,
                key@,
            ),
        decreases running@.len() - i,
    {
        proof {
            let rest = running@.subrange(i as int, running@.len() as int);
            assert(rest.subrange(1, rest.len() as int) =~= running@.subrange(
                i + 1,
                running@.len() as int,
            ));
        }
        if same(running[i].operation.key.as_str(), key) {
            return Some(&running[i]);
        }
        i += 1;
    }
    None
}

fn find_incoming(incoming: &Vec<Incoming>, key: &str) -> (r: Option<usize>)
    ensures
        match r {
            Some(i) => i < incoming@.len() && incoming_at(incoming@, key@) == Some(
                incoming@[i as int],
            ) && incoming@[i as int].operation.key@ == key@,
            None => incoming_at(incoming@, key@) is None,
        },
{
    let mut i: usize = 0;
    assert(incoming@.subrange(0, incoming@.len() as int) =~= incoming@);
    while i < incoming.len()
        invariant
            i <= incoming@.len(),
            incoming_at(incoming@.subrange(i as int, incoming@.len() as int), key@) == incoming_at(
                incoming@,
                key@,
            ),
        decreases incoming@.len() - i,
    {
        proof {
            let rest = incoming@.subrange(i as int, incoming@.len() as int);
            assert(rest.subrange(1, rest.len() as int) =~= incoming@.subrange(
                i + 1,
                incoming@.len() as int,
            ));
        }
        if same(incoming[i].operation.key.as_str(), key) {
            return Some(i);
        }
        i += 1;
    }
    None
}

fn contains_text(list: &Vec<String>, text: &str) -> (r: bool)
    ensures
        r == views(list@).contains(text@),
{
    let mut i: usize = 0;
    while i < list.len()
        invariant
            i <= list@.len(),
            forall|j: int| 0 <= j < i ==> (#[trigger] views(list@)[j]) != text@,
        decreases list@.len() - i,
    {
        if same(list[i].as_str(), text) {
            assert(views(list@)[i as int] == text@);
            return true;
        }
        i += 1;
    }
    false
}

fn put_incoming(list: &mut Vec<Incoming>, item: Incoming)
    ensures
        final(list)@ == put(old(list)@, item),
    decreases old(list)@.len(),
{
    let n: usize = list.len();
    let ghost before = list@;
    if n == 0 {
        list.push(item);
        return;
    }
    match list.pop() {
        Some(last) => {
            assert(list@ =~= before.drop_last());
            if same(last.operation.key.as_str(), item.operation.key.as_str()) {
                list.push(item);
            } else {
                put_incoming(list, item);
                list.push(last);
            }
        },
        None => {
            list.push(item);
        },
    }
}

/// What is admitted comes from the snapshot, perhaps taken as a centering.
proof fn lemma_admitted(
    items: Seq<Incoming>,
    suppressed: Seq<Seq<char>>,
    running: Seq<TrackedSequenceOperation>,
)
    ensures
        forall|i: int|
            0 <= i < admitted(items, suppressed, running).len() ==> comes_from(
                #[trigger] admitted(items, suppressed, running)[i],
                items,
                suppressed,
            ),
    decreases items.len(),
{
    if items.len() > 0 {
        let front = items.drop_last();
        lemma_admitted(front, suppressed, running);
        let before = admitted(front, suppressed, running);
        assert forall|i: int| 0 <= i < before.len() implies comes_from(
            #[trigger] before[i],
            items,
            suppressed,
        ) by {
            let j = choose|j: int|
                0 <= j < front.len() && derived(before[i], #[trigger] front[j])
                    && !suppressed.contains(front[j].operation.key@);
            assert(items[j] == front[j]);
        }
        if !suppressed.contains(items.last().operation.key@) {
            let item = recognized(items.last(), running);
            assert(derived(item, items[items.len() - 1]));
            lemma_put(before, item, items, suppressed);
        }
    }
}

/// The item is one of the snapshot's, as it is or taken as a centering.
spec fn derived(item: Incoming, from: Incoming) -> bool {
    item == from || item == promoted_item(from)
}

spec fn comes_from(item: Incoming, items: Seq<Incoming>, suppressed: Seq<Seq<char>>) -> bool {
    exists|j: int|
        0 <= j < items.len() && derived(item, #[trigger] items[j]) && !suppressed.contains(
            items[j].operation.key@,
        )
}

proof fn lemma_put(
    list: Seq<Incoming>,
    item: Incoming,
    items: Seq<Incoming>,
    suppressed: Seq<Seq<char>>,
)
    requires
        forall|i: int| 0 <= i < list.len() ==> comes_from(#[trigger] list[i], items, suppressed),
        comes_from(item, items, suppressed),
    ensures
        forall|i: int|
            0 <= i < put(list, item).len() ==> comes_from(
                #[trigger] put(list, item)[i],
                items,
                suppressed,
            ),
    decreases list.len(),
{
    if list.len() > 0 {
        let front = list.drop_last();
        assert forall|i: int| 0 <= i < front.len() implies comes_from(
            #[trigger] front[i],
            items,
            suppressed,
        ) by {
            assert(front[i] == list[i]);
        }
        assert(list.last() == list[list.len() - 1]);
        assert(comes_from(list.last(), items, suppressed));
        lemma_put(front, item, items, suppressed);
        let all = put(list, item);
        assert forall|i: int| 0 <= i < all.len() implies comes_from(
            #[trigger] all[i],
            items,
            suppressed,
        ) by {
            if list.last().operation.key@ == item.operation.key@ {
                if i < front.len() {
                    assert(all[i] == front[i]);
                }
            } else {
                let rest = put(front, item);
                if i < rest.len() {
                    assert(all[i] == rest[i]);
                }
            }
        }
    }
}

/// A running centering found lies in the list.
proof fn lemma_center_place(items: Seq<Incoming>, from: int)
    requires
        0 <= from <= items.len(),
    ensures
        from <= center_place(items, from) <= items.len(),
        center_place(items, from) < items.len() ==> is_running_center(
            items[center_place(items, from)],
        ),
    decreases items.len() - from,
{
    if from < items.len() && !is_running_center(items[from]) {
        lemma_center_place(items, from + 1);
    }
}

fn find_center(incoming: &Vec<Incoming>) -> (r: usize)
    ensures
        r == center_place(incoming@, 0),
        r <= incoming@.len(),
{
    let mut i: usize = 0;
    while i < incoming.len()
        invariant
            i <= incoming@.len(),
            center_place(incoming@, 0) == center_place(incoming@, i as int),
        decreases incoming@.len() - i,
    {
        let op = &incoming[i].operation;
        if op.is_active() {
            match &op.kind {
                SequenceOperationKind::MountCenter { .. } => {
                    return i;
                },
                SequenceOperationKind::MountSlew { may_be_center, .. } => {
                    if *may_be_center {
                        return i;
                    }
                },
                _ => {},
            }
        }
        i += 1;
    }
    i
}

/// The times of the operations that there is something to tell of lie in the calendar.
pub open spec fn notes_wf(notes: Seq<OperationNote>) -> bool {
    forall|i: int| 0 <= i < notes.len() ==> (#[trigger] notes[i]).running.valid()
}

/// The times of the operations lie in the calendar that are running under a key that is followed.
spec fn all_timely(incoming: Seq<Incoming>, running: Seq<TrackedSequenceOperation>) -> bool {
    forall|i: int, j: int|
        #![trigger incoming[i], running[j]]
        0 <= i < incoming.len() && 0 <= j < running.len() && incoming[i].operation.key@
            == running[j].operation.key@ ==> timely_while_running(
            incoming[i].operation,
            running[j].started_at,
        )
}

spec fn under_one_of(t: TrackedSequenceOperation, running: Seq<TrackedSequenceOperation>) -> bool {
    exists|k: int|
        0 <= k < running.len() && (#[trigger] running[k]).operation.key@ == t.operation.key@
}

/// Follows one operation to what the snapshot shows under its key.
fn follow(
    t: TrackedSequenceOperation,
    next: Option<&Incoming>,
    suppressed: bool,
    camera: &Option<CameraInfo>,
    now: Moment,
    outputs: &mut BoundedSeenSet,
    notes: &mut Vec<OperationNote>,
) -> (r: Option<TrackedSequenceOperation>)
    requires
        old(outputs).wf(),
        notes_wf(old(notes)@),
        now.wf(),
        t.wf(),
        next matches Some(item) ==> timely_while_running(item.operation, t.started_at),
    ensures
        final(outputs).wf(),
        notes_wf(final(notes)@),
        final(outputs).limit() == old(outputs).limit(),
        ({
            let step = followed(
                t,
                match next {
                    Some(item) => Some(*item),
                    None => None,
                },
                suppressed,
                *camera,
                now,
                old(outputs).keys(),
                old(outputs).limit(),
            );
            &&& r == step.kept
            &&& final(notes)@ == old(notes)@ + step.notes
            &&& final(outputs).keys() == step.outputs
        }),
        r matches Some(kept) ==> kept.wf() && kept.operation.key@ == next->0.operation.key@
            && kept.started_at == t.started_at,
{
    let ghost before = notes@;
    if suppressed {
        assert(notes@ =~= before + Seq::<OperationNote>::empty());
        return None;
    }
    let mut t = t;
    let item = match next {
        Some(item) => item,
        None => {
            if t.operation.kind.is_thermal() {
                t.camera = copy_camera(camera);
            }
            notes.push(
                OperationNote { running: t, update: OperationUpdate::Ended { attach_output: false } },
            );
            assert(notes@ =~= before + seq![notes@.last()]);
            return None;
        },
    };
    if !same(t.operation.name.as_str(), item.operation.name.as_str()) || t.operation.kind.class()
        != item.operation.kind.class() {
        if t.operation.kind.is_thermal() {
            t.camera = copy_camera(camera);
        }
        notes.push(
            OperationNote { running: t, update: OperationUpdate::Ended { attach_output: false } },
        );
        assert(notes@ =~= before + seq![notes@.last()]);
        return None;
    }
    if !item.operation.is_active() {
        if t.operation.kind.is_thermal() {
            t.camera = copy_camera(camera);
        }
        let attach_output: bool = claim_plate_solve_output(
            outputs,
            item.operation.chat_enabled,
            item.output_key,
        );
        t.last_output_key = item.output_key;
        t.operation = item.operation.copy();
        let update: OperationUpdate = if item.operation.is_failed() {
            OperationUpdate::Failed { attach_output }
        } else if item.operation.is_finished() {
            OperationUpdate::Finished { attach_output }
        } else {
            OperationUpdate::Ended { attach_output }
        };
        notes.push(OperationNote { running: t, update });
        assert(notes@ =~= before + seq![notes@.last()]);
        return None;
    }
    t.operation = item.operation.copy();
    if t.operation.kind.is_thermal() {
        if t.initial_temperature.is_none() {
            t.initial_temperature = camera_temperature(camera);
        }
        t.camera = copy_camera(camera);
    } else {
        match &t.operation.kind {
            SequenceOperationKind::TimeWait { .. } => {
                t.restore_intrinsic_wait_estimate();
            },
            _ => {},
        }
    }
    assert(notes@ =~= before + Seq::<OperationNote>::empty());
    if let Some(milestone) = t.next_milestone(now) {
        t.last_milestone = milestone;
        let copy = t.copy();
        notes.push(OperationNote { running: copy, update: OperationUpdate::Progress(milestone) });
        assert(notes@ =~= before + seq![notes@.last()]);
    }
    if item.output_key.is_some() && item.output_key != t.last_output_key {
        t.last_output_key = item.output_key;
        if claim_plate_solve_output(outputs, item.operation.chat_enabled, item.output_key) {
            let ghost earlier = notes@;
            let copy = t.copy();
            notes.push(OperationNote { running: copy, update: OperationUpdate::Output });
            assert(notes@ =~= before + earlier.subrange(
                before.len() as int,
                earlier.len() as int,
            ).push(notes@.last()));
        }
    }
    Some(t)
}

/// Promotion keeps the times in the calendar.
proof fn lemma_promotion_timely(kind: SequenceOperationKind, start: Moment)
    ensures
        kind_wf(kind) ==> kind_wf(promoted(kind)),
        reckonable(kind, start) ==> reckonable(promoted(kind), start),
{
}

proof fn lemma_running_at(running: Seq<TrackedSequenceOperation>, key: Seq<char>, i: int)
    requires
        running_at(running, key) is None,
        0 <= i < running.len(),
    ensures
        running[i].operation.key@ != key,
    decreases running.len(),
{
    if i > 0 {
        let rest = running.subrange(1, running.len() as int);
        lemma_running_at(rest, key, i - 1);
        assert(rest[i - 1] == running[i]);
    }
}

proof fn lemma_incoming_at(incoming: Seq<Incoming>, key: Seq<char>)
    ensures
        incoming_at(incoming, key) matches Some(item) ==> incoming.contains(item)
            && item.operation.key@ == key,
    decreases incoming.len(),
{
    if incoming.len() > 0 {
        if incoming[0].operation.key@ == key {
            assert(incoming.contains(incoming[0]));
        } else {
            let rest = incoming.subrange(1, incoming.len() as int);
            lemma_incoming_at(rest, key);
            match incoming_at(rest, key) {
                Some(item) => {
                    let j = choose|j: int| 0 <= j < rest.len() && rest[j] == item;
                    assert(incoming[j + 1] == item);
                },
                None => {},
            }
        }
    }
}

/// What comes from the snapshot unsuppressed has its times in the calendar.
proof fn lemma_item_timely(
    item: Incoming,
    items: Seq<Incoming>,
    suppressed: Seq<Seq<char>>,
    start: Moment,
)
    requires
        comes_from(item, items, suppressed),
        forall|k: int|
            0 <= k < items.len() && (#[trigger] items[k]).operation.key@ == item.operation.key@
                ==> fits(items[k].operation, suppressed, start),
    ensures
        timely_while_running(item.operation, start),
{
    let k = choose|k: int|
        0 <= k < items.len() && derived(item, #[trigger] items[k]) && !suppressed.contains(
            items[k].operation.key@,
        );
    assert(items[k].operation.key@ == item.operation.key@);
    lemma_promotion_timely(items[k].operation.kind, start);
}

impl SequenceBoard {
    /// The snapshot's operations that may be told of.
    fn take_in(&self, items: Vec<Incoming>, suppressed: &Vec<String>) -> (r: Vec<Incoming>)
        ensures
            r@ == admitted(items@, views(suppressed@), self.running@),
    {
        let mut items = items;
        let ghost all = items@;
        let ghost names = views(suppressed@);
        let mut out: Vec<Incoming> = Vec::new();
        let ghost mut done: int = 0;
        assert(all.subrange(0, 0) =~= Seq::<Incoming>::empty());
        assert(all.subrange(0, all.len() as int) =~= all);
        while items.len() > 0
            invariant
                0 <= done <= all.len(),
                names == views(suppressed@),
                items@ == all.subrange(done, all.len() as int),
                out@ == admitted(all.subrange(0, done), names, self.running@),
            decreases items@.len(),
        {
            let mut item = items.remove(0);
            proof {
                let now_seen = all.subrange(0, done + 1);
                assert(now_seen.drop_last() =~= all.subrange(0, done));
                assert(now_seen.last() == item);
                assert(items@ =~= all.subrange(done + 1, all.len() as int));
                done = done + 1;
            }
            if !contains_text(suppressed, item.operation.key.as_str()) {
                let center: bool = match find_running(
                    &self.running,
                    item.operation.key.as_str(),
                ) {
                    Some(t) => match &t.operation.kind {
                        SequenceOperationKind::MountCenter { .. } => true,
                        _ => false,
                    },
                    None => false,
                };
                if center {
                    promote_ambiguous_slew_to_center(&mut item.operation);
                }
                put_incoming(&mut out, item);
            }
        }
        assert(all.subrange(0, done) =~= all);
        out
    }

    /// Takes the running operation under a key as a centering.
    fn recognize_center(&mut self, key: &str)
        requires
            old(self).wf(),
        ensures
            final(self).wf(),
            final(self).running@ == with_center(old(self).running@, key@),
            final(self).outputs_seen == old(self).outputs_seen,
            final(self).center_event_seen_at == old(self).center_event_seen_at,
    {
        let ghost before = self.running@;
        let mut out: Vec<TrackedSequenceOperation> = Vec::new();
        let ghost wanted = with_center(before, key@);
        let ghost mut done: int = 0;
        while self.running.len() > 0
            invariant
                0 <= done <= before.len(),
                self.running@ == before.subrange(done, before.len() as int),
                wanted == with_center(before, key@),
                out@ == wanted.subrange(0, done),
                forall|i: int| 0 <= i < before.len() ==> (#[trigger] before[i]).wf(),
                forall|i: int| 0 <= i < out@.len() ==> (#[trigger] out@[i]).wf(),
                self.outputs_seen == old(self).outputs_seen,
                self.center_event_seen_at == old(self).center_event_seen_at,
            decreases self.running@.len(),
        {
            let mut t = self.running.remove(0);
            proof {
                assert(t == before[done]);
                assert(self.running@ =~= before.subrange(done + 1, before.len() as int));
                lemma_promotion_timely(t.operation.kind, t.started_at);
            }
            if same(t.operation.key.as_str(), key) {
                promote_ambiguous_slew_to_center(&mut t.operation);
            }
            out.push(t);
            proof {
                assert(t == wanted[done]);
                assert(out@ =~= wanted.subrange(0, done + 1));
                done = done + 1;
            }
        }
        assert(out@ =~= wanted);
        self.running = out;
        proof {
            assert forall|i: int, j: int|
                #![trigger self.running@[i], self.running@[j]]
                0 <= i < j < self.running@.len() implies self.running@[i].operation.key@
                != self.running@[j].operation.key@ by {
                assert(before[i].operation.key@ != before[j].operation.key@);
            }
        }
    }

    /// Follows all running operations.
    fn follow_all(
        &mut self,
        incoming: &Vec<Incoming>,
        suppressed: &Vec<String>,
        camera: &Option<CameraInfo>,
        now: Moment,
    ) -> (r: Vec<OperationNote>)
        requires
            old(self).wf(),
            now.wf(),
            all_timely(incoming@, old(self).running@),
        ensures
            final(self).wf(),
            notes_wf(r@),
            final(self).center_event_seen_at == old(self).center_event_seen_at,
            final(self).outputs_seen.limit() == old(self).outputs_seen.limit(),
            ({
                let s = followed_all(
                    old(self).running@,
                    incoming@,
                    views(suppressed@),
                    *camera,
                    now,
                    old(self).outputs_seen.keys(),
                    old(self).outputs_seen.limit(),
                );
                &&& final(self).running@ == s.running
                &&& r@ == s.notes
                &&& final(self).outputs_seen.keys() == s.outputs
            }),
    {
        let ghost before = self.running@;
        let ghost names = views(suppressed@);
        let ghost keys = self.outputs_seen.keys();
        let ghost limit = self.outputs_seen.limit();
        let mut kept: Vec<TrackedSequenceOperation> = Vec::new();
        let mut notes: Vec<OperationNote> = Vec::new();
        let ghost mut done: int = 0;
        assert(before.subrange(0, 0) =~= Seq::<TrackedSequenceOperation>::empty());
        assert(before.subrange(0, before.len() as int) =~= before);
        while self.running.len() > 0
            invariant
                0 <= done <= before.len(),
                names == views(suppressed@),
                self.running@ == before.subrange(done, before.len() as int),
                self.outputs_seen.wf(),
                self.outputs_seen.limit() == limit,
                self.center_event_seen_at == old(self).center_event_seen_at,
                now.wf(),
                notes_wf(notes@),
                before == old(self).running@,
                old(self).wf(),
                all_timely(incoming@, old(self).running@),
                keys_distinct(kept@),
                forall|i: int|
                    0 <= i < kept@.len() ==> under_one_of(
                        #[trigger] kept@[i],
                        before.subrange(0, done),
                    ),
                forall|i: int| 0 <= i < kept@.len() ==> (#[trigger] kept@[i]).wf(),
                ({
                    let s = followed_all(
                        before.subrange(0, done),
                        incoming@,
                        names,
                        *camera,
                        now,
                        keys,
                        limit,
                    );
                    &&& kept@ == s.running
                    &&& notes@ == s.notes
                    &&& self.outputs_seen.keys() == s.outputs
                }),
            decreases self.running@.len(),
        {
            let t = self.running.remove(0);
            proof {
                let now_seen = before.subrange(0, done + 1);
                assert(now_seen.drop_last() =~= before.subrange(0, done));
                assert(now_seen.last() == t);
                assert(t == before[done]);
                assert(self.running@ =~= before.subrange(done + 1, before.len() as int));
                done = done + 1;
            }
            let hidden: bool = contains_text(suppressed, t.operation.key.as_str());
            let next: Option<&Incoming> = match find_incoming(incoming, t.operation.key.as_str()) {
                Some(i) => {
                    assert(incoming@[i as int].operation.key@ == old(
                        self,
                    ).running@[done - 1].operation.key@);
                    Some(&incoming[i])
                },
                None => None,
            };
            let ghost earlier = kept@;
            if let Some(t) = follow(
                t,
                next,
                hidden,
                camera,
                now,
                &mut self.outputs_seen,
                &mut notes,
            ) {
                kept.push(t);
            }
            proof {
                let now_seen = before.subrange(0, done);
                let was_seen = before.subrange(0, done - 1);
                assert(now_seen[done - 1] == before[done - 1]);
                assert forall|i: int| 0 <= i < kept@.len() implies under_one_of(
                    #[trigger] kept@[i],
                    now_seen,
                ) by {
                    if i < earlier.len() {
                        assert(kept@[i] == earlier[i]);
                        let k = choose|k: int|
                            0 <= k < was_seen.len() && (
                            #[trigger] was_seen[k]).operation.key@ == kept@[i].operation.key@;
                        assert(now_seen[k] == was_seen[k]);
                    } else {
                        assert(kept@[i].operation.key@ == now_seen[done - 1].operation.key@);
                    }
                }
                assert forall|i: int, j: int|
                    #![trigger kept@[i], kept@[j]]
                    0 <= i < j < kept@.len() implies kept@[i].operation.key@
                    != kept@[j].operation.key@ by {
                    assert(kept@[i] == earlier[i]);
                    if j < earlier.len() {
                        assert(kept@[j] == earlier[j]);
                    } else {
                        let k = choose|k: int|
                            0 <= k < was_seen.len() && (
                            #[trigger] was_seen[k]).operation.key@ == earlier[i].operation.key@;
                        assert(under_one_of(earlier[i], was_seen));
                        assert(before[k] == was_seen[k]);
                        assert(before[k].operation.key@ != before[done - 1].operation.key@);
                    }
                }
            }
        }
        assert(before.subrange(0, done) =~= before);
        self.running = kept;
        notes
    }

    /// Starts to follow one operation, unless it is not running or is followed already.
    fn begin(
        &mut self,
        item: Incoming,
        center: &Option<String>,
        camera: &Option<CameraInfo>,
        now: Moment,
        announce: bool,
        notes: &mut Vec<OperationNote>,
    )
        requires
            old(self).wf(),
            now.wf(),
            timely_while_running(item.operation, now),
            notes_wf(old(notes)@),
        ensures
            final(self).wf(),
            notes_wf(final(notes)@),
            final(self).center_event_seen_at == old(self).center_event_seen_at,
            final(self).outputs_seen.limit() == old(self).outputs_seen.limit(),
            ({
                let before = Progressed {
                    running: old(self).running@,
                    notes: old(notes)@,
                    outputs: old(self).outputs_seen.keys(),
                };
                let s = begun_all(
                    before,
                    seq![item],
                    crate::text::opt_view(*center),
                    *camera,
                    now,
                    announce,
                    old(self).outputs_seen.limit(),
                );
                &&& final(self).running@ == s.running
                &&& final(notes)@ == s.notes
                &&& final(self).outputs_seen.keys() == s.outputs
            }),
    {
        proof {
            reveal_with_fuel(begun_all, 2);
            assert(seq![item].drop_last() =~= Seq::<Incoming>::empty());
            assert(seq![item].last() == item);
        }
        if !item.operation.is_active() || find_running(
            &self.running,
            item.operation.key.as_str(),
        ).is_some() {
            return;
        }
        let is_center: bool = match center {
            Some(key) => same(key.as_str(), item.operation.key.as_str()),
            None => false,
        };
        let own_camera: Option<CameraInfo> = if item.operation.kind.is_thermal() {
            copy_camera(camera)
        } else {
            None
        };
        let chat_enabled: bool = item.operation.chat_enabled;
        let output_key: Option<u64> = item.output_key;
        let mut t = TrackedSequenceOperation::new(item.operation, now, own_camera);
        if !announce {
            t.last_milestone = match t.progress_percent(now) {
                Some(progress) => completed_milestone(progress),
                None => 0,
            };
        }
        proof {
            assert forall|i: int| 0 <= i < self.running@.len() implies (
            #[trigger] self.running@[i]).operation.key@ != t.operation.key@ by {
                lemma_running_at(self.running@, t.operation.key@, i);
            }
        }
        let output_is_new: bool = claim_plate_solve_output(
            &mut self.outputs_seen,
            chat_enabled,
            output_key,
        );
        t.last_output_key = output_key;
        if announce && !is_center {
            let copy = t.copy();
            notes.push(OperationNote { running: copy, update: OperationUpdate::Started });
        }
        if announce && output_is_new {
            let copy = t.copy();
            notes.push(OperationNote { running: copy, update: OperationUpdate::Output });
        }
        self.running.push(t);
    }

    /// Starts to follow the running operations that are not followed yet.
    fn begin_all(
        &mut self,
        items: Vec<Incoming>,
        center: &Option<String>,
        camera: &Option<CameraInfo>,
        now: Moment,
        announce: bool,
        notes: &mut Vec<OperationNote>,
    )
        requires
            old(self).wf(),
            now.wf(),
            forall|i: int|
                0 <= i < items@.len() ==> timely_while_running(
                    (#[trigger] items@[i]).operation,
                    now,
                ),
            notes_wf(old(notes)@),
        ensures
            final(self).wf(),
            notes_wf(final(notes)@),
            final(self).center_event_seen_at == old(self).center_event_seen_at,
            final(self).outputs_seen.limit() == old(self).outputs_seen.limit(),
            ({
                let before = Progressed {
                    running: old(self).running@,
                    notes: old(notes)@,
                    outputs: old(self).outputs_seen.keys(),
                };
                let s = begun_all(
                    before,
                    items@,
                    crate::text::opt_view(*center),
                    *camera,
                    now,
                    announce,
                    old(self).outputs_seen.limit(),
                );
                &&& final(self).running@ == s.running
                &&& final(notes)@ == s.notes
                &&& final(self).outputs_seen.keys() == s.outputs
            }),
    {
        let mut items = items;
        let ghost start = Progressed {
            running: self.running@,
            notes: notes@,
            outputs: self.outputs_seen.keys(),
        };
        let ghost limit = self.outputs_seen.limit();
        let ghost seen = self.center_event_seen_at;
        let ghost all = items@;
        let ghost center_name = crate::text::opt_view(*center);
        let ghost mut done: int = 0;
        assert(all.subrange(0, 0) =~= Seq::<Incoming>::empty());
        assert(all.subrange(0, all.len() as int) =~= all);
        while items.len() > 0
            invariant
                0 <= done <= all.len(),
                items@ == all.subrange(done, all.len() as int),
                self.wf(),
                now.wf(),
                notes_wf(notes@),
                self.outputs_seen.limit() == limit,
                self.center_event_seen_at == seen,
                center_name == crate::text::opt_view(*center),
                forall|i: int|
                    0 <= i < all.len() ==> timely_while_running(
                        (#[trigger] all[i]).operation,
                        now,
                    ),
                ({
                    let s = begun_all(
                        start,
                        all.subrange(0, done),
                        center_name,
                        *camera,
                        now,
                        announce,
                        limit,
                    );
                    &&& self.running@ == s.running
                    &&& notes@ == s.notes
                    &&& self.outputs_seen.keys() == s.outputs
                }),
            decreases items@.len(),
        {
            let item = items.remove(0);
            proof {
                let now_seen = all.subrange(0, done + 1);
                assert(now_seen.drop_last() =~= all.subrange(0, done));
                assert(now_seen.last() == item);
                assert(item == all[done]);
                assert(items@ =~= all.subrange(done + 1, all.len() as int));
                reveal_with_fuel(begun_all, 2);
                assert(seq![item].drop_last() =~= Seq::<Incoming>::empty());
                done = done + 1;
            }
            self.begin(item, center, camera, now, announce, notes);
        }
        assert(all.subrange(0, done) =~= all);
    }

    /// Brings the board up to date with a snapshot of the sequence and says what there is to
    /// tell. Operations under suppressed keys are dropped without a word.
    #[verifier::spinoff_prover]
    pub fn reconcile(
        &mut self,
        items: Vec<Incoming>,
        suppressed: &Vec<String>,
        camera: Option<CameraInfo>,
        now: Moment,
        announce: bool,
    ) -> (r: Vec<OperationNote>)
        requires
            old(self).wf(),
            old(self).can_take(items@, views(suppressed@), now),
        ensures
            final(self).wf(),
            notes_wf(r@),
            (final(self)@, r@) == reconciled(
                old(self)@,
                items@,
                views(suppressed@),
                camera,
                now,
                announce,
            ),
    {
        let ghost first = self@;
        if let Some(seen) = self.center_event_seen_at {
            if since(now, seen).nanos > 120_000_000_000 {
                self.center_event_seen_at = None;
            }
        }
        let ghost center = self.center_event_seen_at;
        let mut incoming = self.take_in(items, suppressed);
        proof {
            lemma_admitted(items@, views(suppressed@), self.running@);
            assert forall|i: int| 0 <= i < incoming@.len() implies timely_while_running(
                (#[trigger] incoming@[i]).operation,
                now,
            ) by {
                lemma_item_timely(incoming@[i], items@, views(suppressed@), now);
            }
            assert forall|i: int, j: int|
                #![trigger incoming@[i], self.running@[j]]
                0 <= i < incoming@.len() && 0 <= j < self.running@.len()
                    && incoming@[i].operation.key@
                    == self.running@[j].operation.key@ implies timely_while_running(
                incoming@[i].operation,
                self.running@[j].started_at,
            ) by {
                lemma_item_timely(
                    incoming@[i],
                    items@,
                    views(suppressed@),
                    self.running@[j].started_at,
                );
            }
        }
        let ghost listed = incoming@;
        let mut center_key: Option<String> = None;
        if self.center_event_seen_at.is_some() {
            let place: usize = find_center(&incoming);
            if place < incoming.len() {
                let mut item = incoming.remove(place);
                let key = item.operation.key.clone();
                promote_ambiguous_slew_to_center(&mut item.operation);
                incoming.insert(place, item);
                proof {
                    assert(incoming@ =~= listed.update(
                        place as int,
                        promoted_item(listed[place as int]),
                    ));
                    assert forall|i: int| 0 <= i < incoming@.len() implies timely_while_running(
                        (#[trigger] incoming@[i]).operation,
                        now,
                    ) by {
                        assert(timely_while_running(listed[i].operation, now));
                        lemma_promotion_timely(listed[i].operation.kind, now);
                    }
                    assert forall|i: int, j: int|
                        #![trigger incoming@[i], self.running@[j]]
                        0 <= i < incoming@.len() && 0 <= j < self.running@.len()
                            && incoming@[i].operation.key@
                            == self.running@[j].operation.key@ implies timely_while_running(
                        incoming@[i].operation,
                        self.running@[j].started_at,
                    ) by {
                        assert(listed[i].operation.key@ == self.running@[j].operation.key@);
                        assert(timely_while_running(
                            listed[i].operation,
                            self.running@[j].started_at,
                        ));
                        lemma_promotion_timely(
                            listed[i].operation.kind,
                            self.running@[j].started_at,
                        );
                    }
                }
                let ghost earlier = self.running@;
                self.recognize_center(key.as_str());
                proof {
                    assert forall|i: int, j: int|
                        #![trigger incoming@[i], self.running@[j]]
                        0 <= i < incoming@.len() && 0 <= j < self.running@.len()
                            && incoming@[i].operation.key@
                            == self.running@[j].operation.key@ implies timely_while_running(
                        incoming@[i].operation,
                        self.running@[j].started_at,
                    ) by {
                        assert(earlier[j].operation.key@ == self.running@[j].operation.key@);
                        assert(earlier[j].started_at == self.running@[j].started_at);
                    }
                }
                center_key = Some(key);
                self.center_event_seen_at = None;
            }
        }
        let mut notes = self.follow_all(&incoming, suppressed, &camera, now);
        self.begin_all(incoming, &center_key, &camera, now, announce, &mut notes);
        if !announce {
            let none: Vec<OperationNote> = Vec::new();
            assert(none@ =~= Seq::<OperationNote>::empty());
            return none;
        }
        keep_deliverable(notes)
    }
}

fn keep_deliverable(notes: Vec<OperationNote>) -> (r: Vec<OperationNote>)
    requires
        notes_wf(notes@),
    ensures
        r@ == deliverable(notes@),
        notes_wf(r@),
{
    let mut notes = notes;
    let ghost all = notes@;
    let mut out: Vec<OperationNote> = Vec::new();
    let ghost mut done: int = 0;
    assert(all.subrange(0, 0) =~= Seq::<OperationNote>::empty());
    assert(all.subrange(0, all.len() as int) =~= all);
    while notes.len() > 0
        invariant
            0 <= done <= all.len(),
            notes@ == all.subrange(done, all.len() as int),
            notes_wf(all),
            notes_wf(out@),
            out@ == deliverable(all.subrange(0, done)),
        decreases notes@.len(),
    {
        let note = notes.remove(0);
        proof {
            let now_seen = all.subrange(0, done + 1);
            assert(now_seen.drop_last() =~= all.subrange(0, done));
            assert(now_seen.last() == note);
            assert(note == all[done]);
            assert(notes@ =~= all.subrange(done + 1, all.len() as int));
            done = done + 1;
        }
        if note.running.operation.chat_enabled {
            out.push(note);
        }
    }
    assert(all.subrange(0, done) =~= all);
    out
}

/// No operation under one of the keys.
pub open spec fn none_under(running: Seq<TrackedSequenceOperation>, keys: Seq<Seq<char>>) -> bool {
    forall|i: int|
        0 <= i < running.len() ==> !keys.contains((#[trigger] running[i]).operation.key@)
}

/// Nothing to tell of an operation under one of the keys.
pub open spec fn silent_on(notes: Seq<OperationNote>, keys: Seq<Seq<char>>) -> bool {
    forall|i: int|
        0 <= i < notes.len() ==> !keys.contains((#[trigger] notes[i]).running.operation.key@)
}

spec fn no_item_under(items: Seq<Incoming>, keys: Seq<Seq<char>>) -> bool {
    forall|i: int|
        0 <= i < items.len() ==> !keys.contains((#[trigger] items[i]).operation.key@)
}

proof fn lemma_put_under(list: Seq<Incoming>, item: Incoming, keys: Seq<Seq<char>>)
    requires
        no_item_under(list, keys),
        !keys.contains(item.operation.key@),
    ensures
        no_item_under(put(list, item), keys),
    decreases list.len(),
{
    if list.len() > 0 {
        let front = list.drop_last();
        assert forall|i: int| 0 <= i < front.len() implies !keys.contains(
            (#[trigger] front[i]).operation.key@,
        ) by {
            assert(front[i] == list[i]);
        }
        assert(list.last() == list[list.len() - 1]);
        assert(!keys.contains(list.last().operation.key@));
        lemma_put_under(front, item, keys);
        let all = put(list, item);
        assert forall|i: int| 0 <= i < all.len() implies !keys.contains(
            (#[trigger] all[i]).operation.key@,
        ) by {
            if list.last().operation.key@ == item.operation.key@ {
                if i < front.len() {
                    assert(all[i] == front[i]);
                }
            } else {
                let rest = put(front, item);
                if i < rest.len() {
                    assert(all[i] == rest[i]);
                }
            }
        }
    }
}

proof fn lemma_admitted_under(
    items: Seq<Incoming>,
    keys: Seq<Seq<char>>,
    running: Seq<TrackedSequenceOperation>,
)
    ensures
        no_item_under(admitted(items, keys, running), keys),
    decreases items.len(),
{
    if items.len() > 0 {
        lemma_admitted_under(items.drop_last(), keys, running);
        if !keys.contains(items.last().operation.key@) {
            lemma_put_under(
                admitted(items.drop_last(), keys, running),
                recognized(items.last(), running),
                keys,
            );
        }
    }
}

proof fn lemma_followed_under(
    running: Seq<TrackedSequenceOperation>,
    incoming: Seq<Incoming>,
    keys: Seq<Seq<char>>,
    camera: Option<CameraInfo>,
    now: Moment,
    outputs: Seq<Seq<char>>,
    limit: nat,
)
    ensures
        ({
            let s = followed_all(running, incoming, keys, camera, now, outputs, limit);
            none_under(s.running, keys) && silent_on(s.notes, keys)
        }),
    decreases running.len(),
{
    if running.len() > 0 {
        let before = followed_all(running.drop_last(), incoming, keys, camera, now, outputs, limit);
        lemma_followed_under(running.drop_last(), incoming, keys, camera, now, outputs, limit);
        let t = running.last();
        let key = t.operation.key@;
        lemma_incoming_at(incoming, key);
        let step = followed(
            t,
            incoming_at(incoming, key),
            keys.contains(key),
            camera,
            now,
            before.outputs,
            limit,
        );
        let s = followed_all(running, incoming, keys, camera, now, outputs, limit);
        assert forall|i: int| 0 <= i < s.running.len() implies !keys.contains(
            (#[trigger] s.running[i]).operation.key@,
        ) by {
            if i < before.running.len() {
                assert(s.running[i] == before.running[i]);
            }
        }
        assert forall|i: int| 0 <= i < s.notes.len() implies !keys.contains(
            (#[trigger] s.notes[i]).running.operation.key@,
        ) by {
            if i < before.notes.len() {
                assert(s.notes[i] == before.notes[i]);
            } else {
                assert(s.notes[i] == step.notes[i - before.notes.len()]);
            }
        }
    }
}

proof fn lemma_begun_under(
    s: Progressed,
    incoming: Seq<Incoming>,
    center: Option<Seq<char>>,
    camera: Option<CameraInfo>,
    now: Moment,
    announce: bool,
    limit: nat,
    keys: Seq<Seq<char>>,
)
    requires
        none_under(s.running, keys),
        silent_on(s.notes, keys),
        no_item_under(incoming, keys),
    ensures
        ({
            let r = begun_all(s, incoming, center, camera, now, announce, limit);
            none_under(r.running, keys) && silent_on(r.notes, keys)
        }),
    decreases incoming.len(),
{
    if incoming.len() > 0 {
        let front = incoming.drop_last();
        assert forall|i: int| 0 <= i < front.len() implies !keys.contains(
            (#[trigger] front[i]).operation.key@,
        ) by {
            assert(front[i] == incoming[i]);
        }
        assert(incoming.last() == incoming[incoming.len() - 1]);
        lemma_begun_under(s, front, center, camera, now, announce, limit, keys);
    }
}

proof fn lemma_deliverable(notes: Seq<OperationNote>, keys: Seq<Seq<char>>)
    requires
        silent_on(notes, keys),
    ensures
        silent_on(deliverable(notes), keys),
        forall|i: int|
            0 <= i < deliverable(notes).len() ==> (#[trigger] deliverable(
                notes,
            )[i]).running.operation.chat_enabled,
    decreases notes.len(),
{
    if notes.len() > 0 {
        let front = notes.drop_last();
        assert forall|i: int| 0 <= i < front.len() implies !keys.contains(
            (#[trigger] front[i]).running.operation.key@,
        ) by {
            assert(front[i] == notes[i]);
        }
        assert(notes.last() == notes[notes.len() - 1]);
        lemma_deliverable(front, keys);
        let kept = deliverable(front);
        let all = deliverable(notes);
        assert forall|i: int| 0 <= i < all.len() implies !keys.contains(
            (#[trigger] all[i]).running.operation.key@,
        ) && all[i].running.operation.chat_enabled by {
            if i < kept.len() {
                assert(all[i] == kept[i]);
            }
        }
    }
}

/// Suppressed operations leave no trace: after a snapshot none of them is followed, and nothing
/// is told of them. What is told is always of operations that are delivered.
pub proof fn suppressed_operations_leave_no_trace(
    board: BoardView,
    items: Seq<Incoming>,
    suppressed: Seq<Seq<char>>,
    camera: Option<CameraInfo>,
    now: Moment,
    announce: bool,
)
    ensures
        ({
            let (after, notes) = reconciled(board, items, suppressed, camera, now, announce);
            &&& none_under(after.running, suppressed)
            &&& silent_on(notes, suppressed)
            &&& forall|i: int|
                0 <= i < notes.len() ==> (#[trigger] notes[i]).running.operation.chat_enabled
            &&& !announce ==> notes.len() == 0
        }),
{
    let center = fresh_center(board.center, now);
    let incoming = admitted(items, suppressed, board.running);
    lemma_admitted_under(items, suppressed, board.running);
    lemma_center_place(incoming, 0);
    let place = if center is Some {
        center_place(incoming, 0)
    } else {
        incoming.len() as int
    };
    let found = place < incoming.len();
    let incoming2 = if found {
        incoming.update(place, promoted_item(incoming[place]))
    } else {
        incoming
    };
    assert forall|i: int| 0 <= i < incoming2.len() implies !suppressed.contains(
        (#[trigger] incoming2[i]).operation.key@,
    ) by {
        assert(incoming2[i].operation.key@ == incoming[i].operation.key@);
    }
    let center_key = if found {
        Some(incoming[place].operation.key@)
    } else {
        None
    };
    let running2 = if found {
        with_center(board.running, incoming[place].operation.key@)
    } else {
        board.running
    };
    lemma_followed_under(
        running2,
        incoming2,
        suppressed,
        camera,
        now,
        board.outputs,
        board.limit,
    );
    let first = followed_all(
        running2,
        incoming2,
        suppressed,
        camera,
        now,
        board.outputs,
        board.limit,
    );
    lemma_begun_under(
        first,
        incoming2,
        center_key,
        camera,
        now,
        announce,
        board.limit,
        suppressed,
    );
    let second = begun_all(first, incoming2, center_key, camera, now, announce, board.limit);
    lemma_deliverable(second.notes, suppressed);
}

/// A plate-solve result that has been claimed is not claimed again while it is remembered, and
/// an operation that is not delivered claims nothing.
pub proof fn results_are_claimed_once(seen: Seq<Seq<char>>, limit: nat, key: u64)
    requires
        limit > 0,
    ensures
        !claims(after_claim(seen, limit, true, Some(key)), true, Some(key)),
        !claims(seen, false, Some(key)),
        after_claim(seen, limit, false, Some(key)) == seen,
{
    crate::seen_set::a_sighted_key_is_known(seen, output_name(key), limit);
}

} // verus!
