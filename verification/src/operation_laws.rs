//! What is promised of following the operations of a sequence: what is told of them, and what is
//! remembered.

use vstd::prelude::*;
use crate::calendar::{elapsed_nanos, stepped, Moment};
use crate::operations::{
    admitted, begun, begun_all, center_place, deliverable, followed, followed_all, fresh_center,
    incoming_at, output_name, promoted_item, put, recognized, reconciled, running_at, with_center,
    BoardView, Incoming, OperationNote, OperationUpdate,
};
use crate::seen_set::after_sighting;
use crate::sequence::{
    class_of, promoted, CameraInfo, SequenceOperation, SequenceOperationKind,
    TrackedSequenceOperation,
};
use crate::text::same_ignoring_case;

verus! {

/// The snapshot shows another operation in the place of this one.
pub open spec fn another(t: TrackedSequenceOperation, next: SequenceOperation) -> bool {
    t.operation.name@ != next.name@ || class_of(t.operation.kind) != class_of(next.kind)
}

/// An operation that is gone from the snapshot, or that another one stands in the place of, has
/// ended, and nothing more is known of how. A suppressed one is dropped without a word.
pub proof fn vanished_operations_have_ended(
    t: TrackedSequenceOperation,
    next: Option<Incoming>,
    camera: Option<CameraInfo>,
    now: Moment,
    outputs: Seq<Seq<char>>,
    limit: nat,
)
    requires
        next matches Some(item) ==> another(t, item.operation),
    ensures
        ({
            let f = followed(t, next, false, camera, now, outputs, limit);
            &&& f.kept is None
            &&& f.outputs == outputs
            &&& f.notes.len() == 1
            &&& f.notes[0].update == (OperationUpdate::Ended { attach_output: false })
            &&& f.notes[0].running.operation == t.operation
            &&& f.notes[0].running.started_at == t.started_at
            &&& f.notes[0].running.camera == (if t.operation.kind is CameraCooling
                || t.operation.kind is CameraWarming {
                camera
            } else {
                t.camera
            })
        }),
        ({
            let f = followed(t, next, true, camera, now, outputs, limit);
            f.kept is None && f.outputs == outputs && f.notes.len() == 0
        }),
{
}

/// An operation that no longer runs is told of once more and then dropped: as failed where the
/// snapshot says that it failed, as finished where it says so, and as ended otherwise. Its
/// plate-solve result goes with that message where it is delivered and has not been shown.
pub proof fn stopped_operations_are_told_of_as_they_ended(
    t: TrackedSequenceOperation,
    item: Incoming,
    camera: Option<CameraInfo>,
    now: Moment,
    outputs: Seq<Seq<char>>,
    limit: nat,
)
    requires
        !another(t, item.operation),
        !same_ignoring_case(item.operation.status@, "RUNNING"@),
    ensures
        ({
            let f = followed(t, Some(item), false, camera, now, outputs, limit);
            let shown = item.operation.chat_enabled && (item.output_key matches Some(key)
                && !outputs.contains(output_name(key)));
            &&& f.kept is None
            &&& f.notes.len() == 1
            &&& f.notes[0].running.operation == item.operation
            &&& f.notes[0].running.started_at == t.started_at
            &&& same_ignoring_case(item.operation.status@, "FAILED"@) ==> f.notes[0].update == (
            OperationUpdate::Failed { attach_output: shown })
            &&& !same_ignoring_case(item.operation.status@, "FAILED"@) && same_ignoring_case(
                item.operation.status@,
                "FINISHED"@,
            ) ==> f.notes[0].update == (OperationUpdate::Finished { attach_output: shown })
            &&& !same_ignoring_case(item.operation.status@, "FAILED"@) && !same_ignoring_case(
                item.operation.status@,
                "FINISHED"@,
            ) ==> f.notes[0].update == (OperationUpdate::Ended { attach_output: shown })
        }),
{
}

/// An operation that runs on is followed on: as the snapshot shows it, since the same time, and
/// with the temperature at which it was first seen. The milestones told of never fall.
pub proof fn running_operations_are_followed_on(
    t: TrackedSequenceOperation,
    item: Incoming,
    camera: Option<CameraInfo>,
    now: Moment,
    outputs: Seq<Seq<char>>,
    limit: nat,
)
    requires
        !another(t, item.operation),
        same_ignoring_case(item.operation.status@, "RUNNING"@),
    ensures
        ({
            let f = followed(t, Some(item), false, camera, now, outputs, limit);
            let k = f.kept->0;
            &&& f.kept is Some
            &&& k.operation == item.operation
            &&& k.started_at == t.started_at
            &&& t.initial_temperature is Some ==> k.initial_temperature == t.initial_temperature
            &&& k.last_milestone >= t.last_milestone
            &&& item.output_key is Some ==> k.last_output_key == item.output_key
            &&& item.operation.kind is CameraCooling || item.operation.kind is CameraWarming
                ==> k.camera == camera
            &&& item.operation.kind matches SequenceOperationKind::TimeWait {
                target_time,
                configured_duration,
            } ==> {
                &&& target_time matches Some(end) ==> k.estimated_end == Some(end)
                &&& target_time is None ==> (configured_duration matches Some(span)
                    ==> k.estimated_end == Some(stepped(t.started_at, span.nanos as int)))
                &&& target_time is None && configured_duration is None ==> k.estimated_end is None
            }
        }),
{
}

/// Of an operation that runs on the greatest milestone of 25, 50 and 75 percent is told that it has
/// reached and that has not been told of, and its plate-solve result where it is a new one that has
/// not been shown; and nothing else.
pub proof fn running_operations_tell_their_milestones(
    t: TrackedSequenceOperation,
    item: Incoming,
    camera: Option<CameraInfo>,
    now: Moment,
    outputs: Seq<Seq<char>>,
    limit: nat,
)
    requires
        !another(t, item.operation),
        same_ignoring_case(item.operation.status@, "RUNNING"@),
    ensures
        ({
            let f = followed(t, Some(item), false, camera, now, outputs, limit);
            let k = f.kept->0;
            let shown = item.operation.chat_enabled && item.output_key != t.last_output_key && (
            item.output_key matches Some(key) && !outputs.contains(output_name(key)));
            let p = k.percent(now);
            let told: nat = if k.last_milestone != t.last_milestone {
                1
            } else {
                0
            };
            &&& f.notes.len() == told + (if shown {
                1nat
            } else {
                0nat
            })
            &&& told == 1 ==> f.notes[0].update == OperationUpdate::Progress(k.last_milestone)
            &&& shown ==> f.notes.last().update == OperationUpdate::Output
            &&& p matches Some(progress) ==> {
                &&& progress >= 75 && t.last_milestone <= 75 ==> k.last_milestone == 75
                &&& 50 <= progress < 75 && t.last_milestone <= 50 ==> k.last_milestone == 50
                &&& 25 <= progress < 50 && t.last_milestone <= 25 ==> k.last_milestone == 25
                &&& progress < 25 ==> k.last_milestone == t.last_milestone
            }
            &&& p is None ==> k.last_milestone == t.last_milestone
        }),
{
}

/// What was told of an operation is not told again: the same snapshot at the same time leaves it as
/// it is and says nothing.
pub proof fn a_snapshot_seen_again_tells_nothing(
    t: TrackedSequenceOperation,
    item: Incoming,
    camera: Option<CameraInfo>,
    now: Moment,
    outputs: Seq<Seq<char>>,
    limit: nat,
)
    requires
        !another(t, item.operation),
        same_ignoring_case(item.operation.status@, "RUNNING"@),
        t.last_milestone == 0 || t.last_milestone == 25 || t.last_milestone == 50
            || t.last_milestone == 75,
    ensures
        ({
            let f = followed(t, Some(item), false, camera, now, outputs, limit);
            let g = followed(f.kept->0, Some(item), false, camera, now, f.outputs, limit);
            g.notes.len() == 0 && g.kept == f.kept && g.outputs == f.outputs
        }),
{
}

/// An operation is followed from the time at which it was first seen running, with the camera's
/// first temperature where it heats or cools the camera. Where it was under way before anybody was
/// told, what it had reached counts as told.
pub proof fn operations_are_followed_from_their_first_sighting(
    item: Incoming,
    camera: Option<CameraInfo>,
    now: Moment,
)
    ensures
        ({
            let t = begun(item, camera, now, true);
            &&& t.operation == item.operation
            &&& t.started_at == now
            &&& t.last_milestone == 0
            &&& t.last_output_key == item.output_key
            &&& item.operation.kind is CameraCooling || item.operation.kind is CameraWarming ==> {
                &&& t.camera == camera
                &&& camera matches Some(c) ==> t.initial_temperature == (if c.temperature.finite() {
                    Some(c.temperature)
                } else {
                    None
                })
            }
            &&& !(item.operation.kind is CameraCooling || item.operation.kind is CameraWarming)
                ==> t.camera is None && t.initial_temperature is None
            &&& item.operation.kind matches SequenceOperationKind::CameraWarming { minimum_duration }
                ==> t.estimated_end == (match minimum_duration {
                Some(span) => Some(stepped(now, span.nanos as int)),
                None => None,
            })
            &&& item.operation.kind matches SequenceOperationKind::TimeWait {
                target_time,
                configured_duration,
            } ==> t.estimated_end == (match target_time {
                Some(end) => Some(end),
                None => match configured_duration {
                    Some(span) => Some(stepped(now, span.nanos as int)),
                    None => None,
                },
            })
            &&& !(item.operation.kind is CameraWarming || item.operation.kind is TimeWait)
                ==> t.estimated_end is None
        }),
        ({
            let t = begun(item, camera, now, false);
            let p = t.percent(now);
            &&& t == (TrackedSequenceOperation {
                last_milestone: t.last_milestone,
                ..begun(item, camera, now, true)
            })
            &&& p is None ==> t.last_milestone == 0
            &&& p matches Some(progress) ==> t.last_milestone <= progress && t.last_milestone + 25
                > (if progress > 99 {
                99
            } else {
                progress as int
            })
        }),
{
}

/// A sign of a centering counts for two minutes from when it was seen.
pub proof fn signs_of_centering_expire(seen: Moment, now: Moment)
    ensures
        elapsed_nanos(seen, now) <= 120_000_000_000 ==> fresh_center(Some(seen), now) == Some(seen),
        elapsed_nanos(seen, now) > 120_000_000_000 ==> fresh_center(Some(seen), now) is None,
        fresh_center(None, now) is None,
{
}

/// A slew that may be a centering becomes one with the same coordinates; any other operation stays
/// what it is.
pub proof fn only_doubtful_slews_become_centerings(kind: SequenceOperationKind)
    ensures
        kind matches SequenceOperationKind::MountSlew { coordinates, may_be_center } ==> {
            &&& may_be_center ==> (promoted(kind) matches SequenceOperationKind::MountCenter {
                coordinates: c,
                rotation,
                output,
            } && c == coordinates && rotation is None && output is None)
            &&& !may_be_center ==> promoted(kind) == kind
        },
        !(kind is MountSlew) ==> promoted(kind) == kind,
        promoted(promoted(kind)) == promoted(kind),
{
}

/// The first snapshot of a running operation starts to follow it and, where anybody is to be told,
/// says that it has started, unless it is not delivered. Without a sign of a centering nothing is
/// taken for one.
#[verifier::spinoff_prover]
pub proof fn first_snapshots_announce_the_start(
    board: BoardView,
    item: Incoming,
    suppressed: Seq<Seq<char>>,
    camera: Option<CameraInfo>,
    now: Moment,
)
    requires
        board.running.len() == 0,
        board.center is None,
        item.output_key is None,
    ensures
        ({
            let (b, notes) = reconciled(board, seq![item], suppressed, camera, now, true);
            let (c, silence) = reconciled(board, seq![item], suppressed, camera, now, false);
            let follows = same_ignoring_case(item.operation.status@, "RUNNING"@)
                && !suppressed.contains(item.operation.key@);
            &&& follows ==> b.running =~= seq![begun(item, camera, now, true)]
            &&& follows ==> c.running =~= seq![begun(item, camera, now, false)]
            &&& !follows ==> b.running.len() == 0 && c.running.len() == 0
            &&& follows && item.operation.chat_enabled ==> notes.len() == 1 && notes[0].update
                == OperationUpdate::Started && notes[0].running.operation == item.operation
            &&& !follows || !item.operation.chat_enabled ==> notes.len() == 0
            &&& silence.len() == 0
        }),
{
    let items = seq![item];
    reveal_with_fuel(admitted, 3);
    reveal_with_fuel(put, 3);
    reveal_with_fuel(begun_all, 3);
    reveal_with_fuel(followed_all, 3);
    reveal_with_fuel(running_at, 3);
    reveal_with_fuel(deliverable, 3);
    let none = Seq::<Incoming>::empty();
    assert(items.drop_last() =~= none);
    let incoming = admitted(items, suppressed, board.running);
    assert(recognized(item, board.running) == item);
    if suppressed.contains(item.operation.key@) {
        assert(incoming =~= none);
    } else {
        assert(incoming =~= items);
    }
    let first = followed_all(
        board.running,
        incoming,
        suppressed,
        camera,
        now,
        board.outputs,
        board.limit,
    );
    assert(first.running.len() == 0 && first.notes.len() == 0);
    let silent = begun_all(first, incoming, None, camera, now, false, board.limit);
    let loud = begun_all(first, incoming, None, camera, now, true, board.limit);
    if loud.notes.len() == 1 {
        assert(loud.notes.drop_last().len() == 0);
    }
}

/// A running operation that is gone from the snapshot is told of as ended and is not followed any
/// more; nothing else is told.
#[verifier::spinoff_prover]
pub proof fn empty_snapshots_end_the_operation(
    board: BoardView,
    suppressed: Seq<Seq<char>>,
    camera: Option<CameraInfo>,
    now: Moment,
)
    requires
        board.running.len() == 1,
        board.running[0].operation.chat_enabled,
        !suppressed.contains(board.running[0].operation.key@),
    ensures
        ({
            let (b, notes) = reconciled(board, Seq::empty(), suppressed, camera, now, true);
            &&& b.running.len() == 0
            &&& notes.len() == 1
            &&& notes[0].update == (OperationUpdate::Ended { attach_output: false })
            &&& notes[0].running.operation == board.running[0].operation
            &&& b.center == fresh_center(board.center, now)
        }),
{
    reveal_with_fuel(followed_all, 3);
    reveal_with_fuel(begun_all, 3);
    reveal_with_fuel(deliverable, 3);
    reveal_with_fuel(incoming_at, 2);
    let none = Seq::<Incoming>::empty();
    assert(admitted(none, suppressed, board.running) == none);
    assert(center_place(none, 0) == 0);
    let first = followed_all(
        board.running,
        none,
        suppressed,
        camera,
        now,
        board.outputs,
        board.limit,
    );
    assert(board.running.drop_last().len() == 0);
    assert(first.notes.len() == 1);
    assert(first.notes.drop_last().len() == 0);
}

/// A plate-solve result that a first snapshot shows is told of right after the start, unless it was
/// shown before, and is remembered.
#[verifier::spinoff_prover]
pub proof fn first_snapshots_show_new_results(
    board: BoardView,
    item: Incoming,
    key: u64,
    camera: Option<CameraInfo>,
    now: Moment,
)
    requires
        board.running.len() == 0,
        board.center is None,
        item.output_key == Some(key),
        item.operation.chat_enabled,
        same_ignoring_case(item.operation.status@, "RUNNING"@),
    ensures
        ({
            let (b, notes) = reconciled(board, seq![item], Seq::empty(), camera, now, true);
            let fresh = !board.outputs.contains(output_name(key));
            &&& b.running =~= seq![begun(item, camera, now, true)]
            &&& fresh ==> notes.len() == 2 && notes[0].update == OperationUpdate::Started
                && notes[1].update == OperationUpdate::Output
            &&& !fresh ==> notes.len() == 1 && notes[0].update == OperationUpdate::Started
            &&& b.outputs == after_sighting(board.outputs, output_name(key), board.limit)
        }),
{
    let items = seq![item];
    let none = Seq::<Incoming>::empty();
    let nobody = Seq::<Seq<char>>::empty();
    reveal_with_fuel(admitted, 3);
    reveal_with_fuel(put, 3);
    reveal_with_fuel(begun_all, 3);
    reveal_with_fuel(followed_all, 3);
    reveal_with_fuel(running_at, 3);
    reveal_with_fuel(deliverable, 4);
    assert(items.drop_last() =~= none);
    let incoming = admitted(items, nobody, board.running);
    assert(recognized(item, board.running) == item);
    assert(!nobody.contains(item.operation.key@));
    assert(incoming =~= items);
    let first = followed_all(
        board.running,
        incoming,
        nobody,
        camera,
        now,
        board.outputs,
        board.limit,
    );
    assert(first.running.len() == 0 && first.notes.len() == 0 && first.outputs == board.outputs);
    let loud = begun_all(first, incoming, None, camera, now, true, board.limit);
    let t = begun(item, camera, now, true);
    let started = OperationNote { running: t, update: OperationUpdate::Started };
    let output = OperationNote { running: t, update: OperationUpdate::Output };
    if board.outputs.contains(output_name(key)) {
        assert(loud.notes =~= seq![started]);
        assert(loud.notes.drop_last() =~= Seq::<OperationNote>::empty());
        assert(deliverable(loud.notes) =~= seq![started]);
    } else {
        assert(loud.notes =~= seq![started, output]);
        assert(loud.notes.drop_last() =~= seq![started]);
        assert(seq![started].drop_last() =~= Seq::<OperationNote>::empty());
        assert(deliverable(loud.notes) =~= seq![started, output]);
    }
}

/// After a fresh sign of a centering, a running slew that may be one is taken for it: it is
/// followed as a centering, its start is not told of again, and the sign is spent. A plain slew is
/// not, and leaves the sign.
#[verifier::spinoff_prover]
pub proof fn signs_of_centering_are_spent_on_doubtful_slews(
    board: BoardView,
    item: Incoming,
    seen: Moment,
    camera: Option<CameraInfo>,
    now: Moment,
)
    requires
        board.running.len() == 0,
        board.center == Some(seen),
        elapsed_nanos(seen, now) <= 120_000_000_000,
        item.output_key is None,
        item.operation.chat_enabled,
        same_ignoring_case(item.operation.status@, "RUNNING"@),
        item.operation.kind is MountSlew,
    ensures
        ({
            let (b, notes) = reconciled(board, seq![item], Seq::empty(), camera, now, true);
            let doubtful = item.operation.kind->MountSlew_may_be_center;
            &&& b.running.len() == 1
            &&& doubtful ==> b.running[0].operation.kind is MountCenter && b.center is None
                && notes.len() == 0
            &&& !doubtful ==> b.running[0].operation == item.operation && b.center == Some(seen)
                && notes.len() == 1 && notes[0].update == OperationUpdate::Started
        }),
{
    let items = seq![item];
    let none = Seq::<Incoming>::empty();
    let nobody = Seq::<Seq<char>>::empty();
    reveal_with_fuel(admitted, 3);
    reveal_with_fuel(put, 3);
    reveal_with_fuel(begun_all, 3);
    reveal_with_fuel(followed_all, 3);
    reveal_with_fuel(running_at, 3);
    reveal_with_fuel(deliverable, 3);
    reveal_with_fuel(center_place, 3);
    assert(items.drop_last() =~= none);
    let incoming = admitted(items, nobody, board.running);
    assert(recognized(item, board.running) == item);
    assert(!nobody.contains(item.operation.key@));
    assert(incoming =~= items);
    let promoted_items = seq![promoted_item(item)];
    assert(incoming.update(0, promoted_item(item)) =~= promoted_items);
    assert(promoted_items.drop_last() =~= none);
    let key = item.operation.key@;
    assert(with_center(board.running, key) =~= board.running);
    let first = followed_all(
        board.running,
        incoming,
        nobody,
        camera,
        now,
        board.outputs,
        board.limit,
    );
    let second = followed_all(
        board.running,
        promoted_items,
        nobody,
        camera,
        now,
        board.outputs,
        board.limit,
    );
    assert(first.running.len() == 0 && first.notes.len() == 0);
    assert(second.running.len() == 0 && second.notes.len() == 0);
    let loud = begun_all(first, incoming, None, camera, now, true, board.limit);
    let quiet = begun_all(second, promoted_items, Some(key), camera, now, true, board.limit);
    if loud.notes.len() == 1 {
        assert(loud.notes.drop_last().len() == 0);
    }
}

/// What is told is told of delivered operations only, in order, and nothing of them is left out.
pub proof fn only_delivered_operations_are_told_of(notes: Seq<OperationNote>)
    ensures
        forall|i: int|
            0 <= i < deliverable(notes).len() ==> (#[trigger] deliverable(
                notes,
            )[i]).running.operation.chat_enabled,
        (forall|i: int|
            0 <= i < notes.len() ==> (#[trigger] notes[i]).running.operation.chat_enabled)
            ==> deliverable(notes) == notes,
    decreases notes.len(),
{
    if notes.len() > 0 {
        only_delivered_operations_are_told_of(notes.drop_last());
        if forall|i: int|
            0 <= i < notes.len() ==> (#[trigger] notes[i]).running.operation.chat_enabled {
            let front = notes.drop_last();
            assert forall|i: int| 0 <= i < front.len() implies (
            #[trigger] front[i]).running.operation.chat_enabled by {
                assert(front[i] == notes[i]);
            }
            assert(notes.last() == notes[notes.len() - 1]);
            assert(front.push(notes.last()) =~= notes);
        }
    }
}

} // verus!
