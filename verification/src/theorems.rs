//! What holds of the engine as a whole: how the picker, the aligner, the
//! action log and undo fit together.
//!
//! The scene object store appears as the map from each live part to its
//! transform; a step of the engine changes it through the request that the
//! step hands out.

use vstd::prelude::*;

use crate::actions::{
    last_action, lemma_trimmed_len, lemma_trimmed_len_is, trim, trimmed_len, undo_log,
    undo_outcome, ActionView, UndoOutcome,
};
use crate::constraints::handle_constraints::{
    aligner_step, log_after_aligner, ConstraintEvent,
};
use crate::scene::{Quat, SceneEdit, SceneHandle, SceneModel, Transform, Vec3};
use crate::ui::editor::parts_list::placed_labels;

verus! {

/// Number of entries of the log that record a placed part.
pub open spec fn count_placed(log: Seq<ActionView>) -> nat
    decreases log.len(),
{
    if log.len() == 0 {
        0
    } else if log.last() is Placed {
        count_placed(log.drop_last()) + 1
    } else {
        count_placed(log.drop_last())
    }
}

/// The log ends with a boundary, and the entry before it, if there is one,
/// is no boundary.
pub open spec fn ends_with_one_boundary(log: Seq<ActionView>) -> bool {
    &&& log.len() > 0
    &&& log.last() is SessionBoundary
    &&& trimmed_len(log) == log.len() - 1
}

/// Parts are placed first: no part is placed twice, and an entry names a
/// part only after the entry that placed it.
pub open spec fn parts_placed_first(log: Seq<ActionView>) -> bool {
    &&& forall|i: int, j: int|
        0 <= i < j < log.len() && log[i] is Placed && log[j] is Placed ==> log[i]->Placed_1
            != log[j]->Placed_1
    &&& forall|i: int, part: SceneHandle|
        0 <= i < log.len() && !(log[i] is Placed) && #[trigger] log[i].refers_to(part)
            ==> exists|j: int| 0 <= j < i && #[trigger] log[j] == ActionView::Placed(
                log[j]->Placed_0,
                part,
            )
}

/// What the store knows of a part: its transform while it is live.
pub open spec fn lookup(scene: SceneModel, part: SceneHandle) -> Option<Transform> {
    if scene.contains_key(part) {
        Some(scene[part])
    } else {
        None
    }
}

/// A pairing of two mounting points of one part does nothing: whatever pose
/// was computed, the store stays as it is, and no entry is appended to the
/// log.
pub proof fn self_pairing_changes_nothing(
    event: ConstraintEvent,
    log: Seq<ActionView>,
    scene: SceneModel,
    translation: Vec3,
    rotation: Quat,
)
    requires
        event.parents[0] == event.parents[1],
    ensures
        ({
            let moving = lookup(scene, event.parents[0]);
            let anchor_live = scene.contains_key(event.parents[1]);
            &&& aligner_step(event, moving, anchor_live).scene_after(scene, translation, rotation)
                == scene
            &&& log_after_aligner(log, event, moving, anchor_live) == log
        }),
{
}

/// A pairing that names a part which is gone does nothing either.
pub proof fn stale_pairing_changes_nothing(
    event: ConstraintEvent,
    log: Seq<ActionView>,
    scene: SceneModel,
    translation: Vec3,
    rotation: Quat,
)
    requires
        !scene.contains_key(event.parents[0]) || !scene.contains_key(event.parents[1]),
    ensures
        ({
            let moving = lookup(scene, event.parents[0]);
            let anchor_live = scene.contains_key(event.parents[1]);
            &&& aligner_step(event, moving, anchor_live).scene_after(scene, translation, rotation)
                == scene
            &&& log_after_aligner(log, event, moving, anchor_live) == log
        }),
{
}

/// A boundary is never the action that undo reverses.
pub proof fn last_action_is_no_boundary(log: Seq<ActionView>)
    ensures
        !(last_action(log) matches Some(ActionView::SessionBoundary)),
        last_action(log) is None <==> forall|i: int|
            0 <= i < log.len() ==> #[trigger] log[i] is SessionBoundary,
{
    lemma_trimmed_len(log);
    if forall|i: int| 0 <= i < log.len() ==> #[trigger] log[i] is SessionBoundary {
        lemma_trimmed_len_is(log, 0);
    }
}

/// Undo on a log that holds nothing but boundaries, the empty log among
/// them, leaves the log and the store as they are.
pub proof fn undo_without_actions_changes_nothing(log: Seq<ActionView>, scene: SceneModel)
    requires
        forall|i: int| 0 <= i < log.len() ==> #[trigger] log[i] is SessionBoundary,
    ensures
        undo_log(log) == log,
        undo_outcome(log) == UndoOutcome::NothingToUndo,
        undo_outcome(log).edit().apply(scene) == scene,
{
    lemma_trimmed_len_is(log, 0);
}

/// Undo of a delete is not supported: the log and the store stay as they
/// are, the entry stays in the log.
pub proof fn undo_of_delete_changes_nothing(log: Seq<ActionView>, scene: SceneModel)
    requires
        last_action(log) matches Some(ActionView::Deleted(_, _, _)),
    ensures
        undo_log(log) == log,
        undo_outcome(log) == UndoOutcome::Unsupported,
        undo_outcome(log).edit().apply(scene) == scene,
{
}

/// The log after an undo that reversed an action: what stood before that
/// action, without the boundaries at its end, and then one boundary.
pub proof fn undo_compacts_boundaries(log: Seq<ActionView>)
    requires
        last_action(log) is Some,
        !(last_action(log) matches Some(ActionView::Deleted(_, _, _))),
    ensures
        undo_log(log) == trim(log.take(trimmed_len(log) - 1)).push(ActionView::SessionBoundary),
        ends_with_one_boundary(undo_log(log)),
        undo_log(log).len() <= log.len(),
{
    lemma_trimmed_len(log);
    let n = trimmed_len(log) as int;
    let removed = log.remove(n - 1);
    let before = log.take(n - 1);
    lemma_trimmed_len(before);
    let kept = trimmed_len(before) as int;
    assert forall|i: int| kept <= i < removed.len() implies #[trigger] removed[i]
        is SessionBoundary by {
        if i < n - 1 {
            assert(before[i] is SessionBoundary);
        } else {
            assert(removed[i] == log[i + 1]);
        }
    }
    if kept > 0 {
        assert(removed[kept - 1] == before[kept - 1]);
    }
    lemma_trimmed_len_is(removed, kept);
    assert(trim(removed) =~= trim(before));
    let after = undo_log(log);
    assert(after == trim(before).push(ActionView::SessionBoundary));
    assert forall|i: int| kept <= i < after.len() implies #[trigger] after[i]
        is SessionBoundary by {}
    if kept > 0 {
        assert(after[kept - 1] == before[kept - 1]);
    }
    lemma_trimmed_len_is(after, kept);
}

/// The log with two sessions closed in a row before the last placed part:
/// undo removes that part and both boundaries, and closes the session once.
pub proof fn undo_drops_empty_sessions(first: ActionView, second: ActionView)
    requires
        first is Placed,
        second is Placed,
    ensures
        undo_log(seq![first, ActionView::SessionBoundary, ActionView::SessionBoundary, second])
            == seq![first, ActionView::SessionBoundary],
{
    let log = seq![first, ActionView::SessionBoundary, ActionView::SessionBoundary, second];
    lemma_trimmed_len_is(log, 4);
    undo_compacts_boundaries(log);
    let before = log.take(3);
    lemma_trimmed_len_is(before, 1);
    assert(trim(before).push(ActionView::SessionBoundary) =~= seq![
        first,
        ActionView::SessionBoundary,
    ]);
}

/// Cutting boundaries off the end of the log removes no placed part.
pub proof fn trim_keeps_placed(log: Seq<ActionView>)
    ensures
        count_placed(trim(log)) == count_placed(log),
    decreases log.len(),
{
    if log.len() > 0 && log.last() is SessionBoundary {
        trim_keeps_placed(log.drop_last());
        lemma_trimmed_len(log.drop_last());
        assert(trim(log) =~= trim(log.drop_last()));
    } else {
        assert(trim(log) =~= log);
    }
}

/// Cutting boundaries off the end of the log changes nothing in the list of
/// placed parts.
pub proof fn trim_keeps_placed_labels(log: Seq<ActionView>)
    ensures
        placed_labels(trim(log)) == placed_labels(log),
    decreases log.len(),
{
    if log.len() > 0 && log.last() is SessionBoundary {
        trim_keeps_placed_labels(log.drop_last());
        lemma_trimmed_len(log.drop_last());
        assert(trim(log) =~= trim(log.drop_last()));
    } else {
        assert(trim(log) =~= log);
    }
}

/// The list of placed parts after an undo: without its newest label where a
/// placement was reversed, unchanged in every other case.
pub proof fn undo_updates_parts_list(log: Seq<ActionView>)
    ensures
        placed_labels(undo_log(log)) == if last_action(log) is Some && last_action(log).unwrap()
            is Placed {
            placed_labels(log).drop_last()
        } else {
            placed_labels(log)
        },
{
    lemma_trimmed_len(log);
    let n = trimmed_len(log) as int;
    if n > 0 && !(log[n - 1] is Deleted) {
        undo_compacts_boundaries(log);
        let before = log.take(n - 1);
        let after = undo_log(log);
        trim_keeps_placed_labels(before);
        assert(after.drop_last() =~= trim(before));
        trim_keeps_placed_labels(log);
        assert(trim(log).drop_last() =~= before);
        if log[n - 1] is Placed {
            assert(placed_labels(trim(log)).drop_last() =~= placed_labels(before));
        }
    }
}

/// Undo right after a part was placed: the part leaves the store, the log
/// loses exactly the one entry that recorded it, and ends with exactly one
/// boundary.
pub proof fn undo_reverses_placement(
    log: Seq<ActionView>,
    scene: SceneModel,
    name: Seq<char>,
    part: SceneHandle,
)
    ensures
        ({
            let logged = log.push(ActionView::Placed(name, part));
            let outcome = undo_outcome(logged);
            &&& outcome == UndoOutcome::Undone(SceneEdit::Destroy(part))
            &&& !outcome.edit().apply(scene).contains_key(part)
            &&& forall|other: SceneHandle|
                other != part ==> (outcome.edit().apply(scene).contains_key(other)
                    <==> scene.contains_key(other))
            &&& undo_log(logged) == trim(log).push(ActionView::SessionBoundary)
            &&& count_placed(undo_log(logged)) + 1 == count_placed(logged)
            &&& ends_with_one_boundary(undo_log(logged))
        }),
{
    let logged = log.push(ActionView::Placed(name, part));
    lemma_trimmed_len_is(logged, logged.len() as int);
    undo_compacts_boundaries(logged);
    assert(logged.take(logged.len() - 1) =~= log);
    assert(logged.drop_last() =~= log);
    trim_keeps_placed(log);
    let after = trim(log).push(ActionView::SessionBoundary);
    assert(after.drop_last() =~= trim(log));
}

/// Whether the log holds the entry that placed this part.
pub open spec fn is_placed_in(log: Seq<ActionView>, part: SceneHandle) -> bool {
    exists|j: int|
        0 <= j < log.len() && #[trigger] log[j] == ActionView::Placed(log[j]->Placed_0, part)
}

/// Whether some entry of the log names this part.
pub open spec fn is_named_in(log: Seq<ActionView>, part: SceneHandle) -> bool {
    exists|i: int| 0 <= i < log.len() && (#[trigger] log[i]).refers_to(part)
}

/// A log in which parts are placed first stays one when an entry is
/// appended that the engine may append: a boundary, the placement of a part
/// that the log does not name yet, or a pairing or a delete of parts that
/// the log has placed.
pub proof fn append_keeps_parts_placed_first(log: Seq<ActionView>, entry: ActionView)
    requires
        parts_placed_first(log),
        entry matches ActionView::Placed(_, part) ==> !is_named_in(log, part),
        forall|part: SceneHandle|
            !(entry is Placed) && #[trigger] entry.refers_to(part) ==> is_placed_in(log, part),
    ensures
        parts_placed_first(log.push(entry)),
{
    let longer = log.push(entry);
    assert forall|i: int, j: int|
        0 <= i < j < longer.len() && longer[i] is Placed && longer[j] is Placed implies longer[i]->Placed_1
        != longer[j]->Placed_1 by {
        if j == log.len() {
            assert(log[i].refers_to(log[i]->Placed_1));
        }
    }
    assert forall|i: int, part: SceneHandle|
        0 <= i < longer.len() && !(longer[i] is Placed) && #[trigger] longer[i].refers_to(
            part,
        ) implies exists|j: int|
        0 <= j < i && #[trigger] longer[j] == ActionView::Placed(longer[j]->Placed_0, part) by {
        if i < log.len() {
            let j = choose|j: int|
                0 <= j < i && #[trigger] log[j] == ActionView::Placed(log[j]->Placed_0, part);
            assert(longer[j] == log[j]);
        } else {
            let j = choose|j: int|
                0 <= j < log.len() && #[trigger] log[j] == ActionView::Placed(
                    log[j]->Placed_0,
                    part,
                );
            assert(longer[j] == log[j]);
        }
    }
}

/// A log in which parts are placed first stays one when it is cut short.
pub proof fn prefix_keeps_parts_placed_first(log: Seq<ActionView>, len: int)
    requires
        parts_placed_first(log),
        0 <= len <= log.len(),
    ensures
        parts_placed_first(log.take(len)),
{
    let shorter = log.take(len);
    assert forall|i: int, part: SceneHandle|
        0 <= i < shorter.len() && !(shorter[i] is Placed) && #[trigger] shorter[i].refers_to(
            part,
        ) implies exists|j: int|
        0 <= j < i && #[trigger] shorter[j] == ActionView::Placed(shorter[j]->Placed_0, part) by {
        assert(shorter[i] == log[i]);
        let j = choose|j: int|
            0 <= j < i && #[trigger] log[j] == ActionView::Placed(log[j]->Placed_0, part);
        assert(shorter[j] == log[j]);
    }
    assert forall|i: int, j: int|
        0 <= i < j < shorter.len() && shorter[i] is Placed && shorter[j] is Placed implies shorter[i]->Placed_1
        != shorter[j]->Placed_1 by {
        assert(shorter[i] == log[i] && shorter[j] == log[j]);
    }
}

/// Undo keeps a log in which parts are placed first as one.
pub proof fn undo_keeps_parts_placed_first(log: Seq<ActionView>)
    requires
        parts_placed_first(log),
    ensures
        parts_placed_first(undo_log(log)),
{
    lemma_trimmed_len(log);
    let n = trimmed_len(log) as int;
    if n > 0 && !(log[n - 1] is Deleted) {
        undo_compacts_boundaries(log);
        let before = log.take(n - 1);
        lemma_trimmed_len(before);
        let kept = trimmed_len(before) as int;
        assert(trim(before) =~= log.take(kept));
        prefix_keeps_parts_placed_first(log, kept);
        append_keeps_parts_placed_first(log.take(kept), ActionView::SessionBoundary);
    }
}

/// In a log in which parts are placed first, undo of a placement leaves no
/// entry behind that names the destroyed part.
pub proof fn undo_leaves_no_dangling_reference(log: Seq<ActionView>, part: SceneHandle)
    requires
        parts_placed_first(log),
        last_action(log) is Some,
        last_action(log).unwrap() is Placed,
        last_action(log).unwrap()->Placed_1 == part,
    ensures
        !is_named_in(undo_log(log), part),
{
    lemma_trimmed_len(log);
    undo_compacts_boundaries(log);
    let n = trimmed_len(log) as int;
    let before = log.take(n - 1);
    lemma_trimmed_len(before);
    let kept = trimmed_len(before) as int;
    let after = undo_log(log);
    assert forall|i: int| 0 <= i < after.len() implies !(#[trigger] after[i]).refers_to(part) by {
        if i < kept {
            assert(after[i] == log[i]);
            if log[i].refers_to(part) {
                if !(log[i] is Placed) {
                    let j = choose|j: int|
                        0 <= j < i && #[trigger] log[j] == ActionView::Placed(
                            log[j]->Placed_0,
                            part,
                        );
                    assert(log[j] is Placed && log[n - 1] is Placed);
                }
            }
        }
    }
}

/// Undo right after two parts were joined: the moving part gets back, bit
/// for bit, the transform it had before it was aligned, whatever pose the
/// alignment gave it, and the rest of the store is as it was.
pub proof fn undo_reverses_constraint(
    log: Seq<ActionView>,
    scene: SceneModel,
    event: ConstraintEvent,
    translation: Vec3,
    rotation: Quat,
)
    requires
        event.parents[0] != event.parents[1],
        scene.contains_key(event.parents[0]),
        scene.contains_key(event.parents[1]),
    ensures
        ({
            let moving = event.parents[0];
            let step = aligner_step(event, lookup(scene, moving), true);
            let logged = log_after_aligner(log, event, lookup(scene, moving), true);
            let aligned = step.scene_after(scene, translation, rotation);
            let outcome = undo_outcome(logged);
            &&& step.aligns()
            &&& logged == log.push(ActionView::Constrained(event, scene[moving]))
            &&& aligned[moving].translation == translation
            &&& aligned[moving].rotation == rotation
            &&& aligned[moving].scale == scene[moving].scale
            &&& outcome == UndoOutcome::Undone(SceneEdit::SetTransform(moving, scene[moving]))
            &&& outcome.edit().apply(aligned)[moving] == scene[moving]
            &&& outcome.edit().apply(aligned) == scene
            &&& undo_log(logged) == trim(log).push(ActionView::SessionBoundary)
        }),
{
    let moving = event.parents[0];
    let logged = log.push(ActionView::Constrained(event, scene[moving]));
    lemma_trimmed_len_is(logged, logged.len() as int);
    undo_compacts_boundaries(logged);
    assert(logged.take(logged.len() - 1) =~= log);
    let step = aligner_step(event, Some(scene[moving]), true);
    let aligned = step.scene_after(scene, translation, rotation);
    assert(undo_outcome(logged).edit().apply(aligned) =~= scene);
}

} // verus!
