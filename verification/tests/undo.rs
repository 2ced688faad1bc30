use vaic::actions::{undo_move, Action, ActionList, UndoOutcome};
use vaic::constraints::handle_constraints::ConstraintEvent;
use vaic::constraints::ConstraintData;
use vaic::scene::{SceneEdit, SceneHandle, Transform, Vec3};

fn placed(name: &str, id: u64) -> Action {
    Action::Placed(name.to_string(), SceneHandle(id))
}

fn shifted(x: f32) -> Transform {
    Transform::from_translation(Vec3::new(x.to_bits(), 0, 0))
}

#[test]
fn undo_on_empty_log_does_nothing() {
    let mut log = ActionList::new();
    assert_eq!(log.undo(), UndoOutcome::NothingToUndo);
    assert_eq!(log, ActionList(vec![]));
}

#[test]
fn undo_on_boundaries_only_does_nothing() {
    let mut log = ActionList(vec![Action::SessionBoundary, Action::SessionBoundary]);
    let outcome = log.undo();
    assert_eq!(outcome, UndoOutcome::NothingToUndo);
    assert_eq!(outcome.scene_edit(), SceneEdit::Nothing);
    assert!(!outcome.log_changed());
    assert_eq!(outcome.diagnostic(), None);
    assert_eq!(log, ActionList(vec![Action::SessionBoundary, Action::SessionBoundary]));
}

#[test]
fn undo_reverses_placement_of_cube() {
    let mut log = ActionList::new();
    log.push(placed("Cube", 7));
    let outcome = log.undo();
    assert_eq!(outcome, UndoOutcome::Undone(SceneEdit::Destroy(SceneHandle(7))));
    assert!(outcome.log_changed());
    assert_eq!(log, ActionList(vec![Action::SessionBoundary]));
}

#[test]
fn undo_compacts_boundaries() {
    let mut log = ActionList(vec![
        placed("X", 1),
        Action::SessionBoundary,
        Action::SessionBoundary,
        placed("Y", 2),
    ]);
    let outcome = log.undo();
    assert_eq!(outcome, UndoOutcome::Undone(SceneEdit::Destroy(SceneHandle(2))));
    assert_eq!(log, ActionList(vec![placed("X", 1), Action::SessionBoundary]));
}

#[test]
fn undo_skips_boundaries_behind_the_last_action() {
    let mut log = ActionList(vec![
        placed("X", 1),
        placed("Y", 2),
        Action::SessionBoundary,
        Action::SessionBoundary,
    ]);
    let outcome = log.undo();
    assert_eq!(outcome, UndoOutcome::Undone(SceneEdit::Destroy(SceneHandle(2))));
    assert_eq!(log, ActionList(vec![placed("X", 1), Action::SessionBoundary]));
}

#[test]
fn undo_keeps_boundaries_between_earlier_actions() {
    let mut log = ActionList(vec![
        placed("X", 1),
        Action::SessionBoundary,
        placed("Y", 2),
        Action::SessionBoundary,
        placed("Z", 3),
    ]);
    log.undo();
    assert_eq!(
        log,
        ActionList(vec![
            placed("X", 1),
            Action::SessionBoundary,
            placed("Y", 2),
            Action::SessionBoundary,
        ])
    );
}

#[test]
fn repeated_undo_empties_the_log_down_to_one_boundary() {
    let mut log = ActionList(vec![placed("X", 1), Action::SessionBoundary, placed("Y", 2)]);
    assert_eq!(log.undo(), UndoOutcome::Undone(SceneEdit::Destroy(SceneHandle(2))));
    assert_eq!(log.undo(), UndoOutcome::Undone(SceneEdit::Destroy(SceneHandle(1))));
    assert_eq!(log, ActionList(vec![Action::SessionBoundary]));
    assert_eq!(log.undo(), UndoOutcome::NothingToUndo);
    assert_eq!(log, ActionList(vec![Action::SessionBoundary]));
}

#[test]
fn undo_restores_the_snapshot_of_a_constraint() {
    let event = ConstraintEvent::new(
        ConstraintData { transform: shifted(0.29) },
        SceneHandle(1),
        ConstraintData { transform: shifted(-0.55) },
        SceneHandle(2),
    );
    let before = shifted(3.5);
    let mut log = ActionList(vec![placed("A", 1), placed("B", 2)]);
    log.push(Action::Constrained(event, before));
    let outcome = log.undo();
    assert_eq!(outcome, UndoOutcome::Undone(SceneEdit::SetTransform(SceneHandle(1), before)));
    assert_eq!(log, ActionList(vec![placed("A", 1), placed("B", 2), Action::SessionBoundary]));
}

#[test]
fn undo_of_delete_is_refused() {
    let deleted = Action::Deleted(SceneHandle(4), "Cube".to_string(), shifted(1.0));
    let mut log = ActionList(vec![placed("Cube", 4), deleted.clone(), Action::SessionBoundary]);
    let outcome = log.undo();
    assert_eq!(outcome, UndoOutcome::Unsupported);
    assert_eq!(outcome.scene_edit(), SceneEdit::Nothing);
    assert!(!outcome.log_changed());
    assert_eq!(outcome.diagnostic(), Some("Undoing a delete isn't supported yet!"));
    assert_eq!(log, ActionList(vec![placed("Cube", 4), deleted, Action::SessionBoundary]));
}

#[test]
fn undo_gesture_needs_both_keys() {
    let mut log = ActionList(vec![placed("Cube", 7)]);
    assert_eq!(undo_move(&mut log, true, false), None);
    assert_eq!(undo_move(&mut log, false, true), None);
    assert_eq!(undo_move(&mut log, false, false), None);
    assert_eq!(log, ActionList(vec![placed("Cube", 7)]));
    assert_eq!(
        undo_move(&mut log, true, true),
        Some(UndoOutcome::Undone(SceneEdit::Destroy(SceneHandle(7))))
    );
    assert_eq!(log, ActionList(vec![Action::SessionBoundary]));
}

#[test]
fn trimmed_len_finds_the_last_action() {
    assert_eq!(ActionList::new().trimmed_len(), 0);
    assert_eq!(ActionList(vec![Action::SessionBoundary]).trimmed_len(), 0);
    assert_eq!(ActionList(vec![placed("X", 1)]).trimmed_len(), 1);
    assert_eq!(
        ActionList(vec![Action::SessionBoundary, placed("X", 1), Action::SessionBoundary])
            .trimmed_len(),
        2
    );
}

#[test]
fn action_kinds_are_told_apart() {
    let event = ConstraintEvent::new(
        ConstraintData::default(),
        SceneHandle(1),
        ConstraintData::default(),
        SceneHandle(2),
    );
    let p = placed("Cube", 1);
    let c = Action::Constrained(event, Transform::identity());
    let d = Action::Deleted(SceneHandle(1), "Cube".to_string(), Transform::identity());
    let b = Action::SessionBoundary;
    assert!(p.is_placed() && !p.is_constrained() && !p.is_deleted() && !p.is_placeholder());
    assert!(!c.is_placed() && c.is_constrained() && !c.is_deleted() && !c.is_placeholder());
    assert!(!d.is_placed() && !d.is_constrained() && d.is_deleted() && !d.is_placeholder());
    assert!(!b.is_placed() && !b.is_constrained() && !b.is_deleted() && b.is_placeholder());
}

#[test]
fn action_hands_out_what_it_records() {
    let event = ConstraintEvent::new(
        ConstraintData { transform: shifted(2.0) },
        SceneHandle(1),
        ConstraintData::default(),
        SceneHandle(2),
    );
    let p = placed("Cube", 9);
    let c = Action::Constrained(event, Transform::identity());
    let part = p.placed().unwrap();
    assert_eq!(part.name, "Cube");
    assert_eq!(part.entity, SceneHandle(9));
    assert_eq!(p.constrained(), None);
    assert_eq!(c.constrained(), Some(event));
    assert_eq!(c.placed(), None);
    assert_eq!(Action::SessionBoundary.placed(), None);
    assert_eq!(Action::from(part), p);
    assert_eq!(p.clone(), p);
    assert_eq!(c.clone(), c);
}
