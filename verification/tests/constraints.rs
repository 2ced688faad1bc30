use vaic::actions::{Action, ActionList, UndoOutcome};
use vaic::constraints::add_constraints::{
    add_constraints_event, get_constraint_data, AddConstraintsEvent,
};
use vaic::constraints::handle_constraints::{
    handle_constraint_event, select_constraints, AlignerStep, Alignment, ConstraintEvent,
    Highlight, HighlightUpdate, MarkerHit, Pointer,
};
use vaic::constraints::ui::{
    track_moving_window_state, CurrentConstraintOperation, MovingWindowState,
};
use vaic::constraints::{check_for_c, exit_constrain, ConstrainState, ConstraintData};
use vaic::placing::PlacingState;
use vaic::scene::{Quat, SceneEdit, SceneHandle, Transform, Vec3};

fn vec3(x: f32, y: f32, z: f32) -> Vec3 {
    Vec3::new(x.to_bits(), y.to_bits(), z.to_bits())
}

fn data(x: f32) -> ConstraintData {
    ConstraintData { transform: Transform::from_translation(vec3(x, 0.0, 0.0)) }
}

fn over(marker: u64, parent: u64, x: f32) -> Pointer {
    Pointer::Over(MarkerHit {
        marker: SceneHandle(marker),
        pick: Some((SceneHandle(parent), data(x))),
    })
}

#[test]
fn identity_transform_holds_the_bits_of_zero_and_one() {
    let t = Transform::identity();
    assert_eq!(t.translation, vec3(0.0, 0.0, 0.0));
    assert_eq!(t.scale, vec3(1.0, 1.0, 1.0));
    assert_eq!(t.rotation, Quat::from_xyzw(0, 0, 0, 1.0f32.to_bits()));
    assert_eq!(Transform::default(), t);
    assert_eq!(Vec3::zero(), vec3(0.0, 0.0, 0.0));
    assert_eq!(Vec3::one(), vec3(1.0, 1.0, 1.0));
    assert_eq!(Quat::identity(), t.rotation);
    let moved = Transform::from_translation(vec3(1.5, -2.0, 0.25));
    assert_eq!(moved.translation, vec3(1.5, -2.0, 0.25));
    assert_eq!(moved.rotation, t.rotation);
    assert_eq!(moved.scale, t.scale);
}

#[test]
fn c_channel_has_five_constraint_points() {
    let points = get_constraint_data("2x1 C-Channel");
    assert_eq!(points.len(), 5);
    let quarter = Quat::from_xyzw(
        0,
        0,
        std::f32::consts::FRAC_1_SQRT_2.to_bits(),
        std::f32::consts::FRAC_1_SQRT_2.to_bits(),
    );
    let one = vec3(1.0, 1.0, 1.0);
    assert_eq!(points[0].transform, Transform::from_translation(vec3(0.29, 0.035, 0.0)));
    assert_eq!(points[1].transform, Transform::from_translation(vec3(-0.29, 0.035, 0.0)));
    assert_eq!(points[2].transform, Transform::from_translation(vec3(0.0, 0.035, -0.29)));
    assert_eq!(
        points[3].transform,
        Transform { translation: vec3(-0.55, 0.365, 0.0), rotation: quarter, scale: one }
    );
    assert_eq!(
        points[4].transform,
        Transform { translation: vec3(0.55, 0.365, 0.0), rotation: quarter, scale: one }
    );
    assert_eq!(get_constraint_data("2x25 C-Channel"), points);
}

#[test]
fn quarter_turn_matches_the_half_angle_sine_and_cosine() {
    let points = get_constraint_data("2x1 C-Channel");
    let rotation = points[3].transform.rotation;
    let half_angle = std::f32::consts::PI / 2.0 * 0.5;
    assert!((f32::from_bits(rotation.z) - half_angle.sin()).abs() <= f32::EPSILON);
    assert!((f32::from_bits(rotation.w) - half_angle.cos()).abs() <= f32::EPSILON);
    assert_eq!(f32::from_bits(rotation.x), 0.0);
    assert_eq!(f32::from_bits(rotation.y), 0.0);
}

#[test]
fn unknown_prototype_has_no_constraint_points() {
    assert_eq!(get_constraint_data("Unknown-Part"), vec![]);
    assert_eq!(get_constraint_data("Cube"), vec![]);
    assert_eq!(get_constraint_data(""), vec![]);
}

#[test]
fn markers_are_spawned_hidden_and_neutral() {
    let batch = add_constraints_event(
        &AddConstraintsEvent(SceneHandle(3)),
        "models/c-channel-1x2x1x1.glb#Scene0",
    );
    assert_eq!(batch.parent, SceneHandle(3));
    assert_eq!(batch.diagnostic, None);
    let points = get_constraint_data("2x1 C-Channel");
    assert_eq!(batch.markers.len(), 5);
    for (marker, point) in batch.markers.iter().zip(points.iter()) {
        assert_eq!(marker.transform, point.transform);
        assert!(!marker.visible);
        assert_eq!(marker.highlight, Highlight::Neutral);
    }
    let by_label = add_constraints_event(&AddConstraintsEvent(SceneHandle(3)), "2x25 C-Channel");
    assert_eq!(by_label.markers, batch.markers);
}

#[test]
fn unknown_prototype_gets_a_diagnostic_and_no_marker() {
    let batch = add_constraints_event(&AddConstraintsEvent(SceneHandle(3)), "Unknown-Part");
    assert_eq!(batch.parent, SceneHandle(3));
    assert!(batch.markers.is_empty());
    assert_eq!(batch.diagnostic, Some("Unknown-Part has no constraints!".to_string()));
    let cube = add_constraints_event(&AddConstraintsEvent(SceneHandle(4)), "models/cube.glb#Scene0");
    assert!(cube.markers.is_empty());
    assert_eq!(cube.diagnostic, Some("Cube has no constraints!".to_string()));
}

#[test]
fn two_presses_make_one_event() {
    let mut op = CurrentConstraintOperation::empty();
    let first = select_constraints(&mut op, over(10, 1, 0.5), true);
    assert_eq!(first.highlight, HighlightUpdate::Mark(SceneHandle(10), Highlight::Selected));
    assert_eq!(first.event, None);
    assert_eq!(
        op,
        CurrentConstraintOperation {
            constraints: [Some(data(0.5)), None],
            parents: [Some(SceneHandle(1)), None],
        }
    );
    assert!(op.is_well_formed());
    assert_eq!(op.to_event(), None);
    let second = select_constraints(&mut op, over(20, 2, 0.75), true);
    assert_eq!(second.highlight, HighlightUpdate::Mark(SceneHandle(20), Highlight::Selected));
    assert_eq!(
        second.event,
        Some(ConstraintEvent {
            constraints: [data(0.5), data(0.75)],
            parents: [SceneHandle(1), SceneHandle(2)],
        })
    );
    assert_eq!(op, CurrentConstraintOperation::empty());
}

#[test]
fn pointer_without_press_only_hovers() {
    let mut op = CurrentConstraintOperation::empty();
    select_constraints(&mut op, over(10, 1, 0.5), true);
    let held = op;
    let hover = select_constraints(&mut op, over(20, 2, 0.75), false);
    assert_eq!(hover.highlight, HighlightUpdate::Mark(SceneHandle(20), Highlight::Hovered));
    assert_eq!(hover.event, None);
    assert_eq!(op, held);
}

#[test]
fn pointer_off_the_markers_resets_highlights() {
    let mut op = CurrentConstraintOperation::empty();
    select_constraints(&mut op, over(10, 1, 0.5), true);
    let held = op;
    let miss = select_constraints(&mut op, Pointer::Miss, true);
    assert_eq!(miss.highlight, HighlightUpdate::ResetAll);
    assert_eq!(miss.event, None);
    assert_eq!(op, held);
    let no_ray = select_constraints(&mut op, Pointer::NoRay, true);
    assert_eq!(no_ray.highlight, HighlightUpdate::Keep);
    assert_eq!(no_ray.event, None);
    assert_eq!(op, held);
}

#[test]
fn unresolved_marker_is_highlighted_but_not_picked() {
    let mut op = CurrentConstraintOperation::empty();
    let hit = Pointer::Over(MarkerHit { marker: SceneHandle(10), pick: None });
    let selection = select_constraints(&mut op, hit, true);
    assert_eq!(selection.highlight, HighlightUpdate::Mark(SceneHandle(10), Highlight::Selected));
    assert_eq!(selection.event, None);
    assert_eq!(op, CurrentConstraintOperation::empty());
}

#[test]
fn picker_pairs_points_of_one_part_and_aligner_drops_them() {
    let mut op = CurrentConstraintOperation::empty();
    select_constraints(&mut op, over(10, 1, 0.5), true);
    let event = select_constraints(&mut op, over(11, 1, 0.75), true).event.unwrap();
    assert!(event.is_self_pairing());
    let mut log = ActionList(vec![Action::SessionBoundary]);
    let step = handle_constraint_event(event, Some(Transform::identity()), true, &mut log);
    assert_eq!(step, AlignerStep::SelfPairing);
    assert_eq!(log, ActionList(vec![Action::SessionBoundary]));
}

#[test]
fn working_state_converts_only_when_full() {
    assert_eq!(CurrentConstraintOperation::default(), CurrentConstraintOperation::empty());
    assert_eq!(CurrentConstraintOperation::empty().to_event(), None);
    let full = CurrentConstraintOperation {
        constraints: [Some(data(1.0)), Some(data(2.0))],
        parents: [Some(SceneHandle(1)), Some(SceneHandle(2))],
    };
    assert!(full.is_well_formed());
    assert_eq!(
        full.to_event(),
        Some(ConstraintEvent::new(data(1.0), SceneHandle(1), data(2.0), SceneHandle(2)))
    );
    let broken = CurrentConstraintOperation {
        constraints: [Some(data(1.0)), None],
        parents: [None, None],
    };
    assert!(!broken.is_well_formed());
    let gap = CurrentConstraintOperation {
        constraints: [None, Some(data(1.0))],
        parents: [None, Some(SceneHandle(1))],
    };
    assert!(!gap.is_well_formed());
    let mut op = full;
    op.reset();
    assert_eq!(op, CurrentConstraintOperation::empty());
}

#[test]
fn aligner_logs_the_pairing_with_the_pose_before() {
    let event = ConstraintEvent::new(data(0.5), SceneHandle(1), data(0.75), SceneHandle(2));
    let before = Transform {
        translation: vec3(1.0, 2.0, 3.0),
        rotation: Quat::identity(),
        scale: vec3(2.0, 2.0, 2.0),
    };
    let mut log = ActionList::new();
    let step = handle_constraint_event(event, Some(before), true, &mut log);
    let alignment = Alignment {
        part: SceneHandle(1),
        parent_transform: before,
        curr: data(0.5).transform,
        other: data(0.75).transform,
    };
    assert_eq!(step, AlignerStep::Align(alignment));
    assert_eq!(log, ActionList(vec![Action::Constrained(event, before)]));
}

#[test]
fn alignment_keeps_the_scale() {
    let before = Transform {
        translation: vec3(1.0, 2.0, 3.0),
        rotation: Quat::identity(),
        scale: vec3(2.0, 0.5, 4.0),
    };
    let alignment = Alignment {
        part: SceneHandle(1),
        parent_transform: before,
        curr: data(0.5).transform,
        other: data(0.75).transform,
    };
    let rotation = Quat::from_xyzw(0, 0, 1.0f32.to_bits(), 0);
    let edit = alignment.constrain_to(vec3(0.75, 2.0, 3.0), rotation);
    assert_eq!(
        edit,
        SceneEdit::SetTransform(
            SceneHandle(1),
            Transform { translation: vec3(0.75, 2.0, 3.0), rotation, scale: vec3(2.0, 0.5, 4.0) }
        )
    );
}

#[test]
fn constrain_then_undo_gives_back_the_pose_bit_for_bit() {
    let event = ConstraintEvent::new(data(0.1), SceneHandle(1), data(0.3), SceneHandle(2));
    let before = Transform::from_translation(vec3(0.7, f32::MIN_POSITIVE, -0.0));
    let mut log = ActionList::new();
    let step = handle_constraint_event(event, Some(before), true, &mut log);
    assert!(matches!(step, AlignerStep::Align(_)));
    assert_eq!(log.undo(), UndoOutcome::Undone(SceneEdit::SetTransform(SceneHandle(1), before)));
    assert_eq!(log, ActionList(vec![Action::SessionBoundary]));
}

#[test]
fn aligner_ignores_a_pairing_with_a_stale_part() {
    let event = ConstraintEvent::new(data(0.5), SceneHandle(1), data(0.75), SceneHandle(2));
    let mut log = ActionList::new();
    assert_eq!(handle_constraint_event(event, None, true, &mut log), AlignerStep::StaleHandle);
    assert_eq!(
        handle_constraint_event(event, Some(Transform::identity()), false, &mut log),
        AlignerStep::StaleHandle
    );
    assert_eq!(handle_constraint_event(event, None, false, &mut log), AlignerStep::StaleHandle);
    assert_eq!(log, ActionList::new());
}

#[test]
fn constraining_key_and_cancel_key_switch_modes() {
    assert_eq!(
        check_for_c(true, PlacingState::Placing, ConstrainState::NotConstraining),
        (PlacingState::PlacingDisabled, ConstrainState::Constraining)
    );
    assert_eq!(
        check_for_c(false, PlacingState::Placing, ConstrainState::NotConstraining),
        (PlacingState::Placing, ConstrainState::NotConstraining)
    );
    let mut op = CurrentConstraintOperation::empty();
    select_constraints(&mut op, over(10, 1, 0.5), true);
    let held = op;
    assert_eq!(
        exit_constrain(false, PlacingState::PlacingDisabled, ConstrainState::Constraining, &mut op),
        (PlacingState::PlacingDisabled, ConstrainState::Constraining)
    );
    assert_eq!(op, held);
    assert_eq!(
        exit_constrain(true, PlacingState::Placing, ConstrainState::NotConstraining, &mut op),
        (PlacingState::Placing, ConstrainState::NotConstraining)
    );
    assert_eq!(op, held);
    assert_eq!(
        exit_constrain(true, PlacingState::PlacingDisabled, ConstrainState::Constraining, &mut op),
        (PlacingState::NotPlacing, ConstrainState::NotConstraining)
    );
    assert_eq!(op, CurrentConstraintOperation::empty());
    assert_eq!(ConstrainState::default(), ConstrainState::NotConstraining);
    assert!(ConstrainState::Constraining.markers_visible());
    assert!(!ConstrainState::NotConstraining.markers_visible());
}

#[test]
fn picker_window_is_dragged_by_its_title_bar() {
    let moving = MovingWindowState::Moving;
    let resting = MovingWindowState::NotMoving;
    assert_eq!(MovingWindowState::default(), resting);
    assert_eq!(track_moving_window_state(resting, true, true, true), moving);
    assert_eq!(track_moving_window_state(resting, false, true, true), resting);
    assert_eq!(track_moving_window_state(resting, true, false, true), resting);
    assert_eq!(track_moving_window_state(moving, false, false, true), moving);
    assert_eq!(track_moving_window_state(moving, true, true, false), resting);
}
