//! Choosing a placed part, moving it with the gizmo, deleting it.

use vstd::prelude::*;

use crate::actions::{Action, ActionList, ActionView};
use crate::constraints::ConstrainState;
use crate::scene::{SceneEdit, SceneHandle, Transform};

verus! {

/// Whether a part is chosen for moving.
#[derive(Clone, Copy, Debug, PartialEq, Eq, Hash, Structural)]
pub enum MoveObjectsState {
    Moving,
    NotMoving,
}

impl Default for MoveObjectsState {
    fn default() -> (state: MoveObjectsState)
        ensures
            state == MoveObjectsState::NotMoving,
    {
        MoveObjectsState::NotMoving
    }
}

/// What the gizmo changes of the chosen part.
#[derive(Clone, Copy, Debug, PartialEq, Eq, Structural)]
pub enum GizmoMode {
    Rotate,
    Translate,
    Scale,
}

/// The part that a press chooses for moving: the first thing under the
/// pointer, given that the press is fresh, that some part is placed and
/// that the user is not constraining. The part chosen before, if any, is
/// then let go.
pub fn select_object(
    just_pressed: bool,
    any_placed: bool,
    constrain_state: ConstrainState,
    under_pointer: Option<SceneHandle>,
) -> (chosen: Option<SceneHandle>)
    ensures
        chosen == if just_pressed && any_placed && constrain_state
            != ConstrainState::Constraining {
            under_pointer
        } else {
            None
        },
{
    if !just_pressed {
        return None;
    }
    if !any_placed {
        return None;
    }
    if constrain_state == ConstrainState::Constraining {
        return None;
    }
    under_pointer
}

/// The cancel key while a part is chosen: a fresh press lets the part go.
pub fn unselect_object(escape_just_pressed: bool, state: MoveObjectsState) -> (next:
    MoveObjectsState)
    ensures
        next == if escape_just_pressed {
            MoveObjectsState::NotMoving
        } else {
            state
        },
{
    if escape_just_pressed {
        MoveObjectsState::NotMoving
    } else {
        state
    }
}

/// The delete key while a part is chosen.
///
/// A fresh press ends moving. Where exactly one part is chosen, the log
/// gets one entry with the part's handle, name and transform, and the part
/// is to be destroyed. Without a press nothing changes.
pub fn delete_object(
    x_just_pressed: bool,
    state: MoveObjectsState,
    target: Option<(SceneHandle, &str, Transform)>,
    action_list: &mut ActionList,
) -> (outcome: (MoveObjectsState, SceneEdit))
    ensures
        !x_just_pressed ==> outcome == (state, SceneEdit::Nothing) && final(action_list)@ == old(
            action_list,
        )@,
        x_just_pressed && target is None ==> outcome == (
            MoveObjectsState::NotMoving,
            SceneEdit::Nothing,
        ) && final(action_list)@ == old(action_list)@,
        x_just_pressed ==> (target matches Some((entity, name, transform)) ==> outcome == (
            MoveObjectsState::NotMoving,
            SceneEdit::Destroy(entity),
        ) && final(action_list)@ == old(action_list)@.push(
            ActionView::Deleted(entity, name@, transform),
        )),
{
    if !x_just_pressed {
        return (state, SceneEdit::Nothing);
    }
    match target {
        Some((entity, name, transform)) => {
            action_list.push(Action::Deleted(entity, name.to_owned(), transform));
            (MoveObjectsState::NotMoving, SceneEdit::Destroy(entity))
        },
        None => (MoveObjectsState::NotMoving, SceneEdit::Nothing),
    }
}

/// The gizmo's mode and precision for the next frame: a fresh press of the
/// mode key switches between rotating and translating, and from any other
/// mode to translating; the gizmo snaps precisely unless the shift key is
/// held.
pub fn change_gizmo_mode(t_just_pressed: bool, shift_pressed: bool, mode: GizmoMode) -> (next: (
    GizmoMode,
    bool,
))
    ensures
        next.0 == if !t_just_pressed {
            mode
        } else if mode == GizmoMode::Translate {
            GizmoMode::Rotate
        } else {
            GizmoMode::Translate
        },
        next.1 == !shift_pressed,
{
    let next_mode = if !t_just_pressed {
        mode
    } else {
        match mode {
            GizmoMode::Rotate => GizmoMode::Translate,
            GizmoMode::Translate => GizmoMode::Rotate,
            GizmoMode::Scale => GizmoMode::Translate,
        }
    };
    (next_mode, !shift_pressed)
}

} // verus!
