//! What the editor's panels show and how they answer the pointer.

use vstd::prelude::*;

pub mod editor;
pub mod pause;
pub mod settings;

use crate::constraints::ConstrainState;
use crate::move_objects::MoveObjectsState;
use crate::placing::PlacingState;

verus! {

/// The screen that is shown.
#[derive(Clone, Copy, Debug, PartialEq, Eq, Hash, Structural)]
pub enum UIState {
    MainMenu,
    Editor,
    Pause,
    Settings,
}

impl Default for UIState {
    fn default() -> (state: UIState)
        ensures
            state == UIState::MainMenu,
    {
        UIState::MainMenu
    }
}

/// Whether the cancel key belongs to the screens: it does unless the user
/// is placing, constraining or moving a part.
pub open spec fn escape_is_free(
    placing: PlacingState,
    constrain: ConstrainState,
    moving: MoveObjectsState,
) -> bool {
    placing != PlacingState::Placing && constrain != ConstrainState::Constraining && moving
        != MoveObjectsState::Moving
}

/// The cancel key among the screens: a fresh press, where the key is free,
/// pauses the editor and leaves any other screen for the editor.
pub fn handle_esc(
    escape_just_pressed: bool,
    current_state: UIState,
    placing: PlacingState,
    constrain: ConstrainState,
    moving: MoveObjectsState,
) -> (next: UIState)
    ensures
        next == if escape_just_pressed && escape_is_free(placing, constrain, moving) {
            if current_state == UIState::Editor {
                UIState::Pause
            } else {
                UIState::Editor
            }
        } else {
            current_state
        },
{
    if escape_just_pressed && placing != PlacingState::Placing && constrain
        != ConstrainState::Constraining && moving != MoveObjectsState::Moving {
        match current_state {
            UIState::Editor => UIState::Pause,
            _ => UIState::Editor,
        }
    } else {
        current_state
    }
}

} // verus!
