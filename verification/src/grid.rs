//! The ground grid.

use vstd::prelude::*;

verus! {

/// Whether an object of the scene is drawn.
#[derive(Clone, Copy, Debug, PartialEq, Eq, Structural)]
pub enum Visibility {
    Inherited,
    Hidden,
    Visible,
}

/// The grid key: a fresh press hides a visible grid and shows any other.
pub fn toggle_grid_visibility(equal_just_pressed: bool, visibility: Visibility) -> (next:
    Visibility)
    ensures
        next == if !equal_just_pressed {
            visibility
        } else if visibility == Visibility::Visible {
            Visibility::Hidden
        } else {
            Visibility::Visible
        },
{
    if !equal_just_pressed {
        return visibility;
    }
    match visibility {
        Visibility::Visible => Visibility::Hidden,
        _ => Visibility::Visible,
    }
}

} // verus!
