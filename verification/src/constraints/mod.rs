//! Mounting points and the joining of two parts by a pair of them.

use vstd::prelude::*;

pub mod add_constraints;
pub mod handle_constraints;
pub mod ui;

use crate::placing::PlacingState;
use crate::scene::Transform;
use ui::CurrentConstraintOperation;

verus! {

/// Whether the user is picking mounting points.
#[derive(Clone, Copy, Debug, PartialEq, Eq, Hash, Structural)]
pub enum ConstrainState {
    Constraining,
    NotConstraining,
}

impl Default for ConstrainState {
    fn default() -> (state: ConstrainState)
        ensures
            state == ConstrainState::NotConstraining,
    {
        ConstrainState::NotConstraining
    }
}

impl ConstrainState {
    /// The markers of the mounting points are shown while the user is
    /// constraining and hidden otherwise.
    pub open spec fn spec_markers_visible(self) -> bool {
        self == ConstrainState::Constraining
    }

    #[verifier::when_used_as_spec(spec_markers_visible)]
    pub fn markers_visible(self) -> (visible: bool)
        ensures
            visible == self.spec_markers_visible(),
    {
        self == ConstrainState::Constraining
    }
}

/// The constraining key: a fresh press disables placing and starts
/// constraining. Without a press both modes stay as they are.
pub fn check_for_c(c_just_pressed: bool, placing: PlacingState, constrain: ConstrainState) -> (next: (
    PlacingState,
    ConstrainState,
))
    ensures
        c_just_pressed ==> next == (PlacingState::PlacingDisabled, ConstrainState::Constraining),
        !c_just_pressed ==> next == (placing, constrain),
{
    if c_just_pressed {
        (PlacingState::PlacingDisabled, ConstrainState::Constraining)
    } else {
        (placing, constrain)
    }
}

/// The cancel key while constraining: a fresh press ends constraining,
/// allows placing again and abandons the pairing in progress. Without a
/// press, or while the user is not constraining, nothing changes.
pub fn exit_constrain(
    escape_just_pressed: bool,
    placing: PlacingState,
    constrain: ConstrainState,
    operation: &mut CurrentConstraintOperation,
) -> (next: (PlacingState, ConstrainState))
    ensures
        escape_just_pressed && constrain == ConstrainState::Constraining ==> next == (
            PlacingState::NotPlacing,
            ConstrainState::NotConstraining,
        ) && *final(operation) == CurrentConstraintOperation::spec_empty(),
        !(escape_just_pressed && constrain == ConstrainState::Constraining) ==> next == (
            placing,
            constrain,
        ) && *final(operation) == *old(operation),
{
    if escape_just_pressed && constrain == ConstrainState::Constraining {
        operation.reset();
        (PlacingState::NotPlacing, ConstrainState::NotConstraining)
    } else {
        (placing, constrain)
    }
}

/// Snapshot of one mounting point at the moment it was picked: its transform
/// relative to the part that owns it.
#[derive(Clone, Copy, Debug, PartialEq, Eq, Structural)]
pub struct ConstraintData {
    pub transform: Transform,
}

impl Default for ConstraintData {
    fn default() -> (data: ConstraintData)
        ensures
            data.transform == Transform::spec_identity(),
    {
        ConstraintData { transform: Transform::identity() }
    }
}

} // verus!
