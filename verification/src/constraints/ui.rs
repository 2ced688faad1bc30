//! Working state of the mounting point picker.

use vstd::prelude::*;

use super::handle_constraints::ConstraintEvent;
use super::ConstraintData;
use crate::scene::SceneHandle;

verus! {

/// The pairing that the user is in the middle of: the mounting points picked
/// so far and the parts that own them, filled from index 0.
#[derive(Clone, Copy, Debug, PartialEq, Eq)]
pub struct CurrentConstraintOperation {
    pub constraints: [Option<ConstraintData>; 2],
    pub parents: [Option<SceneHandle>; 2],
}

impl CurrentConstraintOperation {
    /// No mounting point picked yet.
    pub open spec fn spec_empty() -> CurrentConstraintOperation {
        CurrentConstraintOperation { constraints: [None, None], parents: [None, None] }
    }

    /// Each slot holds a mounting point together with its part or nothing,
    /// and slot 1 is filled only after slot 0.
    pub open spec fn wf(&self) -> bool {
        &&& self.constraints[0] is Some <==> self.parents[0] is Some
        &&& self.constraints[1] is Some <==> self.parents[1] is Some
        &&& self.constraints[1] is Some ==> self.constraints[0] is Some
    }

    /// Number of mounting points picked so far.
    pub open spec fn picked(&self) -> nat {
        if self.constraints[0] is None {
            0
        } else if self.constraints[1] is None {
            1
        } else {
            2
        }
    }

    /// The pairing that a filled state describes.
    pub open spec fn spec_event(&self) -> Option<ConstraintEvent> {
        if self.constraints[0] is Some && self.constraints[1] is Some && self.parents[0] is Some
            && self.parents[1] is Some {
            Some(
                ConstraintEvent {
                    constraints: [self.constraints[0].unwrap(), self.constraints[1].unwrap()],
                    parents: [self.parents[0].unwrap(), self.parents[1].unwrap()],
                },
            )
        } else {
            None
        }
    }

    #[verifier::when_used_as_spec(spec_empty)]
    pub fn empty() -> (op: CurrentConstraintOperation)
        ensures
            op == CurrentConstraintOperation::spec_empty(),
            op.wf(),
            op.picked() == 0,
    {
        CurrentConstraintOperation { constraints: [None, None], parents: [None, None] }
    }

    /// Whether the state meets [`Self::wf`].
    pub fn is_well_formed(&self) -> (ok: bool)
        ensures
            ok == self.wf(),
    {
        self.constraints[0].is_some() == self.parents[0].is_some()
            && self.constraints[1].is_some() == self.parents[1].is_some()
            && (self.constraints[1].is_none() || self.constraints[0].is_some())
    }

    /// Abandons the pairing in progress.
    pub fn reset(&mut self)
        ensures
            *final(self) == CurrentConstraintOperation::spec_empty(),
    {
        *self = CurrentConstraintOperation::empty();
    }

    /// The pairing, once both slots are filled; `None` before that.
    pub fn to_event(&self) -> (event: Option<ConstraintEvent>)
        ensures
            event == self.spec_event(),
            self.wf() ==> (event is Some <==> self.picked() == 2),
    {
        match (self.constraints[0], self.constraints[1], self.parents[0], self.parents[1]) {
            (Some(moving), Some(anchor), Some(moving_parent), Some(anchor_parent)) => {
                let event = ConstraintEvent::new(moving, moving_parent, anchor, anchor_parent);
                proof {
                    let expected = self.spec_event().unwrap();
                    assert(event.constraints =~= expected.constraints);
                    assert(event.parents =~= expected.parents);
                }
                Some(event)
            },
            _ => None,
        }
    }
}

/// Whether the user drags the picker's window by its title bar.
#[derive(Clone, Copy, Debug, PartialEq, Eq, Hash, Structural)]
pub enum MovingWindowState {
    Moving,
    NotMoving,
}

impl Default for MovingWindowState {
    fn default() -> (state: MovingWindowState)
        ensures
            state == MovingWindowState::NotMoving,
    {
        MovingWindowState::NotMoving
    }
}

/// One frame of the drag: it begins with a fresh press over the title bar
/// and ends as soon as the button is up.
pub fn track_moving_window_state(
    state: MovingWindowState,
    over_title_bar: bool,
    just_pressed: bool,
    pressed: bool,
) -> (next: MovingWindowState)
    ensures
        next == match state {
            MovingWindowState::NotMoving => if over_title_bar && just_pressed {
                MovingWindowState::Moving
            } else {
                MovingWindowState::NotMoving
            },
            MovingWindowState::Moving => if pressed {
                MovingWindowState::Moving
            } else {
                MovingWindowState::NotMoving
            },
        },
{
    match state {
        MovingWindowState::NotMoving => {
            if over_title_bar && just_pressed {
                MovingWindowState::Moving
            } else {
                MovingWindowState::NotMoving
            }
        },
        MovingWindowState::Moving => {
            if !pressed {
                MovingWindowState::NotMoving
            } else {
                MovingWindowState::Moving
            }
        },
    }
}

impl Default for CurrentConstraintOperation {
    fn default() -> (op: CurrentConstraintOperation)
        ensures
            op == CurrentConstraintOperation::spec_empty(),
    {
        CurrentConstraintOperation::empty()
    }
}

} // verus!
