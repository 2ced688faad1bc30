//! Placing parts into the scene.

use vstd::prelude::*;

use crate::actions::{Action, ActionList, ActionView};
use crate::constraints::add_constraints::AddConstraintsEvent;
use crate::scene::SceneHandle;

verus! {

/// Whether the user is placing a part.
#[derive(Clone, Copy, Debug, PartialEq, Eq, Hash, Structural)]
pub enum PlacingState {
    Placing,
    NotPlacing,
    PlacingDisabled,
}

impl Default for PlacingState {
    fn default() -> (state: PlacingState)
        ensures
            state == PlacingState::NotPlacing,
    {
        PlacingState::NotPlacing
    }
}

/// A part that was placed: the name of its prototype and its handle.
#[derive(Debug, PartialEq, Eq)]
pub struct PlacedPart {
    pub name: String,
    pub entity: SceneHandle,
}

/// The name under which a part was loaded: the scene path of its prototype.
#[derive(Debug, PartialEq, Eq)]
pub struct PartName(pub String);

impl View for PartName {
    type V = Seq<char>;

    open spec fn view(&self) -> Seq<char> {
        self.0@
    }
}

/// Asks for a part of the named prototype to be put under the pointer.
#[derive(Debug, PartialEq, Eq)]
pub struct PlacingEvent(pub String);

impl View for PlacingEvent {
    type V = Seq<char>;

    open spec fn view(&self) -> Seq<char> {
        self.0@
    }
}

/// What follows a confirmed placement.
#[derive(Debug, PartialEq, Eq)]
pub struct Placement {
    /// The part is to get its mounting points.
    pub constraints: AddConstraintsEvent,
    /// Another part of the same prototype is to be placed next.
    pub next: PlacingEvent,
}

/// One frame of a part that hangs under the pointer.
///
/// A fresh press confirms the placement: the log gets one entry with the
/// part's name and handle, the part is to get its mounting points, and the
/// next part of the same prototype is asked for. Without a press nothing
/// changes.
pub fn placing(
    just_pressed: bool,
    name: &PartName,
    entity: SceneHandle,
    action_list: &mut ActionList,
) -> (placement: Option<Placement>)
    ensures
        just_pressed ==> final(action_list)@ == old(action_list)@.push(
            ActionView::Placed(name@, entity),
        ),
        just_pressed ==> placement is Some && placement.unwrap().constraints
            == AddConstraintsEvent(entity) && placement.unwrap().next@ == name@,
        !just_pressed ==> placement is None && final(action_list)@ == old(action_list)@,
{
    if !just_pressed {
        return None;
    }
    action_list.push(Action::from(PlacedPart { name: name.0.clone(), entity }));
    Some(
        Placement {
            constraints: AddConstraintsEvent(entity),
            next: PlacingEvent(name.0.clone()),
        },
    )
}

/// The cancel key while placing: a fresh press ends placing and closes the
/// editing session in the log; the parts that still hang under the pointer
/// are to be destroyed. Without a press nothing changes.
pub fn stop_placing_mode(
    escape_just_pressed: bool,
    state: PlacingState,
    action_list: &mut ActionList,
) -> (next: PlacingState)
    ensures
        escape_just_pressed ==> next == PlacingState::NotPlacing && final(action_list)@ == old(
            action_list,
        )@.push(ActionView::SessionBoundary),
        !escape_just_pressed ==> next == state && final(action_list)@ == old(action_list)@,
{
    if escape_just_pressed {
        action_list.push(Action::SessionBoundary);
        PlacingState::NotPlacing
    } else {
        state
    }
}

} // verus!
