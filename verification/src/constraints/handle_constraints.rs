//! Picking two mounting points and aligning the parts that own them.

use vstd::prelude::*;

use super::ui::CurrentConstraintOperation;
use super::ConstraintData;
use crate::actions::{Action, ActionList, ActionView};
use crate::scene::{Quat, SceneEdit, SceneHandle, SceneModel, Transform, Vec3};

verus! {

/// A completed pairing of two mounting points.
///
/// Index 0 is the part that will move, index 1 the part that stays.
#[derive(Clone, Copy, Debug, PartialEq, Eq)]
pub struct ConstraintEvent {
    pub constraints: [ConstraintData; 2],
    pub parents: [SceneHandle; 2],
}

impl ConstraintEvent {
    pub fn new(
        moving: ConstraintData,
        moving_parent: SceneHandle,
        anchor: ConstraintData,
        anchor_parent: SceneHandle,
    ) -> (event: ConstraintEvent)
        ensures
            event == (ConstraintEvent {
                constraints: [moving, anchor],
                parents: [moving_parent, anchor_parent],
            }),
    {
        ConstraintEvent { constraints: [moving, anchor], parents: [moving_parent, anchor_parent] }
    }

    /// Both mounting points belong to one part.
    pub open spec fn spec_is_self_pairing(&self) -> bool {
        self.parents[0] == self.parents[1]
    }

    #[verifier::when_used_as_spec(spec_is_self_pairing)]
    pub fn is_self_pairing(&self) -> (same: bool)
        ensures
            same == self.spec_is_self_pairing(),
    {
        self.parents[0] == self.parents[1]
    }
}

/// An alignment that the store has to carry out: the part that moves, the
/// transform it has now, and the two mounting points as they were picked.
///
/// The aligned pose is computed from these three transforms outside of this
/// library, in the arithmetic of the store.
#[derive(Clone, Copy, Debug, PartialEq, Eq, Structural)]
pub struct Alignment {
    pub part: SceneHandle,
    pub parent_transform: Transform,
    pub curr: Transform,
    pub other: Transform,
}

impl Alignment {
    /// The request that puts the moving part at the aligned pose. The scale
    /// of the part stays as it was.
    pub fn constrain_to(&self, translation: Vec3, rotation: Quat) -> (edit: SceneEdit)
        ensures
            edit == SceneEdit::SetTransform(
                self.part,
                Transform { translation, rotation, scale: self.parent_transform.scale },
            ),
    {
        SceneEdit::SetTransform(
            self.part,
            Transform { translation, rotation, scale: self.parent_transform.scale },
        )
    }
}

/// What became of a pairing that reached the aligner.
#[derive(Clone, Copy, Debug, PartialEq, Eq, Structural)]
pub enum AlignerStep {
    /// Both mounting points belong to one part. The pairing is dropped
    /// without a word.
    SelfPairing,
    /// One of the two parts is gone. The pairing is dropped; this is worth a
    /// diagnostic.
    StaleHandle,
    /// The moving part has to be aligned, and the log holds the pairing.
    Align(Alignment),
}

impl AlignerStep {
    /// Whether the pairing is carried out.
    pub open spec fn aligns(self) -> bool {
        self is Align
    }

    /// The store after the step, where `translation` and `rotation` are the
    /// aligned pose that was computed for the moving part. A step that
    /// aligns nothing leaves the store as it is.
    pub open spec fn scene_after(
        self,
        scene: SceneModel,
        translation: Vec3,
        rotation: Quat,
    ) -> SceneModel {
        match self {
            AlignerStep::Align(alignment) => SceneEdit::SetTransform(
                alignment.part,
                Transform { translation, rotation, scale: alignment.parent_transform.scale },
            ).apply(scene),
            _ => scene,
        }
    }
}

/// What the aligner does with a pairing, given what the store knows of the
/// two parts: the transform of the moving part, if that part is live, and
/// whether the anchor is live.
pub open spec fn aligner_step(
    event: ConstraintEvent,
    moving: Option<Transform>,
    anchor_live: bool,
) -> AlignerStep {
    if event.parents[0] == event.parents[1] {
        AlignerStep::SelfPairing
    } else if moving is None || !anchor_live {
        AlignerStep::StaleHandle
    } else {
        AlignerStep::Align(
            Alignment {
                part: event.parents[0],
                parent_transform: moving.unwrap(),
                curr: event.constraints[0].transform,
                other: event.constraints[1].transform,
            },
        )
    }
}

/// The action log after the aligner took a pairing: one entry longer where
/// the pairing is carried out, unchanged where it is dropped.
pub open spec fn log_after_aligner(
    log: Seq<ActionView>,
    event: ConstraintEvent,
    moving: Option<Transform>,
    anchor_live: bool,
) -> Seq<ActionView> {
    if aligner_step(event, moving, anchor_live).aligns() {
        log.push(ActionView::Constrained(event, moving.unwrap()))
    } else {
        log
    }
}

/// Takes one pairing from the picker.
///
/// A pairing of two distinct live parts is carried out: the result names
/// the alignment, and the log gets one entry that holds the pairing as it
/// was picked and the transform of the moving part as it is now, before the
/// alignment. Any other pairing changes nothing.
pub fn handle_constraint_event(
    event: ConstraintEvent,
    moving: Option<Transform>,
    anchor_live: bool,
    action_list: &mut ActionList,
) -> (step: AlignerStep)
    ensures
        step == aligner_step(event, moving, anchor_live),
        final(action_list)@ == log_after_aligner(old(action_list)@, event, moving, anchor_live),
        event.parents[0] == event.parents[1] ==> step == AlignerStep::SelfPairing,
        event.parents[0] == event.parents[1] ==> final(action_list)@ == old(action_list)@,
{
    if event.is_self_pairing() {
        return AlignerStep::SelfPairing;
    }
    if !anchor_live {
        return AlignerStep::StaleHandle;
    }
    match moving {
        Some(parent_transform) => {
            action_list.push(Action::Constrained(event, parent_transform));
            AlignerStep::Align(
                Alignment {
                    part: event.parents[0],
                    parent_transform,
                    curr: event.constraints[0].transform,
                    other: event.constraints[1].transform,
                },
            )
        },
        None => AlignerStep::StaleHandle,
    }
}

/// Feedback state of a mounting point marker.
#[derive(Clone, Copy, Debug, PartialEq, Eq, Structural)]
pub enum Highlight {
    Neutral,
    Hovered,
    Selected,
}

/// A marker under the pointer.
#[derive(Clone, Copy, Debug, PartialEq, Eq)]
pub struct MarkerHit {
    /// The marker itself.
    pub marker: SceneHandle,
    /// The part that owns the marker and the marker's transform relative to
    /// that part; `None` where the store could not resolve them.
    pub pick: Option<(SceneHandle, ConstraintData)>,
}

/// What the cursor ray found among the markers in one frame.
#[derive(Clone, Copy, Debug, PartialEq, Eq)]
pub enum Pointer {
    /// There is no cursor ray.
    NoRay,
    /// The ray meets no marker.
    Miss,
    /// The ray meets this marker first.
    Over(MarkerHit),
}

/// What the picker asks of the markers' highlights.
#[derive(Clone, Copy, Debug, PartialEq, Eq, Structural)]
pub enum HighlightUpdate {
    /// Leave every marker as it is.
    Keep,
    /// Set every marker to neutral.
    ResetAll,
    /// Set this one marker.
    Mark(SceneHandle, Highlight),
}

/// Result of one frame of picking.
#[derive(Clone, Copy, Debug, PartialEq, Eq)]
pub struct Selection {
    pub highlight: HighlightUpdate,
    /// The pairing that this frame completed.
    pub event: Option<ConstraintEvent>,
}

/// One frame of the picker while the user is constraining.
///
/// A fresh press on a marker fills the first empty slot of `operation`. The
/// press that fills slot 1 completes the pairing: it is handed out as an
/// event and `operation` starts over. Without a press the marker under the
/// pointer is shown as hovered; with no marker under the pointer all markers
/// go back to neutral.
pub fn select_constraints(
    operation: &mut CurrentConstraintOperation,
    pointer: Pointer,
    just_pressed: bool,
) -> (selection: Selection)
    requires
        old(operation).wf(),
    ensures
        final(operation).wf(),
        old(operation).picked() <= 1 ==> final(operation).picked() <= 1,
        selection.highlight == match pointer {
            Pointer::NoRay => HighlightUpdate::Keep,
            Pointer::Miss => HighlightUpdate::ResetAll,
            Pointer::Over(hit) => HighlightUpdate::Mark(
                hit.marker,
                if just_pressed {
                    Highlight::Selected
                } else {
                    Highlight::Hovered
                },
            ),
        },
        picks(pointer, just_pressed) is None ==> *final(operation) == *old(operation)
            && selection.event is None,
        picks(pointer, just_pressed) matches Some((parent, data)) ==> if old(operation).picked()
            == 0 {
            &&& selection.event is None
            &&& *final(operation) == (CurrentConstraintOperation {
                constraints: [Some(data), None],
                parents: [Some(parent), None],
            })
        } else if old(operation).picked() == 1 {
            &&& *final(operation) == CurrentConstraintOperation::spec_empty()
            &&& selection.event == Some(
                ConstraintEvent {
                    constraints: [old(operation).constraints[0].unwrap(), data],
                    parents: [old(operation).parents[0].unwrap(), parent],
                },
            )
        } else {
            &&& *final(operation) == *old(operation)
            &&& selection.event is None
        },
{
    match pointer {
        Pointer::NoRay => Selection { highlight: HighlightUpdate::Keep, event: None },
        Pointer::Miss => Selection { highlight: HighlightUpdate::ResetAll, event: None },
        Pointer::Over(hit) => {
            if !just_pressed {
                return Selection {
                    highlight: HighlightUpdate::Mark(hit.marker, Highlight::Hovered),
                    event: None,
                };
            }
            let mut event: Option<ConstraintEvent> = None;
            if let Some((parent, data)) = hit.pick {
                if operation.constraints[0].is_none() {
                    operation.constraints[0] = Some(data);
                    operation.parents[0] = Some(parent);
                    proof {
                        let filled = CurrentConstraintOperation {
                            constraints: [Some(data), None],
                            parents: [Some(parent), None],
                        };
                        assert(operation.constraints =~= filled.constraints);
                        assert(operation.parents =~= filled.parents);
                    }
                } else if operation.constraints[1].is_none() {
                    operation.constraints[1] = Some(data);
                    operation.parents[1] = Some(parent);
                    event = operation.to_event();
                    proof {
                        let expected = ConstraintEvent {
                            constraints: [old(operation).constraints[0].unwrap(), data],
                            parents: [old(operation).parents[0].unwrap(), parent],
                        };
                        events_with_equal_entries_are_equal(event.unwrap(), expected);
                    }
                    operation.reset();
                }
            }
            Selection { highlight: HighlightUpdate::Mark(hit.marker, Highlight::Selected), event }
        },
    }
}

/// The part and mounting point that a frame picks: those under the pointer
/// at a fresh press, where the store resolved them.
pub open spec fn picks(pointer: Pointer, just_pressed: bool) -> Option<
    (SceneHandle, ConstraintData),
> {
    match pointer {
        Pointer::Over(hit) => if just_pressed {
            hit.pick
        } else {
            None
        },
        _ => None,
    }
}

proof fn events_with_equal_entries_are_equal(a: ConstraintEvent, b: ConstraintEvent)
    requires
        a.constraints[0] == b.constraints[0],
        a.constraints[1] == b.constraints[1],
        a.parents[0] == b.parents[0],
        a.parents[1] == b.parents[1],
    ensures
        a == b,
{
    assert(a.constraints =~= b.constraints);
    assert(a.parents =~= b.parents);
}

} // verus!
