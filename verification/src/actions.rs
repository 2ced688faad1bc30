//! The action log and undo.
//!
//! The log is the ordered record of what the user did. Boundaries mark where
//! an editing session ended; they are never undone themselves.

use vstd::prelude::*;

use crate::constraints::handle_constraints::ConstraintEvent;
use crate::placing::PlacedPart;
use crate::scene::{SceneEdit, SceneHandle, Transform};

verus! {

/// One entry of the action log.
#[derive(Debug, PartialEq, Eq)]
pub enum Action {
    /// A part was placed: the name of its prototype and its handle.
    Placed(String, SceneHandle),
    /// Two parts were joined: the pairing as it was picked, and the
    /// transform that the moving part had before it was aligned.
    Constrained(ConstraintEvent, Transform),
    /// A part was deleted: its handle, its name and its last transform.
    Deleted(SceneHandle, String, Transform),
    /// End of an editing session.
    SessionBoundary,
}

/// An entry of the action log as a mathematical value.
pub enum ActionView {
    Placed(Seq<char>, SceneHandle),
    Constrained(ConstraintEvent, Transform),
    Deleted(SceneHandle, Seq<char>, Transform),
    SessionBoundary,
}

impl ActionView {
    /// Whether the entry names this part.
    pub open spec fn refers_to(self, part: SceneHandle) -> bool {
        match self {
            ActionView::Placed(_, placed) => placed == part,
            ActionView::Constrained(event, _) => event.parents[0] == part || event.parents[1]
                == part,
            ActionView::Deleted(deleted, _, _) => deleted == part,
            ActionView::SessionBoundary => false,
        }
    }
}

impl View for Action {
    type V = ActionView;

    open spec fn view(&self) -> ActionView {
        match *self {
            Action::Placed(name, part) => ActionView::Placed(name@, part),
            Action::Constrained(event, snapshot) => ActionView::Constrained(event, snapshot),
            Action::Deleted(part, name, transform) => ActionView::Deleted(part, name@, transform),
            Action::SessionBoundary => ActionView::SessionBoundary,
        }
    }
}

impl Clone for Action {
    fn clone(&self) -> (copy: Action)
        ensures
            copy@ == self@,
    {
        match self {
            Action::Placed(name, part) => Action::Placed(name.clone(), *part),
            Action::Constrained(event, snapshot) => Action::Constrained(*event, *snapshot),
            Action::Deleted(part, name, transform) => Action::Deleted(
                *part,
                name.clone(),
                *transform,
            ),
            Action::SessionBoundary => Action::SessionBoundary,
        }
    }
}

impl Action {
    pub fn is_placed(&self) -> (yes: bool)
        ensures
            yes == (self@ is Placed),
    {
        match self {
            Action::Placed(_, _) => true,
            _ => false,
        }
    }

    pub fn is_constrained(&self) -> (yes: bool)
        ensures
            yes == (self@ is Constrained),
    {
        match self {
            Action::Constrained(_, _) => true,
            _ => false,
        }
    }

    pub fn is_deleted(&self) -> (yes: bool)
        ensures
            yes == (self@ is Deleted),
    {
        match self {
            Action::Deleted(_, _, _) => true,
            _ => false,
        }
    }

    pub fn is_placeholder(&self) -> (yes: bool)
        ensures
            yes == (self@ is SessionBoundary),
    {
        match self {
            Action::SessionBoundary => true,
            _ => false,
        }
    }

    /// The placed part that the entry records, if it records one.
    pub fn placed(&self) -> (part: Option<PlacedPart>)
        ensures
            match self@ {
                ActionView::Placed(name, entity) => part is Some && part.unwrap().name@ == name
                    && part.unwrap().entity == entity,
                _ => part is None,
            },
    {
        match self {
            Action::Placed(name, entity) => Some(PlacedPart { name: name.clone(), entity: *entity }),
            _ => None,
        }
    }

    /// The pairing that the entry records, if it records one.
    pub fn constrained(&self) -> (event: Option<ConstraintEvent>)
        ensures
            match self@ {
                ActionView::Constrained(logged, _) => event == Some(logged),
                _ => event is None,
            },
    {
        match self {
            Action::Constrained(event, _) => Some(*event),
            _ => None,
        }
    }
}

impl From<PlacedPart> for Action {
    fn from(value: PlacedPart) -> (action: Action) {
        Action::Placed(value.name, value.entity)
    }
}

impl vstd::std_specs::convert::FromSpecImpl<PlacedPart> for Action {
    open spec fn obeys_from_spec() -> bool {
        true
    }

    open spec fn from_spec(value: PlacedPart) -> Action {
        Action::Placed(value.name, value.entity)
    }
}

/// Length of the log once the boundaries at its end are cut off. The last
/// action that is no boundary, if there is one, stands just below this
/// index.
pub open spec fn trimmed_len(log: Seq<ActionView>) -> nat
    decreases log.len(),
{
    if log.len() == 0 {
        0
    } else if log.last() is SessionBoundary {
        trimmed_len(log.drop_last())
    } else {
        log.len()
    }
}

/// The most recent entry that is no boundary.
pub open spec fn last_action(log: Seq<ActionView>) -> Option<ActionView> {
    if trimmed_len(log) == 0 {
        None
    } else {
        Some(log[trimmed_len(log) - 1])
    }
}

/// The log without the boundaries at its end.
pub open spec fn trim(log: Seq<ActionView>) -> Seq<ActionView> {
    log.take(trimmed_len(log) as int)
}

/// How one undo ended.
#[derive(Clone, Copy, Debug, PartialEq, Eq, Structural)]
pub enum UndoOutcome {
    /// The log holds nothing but boundaries. Nothing changed.
    NothingToUndo,
    /// The most recent action is a delete, which cannot be reversed. Nothing
    /// changed, the entry is still there.
    Unsupported,
    /// The most recent action left the log. The store has to serve the edit,
    /// and whoever shows the log has to be told.
    Undone(SceneEdit),
}

impl UndoOutcome {
    /// What the store has to do.
    pub open spec fn edit(self) -> SceneEdit {
        match self {
            UndoOutcome::Undone(edit) => edit,
            _ => SceneEdit::Nothing,
        }
    }

    /// The request to hand to the store.
    pub fn scene_edit(&self) -> (edit: SceneEdit)
        ensures
            edit == self.edit(),
    {
        match self {
            UndoOutcome::Undone(edit) => *edit,
            _ => SceneEdit::Nothing,
        }
    }

    /// Whether the log changed, so that whoever shows it has to be told.
    pub fn log_changed(&self) -> (changed: bool)
        ensures
            changed == (self is Undone),
    {
        match self {
            UndoOutcome::Undone(_) => true,
            _ => false,
        }
    }

    /// What to report to the user: something only where the undo was
    /// refused.
    pub fn diagnostic(&self) -> (text: Option<&'static str>)
        ensures
            text is Some <==> self is Unsupported,
            text matches Some(words) ==> words@ == "Undoing a delete isn't supported yet!"@,
    {
        match self {
            UndoOutcome::Unsupported => Some("Undoing a delete isn't supported yet!"),
            _ => None,
        }
    }
}

/// The log after one undo: the most recent action that is no boundary is
/// removed, then the boundaries now at the end, then one boundary is
/// appended. A log without such an action, or whose most recent one is a
/// delete, stays as it is.
pub open spec fn undo_log(log: Seq<ActionView>) -> Seq<ActionView> {
    match last_action(log) {
        None => log,
        Some(ActionView::Deleted(_, _, _)) => log,
        Some(_) => trim(log.remove(trimmed_len(log) - 1)).push(ActionView::SessionBoundary),
    }
}

/// How one undo on this log ends: a placed part is destroyed, a joined part
/// gets back the transform it had before it was aligned.
pub open spec fn undo_outcome(log: Seq<ActionView>) -> UndoOutcome {
    match last_action(log) {
        None => UndoOutcome::NothingToUndo,
        Some(ActionView::SessionBoundary) => UndoOutcome::NothingToUndo,
        Some(ActionView::Deleted(_, _, _)) => UndoOutcome::Unsupported,
        Some(ActionView::Placed(_, part)) => UndoOutcome::Undone(SceneEdit::Destroy(part)),
        Some(ActionView::Constrained(event, snapshot)) => UndoOutcome::Undone(
            SceneEdit::SetTransform(event.parents[0], snapshot),
        ),
    }
}

/// `trimmed_len` is the one index at which the boundaries at the end begin.
pub proof fn lemma_trimmed_len(log: Seq<ActionView>)
    ensures
        trimmed_len(log) <= log.len(),
        forall|i: int| trimmed_len(log) <= i < log.len() ==> #[trigger] log[i] is SessionBoundary,
        trimmed_len(log) > 0 ==> !(log[trimmed_len(log) - 1] is SessionBoundary),
    decreases log.len(),
{
    if log.len() > 0 && log.last() is SessionBoundary {
        let shorter = log.drop_last();
        lemma_trimmed_len(shorter);
        assert forall|i: int| trimmed_len(log) <= i < log.len() implies #[trigger] log[i]
            is SessionBoundary by {
            if i < shorter.len() {
                assert(shorter[i] is SessionBoundary);
            }
        }
    }
}

/// An index with the two properties of `trimmed_len` is `trimmed_len`.
pub proof fn lemma_trimmed_len_is(log: Seq<ActionView>, n: int)
    requires
        0 <= n <= log.len(),
        forall|i: int| n <= i < log.len() ==> #[trigger] log[i] is SessionBoundary,
        n > 0 ==> !(log[n - 1] is SessionBoundary),
    ensures
        trimmed_len(log) == n,
    decreases log.len(),
{
    if log.len() > 0 && log.last() is SessionBoundary {
        let shorter = log.drop_last();
        assert forall|i: int| n <= i < shorter.len() implies #[trigger] shorter[i]
            is SessionBoundary by {
            assert(log[i] is SessionBoundary);
        }
        lemma_trimmed_len_is(shorter, n);
    }
}

/// The action log.
#[derive(Debug, PartialEq, Eq)]
pub struct ActionList(pub Vec<Action>);

impl View for ActionList {
    type V = Seq<ActionView>;

    open spec fn view(&self) -> Seq<ActionView> {
        self.0@.map_values(|action: Action| action@)
    }
}

impl ActionList {
    pub fn new() -> (log: ActionList)
        ensures
            log@ == Seq::<ActionView>::empty(),
    {
        ActionList(Vec::new())
    }

    /// Appends an entry.
    pub fn push(&mut self, action: Action)
        ensures
            final(self)@ == old(self)@.push(action@),
    {
        self.0.push(action);
        assert(self@ =~= old(self)@.push(action@));
    }

    /// Index just above the most recent entry that is no boundary; 0 where
    /// there is none.
    pub fn trimmed_len(&self) -> (n: usize)
        ensures
            n == trimmed_len(self@),
            n <= self.0.len(),
    {
        let mut n: usize = self.0.len();
        while n > 0 && self.0[n - 1].is_placeholder()
            invariant
                n <= self.0.len(),
                forall|i: int| n <= i < self.0.len() ==> #[trigger] self@[i] is SessionBoundary,
            decreases n,
        {
            n = n - 1;
        }
        proof {
            lemma_trimmed_len_is(self@, n as int);
        }
        n
    }

    /// Undoes the most recent action that is no boundary.
    pub fn undo(&mut self) -> (outcome: UndoOutcome)
        ensures
            final(self)@ == undo_log(old(self)@),
            outcome == undo_outcome(old(self)@),
    {
        let n = self.trimmed_len();
        if n == 0 {
            return UndoOutcome::NothingToUndo;
        }
        let edit = match &self.0[n - 1] {
            Action::Placed(_, part) => SceneEdit::Destroy(*part),
            Action::Constrained(event, snapshot) => SceneEdit::SetTransform(
                event.parents[0],
                *snapshot,
            ),
            Action::Deleted(_, _, _) => {
                return UndoOutcome::Unsupported;
            },
            Action::SessionBoundary => {
                proof {
                    lemma_trimmed_len(self@);
                }
                return UndoOutcome::NothingToUndo;
            },
        };
        self.0.remove(n - 1);
        assert(self@ =~= old(self)@.remove(n - 1));
        let kept = self.trimmed_len();
        self.0.truncate(kept);
        assert(self@ =~= trim(old(self)@.remove(n - 1)));
        self.push(Action::SessionBoundary);
        UndoOutcome::Undone(edit)
    }
}

/// The undo gesture: the control key held and the undo key freshly pressed.
pub fn undo_move(action_list: &mut ActionList, control_pressed: bool, z_just_pressed: bool) -> (outcome:
    Option<UndoOutcome>)
    ensures
        control_pressed && z_just_pressed ==> final(action_list)@ == undo_log(old(action_list)@)
            && outcome == Some(undo_outcome(old(action_list)@)),
        !(control_pressed && z_just_pressed) ==> final(action_list)@ == old(action_list)@
            && outcome is None,
{
    if control_pressed && z_just_pressed {
        Some(action_list.undo())
    } else {
        None
    }
}

} // verus!
