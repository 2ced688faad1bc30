//! The list of the parts placed so far, as the action log tells it.

use vstd::prelude::*;

use super::part_selector::{part_label, prototype_name};
use crate::actions::{Action, ActionList, ActionView};

verus! {

/// The characters of each piece of text.
pub open spec fn texts(labels: Seq<String>) -> Seq<Seq<char>> {
    labels.map_values(|label: String| label@)
}

/// The labels of the placed parts that the log records, oldest first.
pub open spec fn placed_labels(log: Seq<ActionView>) -> Seq<Seq<char>>
    decreases log.len(),
{
    if log.len() == 0 {
        Seq::empty()
    } else {
        match log.last() {
            ActionView::Placed(name, _) => placed_labels(log.drop_last()).push(
                prototype_name(name),
            ),
            _ => placed_labels(log.drop_last()),
        }
    }
}

/// Number of entries at the start of the log that record a placed part or
/// close a session.
pub open spec fn listed_len(log: Seq<ActionView>) -> nat
    decreases log.len(),
{
    if log.len() == 0 {
        0
    } else if listed_len(log.drop_last()) == log.len() - 1 && (log.last() is Placed || log.last()
        is SessionBoundary) {
        log.len()
    } else {
        listed_len(log.drop_last())
    }
}

/// Once an entry of another kind stands at `stop`, nothing behind it is
/// listed.
proof fn lemma_listed_len_stops(log: Seq<ActionView>, stop: int)
    requires
        0 <= stop < log.len(),
        listed_len(log.take(stop)) == stop,
        !(log[stop] is Placed || log[stop] is SessionBoundary),
    ensures
        listed_len(log) == stop,
    decreases log.len(),
{
    if log.len() == stop + 1 {
        assert(log.drop_last() =~= log.take(stop));
    } else {
        let shorter = log.drop_last();
        assert(shorter.take(stop) =~= log.take(stop));
        lemma_listed_len_stops(shorter, stop);
    }
}

/// The list as it is first shown: the labels of the placed parts, oldest
/// first, up to the first entry that neither records a placed part nor
/// closes a session.
pub fn spawn_parts_list(placed_already: &ActionList) -> (labels: Vec<String>)
    ensures
        texts(labels@) == placed_labels(placed_already@.take(listed_len(placed_already@) as int)),
{
    let mut labels: Vec<String> = Vec::new();
    let mut i: usize = 0;
    assert(placed_already@.take(0) =~= Seq::<ActionView>::empty());
    assert(texts(labels@) =~= Seq::<Seq<char>>::empty());
    while i < placed_already.0.len()
        invariant
            i <= placed_already.0.len(),
            placed_already@.len() == placed_already.0.len(),
            listed_len(placed_already@.take(i as int)) == i,
            texts(labels@) == placed_labels(placed_already@.take(i as int)),
        decreases placed_already.0.len() - i,
    {
        let ghost before = placed_already@.take(i as int);
        let ghost now = placed_already@.take(i + 1);
        assert(now.drop_last() =~= before);
        assert(now.last() == placed_already@[i as int]);
        match &placed_already.0[i] {
            Action::SessionBoundary => {},
            Action::Placed(name, _) => {
                let label = part_label(name.as_str());
                labels.push(label);
                assert(texts(labels@) =~= placed_labels(before).push(prototype_name(name@)));
            },
            _ => {
                proof {
                    lemma_listed_len_stops(placed_already@, i as int);
                }
                return labels;
            },
        }
        i = i + 1;
    }
    assert(placed_already@.take(i as int) =~= placed_already@);
    labels
}

/// The entry to add to the shown list after the log changed: the label of
/// the part that the newest entry records, where it records one.
pub fn update_parts_list(changed: bool, recently_placed: &ActionList) -> (label: Option<String>)
    ensures
        label is Some <==> changed && recently_placed@.len() > 0 && recently_placed@.last()
            is Placed,
        label matches Some(text) ==> text@ == prototype_name(recently_placed@.last()->Placed_0),
{
    if !changed || recently_placed.0.len() == 0 {
        return None;
    }
    match &recently_placed.0[recently_placed.0.len() - 1] {
        Action::Placed(name, _) => Some(part_label(name.as_str())),
        _ => None,
    }
}

/// The list built anew: the labels of all placed parts that the log
/// records, oldest first.
pub fn refresh_parts_list(recently_placed: &ActionList) -> (labels: Vec<String>)
    ensures
        texts(labels@) == placed_labels(recently_placed@),
{
    let mut labels: Vec<String> = Vec::new();
    let mut i: usize = 0;
    assert(recently_placed@.take(0) =~= Seq::<ActionView>::empty());
    assert(texts(labels@) =~= Seq::<Seq<char>>::empty());
    while i < recently_placed.0.len()
        invariant
            i <= recently_placed.0.len(),
            recently_placed@.len() == recently_placed.0.len(),
            texts(labels@) == placed_labels(recently_placed@.take(i as int)),
        decreases recently_placed.0.len() - i,
    {
        let ghost before = recently_placed@.take(i as int);
        let ghost now = recently_placed@.take(i + 1);
        assert(now.drop_last() =~= before);
        assert(now.last() == recently_placed@[i as int]);
        match &recently_placed.0[i] {
            Action::Placed(name, _) => {
                let label = part_label(name.as_str());
                labels.push(label);
                assert(texts(labels@) =~= placed_labels(before).push(prototype_name(name@)));
            },
            _ => {},
        }
        i = i + 1;
    }
    assert(recently_placed@.take(i as int) =~= recently_placed@);
    labels
}

} // verus!
