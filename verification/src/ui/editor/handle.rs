//! Finding the loaded model of a prototype.

use vstd::prelude::*;

use crate::text::same_text;

verus! {

/// Index of the loaded model for the scene path `name`: the first of
/// `paths` that equals it, or the first model of all where none does.
pub fn get_model_handle(name: &str, paths: &Vec<String>) -> (index: usize)
    requires
        paths.len() > 0,
    ensures
        index < paths.len(),
        paths[index as int]@ == name@ || (index == 0 && forall|i: int|
            0 <= i < paths.len() ==> (#[trigger] paths[i])@ != name@),
        forall|i: int| 0 <= i < index ==> (#[trigger] paths[i])@ != name@,
{
    let mut i: usize = 0;
    while i < paths.len()
        invariant
            i <= paths.len(),
            forall|j: int| 0 <= j < i ==> (#[trigger] paths[j])@ != name@,
        decreases paths.len() - i,
    {
        if same_text(paths[i].as_str(), name) {
            return i;
        }
        i = i + 1;
    }
    0
}

} // verus!
