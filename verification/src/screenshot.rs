//! Numbering the screenshots.

use vstd::prelude::*;
use vstd::string::StringExecFns;

use crate::text::{decimal, decimal_text};

verus! {

/// The file that the screenshot with this number goes to.
pub open spec fn screenshot_path(counter: nat) -> Seq<char> {
    "./screenshot-"@ + decimal_text(counter) + ".png"@
}

/// The screenshot key: a fresh press names the file for the next screenshot
/// and counts it. The counter starts over after its largest value.
pub fn screenshot_system(f12_just_pressed: bool, counter: &mut u32) -> (path: Option<String>)
    ensures
        !f12_just_pressed ==> path is None && *final(counter) == *old(counter),
        f12_just_pressed ==> path is Some && path.unwrap()@ == screenshot_path(
            *old(counter) as nat,
        ),
        f12_just_pressed ==> *final(counter) == if *old(counter) == u32::MAX {
            0
        } else {
            *old(counter) + 1
        },
{
    if !f12_just_pressed {
        return None;
    }
    let mut path = String::from_str("./screenshot-");
    let number = decimal(*counter as u64);
    path.append(number.as_str());
    path.append(".png");
    *counter = counter.wrapping_add(1);
    Some(path)
}

} // verus!
