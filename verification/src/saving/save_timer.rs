//! Telling the user how long ago the scene was saved.

use vstd::prelude::*;
use vstd::string::StringExecFns;

use crate::text::{decimal, decimal_text};

verus! {

/// The text that tells how long ago the scene was saved, given the whole
/// seconds since then, or `None` where it was never saved.
pub open spec fn save_label_text(elapsed: Option<u64>) -> Seq<char> {
    match elapsed {
        None => "Not saved yet!"@,
        Some(seconds) => if seconds == 1 {
            "Saved 1 sec ago"@
        } else if seconds < 60 {
            "Saved "@ + decimal_text(seconds as nat) + " secs ago"@
        } else if seconds < 120 {
            "Saved 1 min ago"@
        } else {
            "Saved "@ + decimal_text((seconds / 60) as nat) + " mins ago"@
        },
    }
}

/// Writes the text that tells how long ago the scene was saved.
pub fn save_label(elapsed: Option<u64>) -> (label: String)
    ensures
        label@ == save_label_text(elapsed),
{
    match elapsed {
        None => String::from_str("Not saved yet!"),
        Some(seconds) => {
            if seconds == 1 {
                String::from_str("Saved 1 sec ago")
            } else if seconds < 60 {
                let mut label = String::from_str("Saved ");
                label.append(decimal(seconds).as_str());
                label.append(" secs ago");
                label
            } else if seconds < 120 {
                String::from_str("Saved 1 min ago")
            } else {
                let mut label = String::from_str("Saved ");
                label.append(decimal(seconds / 60).as_str());
                label.append(" mins ago");
                label
            }
        },
    }
}

/// Seconds between two refreshes of the label right after a save.
pub const FAST_REFRESH_SECS: u64 = 1;

/// Seconds between two refreshes of the label once it counts minutes.
pub const SLOW_REFRESH_SECS: u64 = 60;

/// The new period of the label's refresh timer after a tick, where it
/// changes: once the timer has finished and the save is a minute old or
/// older, the label is refreshed once a minute.
pub fn time_since_last_save(timer_finished: bool, elapsed: Option<u64>) -> (period: Option<u64>)
    ensures
        period == if timer_finished && elapsed is Some && elapsed.unwrap() >= 60 {
            Some(SLOW_REFRESH_SECS)
        } else {
            None
        },
{
    if !timer_finished {
        return None;
    }
    match elapsed {
        Some(seconds) => if seconds >= 60 {
            Some(SLOW_REFRESH_SECS)
        } else {
            None
        },
        None => None,
    }
}

} // verus!
