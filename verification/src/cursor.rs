//! Following the pointer across the window.

use vstd::prelude::*;

verus! {

/// Two single precision components, each held by its bit pattern.
#[derive(Clone, Copy, Debug, PartialEq, Eq, Structural)]
pub struct Vec2 {
    pub x: u32,
    pub y: u32,
}

/// Where the pointer was in the last frame and how far it moved since the
/// frame before.
#[derive(Clone, Copy, Debug, PartialEq, Eq, Structural)]
pub struct CursorDelta {
    pub previous_position: Vec2,
    pub current_delta: Vec2,
}

impl Default for CursorDelta {
    fn default() -> (cursor: CursorDelta)
        ensures
            cursor.previous_position == (Vec2 { x: 0, y: 0 }),
            cursor.current_delta == (Vec2 { x: 0, y: 0 }),
    {
        CursorDelta { previous_position: Vec2 { x: 0, y: 0 }, current_delta: Vec2 { x: 0, y: 0 } }
    }
}

/// Keeps the pointer's track up to date, once per frame.
#[derive(Clone, Copy, Debug, PartialEq, Eq, Structural)]
pub struct CursorPlugin;

impl CursorPlugin {
    /// The pointer's position in this frame: where the window sees it, or
    /// where it was last while it is outside of the window.
    pub fn position(cursor: &CursorDelta, seen: Option<Vec2>) -> (position: Vec2)
        ensures
            position == match seen {
                Some(at) => at,
                None => cursor.previous_position,
            },
    {
        match seen {
            Some(at) => at,
            None => cursor.previous_position,
        }
    }

    /// Records this frame: `position` is where the pointer is now, `delta`
    /// how far that is from where it was.
    pub fn track(cursor: &mut CursorDelta, position: Vec2, delta: Vec2)
        ensures
            final(cursor).previous_position == position,
            final(cursor).current_delta == delta,
    {
        cursor.current_delta = delta;
        cursor.previous_position = position;
    }
}

} // verus!
