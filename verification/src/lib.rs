//! Constraint-based assembly engine for a rigid-part editor.
//!
//! The engine keeps no scene of its own. Each step takes the facts it needs
//! as plain values, updates the picking state or the action log, and hands
//! back a description of what the scene object store has to do.

pub mod scene;
pub mod constraints;
pub mod actions;
pub mod placing;
pub mod text;
pub mod ui;
pub mod theorems;
pub mod move_objects;
pub mod cursor;
pub mod grid;
pub mod saving;
pub mod screenshot;
