//! Saving the scene.

pub mod save_timer;
