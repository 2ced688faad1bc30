//! The panels of the editor.

pub mod handle;
pub mod part_selector;
pub mod parts_list;
