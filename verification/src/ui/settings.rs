//! The settings screen.

use vstd::prelude::*;

use super::editor::part_selector::{button_color, button_color_of, CursorIcon, Interaction};
use super::pause::{menu_cursor, MenuAction, MenuResponse};
use super::UIState;
use crate::text::same_text;

verus! {

/// What a press on the button with this label sets off on the settings
/// screen.
pub open spec fn settings_action(label: Seq<char>) -> Option<MenuAction> {
    if label == "Exit"@ {
        Some(MenuAction::Show(UIState::Pause))
    } else if label == "Resume"@ {
        Some(MenuAction::Show(UIState::Editor))
    } else {
        None
    }
}

/// One button of the settings screen, when the pointer's stand to it
/// changed.
pub fn button_system(interaction: Interaction, label: &str) -> (response: MenuResponse)
    ensures
        response.color@ == button_color(interaction),
        response.cursor == menu_cursor(interaction),
        response.action == if interaction == Interaction::Pressed {
            settings_action(label@)
        } else {
            None
        },
{
    match interaction {
        Interaction::Pressed => {
            let action = if same_text(label, "Exit") {
                Some(MenuAction::Show(UIState::Pause))
            } else if same_text(label, "Resume") {
                Some(MenuAction::Show(UIState::Editor))
            } else {
                None
            };
            MenuResponse { color: button_color_of(interaction), cursor: CursorIcon::Default, action }
        },
        Interaction::Hovered => MenuResponse {
            color: button_color_of(interaction),
            cursor: CursorIcon::Pointer,
            action: None,
        },
        Interaction::Idle => MenuResponse {
            color: button_color_of(interaction),
            cursor: CursorIcon::Default,
            action: None,
        },
    }
}

} // verus!
