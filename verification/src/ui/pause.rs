//! The pause screen.

use vstd::prelude::*;

use super::editor::part_selector::{button_color, button_color_of, CursorIcon, Interaction};
use super::UIState;
use crate::text::same_text;

verus! {

/// What a button of a menu sets off.
#[derive(Clone, Copy, Debug, PartialEq, Eq, Structural)]
pub enum MenuAction {
    /// Leave the program.
    Quit,
    /// Show another screen.
    Show(UIState),
}

/// How a button of a menu answers the pointer.
#[derive(Clone, Copy, Debug, PartialEq, Eq)]
pub struct MenuResponse {
    /// The button's colour, as hexadecimal red, green and blue.
    pub color: &'static str,
    /// The pointer's shape from now on.
    pub cursor: CursorIcon,
    /// What the press sets off.
    pub action: Option<MenuAction>,
}

/// The pointer's shape over a button of a menu: a hand while it hovers.
pub open spec fn menu_cursor(interaction: Interaction) -> CursorIcon {
    if interaction == Interaction::Hovered {
        CursorIcon::Pointer
    } else {
        CursorIcon::Default
    }
}

/// What a press on the button with this label sets off on the pause screen.
pub open spec fn pause_action(label: Seq<char>) -> Option<MenuAction> {
    if label == "Exit"@ {
        Some(MenuAction::Quit)
    } else if label == "Settings"@ {
        Some(MenuAction::Show(UIState::Settings))
    } else {
        None
    }
}

/// One button of the pause screen, when the pointer's stand to it changed.
pub fn button_system(interaction: Interaction, label: &str) -> (response: MenuResponse)
    ensures
        response.color@ == button_color(interaction),
        response.cursor == menu_cursor(interaction),
        response.action == if interaction == Interaction::Pressed {
            pause_action(label@)
        } else {
            None
        },
{
    match interaction {
        Interaction::Pressed => {
            let action = if same_text(label, "Exit") {
                Some(MenuAction::Quit)
            } else if same_text(label, "Settings") {
                Some(MenuAction::Show(UIState::Settings))
            } else {
                None
            };
            MenuResponse { color: button_color_of(interaction), cursor: CursorIcon::Default, action }
        },
        Interaction::Hovered => MenuResponse {
            color: button_color_of(interaction),
            cursor: CursorIcon::Pointer,
            action: None,
        },
        Interaction::Idle => MenuResponse {
            color: button_color_of(interaction),
            cursor: CursorIcon::Default,
            action: None,
        },
    }
}

} // verus!
