//! The list of part prototypes that the user can place.

use vstd::prelude::*;
use vstd::string::StringExecFns;

use crate::actions::{Action, ActionList, ActionView};
use crate::constraints::ConstrainState;
use crate::placing::{PlacingEvent, PlacingState};
use crate::text::{join3, same_text};

verus! {

/// The labels of the part prototypes, in the order in which they are shown.
pub open spec fn part_labels() -> Seq<Seq<char>> {
    seq!["Duck"@, "Cube"@, "Penguin"@, "2x25 C-Channel"@, "2x1 C-Channel"@]
}

/// The model file behind a label. A label that names no prototype gets the
/// file name `duck`.
pub open spec fn model_file(label: Seq<char>) -> Seq<char> {
    if label == "Duck"@ {
        "low_poly_duck.glb"@
    } else if label == "Cube"@ {
        "cube.glb"@
    } else if label == "Penguin"@ {
        "penguin.glb"@
    } else if label == "2x25 C-Channel"@ {
        "c-channel-1x2x1x25.glb"@
    } else if label == "2x1 C-Channel"@ {
        "c-channel-1x2x1x1.glb"@
    } else {
        "duck"@
    }
}

/// The path under which the first scene of a model file is loaded.
pub open spec fn scene_path(file: Seq<char>) -> Seq<char> {
    "models/"@ + file + "#Scene0"@
}

/// The label of the prototype that was loaded from a scene path.
pub open spec fn label_of_scene(path: Seq<char>) -> Option<Seq<char>> {
    if path == "models/low_poly_duck.glb#Scene0"@ {
        Some("Duck"@)
    } else if path == "models/cube.glb#Scene0"@ {
        Some("Cube"@)
    } else if path == "models/penguin.glb#Scene0"@ {
        Some("Penguin"@)
    } else if path == "models/c-channel-1x2x1x25.glb#Scene0"@ {
        Some("2x25 C-Channel"@)
    } else if path == "models/c-channel-1x2x1x1.glb#Scene0"@ {
        Some("2x1 C-Channel"@)
    } else {
        None
    }
}

/// The label under which a part is shown: the label of the prototype behind
/// its scene path, or the part's name itself where it is no scene path of a
/// known prototype.
pub open spec fn prototype_name(part_name: Seq<char>) -> Seq<char> {
    match label_of_scene(part_name) {
        Some(label) => label,
        None => part_name,
    }
}

/// How the pointer stands to a button.
#[derive(Clone, Copy, Debug, PartialEq, Eq, Structural)]
pub enum Interaction {
    Pressed,
    Hovered,
    Idle,
}

/// The pointer's shape over the window.
#[derive(Clone, Copy, Debug, PartialEq, Eq, Structural)]
pub enum CursorIcon {
    Default,
    Pointer,
}

/// How a button of the selector answers the pointer.
#[derive(Debug, PartialEq, Eq)]
pub struct ButtonResponse {
    /// The button's colour, as hexadecimal red, green and blue.
    pub color: &'static str,
    /// The pointer's new shape, where it changes.
    pub cursor: Option<CursorIcon>,
    /// The part to place, and the placing mode from now on, where the
    /// press chose a prototype.
    pub chosen: Option<(PlacingEvent, PlacingState)>,
}

/// The colour of a button for each way the pointer stands to it.
pub open spec fn button_color(interaction: Interaction) -> Seq<char> {
    match interaction {
        Interaction::Pressed => "AAAAAA"@,
        Interaction::Hovered => "999999"@,
        Interaction::Idle => "777777"@,
    }
}

/// Picks the colour of a button.
pub fn button_color_of(interaction: Interaction) -> (color: &'static str)
    ensures
        color@ == button_color(interaction),
{
    match interaction {
        Interaction::Pressed => "AAAAAA",
        Interaction::Hovered => "999999",
        Interaction::Idle => "777777",
    }
}

/// One button of the selector, when the pointer's stand to it changed.
///
/// A press, unless the user is constraining, chooses the prototype with the
/// button's label: the editing session in the log is closed, placing starts
/// over, and a part loaded from the prototype's scene path is asked for.
/// The parts that still hang under the pointer are then to be destroyed.
pub fn button_system(
    interaction: Interaction,
    label: &str,
    constrain_state: ConstrainState,
    action_list: &mut ActionList,
) -> (response: ButtonResponse)
    ensures
        response.color@ == button_color(interaction),
        response.cursor == match interaction {
            Interaction::Pressed => None,
            Interaction::Hovered => Some(CursorIcon::Pointer),
            Interaction::Idle => Some(CursorIcon::Default),
        },
        interaction == Interaction::Pressed && constrain_state != ConstrainState::Constraining ==> {
            &&& response.chosen is Some
            &&& response.chosen.unwrap().0@ == scene_path(model_file(label@))
            &&& response.chosen.unwrap().1 == PlacingState::NotPlacing
            &&& final(action_list)@ == old(action_list)@.push(ActionView::SessionBoundary)
        },
        !(interaction == Interaction::Pressed && constrain_state != ConstrainState::Constraining)
            ==> response.chosen is None && final(action_list)@ == old(action_list)@,
{
    match interaction {
        Interaction::Pressed => {
            let chosen = if constrain_state != ConstrainState::Constraining {
                action_list.push(Action::SessionBoundary);
                Some((PlacingEvent(scene_of_label(label)), PlacingState::NotPlacing))
            } else {
                None
            };
            ButtonResponse { color: button_color_of(interaction), cursor: None, chosen }
        },
        Interaction::Hovered => ButtonResponse {
            color: button_color_of(interaction),
            cursor: Some(CursorIcon::Pointer),
            chosen: None,
        },
        Interaction::Idle => ButtonResponse {
            color: button_color_of(interaction),
            cursor: Some(CursorIcon::Default),
            chosen: None,
        },
    }
}

pub fn get_parts() -> (parts: Vec<String>)
    ensures
        parts@.map_values(|label: String| label@) == part_labels(),
{
    let mut parts: Vec<String> = Vec::new();
    parts.push(String::from_str("Duck"));
    parts.push(String::from_str("Cube"));
    parts.push(String::from_str("Penguin"));
    parts.push(String::from_str("2x25 C-Channel"));
    parts.push(String::from_str("2x1 C-Channel"));
    assert(parts@.map_values(|label: String| label@) =~= part_labels());
    parts
}

pub fn get_model_name(text: &str) -> (file: &'static str)
    ensures
        file@ == model_file(text@),
{
    if same_text(text, "Duck") {
        "low_poly_duck.glb"
    } else if same_text(text, "Cube") {
        "cube.glb"
    } else if same_text(text, "Penguin") {
        "penguin.glb"
    } else if same_text(text, "2x25 C-Channel") {
        "c-channel-1x2x1x25.glb"
    } else if same_text(text, "2x1 C-Channel") {
        "c-channel-1x2x1x1.glb"
    } else {
        "duck"
    }
}

/// The label of the prototype behind a scene path; `None` for a path that no
/// prototype is loaded from.
pub fn reverse_model_name(text: String) -> (label: Option<String>)
    ensures
        label is Some <==> label_of_scene(text@) is Some,
        label matches Some(found) ==> Some(found@) == label_of_scene(text@),
{
    let text = text.as_str();
    if same_text(text, "models/low_poly_duck.glb#Scene0") {
        Some(String::from_str("Duck"))
    } else if same_text(text, "models/cube.glb#Scene0") {
        Some(String::from_str("Cube"))
    } else if same_text(text, "models/penguin.glb#Scene0") {
        Some(String::from_str("Penguin"))
    } else if same_text(text, "models/c-channel-1x2x1x25.glb#Scene0") {
        Some(String::from_str("2x25 C-Channel"))
    } else if same_text(text, "models/c-channel-1x2x1x1.glb#Scene0") {
        Some(String::from_str("2x1 C-Channel"))
    } else {
        None
    }
}

/// The label under which a part with this name is shown.
pub fn part_label(part_name: &str) -> (label: String)
    ensures
        label@ == prototype_name(part_name@),
{
    match reverse_model_name(String::from_str(part_name)) {
        Some(label) => label,
        None => String::from_str(part_name),
    }
}

/// The scene path from which the prototype with this label is loaded.
pub fn scene_of_label(label: &str) -> (path: String)
    ensures
        path@ == scene_path(model_file(label@)),
{
    join3("models/", get_model_name(label), "#Scene0")
}

proof fn reveal_labels()
    ensures
        "Duck"@ =~= seq!['D', 'u', 'c', 'k'],
        "Cube"@ =~= seq!['C', 'u', 'b', 'e'],
        "Penguin"@.len() == 7,
        "2x25 C-Channel"@.len() == 14,
        "2x1 C-Channel"@.len() == 13,
{
    reveal_strlit("Duck");
    reveal_strlit("Cube");
    reveal_strlit("Penguin");
    reveal_strlit("2x25 C-Channel");
    reveal_strlit("2x1 C-Channel");
}

proof fn reveal_scene_lengths()
    ensures
        "models/low_poly_duck.glb#Scene0"@.len() == 31,
        "models/cube.glb#Scene0"@.len() == 22,
        "models/penguin.glb#Scene0"@.len() == 25,
        "models/c-channel-1x2x1x25.glb#Scene0"@.len() == 36,
        "models/c-channel-1x2x1x1.glb#Scene0"@.len() == 35,
{
    reveal_strlit("models/low_poly_duck.glb#Scene0");
    reveal_strlit("models/cube.glb#Scene0");
    reveal_strlit("models/penguin.glb#Scene0");
    reveal_strlit("models/c-channel-1x2x1x25.glb#Scene0");
    reveal_strlit("models/c-channel-1x2x1x1.glb#Scene0");
}

proof fn scene_of_duck()
    ensures
        scene_path("low_poly_duck.glb"@) == "models/low_poly_duck.glb#Scene0"@,
{
    reveal_strlit("models/");
    reveal_strlit("#Scene0");
    reveal_strlit("low_poly_duck.glb");
    reveal_strlit("models/low_poly_duck.glb#Scene0");
    assert(scene_path("low_poly_duck.glb"@) =~= "models/low_poly_duck.glb#Scene0"@);
}

proof fn scene_of_cube()
    ensures
        scene_path("cube.glb"@) == "models/cube.glb#Scene0"@,
{
    reveal_strlit("models/");
    reveal_strlit("#Scene0");
    reveal_strlit("cube.glb");
    reveal_strlit("models/cube.glb#Scene0");
    assert(scene_path("cube.glb"@) =~= "models/cube.glb#Scene0"@);
}

proof fn scene_of_penguin()
    ensures
        scene_path("penguin.glb"@) == "models/penguin.glb#Scene0"@,
{
    reveal_strlit("models/");
    reveal_strlit("#Scene0");
    reveal_strlit("penguin.glb");
    reveal_strlit("models/penguin.glb#Scene0");
    assert(scene_path("penguin.glb"@) =~= "models/penguin.glb#Scene0"@);
}

proof fn scene_of_long_channel()
    ensures
        scene_path("c-channel-1x2x1x25.glb"@) == "models/c-channel-1x2x1x25.glb#Scene0"@,
{
    reveal_strlit("models/");
    reveal_strlit("#Scene0");
    reveal_strlit("c-channel-1x2x1x25.glb");
    reveal_strlit("models/c-channel-1x2x1x25.glb#Scene0");
    assert(scene_path("c-channel-1x2x1x25.glb"@) =~= "models/c-channel-1x2x1x25.glb#Scene0"@);
}

proof fn scene_of_short_channel()
    ensures
        scene_path("c-channel-1x2x1x1.glb"@) == "models/c-channel-1x2x1x1.glb#Scene0"@,
{
    reveal_strlit("models/");
    reveal_strlit("#Scene0");
    reveal_strlit("c-channel-1x2x1x1.glb");
    reveal_strlit("models/c-channel-1x2x1x1.glb#Scene0");
    assert(scene_path("c-channel-1x2x1x1.glb"@) =~= "models/c-channel-1x2x1x1.glb#Scene0"@);
}

/// Every label that the selector shows leads to a scene path, and that path
/// leads back to the label.
pub proof fn labels_round_trip(i: int)
    requires
        0 <= i < part_labels().len(),
    ensures
        label_of_scene(scene_path(model_file(part_labels()[i]))) == Some(part_labels()[i]),
{
    reveal_labels();
    reveal_scene_lengths();
    scene_of_duck();
    scene_of_cube();
    scene_of_penguin();
    scene_of_long_channel();
    scene_of_short_channel();
    assert("Duck"@[0] != "Cube"@[0]);
}

} // verus!
