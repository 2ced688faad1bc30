//! The mounting points of each part prototype.

use vstd::prelude::*;
use vstd::string::StringExecFns;

use super::handle_constraints::Highlight;
use super::ConstraintData;
use crate::scene::{Quat, SceneHandle, Transform, Vec3, ZERO_BITS};
use crate::text::same_text;
use crate::ui::editor::part_selector::{part_label, prototype_name};

verus! {

/// Bit pattern of `0.29`.
pub const EDGE_BITS: u32 = 0x3E94_7AE1;

/// Bit pattern of `-0.29`.
pub const NEG_EDGE_BITS: u32 = 0xBE94_7AE1;

/// Bit pattern of `0.035`.
pub const FLOOR_BITS: u32 = 0x3D0F_5C29;

/// Bit pattern of `0.365`.
pub const WALL_HEIGHT_BITS: u32 = 0x3EBA_E148;

/// Bit pattern of `0.55`.
pub const WALL_BITS: u32 = 0x3F0C_CCCD;

/// Bit pattern of `-0.55`.
pub const NEG_WALL_BITS: u32 = 0xBF0C_CCCD;

/// Bit pattern of the square root of one half, the sine and the cosine of
/// an eighth of a turn.
pub const FRAC_1_SQRT_2_BITS: u32 = 0x3F35_04F3;

/// Asks for the mounting points of a part that was just placed.
#[derive(Clone, Copy, Debug, PartialEq, Eq, Structural)]
pub struct AddConstraintsEvent(pub SceneHandle);

/// A mounting point marker as it is spawned below its part.
#[derive(Clone, Copy, Debug, PartialEq, Eq, Structural)]
pub struct ConstraintPoint {
    /// Transform relative to the part.
    pub transform: Transform,
    pub visible: bool,
    pub highlight: Highlight,
}

/// The markers to spawn below one part.
#[derive(Debug, PartialEq, Eq)]
pub struct MarkerBatch {
    pub parent: SceneHandle,
    pub markers: Vec<ConstraintPoint>,
    /// What to report where the part has no mounting points.
    pub diagnostic: Option<String>,
}

/// A quarter turn about the z axis.
pub open spec fn quarter_turn_z() -> Quat {
    Quat { x: ZERO_BITS, y: ZERO_BITS, z: FRAC_1_SQRT_2_BITS, w: FRAC_1_SQRT_2_BITS }
}

/// A mounting point on the floor of a channel, facing up.
pub open spec fn floor_point(x: u32, z: u32) -> ConstraintData {
    ConstraintData {
        transform: Transform::spec_from_translation(Vec3 { x, y: FLOOR_BITS, z }),
    }
}

/// A mounting point on a side wall of a channel, turned a quarter about z.
pub open spec fn wall_point(x: u32) -> ConstraintData {
    ConstraintData {
        transform: Transform {
            translation: Vec3 { x, y: WALL_HEIGHT_BITS, z: ZERO_BITS },
            rotation: quarter_turn_z(),
            scale: Vec3::spec_one(),
        },
    }
}

/// The mounting points of a C-channel: three on its floor, one on each wall.
pub open spec fn channel_points() -> Seq<ConstraintData> {
    seq![
        floor_point(EDGE_BITS, ZERO_BITS),
        floor_point(NEG_EDGE_BITS, ZERO_BITS),
        floor_point(ZERO_BITS, NEG_EDGE_BITS),
        wall_point(NEG_WALL_BITS),
        wall_point(WALL_BITS),
    ]
}

/// The mounting points of the prototype with this name; none for a name
/// that the table does not hold.
pub open spec fn constraint_table(name: Seq<char>) -> Seq<ConstraintData> {
    if name == "2x1 C-Channel"@ || name == "2x25 C-Channel"@ {
        channel_points()
    } else {
        Seq::empty()
    }
}

/// The marker that is spawned for a mounting point: hidden and neutral.
pub open spec fn marker_of(data: ConstraintData) -> ConstraintPoint {
    ConstraintPoint { transform: data.transform, visible: false, highlight: Highlight::Neutral }
}

/// What is reported for a prototype without mounting points.
pub open spec fn no_constraints_text(name: Seq<char>) -> Seq<char> {
    name + " has no constraints!"@
}

fn floor_point_at(x: u32, z: u32) -> (data: ConstraintData)
    ensures
        data == floor_point(x, z),
{
    ConstraintData { transform: Transform::from_translation(Vec3::new(x, FLOOR_BITS, z)) }
}

fn wall_point_at(x: u32) -> (data: ConstraintData)
    ensures
        data == wall_point(x),
{
    ConstraintData {
        transform: Transform {
            translation: Vec3::new(x, WALL_HEIGHT_BITS, ZERO_BITS),
            rotation: Quat::from_xyzw(ZERO_BITS, ZERO_BITS, FRAC_1_SQRT_2_BITS, FRAC_1_SQRT_2_BITS),
            scale: Vec3::one(),
        },
    }
}

/// Looks the prototype up in the table of mounting points.
pub fn get_constraint_data(name: &str) -> (points: Vec<ConstraintData>)
    ensures
        points@ == constraint_table(name@),
{
    let mut points: Vec<ConstraintData> = Vec::new();
    if same_text(name, "2x1 C-Channel") || same_text(name, "2x25 C-Channel") {
        points.push(floor_point_at(EDGE_BITS, ZERO_BITS));
        points.push(floor_point_at(NEG_EDGE_BITS, ZERO_BITS));
        points.push(floor_point_at(ZERO_BITS, NEG_EDGE_BITS));
        points.push(wall_point_at(NEG_WALL_BITS));
        points.push(wall_point_at(WALL_BITS));
        assert(points@ =~= channel_points());
    }
    points
}

/// Answers the request for the mounting points of a placed part whose name
/// is `part_name`: one hidden, neutral marker for each mounting point of
/// its prototype, in the order of the table. A prototype that has none gets
/// no marker and a diagnostic.
pub fn add_constraints_event(event: &AddConstraintsEvent, part_name: &str) -> (batch: MarkerBatch)
    ensures
        batch.parent == event.0,
        batch.markers@ == constraint_table(prototype_name(part_name@)).map_values(
            |data: ConstraintData| marker_of(data),
        ),
        batch.diagnostic is Some <==> constraint_table(prototype_name(part_name@)).len() == 0,
        batch.diagnostic matches Some(text) ==> text@ == no_constraints_text(
            prototype_name(part_name@),
        ),
{
    let name = part_label(part_name);
    let points = get_constraint_data(name.as_str());
    let mut markers: Vec<ConstraintPoint> = Vec::new();
    let mut i: usize = 0;
    while i < points.len()
        invariant
            i <= points.len(),
            markers@ == points@.take(i as int).map_values(|data: ConstraintData| marker_of(data)),
        decreases points.len() - i,
    {
        markers.push(
            ConstraintPoint {
                transform: points[i].transform,
                visible: false,
                highlight: Highlight::Neutral,
            },
        );
        i = i + 1;
        assert(markers@ =~= points@.take(i as int).map_values(
            |data: ConstraintData| marker_of(data),
        ));
    }
    assert(points@.take(i as int) =~= points@);
    let diagnostic = if points.len() == 0 {
        Some(name.concat(" has no constraints!"))
    } else {
        None
    };
    MarkerBatch { parent: event.0, markers, diagnostic }
}

} // verus!
