//! Values exchanged with the scene object store.
//!
//! Numbers that the store keeps as IEEE-754 single precision floats are held
//! here by their bit patterns, so that equality is equality of every bit.

use vstd::prelude::*;

verus! {

/// Bit pattern of `0.0`.
pub const ZERO_BITS: u32 = 0x0000_0000;

/// Bit pattern of `1.0`.
pub const ONE_BITS: u32 = 0x3F80_0000;

/// Handle of an object in the scene object store.
///
/// A handle is a weak reference: the object it names may be gone.
#[derive(Clone, Copy, Debug, PartialEq, Eq, Hash, Structural)]
pub struct SceneHandle(pub u64);

/// Three single precision components, each held by its bit pattern.
#[derive(Clone, Copy, Debug, PartialEq, Eq, Structural)]
pub struct Vec3 {
    pub x: u32,
    pub y: u32,
    pub z: u32,
}

/// A quaternion, each component held by its bit pattern.
#[derive(Clone, Copy, Debug, PartialEq, Eq, Structural)]
pub struct Quat {
    pub x: u32,
    pub y: u32,
    pub z: u32,
    pub w: u32,
}

/// Translation, rotation and scale of an object relative to its parent.
#[derive(Clone, Copy, Debug, PartialEq, Eq, Structural)]
pub struct Transform {
    pub translation: Vec3,
    pub rotation: Quat,
    pub scale: Vec3,
}

impl Vec3 {
    /// The vector `(0, 0, 0)`.
    pub open spec fn spec_zero() -> Vec3 {
        Vec3 { x: ZERO_BITS, y: ZERO_BITS, z: ZERO_BITS }
    }

    /// The vector `(1, 1, 1)`.
    pub open spec fn spec_one() -> Vec3 {
        Vec3 { x: ONE_BITS, y: ONE_BITS, z: ONE_BITS }
    }

    pub fn new(x: u32, y: u32, z: u32) -> (v: Vec3)
        ensures
            v == (Vec3 { x, y, z }),
    {
        Vec3 { x, y, z }
    }

    #[verifier::when_used_as_spec(spec_zero)]
    pub fn zero() -> (v: Vec3)
        ensures
            v == Vec3::spec_zero(),
    {
        Vec3 { x: ZERO_BITS, y: ZERO_BITS, z: ZERO_BITS }
    }

    #[verifier::when_used_as_spec(spec_one)]
    pub fn one() -> (v: Vec3)
        ensures
            v == Vec3::spec_one(),
    {
        Vec3 { x: ONE_BITS, y: ONE_BITS, z: ONE_BITS }
    }
}

impl Quat {
    /// The rotation that turns nothing: `(0, 0, 0, 1)`.
    pub open spec fn spec_identity() -> Quat {
        Quat { x: ZERO_BITS, y: ZERO_BITS, z: ZERO_BITS, w: ONE_BITS }
    }

    pub fn from_xyzw(x: u32, y: u32, z: u32, w: u32) -> (q: Quat)
        ensures
            q == (Quat { x, y, z, w }),
    {
        Quat { x, y, z, w }
    }

    #[verifier::when_used_as_spec(spec_identity)]
    pub fn identity() -> (q: Quat)
        ensures
            q == Quat::spec_identity(),
    {
        Quat { x: ZERO_BITS, y: ZERO_BITS, z: ZERO_BITS, w: ONE_BITS }
    }
}

impl Transform {
    /// No translation, no rotation, unit scale.
    pub open spec fn spec_identity() -> Transform {
        Transform {
            translation: Vec3::spec_zero(),
            rotation: Quat::spec_identity(),
            scale: Vec3::spec_one(),
        }
    }

    /// A pure translation: no rotation, unit scale.
    pub open spec fn spec_from_translation(translation: Vec3) -> Transform {
        Transform { translation, rotation: Quat::spec_identity(), scale: Vec3::spec_one() }
    }

    #[verifier::when_used_as_spec(spec_identity)]
    pub fn identity() -> (t: Transform)
        ensures
            t == Transform::spec_identity(),
    {
        Transform { translation: Vec3::zero(), rotation: Quat::identity(), scale: Vec3::one() }
    }

    #[verifier::when_used_as_spec(spec_from_translation)]
    pub fn from_translation(translation: Vec3) -> (t: Transform)
        ensures
            t == Transform::spec_from_translation(translation),
    {
        Transform { translation, rotation: Quat::identity(), scale: Vec3::one() }
    }
}

impl Default for Transform {
    fn default() -> (t: Transform)
        ensures
            t == Transform::spec_identity(),
    {
        Transform::identity()
    }
}

/// The scene object store as the engine reasons about it: the live parts and
/// the transform of each.
pub type SceneModel = Map<SceneHandle, Transform>;

/// One request to the scene object store.
#[derive(Clone, Copy, Debug, PartialEq, Eq, Structural)]
pub enum SceneEdit {
    /// Leave the store as it is.
    Nothing,
    /// Destroy the part and everything below it.
    Destroy(SceneHandle),
    /// Overwrite the transform of the part.
    SetTransform(SceneHandle, Transform),
}

impl SceneEdit {
    /// The store after the request was served. A request that names a part
    /// which is no longer live changes nothing.
    pub open spec fn apply(self, scene: SceneModel) -> SceneModel {
        match self {
            SceneEdit::Nothing => scene,
            SceneEdit::Destroy(part) => scene.remove(part),
            SceneEdit::SetTransform(part, transform) => if scene.contains_key(part) {
                scene.insert(part, transform)
            } else {
                scene
            },
        }
    }
}

} // verus!
