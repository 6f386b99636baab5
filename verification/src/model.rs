//! Plain-value stand-ins for the engine types that wormhole planning reads.
//!
//! The planning logic never does arithmetic on positions, rotations or sizes:
//! it only stores them and hands them back. Floating-point components are
//! therefore carried as their raw IEEE 754 bit patterns (`u32`), and engine
//! handles (entities, meshes, images) as opaque integer tokens that the
//! engine-side adapter maps to real handles.

use vstd::prelude::*;

verus! {

/// Bit pattern of the 32-bit float one, the identity scale component.
pub const F32_ONE_BITS: u32 = 0x3F80_0000;

/// An entity in the host scene, carried as its 64-bit id.
#[derive(Debug, Clone, Copy, PartialEq, Eq)]
pub struct EntityId(pub u64);

/// A mesh asset held by the engine, carried as an opaque token.
#[derive(Debug, Clone, Copy, PartialEq, Eq)]
pub struct MeshId(pub u64);

/// An image asset held by the engine, carried as an opaque token.
#[derive(Debug, Clone, Copy, PartialEq, Eq)]
pub struct ImageId(pub u64);

/// A two-component float vector, each component as its bit pattern.
#[derive(Debug, Clone, Copy, PartialEq, Eq)]
pub struct Vec2Bits {
    pub x: u32,
    pub y: u32,
}

impl Vec2Bits {
    /// The value with both components equal, as `splat` builds it.
    pub fn splat(v: u32) -> (r: Self)
        ensures
            r == (Vec2Bits { x: v, y: v }),
    {
        Vec2Bits { x: v, y: v }
    }
}

/// A three-component float vector, each component as its bit pattern.
#[derive(Debug, Clone, Copy, PartialEq, Eq)]
pub struct Vec3Bits {
    pub x: u32,
    pub y: u32,
    pub z: u32,
}

/// A rotation quaternion, each component as its bit pattern.
#[derive(Debug, Clone, Copy, PartialEq, Eq)]
pub struct QuatBits {
    pub x: u32,
    pub y: u32,
    pub z: u32,
    pub w: u32,
}

/// A full transform: translation, rotation and scale, componentwise bits.
#[derive(Debug, Clone, Copy, PartialEq, Eq)]
pub struct Transform3d {
    pub translation: Vec3Bits,
    pub rotation: QuatBits,
    pub scale: Vec3Bits,
}

impl Transform3d {
    /// The identity transform: zero translation, unit rotation, unit scale.
    pub open spec fn spec_identity() -> Transform3d {
        Transform3d {
            translation: Vec3Bits { x: 0, y: 0, z: 0 },
            rotation: QuatBits { x: 0, y: 0, z: 0, w: F32_ONE_BITS },
            scale: Vec3Bits { x: F32_ONE_BITS, y: F32_ONE_BITS, z: F32_ONE_BITS },
        }
    }

    /// Builds the identity transform.
    pub fn identity() -> (r: Self)
        ensures
            r == Self::spec_identity(),
    {
        Transform3d {
            translation: Vec3Bits { x: 0, y: 0, z: 0 },
            rotation: QuatBits { x: 0, y: 0, z: 0, w: F32_ONE_BITS },
            scale: Vec3Bits { x: F32_ONE_BITS, y: F32_ONE_BITS, z: F32_ONE_BITS },
        }
    }
}

/// A render-target size in pixels.
#[derive(Debug, Clone, Copy, PartialEq, Eq)]
pub struct Resolution {
    pub x: u32,
    pub y: u32,
}

impl Resolution {
    /// The value with both components equal, as `splat` builds it.
    pub fn splat(v: u32) -> (r: Self)
        ensures
            r == (Resolution { x: v, y: v }),
    {
        Resolution { x: v, y: v }
    }
}

} // verus!
