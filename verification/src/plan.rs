//! The wormhole plan: a plain-value description of everything a wormhole
//! pair needs from the engine — which render target the capture camera draws
//! into, which mesh each portal surface uses, and how the three entities
//! reference one another. An engine-side adapter spawns entities and assets
//! exactly as the plan says.

use vstd::prelude::*;

use crate::builder::WormholeSideConfig;
use crate::model::{EntityId, ImageId, MeshId, Resolution, Transform3d, Vec2Bits};
use crate::surface::{WormholeShader, WORMHOLE_TEXTURE_USAGES};

verus! {

/// Freshly allocated entity ids for the three entities of a wormhole pair.
/// The engine allocates them; planning only wires them together.
#[derive(Debug, Clone, Copy, PartialEq, Eq)]
pub struct PlanIds {
    /// The id of the capture camera entity.
    pub camera: EntityId,
    /// The id of the orange portal entity.
    pub orange: EntityId,
    /// The id of the blue portal entity.
    pub blue: EntityId,
}

/// Description of a render-target image to be created.
#[derive(Debug, Clone, Copy, PartialEq, Eq)]
pub struct ImageSpec {
    /// Width in pixels.
    pub width: u32,
    /// Height in pixels.
    pub height: u32,
    /// Number of mip levels.
    pub mip_level_count: u32,
    /// Number of samples per pixel.
    pub sample_count: u32,
    /// Texture usage bits.
    pub usage: u32,
}

/// The image the capture camera draws into: either one the caller supplied,
/// or one to be created from an [`ImageSpec`].
#[derive(Debug, Clone, Copy, PartialEq, Eq)]
pub enum ImageSource {
    /// Use the caller's image, by its token.
    Existing(ImageId),
    /// Create a new image as described.
    Generated(ImageSpec),
}

/// The mesh a portal surface uses: either one the caller supplied, or a
/// plane generated from the configured dimensions.
#[derive(Debug, Clone, Copy, PartialEq, Eq)]
pub enum MeshSource {
    /// Use the caller's mesh, by its token.
    Existing(MeshId),
    /// Generate a plane of the given dimensions, in world units.
    GeneratedPlane(Vec2Bits),
}

/// What to attach to the capture camera entity.
#[derive(Debug, Clone, Copy, PartialEq, Eq)]
pub struct CameraPlan {
    /// The render target the camera draws into.
    pub target: ImageSource,
    /// The order at which the camera renders.
    pub render_order: isize,
    /// The entity ids of the wormhole pair, orange first.
    pub wormholes: [EntityId; 2],
}

/// What to attach to one portal surface entity.
#[derive(Debug, Clone, Copy, PartialEq, Eq)]
pub struct SidePlan {
    /// The surface's transform.
    pub transform: Transform3d,
    /// The surface's mesh.
    pub mesh: MeshSource,
    /// The shader that composites the captured view onto the surface.
    pub shader: WormholeShader,
    /// The other side of the wormhole.
    pub counterpart: EntityId,
}

/// The complete plan for one wormhole pair.
#[derive(Debug, Clone, Copy, PartialEq, Eq)]
pub struct WormholePlan {
    /// The id of the capture camera entity.
    pub camera_id: EntityId,
    /// The id of the orange portal entity.
    pub orange_id: EntityId,
    /// The id of the blue portal entity.
    pub blue_id: EntityId,
    /// The render target shared by the camera and both surfaces.
    pub render_image: ImageSource,
    /// What the camera entity gets.
    pub camera: CameraPlan,
    /// What the orange portal entity gets.
    pub orange: SidePlan,
    /// What the blue portal entity gets.
    pub blue: SidePlan,
}

/// The image description a render target of the given resolution is created
/// from: one mip level, one sample, and the wormhole texture usages.
pub open spec fn spec_target_image(resolution: Resolution) -> ImageSpec {
    ImageSpec {
        width: resolution.x,
        height: resolution.y,
        mip_level_count: 1,
        sample_count: 1,
        usage: WORMHOLE_TEXTURE_USAGES,
    }
}

/// The render image a side's configuration calls for: the image the caller
/// supplied if there is one, else a target image of the configured resolution.
pub open spec fn spec_render_image(side: WormholeSideConfig) -> ImageSource {
    match side.rend_image {
        Some(img) => ImageSource::Existing(img),
        None => ImageSource::Generated(spec_target_image(side.resolution)),
    }
}

/// The mesh a side's configuration calls for: the mesh the caller supplied
/// if there is one, else a plane of the configured dimensions.
pub open spec fn spec_mesh_source(side: WormholeSideConfig) -> MeshSource {
    match side.mesh_asset {
        Some(mesh) => MeshSource::Existing(mesh),
        None => MeshSource::GeneratedPlane(side.dimensions),
    }
}

/// Everything one portal surface gets: its configured transform, its mesh,
/// a shader sampling the shared render image masked by its own stencil, and
/// a link to the opposite side.
pub open spec fn spec_side_plan(
    side: WormholeSideConfig,
    counterpart: EntityId,
    render_image: ImageSource,
) -> SidePlan {
    SidePlan {
        transform: side.transform,
        mesh: spec_mesh_source(side),
        shader: WormholeShader { texture: render_image, stencil: side.mask_image },
        counterpart,
    }
}

} // verus!
