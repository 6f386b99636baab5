//! The wormhole surface: the component that marks a portal entity and the
//! shader configuration that draws the captured view onto it.

use vstd::prelude::*;

use crate::model::{EntityId, ImageId};
use crate::plan::ImageSource;

verus! {

/// Texture usage bits needed for a functional render-target image used in
/// drawing wormholes. The value is the union of the engine's `COPY_DST`
/// (bit 1), `TEXTURE_BINDING` (bit 2) and `RENDER_ATTACHMENT` (bit 4)
/// texture-usage flags.
pub const WORMHOLE_TEXTURE_USAGES: u32 = 22;

/// A wormhole entity: one of the two linked portal surfaces.
#[derive(Debug, Clone, Copy, PartialEq, Eq)]
pub struct Wormhole {
    /// The other side of the wormhole.
    pub counterpart: EntityId,
}

/// Shader configuration for drawing a wormhole surface.
#[derive(Debug, Clone, Copy, PartialEq, Eq)]
pub struct WormholeShader {
    /// The texture that the wormhole camera renders to.
    pub texture: ImageSource,
    /// A stencil mask that hides parts of the texture.
    pub stencil: Option<ImageId>,
}

} // verus!
