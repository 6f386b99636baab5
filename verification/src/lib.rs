//! Wormhole (portal) configuration and planning.
//!
//! Two linked surfaces in a 3D scene are rendered so that looking through one
//! shows a live camera view captured at the other. The host engine owns the
//! entities, assets and the render pipeline; this library owns the decisions:
//! which render target to draw into, which mesh each surface uses, and how the
//! camera and the two surfaces reference one another. Those decisions are
//! computed here as a [`plan::WormholePlan`], a plain value with a proved
//! contract, which an engine-side adapter then carries out.

pub mod builder;
pub mod camera;
pub mod model;
pub mod plan;
pub mod surface;

pub use builder::{WormholeBuilder, WormholeCameraConfig, WormholeSideConfig};
pub use camera::{WormholeCamera, WormholeObserver};
pub use model::{EntityId, ImageId, MeshId, QuatBits, Resolution, Transform3d, Vec2Bits, Vec3Bits};
pub use plan::{CameraPlan, ImageSource, ImageSpec, MeshSource, PlanIds, SidePlan, WormholePlan};
pub use surface::{Wormhole, WormholeShader, WORMHOLE_TEXTURE_USAGES};
