//! A builder for wormholes. It collects the configuration of the capture
//! camera and of the two portal surfaces, and turns it into a
//! [`WormholePlan`] that pins down everything the engine is asked to create.

use vstd::prelude::*;

use crate::model::{ImageId, MeshId, Resolution, Transform3d, Vec2Bits, F32_ONE_BITS};
use crate::plan::{
    spec_mesh_source, spec_render_image, spec_side_plan, spec_target_image, CameraPlan,
    ImageSource, ImageSpec, MeshSource, PlanIds, SidePlan, WormholePlan,
};
use crate::surface::{WormholeShader, WORMHOLE_TEXTURE_USAGES};

verus! {

/// A builder for wormholes. Automatically configures wormholes.
#[derive(Debug, Clone, Copy, PartialEq, Eq)]
pub struct WormholeBuilder {
    /// Configuration of the capture camera.
    pub camera: WormholeCameraConfig,
    /// Configuration of the orange portal surface.
    pub orange: WormholeSideConfig,
    /// Configuration of the blue portal surface.
    pub blue: WormholeSideConfig,
}

impl WormholeBuilder {
    /// Creates a new [`WormholeBuilder`] with both sides and the camera at
    /// their default configurations.
    pub fn new() -> (b: Self)
        ensures
            b.camera == WormholeCameraConfig::spec_default(),
            b.orange == WormholeSideConfig::spec_default(),
            b.blue == WormholeSideConfig::spec_default(),
    {
        WormholeBuilder {
            camera: WormholeCameraConfig::default(),
            orange: WormholeSideConfig::default(),
            blue: WormholeSideConfig::default(),
        }
    }

    /// Consumes the builder, producing the plan the engine is asked to
    /// carry out for the three freshly allocated entity ids.
    pub fn build(self, ids: PlanIds) -> (plan: WormholePlan)
        ensures
            plan.camera_id == ids.camera,
            plan.orange_id == ids.orange,
            plan.blue_id == ids.blue,
            plan.render_image == spec_render_image(self.blue),
            plan.camera.target == plan.render_image,
            plan.camera.render_order == self.camera.render_order,
            plan.camera.wormholes@ == seq![ids.orange, ids.blue],
            plan.orange == spec_side_plan(self.orange, ids.blue, plan.render_image),
            plan.blue == spec_side_plan(self.blue, ids.orange, plan.render_image),
    {
        build_wormholes(self, ids)
    }

    /// Individually configure the wormhole camera.
    pub fn camera<F: Fn(WormholeCameraConfig) -> WormholeCameraConfig>(&mut self, func: F)
        requires
            call_requires(func, (old(self).camera,)),
        ensures
            call_ensures(func, (old(self).camera,), final(self).camera),
            final(self).orange == old(self).orange,
            final(self).blue == old(self).blue,
    {
        self.camera = func(self.camera);
    }

    /// Individually configure the orange wormhole.
    pub fn orange<F: Fn(WormholeSideConfig) -> WormholeSideConfig>(&mut self, func: F)
        requires
            call_requires(func, (old(self).orange,)),
        ensures
            call_ensures(func, (old(self).orange,), final(self).orange),
            final(self).camera == old(self).camera,
            final(self).blue == old(self).blue,
    {
        self.orange = func(self.orange);
    }

    /// Individually configure the blue wormhole.
    pub fn blue<F: Fn(WormholeSideConfig) -> WormholeSideConfig>(&mut self, func: F)
        requires
            call_requires(func, (old(self).blue,)),
        ensures
            call_ensures(func, (old(self).blue,), final(self).blue),
            final(self).camera == old(self).camera,
            final(self).orange == old(self).orange,
    {
        self.blue = func(self.blue);
    }

    /// Configure both wormholes at the same time.
    pub fn both<F: Fn(WormholeSideConfig) -> WormholeSideConfig>(&mut self, func: F)
        requires
            call_requires(func, (old(self).orange,)),
            call_requires(func, (old(self).blue,)),
        ensures
            call_ensures(func, (old(self).orange,), final(self).orange),
            call_ensures(func, (old(self).blue,), final(self).blue),
            final(self).camera == old(self).camera,
    {
        self.orange = func(self.orange);
        self.blue = func(self.blue);
    }
}

/// Configuration of one portal surface.
#[derive(Debug, Clone, Copy, PartialEq, Eq)]
pub struct WormholeSideConfig {
    /// The surface's transform.
    pub transform: Transform3d,
    /// The dimensions of the surface, in world units; irrelevant when a mesh
    /// is supplied.
    pub dimensions: Vec2Bits,
    /// The resolution of the generated render image; irrelevant when an
    /// image is supplied.
    pub resolution: Resolution,
    /// An overriding mesh for the surface.
    pub mesh_asset: Option<MeshId>,
    /// A caller-supplied render image, used instead of creating one.
    pub rend_image: Option<ImageId>,
    /// A mask image defining the opacity of the surface.
    pub mask_image: Option<ImageId>,
}

impl WormholeSideConfig {
    /// The default side configuration: identity transform, one-by-one
    /// dimensions, a 128 by 128 render image, and no supplied assets.
    pub open spec fn spec_default() -> Self {
        WormholeSideConfig {
            transform: Transform3d::spec_identity(),
            dimensions: Vec2Bits { x: F32_ONE_BITS, y: F32_ONE_BITS },
            resolution: Resolution { x: 128, y: 128 },
            mesh_asset: None,
            rend_image: None,
            mask_image: None,
        }
    }

    // Default, but private.
    fn default() -> (c: Self)
        ensures
            c == Self::spec_default(),
    {
        WormholeSideConfig {
            transform: Transform3d::identity(),
            dimensions: Vec2Bits::splat(F32_ONE_BITS),
            resolution: Resolution::splat(128),
            mesh_asset: None,
            rend_image: None,
            mask_image: None,
        }
    }

    /// Sets the transform of the wormhole.
    /// Defaults to the identity transform.
    pub fn with_transform(&mut self, transform: Transform3d) -> (r: &mut Self)
        ensures
            *r == (WormholeSideConfig { transform, ..*old(self) }),
            *final(self) == *final(r),
    {
        self.transform = transform;
        return self;
    }

    /// Sets the dimensions of the wormhole surface, in world units.
    /// Irrelevant if `with_mesh` is used. Defaults to one by one.
    pub fn with_dimensions(&mut self, dimensions: Vec2Bits) -> (r: &mut Self)
        ensures
            *r == (WormholeSideConfig { dimensions, ..*old(self) }),
            *final(self) == *final(r),
    {
        self.dimensions = dimensions;
        return self;
    }

    /// Overrides the mesh that the wormhole entity uses.
    pub fn with_mesh(&mut self, mesh: MeshId) -> (r: &mut Self)
        ensures
            *r == (WormholeSideConfig { mesh_asset: Some(mesh), ..*old(self) }),
            *final(self) == *final(r),
    {
        self.mesh_asset = Some(mesh);
        return self;
    }

    /// Sets the resolution of the generated image.
    /// Irrelevant if `with_image` is used.
    pub fn with_resolution(&mut self, resolution: Resolution) -> (r: &mut Self)
        ensures
            *r == (WormholeSideConfig { resolution, ..*old(self) }),
            *final(self) == *final(r),
    {
        self.resolution = resolution;
        return self;
    }

    /// Uses `image` as the render texture, rather than creating a new image.
    pub fn with_image(&mut self, image: ImageId) -> (r: &mut Self)
        ensures
            *r == (WormholeSideConfig { rend_image: Some(image), ..*old(self) }),
            *final(self) == *final(r),
    {
        self.rend_image = Some(image);
        return self;
    }

    /// Sets a 'mask' image that will be used to define the opacity of the
    /// wormhole surface. Its texture format must be a depth or stencil
    /// format.
    pub fn with_mask(&mut self, mask: ImageId) -> (r: &mut Self)
        ensures
            *r == (WormholeSideConfig { mask_image: Some(mask), ..*old(self) }),
            *final(self) == *final(r),
    {
        self.mask_image = Some(mask);
        return self;
    }
}

/// Configuration of the capture camera.
#[derive(Debug, Clone, Copy, PartialEq, Eq)]
pub struct WormholeCameraConfig {
    /// The camera's transform.
    pub transform: Transform3d,
    /// The order at which the camera renders.
    pub render_order: isize,
}

impl WormholeCameraConfig {
    /// The default camera configuration: identity transform, rendering at
    /// order minus one, before the main view.
    pub open spec fn spec_default() -> Self {
        WormholeCameraConfig { transform: Transform3d::spec_identity(), render_order: -1isize }
    }

    // Default, but private.
    fn default() -> (c: Self)
        ensures
            c == Self::spec_default(),
    {
        WormholeCameraConfig { transform: Transform3d::identity(), render_order: -1 }
    }

    /// Sets the transform of the camera.
    /// Defaults to the identity transform.
    pub fn with_transform(&mut self, transform: Transform3d) -> (r: &mut Self)
        ensures
            *r == (WormholeCameraConfig { transform, ..*old(self) }),
            *final(self) == *final(r),
    {
        self.transform = transform;
        return self;
    }

    /// Sets the order at which the camera renders.
    /// Defaults to minus one.
    pub fn with_render_order(&mut self, order: isize) -> (r: &mut Self)
        ensures
            *r == (WormholeCameraConfig { render_order: order, ..*old(self) }),
            *final(self) == *final(r),
    {
        self.render_order = order;
        return self;
    }
}

/// Lays out the whole wormhole pair: the shared render image comes from the
/// blue side's configuration, the camera draws into it, each surface samples
/// it, and the two surfaces point at one another.
fn build_wormholes(builder: WormholeBuilder, ids: PlanIds) -> (plan: WormholePlan)
    ensures
        plan.camera_id == ids.camera,
        plan.orange_id == ids.orange,
        plan.blue_id == ids.blue,
        plan.render_image == spec_render_image(builder.blue),
        plan.camera.target == plan.render_image,
        plan.camera.render_order == builder.camera.render_order,
        plan.camera.wormholes@ == seq![ids.orange, ids.blue],
        plan.orange == spec_side_plan(builder.orange, ids.blue, plan.render_image),
        plan.blue == spec_side_plan(builder.blue, ids.orange, plan.render_image),
{
    let render_image = match builder.blue.rend_image {
        Some(image) => ImageSource::Existing(image),
        None => ImageSource::Generated(plan_target_image(builder.blue.resolution)),
    };

    let camera = CameraPlan {
        target: render_image,
        render_order: builder.camera.render_order,
        wormholes: [ids.orange, ids.blue],
    };

    let orange_mesh = plan_mesh(&builder.orange);
    let orange = SidePlan {
        transform: builder.orange.transform,
        mesh: orange_mesh,
        shader: WormholeShader { texture: render_image, stencil: builder.orange.mask_image },
        counterpart: ids.blue,
    };

    let blue_mesh = plan_mesh(&builder.blue);
    let blue = SidePlan {
        transform: builder.blue.transform,
        mesh: blue_mesh,
        shader: WormholeShader { texture: render_image, stencil: builder.blue.mask_image },
        counterpart: ids.orange,
    };

    WormholePlan {
        camera_id: ids.camera,
        orange_id: ids.orange,
        blue_id: ids.blue,
        render_image,
        camera,
        orange,
        blue,
    }
}

/// The description of a fresh render-target image of the given resolution.
fn plan_target_image(resolution: Resolution) -> (img: ImageSpec)
    ensures
        img == spec_target_image(resolution),
{
    ImageSpec {
        width: resolution.x,
        height: resolution.y,
        mip_level_count: 1,
        sample_count: 1,
        usage: WORMHOLE_TEXTURE_USAGES,
    }
}

/// The mesh a portal surface uses: the configured mesh if one was supplied,
/// else a plane of the configured dimensions.
fn plan_mesh(side: &WormholeSideConfig) -> (m: MeshSource)
    ensures
        m == spec_mesh_source(*side),
{
    match side.mesh_asset {
        Some(mesh) => MeshSource::Existing(mesh),
        None => MeshSource::GeneratedPlane(side.dimensions),
    }
}

} // verus!
