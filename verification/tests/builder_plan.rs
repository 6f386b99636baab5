use bevy_wormholes::model::F32_ONE_BITS;
use bevy_wormholes::{
    EntityId, ImageId, ImageSource, ImageSpec, MeshId, MeshSource, PlanIds, Resolution,
    Transform3d, Vec2Bits, Vec3Bits, WormholeBuilder, WORMHOLE_TEXTURE_USAGES,
};

fn ids() -> PlanIds {
    PlanIds { camera: EntityId(10), orange: EntityId(20), blue: EntityId(30) }
}

#[test]
fn one_bits_is_f32_one() {
    assert_eq!(F32_ONE_BITS, 1.0f32.to_bits());
}

#[test]
fn identity_transform_matches_engine_default() {
    let t = bevy::transform::components::Transform::default();
    let m = Transform3d::identity();
    assert_eq!(m.translation.x, t.translation.x.to_bits());
    assert_eq!(m.translation.y, t.translation.y.to_bits());
    assert_eq!(m.translation.z, t.translation.z.to_bits());
    assert_eq!(m.rotation.x, t.rotation.x.to_bits());
    assert_eq!(m.rotation.y, t.rotation.y.to_bits());
    assert_eq!(m.rotation.z, t.rotation.z.to_bits());
    assert_eq!(m.rotation.w, t.rotation.w.to_bits());
    assert_eq!(m.scale.x, t.scale.x.to_bits());
    assert_eq!(m.scale.y, t.scale.y.to_bits());
    assert_eq!(m.scale.z, t.scale.z.to_bits());
}

#[test]
fn builder_defaults() {
    let b = WormholeBuilder::new();
    assert_eq!(b.camera.render_order, -1);
    assert_eq!(b.camera.transform, Transform3d::identity());
    for side in [&b.orange, &b.blue] {
        assert_eq!(side.transform, Transform3d::identity());
        assert_eq!(side.dimensions, Vec2Bits { x: F32_ONE_BITS, y: F32_ONE_BITS });
        assert_eq!(side.resolution, Resolution { x: 128, y: 128 });
        assert_eq!(side.mesh_asset, None);
        assert_eq!(side.rend_image, None);
        assert_eq!(side.mask_image, None);
    }
}

#[test]
fn side_setters() {
    let mut b = WormholeBuilder::new();
    b.orange(|mut c| {
        c.with_dimensions(Vec2Bits { x: 2, y: 3 })
            .with_resolution(Resolution { x: 640, y: 480 })
            .with_mask(ImageId(7));
        c
    });
    assert_eq!(b.orange.dimensions, Vec2Bits { x: 2, y: 3 });
    assert_eq!(b.orange.resolution, Resolution { x: 640, y: 480 });
    assert_eq!(b.orange.mask_image, Some(ImageId(7)));
    // the rest of the orange side, and the blue side, are untouched
    assert_eq!(b.orange.mesh_asset, None);
    assert_eq!(b.orange.rend_image, None);
    assert_eq!(b.blue.resolution, Resolution { x: 128, y: 128 });
}

#[test]
fn camera_setters() {
    let mut b = WormholeBuilder::new();
    let t = Transform3d {
        translation: Vec3Bits { x: 1, y: 2, z: 3 },
        ..Transform3d::identity()
    };
    b.camera(|mut c| {
        c.with_transform(t).with_render_order(5);
        c
    });
    assert_eq!(b.camera.transform, t);
    assert_eq!(b.camera.render_order, 5);
}

#[test]
fn both_configures_both_sides() {
    let mut b = WormholeBuilder::new();
    b.both(|mut c| {
        c.with_mesh(MeshId(42));
        c
    });
    assert_eq!(b.orange.mesh_asset, Some(MeshId(42)));
    assert_eq!(b.blue.mesh_asset, Some(MeshId(42)));
}

#[test]
fn default_plan_wiring() {
    let plan = WormholeBuilder::new().build(ids());

    assert_eq!(plan.camera_id, EntityId(10));
    assert_eq!(plan.orange_id, EntityId(20));
    assert_eq!(plan.blue_id, EntityId(30));

    // the two surfaces point at one another
    assert_eq!(plan.orange.counterpart, EntityId(30));
    assert_eq!(plan.blue.counterpart, EntityId(20));

    // the camera tracks the pair, orange first
    assert_eq!(plan.camera.wormholes, [EntityId(20), EntityId(30)]);
    assert_eq!(plan.camera.render_order, -1);

    // a fresh render target of the default resolution, shared by all three
    let expected = ImageSource::Generated(ImageSpec {
        width: 128,
        height: 128,
        mip_level_count: 1,
        sample_count: 1,
        usage: WORMHOLE_TEXTURE_USAGES,
    });
    assert_eq!(plan.render_image, expected);
    assert_eq!(plan.camera.target, expected);
    assert_eq!(plan.orange.shader.texture, expected);
    assert_eq!(plan.blue.shader.texture, expected);
    assert_eq!(plan.orange.shader.stencil, None);
    assert_eq!(plan.blue.shader.stencil, None);

    // generated plane meshes of the default dimensions
    let plane = MeshSource::GeneratedPlane(Vec2Bits { x: F32_ONE_BITS, y: F32_ONE_BITS });
    assert_eq!(plan.orange.mesh, plane);
    assert_eq!(plan.blue.mesh, plane);
}

#[test]
fn blue_image_is_used_for_the_pair() {
    let mut b = WormholeBuilder::new();
    b.blue(|mut c| {
        c.with_image(ImageId(77));
        c
    });
    let plan = b.build(ids());
    let expected = ImageSource::Existing(ImageId(77));
    assert_eq!(plan.render_image, expected);
    assert_eq!(plan.camera.target, expected);
    assert_eq!(plan.orange.shader.texture, expected);
    assert_eq!(plan.blue.shader.texture, expected);
}

#[test]
fn orange_image_does_not_pick_the_render_target() {
    // only the blue side's image decides the shared render target
    let mut b = WormholeBuilder::new();
    b.orange(|mut c| {
        c.with_image(ImageId(77)).with_resolution(Resolution { x: 16, y: 16 });
        c
    });
    let plan = b.build(ids());
    assert_eq!(
        plan.render_image,
        ImageSource::Generated(ImageSpec {
            width: 128,
            height: 128,
            mip_level_count: 1,
            sample_count: 1,
            usage: WORMHOLE_TEXTURE_USAGES,
        })
    );
}

#[test]
fn blue_resolution_sizes_the_generated_target() {
    let mut b = WormholeBuilder::new();
    b.blue(|mut c| {
        c.with_resolution(Resolution { x: 1920, y: 1080 });
        c
    });
    let plan = b.build(ids());
    assert_eq!(
        plan.render_image,
        ImageSource::Generated(ImageSpec {
            width: 1920,
            height: 1080,
            mip_level_count: 1,
            sample_count: 1,
            usage: WORMHOLE_TEXTURE_USAGES,
        })
    );
}

#[test]
fn supplied_meshes_and_masks_stay_per_side() {
    let mut b = WormholeBuilder::new();
    b.orange(|mut c| {
        c.with_mesh(MeshId(1)).with_mask(ImageId(2));
        c
    });
    let plan = b.build(ids());
    assert_eq!(plan.orange.mesh, MeshSource::Existing(MeshId(1)));
    assert_eq!(plan.orange.shader.stencil, Some(ImageId(2)));
    assert_eq!(
        plan.blue.mesh,
        MeshSource::GeneratedPlane(Vec2Bits { x: F32_ONE_BITS, y: F32_ONE_BITS })
    );
    assert_eq!(plan.blue.shader.stencil, None);
}

#[test]
fn transforms_and_order_pass_through() {
    let t_orange = Transform3d {
        translation: Vec3Bits { x: 100, y: 200, z: 300 },
        ..Transform3d::identity()
    };
    let t_blue = Transform3d {
        translation: Vec3Bits { x: 400, y: 500, z: 600 },
        ..Transform3d::identity()
    };
    let mut b = WormholeBuilder::new();
    b.orange(|mut c| {
        c.with_transform(t_orange);
        c
    });
    b.blue(|mut c| {
        c.with_transform(t_blue);
        c
    });
    b.camera(|mut c| {
        c.with_render_order(3);
        c
    });
    let plan = b.build(ids());
    assert_eq!(plan.orange.transform, t_orange);
    assert_eq!(plan.blue.transform, t_blue);
    assert_eq!(plan.camera.render_order, 3);
}
