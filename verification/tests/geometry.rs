//! Geometry tests: fixed-point arithmetic, vectors, frustum culling, the
//! shadow transform and instance packing.

use render_core::camera::{derive_right_dir, CameraData, MovementKeys};
use render_core::fixed::{div_floor, isqrt, mul_fx, SCALE};
use render_core::frustum::{
    get_visible_models, is_sphere_past_plane, model_is_visible, get_frustum_planes, FrustumPlane,
};
use render_core::instance::{raw_transforms_for, InstanceData, QuatFx};
use render_core::shadow::{apply_light_matrix, Mat3Fx, ShadowCasterData};
use render_core::vec3::Vec3Fx;

fn v(x: i64, y: i64, z: i64) -> Vec3Fx {
    Vec3Fx { x, y, z }
}

/// World units on the fixed-point grid.
fn units(n: i64) -> i64 {
    n * SCALE
}

#[test]
fn mul_fx_floors_toward_negative_infinity() {
    assert_eq!(mul_fx(units(3), units(2)), units(6));
    assert_eq!(mul_fx(-3, 2), -1);
    assert_eq!(mul_fx(3, 2), 0);
    assert_eq!(mul_fx(-units(3), units(2)), -units(6));
}

#[test]
fn div_floor_matches_euclidean_division() {
    assert_eq!(div_floor(7, 2), 3);
    assert_eq!(div_floor(-7, 2), -4);
    assert_eq!(div_floor(-6, 2), -3);
    assert_eq!(div_floor(0, 5), 0);
}

#[test]
fn isqrt_exact_values() {
    assert_eq!(isqrt(0), 0);
    assert_eq!(isqrt(1), 1);
    assert_eq!(isqrt(15), 3);
    assert_eq!(isqrt(16), 4);
    assert_eq!(isqrt(1 << 40), 1 << 20);
    assert_eq!(isqrt((1 << 40) - 1), (1 << 20) - 1);
}

#[test]
fn normalize_rescales_to_unit() {
    let n = v(units(3), units(4), 0).normalize();
    // Length 5 units: coordinates become 3/5 and 4/5 of the unit scale.
    assert_eq!(n, v(39321, 52428, 0));
    let axis = v(0, 0, -units(7)).normalize();
    assert_eq!(axis, v(0, 0, -SCALE));
}

#[test]
fn cross_and_dot_products() {
    let a = v(1, 0, 0);
    let b = v(0, 1, 0);
    assert_eq!(a.cross(b), v(0, 0, 1));
    assert_eq!(b.cross(a), v(0, 0, -1));
    assert_eq!(a.dot_wide(b), 0);
    assert_eq!(v(2, 3, 4).dot_wide(v(5, 6, 7)), 2 * 5 + 3 * 6 + 4 * 7);
}

#[test]
fn sphere_plane_test_is_exact() {
    // A plane with normal +z at distance 10 units (product scale).
    let plane = FrustumPlane { normal: v(0, 0, SCALE), dist: units(10) * SCALE };
    // A point at z = 11 units is past the plane even with radius zero.
    assert!(is_sphere_past_plane(&v(0, 0, units(11)), 0, &plane));
    // A point at z = 8 units reaches past only with radius above 2 units.
    assert!(!is_sphere_past_plane(&v(0, 0, units(8)), units(2), &plane));
    assert!(is_sphere_past_plane(&v(0, 0, units(8)), units(2) + 1, &plane));
}

/// The frustum of a camera at the origin looking along negative z with a
/// seventy-degree field of view, 16:9 aspect, near 0.1 and far 500.
fn example_frustum() -> render_core::frustum::Frustum {
    let pos = v(0, 0, 0);
    let forward = v(0, 0, -SCALE);
    let tan_half_fov = 45889; // tan(35 degrees) on the fixed-point grid
    let aspect = 116508; // 16:9 on the fixed-point grid
    let near = 6554; // 0.1 units
    let far = units(500);
    get_frustum_planes(pos, forward, tan_half_fov, aspect, near, far).expect("frustum")
}

#[test]
fn example_scene_culling() {
    let f = example_frustum();
    let radius = units(3);
    // Fifty units ahead: visible.
    assert!(model_is_visible(&v(0, 0, -units(50)), radius, &f));
    // Six hundred units ahead: beyond the far plane by more than the
    // radius, so culled.
    assert!(!model_is_visible(&v(0, 0, -units(600)), radius, &f));
    // Well behind the camera: culled.
    assert!(!model_is_visible(&v(0, 0, units(50)), radius, &f));
    // Far off to the side: culled.
    assert!(!model_is_visible(&v(units(400), 0, -units(50)), radius, &f));
}

#[test]
fn camera_looking_straight_up_is_rejected() {
    let r = get_frustum_planes(v(0, 0, 0), v(0, SCALE, 0), 45889, 116508, 6554, units(500));
    assert!(r.is_none());
}

#[test]
fn cull_keeps_input_order_and_is_deterministic() {
    let f = example_frustum();
    let radius = units(3);
    let rot = QuatFx { x: 0, y: 0, z: 0, w: SCALE };
    let instances = vec![
        InstanceData { pos: v(0, 0, -units(20)), rot },
        InstanceData { pos: v(0, 0, -units(600)), rot },
        InstanceData { pos: v(0, 0, -units(40)), rot },
        InstanceData { pos: v(0, 0, units(40)), rot },
        InstanceData { pos: v(units(2), 0, -units(60)), rot },
    ];
    let first = get_visible_models(&instances, radius, &f);
    let second = get_visible_models(&instances, radius, &f);
    assert_eq!(first, vec![0, 2, 4]);
    assert_eq!(first, second);
}

#[test]
fn culled_transforms_skip_the_invisible() {
    let f = example_frustum();
    let rot = QuatFx { x: 0, y: 0, z: 0, w: SCALE };
    let instances = vec![
        InstanceData { pos: v(0, 0, -units(20)), rot },
        InstanceData { pos: v(0, 0, -units(600)), rot },
        InstanceData { pos: v(0, 0, -units(40)), rot },
    ];
    let raws = render_core::frustum::culled_raw_transforms(&instances, units(3), &f);
    assert_eq!(raws.len(), 2);
    assert_eq!(raws[0].model[14], -units(20));
    assert_eq!(raws[1].model[14], -units(40));
}

#[test]
fn culled_transforms_follow_selection_order() {
    let rot = QuatFx { x: 0, y: 0, z: 0, w: SCALE };
    let instances = vec![
        InstanceData { pos: v(units(1), 0, 0), rot },
        InstanceData { pos: v(units(2), 0, 0), rot },
        InstanceData { pos: v(units(3), 0, 0), rot },
    ];
    let raws = raw_transforms_for(&instances, &vec![2, 0]);
    assert_eq!(raws.len(), 2);
    assert_eq!(raws[0].model[12], units(3));
    assert_eq!(raws[1].model[12], units(1));
}

#[test]
fn identity_quaternion_packs_identity_rotation() {
    let inst = InstanceData {
        pos: v(units(7), -units(2), units(9)),
        rot: QuatFx { x: 0, y: 0, z: 0, w: SCALE },
    };
    let raw = inst.to_raw();
    let expected: Vec<i64> = vec![
        SCALE, 0, 0, 0, //
        0, SCALE, 0, 0, //
        0, 0, SCALE, 0, //
        units(7), -units(2), units(9), SCALE,
    ];
    assert_eq!(raw.model, expected);
}

#[test]
fn shadow_transform_recenters_on_the_camera() {
    let caster = ShadowCasterData {
        size: v(units(200), units(200), units(200)),
        rot: Mat3Fx {
            row_x: v(SCALE, 0, 0),
            row_y: v(0, SCALE, 0),
            row_z: v(0, 0, SCALE),
        },
    };
    for center in [v(0, 0, 0), v(units(5), units(3), -units(2)), v(-units(999), units(1), 17)] {
        let m = caster.build_gpu_data(center);
        assert_eq!(apply_light_matrix(&m, &center), (0, 0, 0));
    }
}

#[test]
fn shadow_transform_scales_by_reciprocal_extent() {
    let caster = ShadowCasterData {
        size: v(units(200), units(200), units(200)),
        rot: Mat3Fx {
            row_x: v(SCALE, 0, 0),
            row_y: v(0, SCALE, 0),
            row_z: v(0, 0, SCALE),
        },
    };
    let center = v(0, 0, 0);
    let m = caster.build_gpu_data(center);
    // 1/200 on the fixed-point grid is 327; one unit along x maps to
    // 327 * SCALE * SCALE at the transform's output scale.
    let image = apply_light_matrix(&m, &v(units(1), 0, 0));
    assert_eq!(image.0, 327i128 * SCALE as i128 * SCALE as i128);
    assert_eq!(image.1, 0);
    assert_eq!(image.2, 0);
}

#[test]
fn camera_defaults_and_pitch_clamp() {
    let mut cam = CameraData::new(v(0, units(1), units(2)));
    assert_eq!(cam.fov_radians, render_core::camera::DEFAULT_FOV);
    assert_eq!(cam.near, render_core::camera::DEFAULT_NEAR);
    assert_eq!(cam.far, render_core::camera::DEFAULT_FAR);
    cam.update_look(100, -1_000_000_000);
    assert_eq!(cam.rot_xz, 100);
    assert_eq!(cam.rot_y, render_core::camera::PITCH_LIMIT);
    cam.update_look(-50, 2_000_000_000);
    assert_eq!(cam.rot_xz, 50);
    assert_eq!(cam.rot_y, -render_core::camera::PITCH_LIMIT);
    cam.update_look(0, -render_core::camera::PITCH_LIMIT);
    assert_eq!(cam.rot_y, 0);
}

#[test]
fn movement_walks_the_basis() {
    let mut cam = CameraData::new(v(0, 0, 0));
    let forward = v(0, 0, -SCALE);
    let right = derive_right_dir(forward).expect("basis");
    assert_eq!(right, v(SCALE, 0, 0));
    let keys = MovementKeys {
        move_forward: true,
        move_back: false,
        move_right: false,
        move_left: false,
        move_up: true,
        move_down: false,
        boost: false,
    };
    let speed = render_core::camera::movement_speed(SCALE, false);
    assert_eq!(speed, units(30));
    cam.apply_movement(forward, right, keys, speed);
    assert_eq!(cam.pos, v(0, units(30), -units(30)));
    let boosted = render_core::camera::movement_speed(SCALE, true);
    assert_eq!(boosted, units(150));
}

#[test]
fn look_delta_clamps_and_scales() {
    let (dx, dy) = render_core::camera::look_delta(units(100), -units(100));
    // Clamped to fifty units, then scaled by the 0.005 sensitivity step.
    assert_eq!(dx, 16400);
    assert_eq!(dy, -16400);
    let (sx, sy) = render_core::camera::look_delta(65536, 0);
    assert_eq!(sx, 328);
    assert_eq!(sy, 0);
}
