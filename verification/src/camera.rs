//! Camera pose and the input-driven per-frame updates: translation along
//! the derived basis vectors and look rotation with the pitch clamped just
//! under a right angle, which keeps the basis derivation away from its
//! degenerate case.
//!
//! Angles are fixed-point radians. The trigonometry that turns them into a
//! forward vector happens outside; this module consumes the resulting unit
//! vectors and performs every decision and every coordinate update in exact
//! integer arithmetic.

use vstd::prelude::*;
use crate::fixed::{fx_mul, lemma_fx_mul_bound, mul_fx, COORD_BOUND, SCALE};
use crate::vec3::{
    dot,
    in_range,
    lemma_mixed_product_bound,
    spec_add,
    spec_cross,
    spec_scale,
    spec_sub,
    Vec3Fx,
};
use crate::frustum::{spec_right_dir, spec_world_up};
use vstd::arithmetic::div_mod::lemma_fundamental_div_mod_converse;

verus! {

/// The default vertical field of view: seventy degrees in fixed-point
/// radians (1.2217 rad, rounded to the fixed-point grid).
pub const DEFAULT_FOV: i64 = 80075;

/// The default near clip distance: a tenth of a world unit, rounded up to
/// the fixed-point grid.
pub const DEFAULT_NEAR: i64 = 6554;

/// The default far clip distance: five hundred world units.
pub const DEFAULT_FAR: i64 = 32768000;

/// The pitch clamp: 0.999 of a right angle in fixed-point radians, so the
/// forward vector never becomes parallel to world up.
pub const PITCH_LIMIT: i64 = 102851;

/// Mouse velocity is clamped to fifty fixed-point units per frame before
/// it turns into rotation.
pub const MOUSE_CLAMP: i64 = 3276800;

/// Look sensitivity: 0.005 on the fixed-point grid.
pub const SENSITIVITY: i64 = 328;

/// Base movement speed: thirty world units per second.
pub const MOVE_SPEED: i64 = 1966080;

/// The boost factor applied while the boost key is held.
pub const BOOST_FACTOR: i64 = 5;

/// `v` clamped into `[lo, hi]`.
pub open spec fn spec_clamp(v: int, lo: int, hi: int) -> int {
    if v < lo {
        lo
    } else if v > hi {
        hi
    } else {
        v
    }
}

/// Camera pose and projection parameters.
pub struct CameraData {
    pub pos: Vec3Fx,
    pub rot_xz: i64,
    pub rot_y: i64,
    pub fov_radians: i64,
    pub near: i64,
    pub far: i64,
}

/// The camera's invariant: positive clip range inside the coordinate bound
/// and a pitch strictly clamped below a right angle.
pub open spec fn camera_wf(c: CameraData) -> bool {
    &&& 0 < c.near < c.far <= COORD_BOUND
    &&& -PITCH_LIMIT <= c.rot_y <= PITCH_LIMIT
}

/// The movement keys sampled for one frame.
#[derive(Clone, Copy, PartialEq, Eq, Structural, Debug)]
pub struct MovementKeys {
    pub move_forward: bool,
    pub move_back: bool,
    pub move_right: bool,
    pub move_left: bool,
    pub move_up: bool,
    pub move_down: bool,
    pub boost: bool,
}

/// Where the camera ends up after one frame of movement: a conditional
/// step along each basis direction, then the vertical steps.
pub open spec fn spec_move(
    pos: Vec3Fx,
    forward_dir: Vec3Fx,
    right_dir: Vec3Fx,
    keys: MovementKeys,
    speed: i64,
) -> Vec3Fx {
    let p1 = if keys.move_forward {
        spec_add(pos, spec_scale(forward_dir, speed))
    } else {
        pos
    };
    let p2 = if keys.move_back {
        spec_sub(p1, spec_scale(forward_dir, speed))
    } else {
        p1
    };
    let p3 = if keys.move_right {
        spec_add(p2, spec_scale(right_dir, speed))
    } else {
        p2
    };
    let p4 = if keys.move_left {
        spec_sub(p3, spec_scale(right_dir, speed))
    } else {
        p3
    };
    let p5 = if keys.move_up {
        Vec3Fx { x: p4.x, y: (p4.y + speed) as i64, z: p4.z }
    } else {
        p4
    };
    if keys.move_down {
        Vec3Fx { x: p5.x, y: (p5.y - speed) as i64, z: p5.z }
    } else {
        p5
    }
}

impl CameraData {
    /// A camera at `pos` looking along the positive first axis, with the
    /// default field of view and clip range.
    pub fn new(pos: Vec3Fx) -> (r: CameraData)
        ensures
            r.pos == pos,
            r.rot_xz == 0,
            r.rot_y == 0,
            r.fov_radians == DEFAULT_FOV,
            r.near == DEFAULT_NEAR,
            r.far == DEFAULT_FAR,
            camera_wf(r),
    {
        CameraData {
            pos,
            rot_xz: 0,
            rot_y: 0,
            fov_radians: DEFAULT_FOV,
            near: DEFAULT_NEAR,
            far: DEFAULT_FAR,
        }
    }

    /// Applies one frame of look input: the yaw accumulates freely, the
    /// pitch is clamped strictly inside the right angle.
    pub fn update_look(&mut self, dx: i64, dy: i64)
        requires
            camera_wf(*old(self)),
            i64::MIN <= old(self).rot_xz + dx <= i64::MAX,
            -0x1000_0000_0000 <= dy <= 0x1000_0000_0000,
        ensures
            final(self).rot_xz == old(self).rot_xz + dx,
            final(self).rot_y == spec_clamp(
                old(self).rot_y - dy,
                -PITCH_LIMIT as int,
                PITCH_LIMIT as int,
            ),
            final(self).pos == old(self).pos,
            final(self).fov_radians == old(self).fov_radians,
            final(self).near == old(self).near,
            final(self).far == old(self).far,
            camera_wf(*final(self)),
    {
        self.rot_xz = self.rot_xz + dx;
        let t = self.rot_y - dy;
        self.rot_y = if t < -PITCH_LIMIT {
            -PITCH_LIMIT
        } else if t > PITCH_LIMIT {
            PITCH_LIMIT
        } else {
            t
        };
    }

    /// Applies one frame of movement along the camera's basis.
    pub fn apply_movement(
        &mut self,
        forward_dir: Vec3Fx,
        right_dir: Vec3Fx,
        keys: MovementKeys,
        speed: i64,
    )
        requires
            in_range(old(self).pos, COORD_BOUND as int),
            in_range(forward_dir, 2 * SCALE),
            in_range(right_dir, 2 * SCALE),
            0 <= speed <= BOOST_FACTOR * 480 * SCALE,
        ensures
            final(self).pos == spec_move(old(self).pos, forward_dir, right_dir, keys, speed),
            final(self).rot_xz == old(self).rot_xz,
            final(self).rot_y == old(self).rot_y,
            final(self).fov_radians == old(self).fov_radians,
            final(self).near == old(self).near,
            final(self).far == old(self).far,
    {
        proof {
            lemma_scale_offset_bound(forward_dir, speed);
            lemma_scale_offset_bound(right_dir, speed);
        }
        let mut p = self.pos;
        if keys.move_forward {
            p = p.add(forward_dir.scale(speed));
        }
        proof {
            assert(in_range(p, COORD_BOUND as int + 0x2000_0000));
        }
        if keys.move_back {
            p = p.sub(forward_dir.scale(speed));
        }
        proof {
            assert(in_range(p, COORD_BOUND as int + 2 * 0x2000_0000));
        }
        if keys.move_right {
            p = p.add(right_dir.scale(speed));
        }
        proof {
            assert(in_range(p, COORD_BOUND as int + 3 * 0x2000_0000));
        }
        if keys.move_left {
            p = p.sub(right_dir.scale(speed));
        }
        proof {
            assert(in_range(p, COORD_BOUND as int + 4 * 0x2000_0000));
        }
        if keys.move_up {
            p = Vec3Fx { x: p.x, y: p.y + speed, z: p.z };
        }
        if keys.move_down {
            p = Vec3Fx { x: p.x, y: p.y - speed, z: p.z };
        }
        self.pos = p;
    }
}

/// The speed of one frame of movement: the base speed scaled by the frame
/// time, boosted while the boost key is held.
pub fn movement_speed(dt: i64, boost: bool) -> (r: i64)
    requires
        0 <= dt <= 16 * SCALE,
    ensures
        r == (if boost {
            BOOST_FACTOR * fx_mul(MOVE_SPEED, dt)
        } else {
            fx_mul(MOVE_SPEED, dt)
        }),
        0 <= r <= BOOST_FACTOR * 480 * SCALE,
{
    proof {
        lemma_mixed_product_bound(MOVE_SPEED as int, dt as int, 480 * SCALE, 16 * SCALE);
        assert((480 * SCALE) * (16 * SCALE) == (480 * 16 * SCALE) * SCALE) by (nonlinear_arith);
        assert((480 * 16 * SCALE) * (SCALE as int) <= (i64::MAX as int) * (SCALE as int))
            by (nonlinear_arith)
            requires
                SCALE == 65536,
        ;
        lemma_fx_mul_bound(MOVE_SPEED, dt, (480 * 16 * SCALE) * SCALE);
        lemma_fundamental_div_mod_converse(
            (480 * 16 * SCALE) * SCALE,
            SCALE as int,
            480 * 16 * SCALE,
            0,
        );
        vstd::arithmetic::div_mod::lemma_div_pos_is_pos(
            crate::fixed::fx_product(MOVE_SPEED, dt),
            SCALE as int,
        );
        assert(0 <= crate::fixed::fx_product(MOVE_SPEED, dt)) by (nonlinear_arith)
            requires
                0 <= dt,
        ;
    }
    let base = mul_fx(MOVE_SPEED, dt);
    if boost {
        BOOST_FACTOR * base
    } else {
        base
    }
}

/// One frame of pointer movement turned into rotation deltas: the velocity
/// clamped, then scaled by the sensitivity.
pub fn look_delta(vel_x: i64, vel_y: i64) -> (r: (i64, i64))
    ensures
        r.0 == fx_mul(
            spec_clamp(vel_x as int, -MOUSE_CLAMP as int, MOUSE_CLAMP as int) as i64,
            SENSITIVITY,
        ),
        r.1 == fx_mul(
            spec_clamp(vel_y as int, -MOUSE_CLAMP as int, MOUSE_CLAMP as int) as i64,
            SENSITIVITY,
        ),
        -0x1000_0000_0000 <= r.0 <= 0x1000_0000_0000,
        -0x1000_0000_0000 <= r.1 <= 0x1000_0000_0000,
{
    let cx = clamp_i64(vel_x, -MOUSE_CLAMP, MOUSE_CLAMP);
    let cy = clamp_i64(vel_y, -MOUSE_CLAMP, MOUSE_CLAMP);
    proof {
        lemma_look_component_bound(cx);
        lemma_look_component_bound(cy);
    }
    (mul_fx(cx, SENSITIVITY), mul_fx(cy, SENSITIVITY))
}

/// The scaled, clamped velocity stays within the range `update_look`
/// accepts.
proof fn lemma_look_component_bound(c: i64)
    requires
        -MOUSE_CLAMP <= c <= MOUSE_CLAMP,
    ensures
        (i64::MIN as int) * (SCALE as int) <= crate::fixed::fx_product(c, SENSITIVITY) <= (
        i64::MAX as int) * (SCALE as int),
        -0x1000_0000_0000 <= fx_mul(c, SENSITIVITY) <= 0x1000_0000_0000,
{
    lemma_mixed_product_bound(c as int, SENSITIVITY as int, MOUSE_CLAMP as int,
        SENSITIVITY as int);
    assert((MOUSE_CLAMP as int) * (SENSITIVITY as int) <= 0x1000_0000_0000 * (SCALE as int))
        by (nonlinear_arith)
        requires
            MOUSE_CLAMP == 3276800,
            SENSITIVITY == 328,
            SCALE == 65536,
    ;
    assert(0x1000_0000_0000 * (SCALE as int) <= (i64::MAX as int) * (SCALE as int))
        by (nonlinear_arith)
        requires
            SCALE == 65536,
    ;
    lemma_fx_mul_bound(c, SENSITIVITY, 0x1000_0000_0000 * (SCALE as int));
    lemma_fundamental_div_mod_converse(
        0x1000_0000_0000 * (SCALE as int),
        SCALE as int,
        0x1000_0000_0000,
        0,
    );
}

/// Exec clamp on `i64`.
pub fn clamp_i64(v: i64, lo: i64, hi: i64) -> (r: i64)
    requires
        lo <= hi,
    ensures
        r == spec_clamp(v as int, lo as int, hi as int),
{
    if v < lo {
        lo
    } else if v > hi {
        hi
    } else {
        v
    }
}

/// The camera's right direction derived from its forward vector, or
/// nothing when the cross product with world up degenerates — which the
/// pitch clamp keeps from happening for any real pose.
pub fn derive_right_dir(forward: Vec3Fx) -> (r: Option<Vec3Fx>)
    requires
        in_range(forward, 2 * SCALE),
    ensures
        r is Some ==> r->Some_0 == spec_right_dir(forward) && in_range(r->Some_0, SCALE as int),
        r is None ==> dot(
            spec_cross(forward, spec_world_up()),
            spec_cross(forward, spec_world_up()),
        ) < 1,
{
    let up_world = Vec3Fx { x: 0, y: SCALE, z: 0 };
    proof {
        crate::vec3::lemma_cross_bounds(forward, up_world, 2 * SCALE, SCALE as int);
    }
    let c1 = forward.cross(up_world);
    let d1 = c1.dot_wide(c1);
    if d1 < 1 {
        return None;
    }
    Some(c1.normalize())
}

/// The conditional scale of a unit-range direction by a bounded speed
/// stays within a small offset range.
proof fn lemma_scale_offset_bound(dir: Vec3Fx, speed: i64)
    requires
        in_range(dir, 2 * SCALE),
        0 <= speed <= BOOST_FACTOR * 480 * SCALE,
    ensures
        (i64::MIN as int) * (SCALE as int) <= dir.x * speed <= (i64::MAX as int) * (SCALE as int),
        (i64::MIN as int) * (SCALE as int) <= dir.y * speed <= (i64::MAX as int) * (SCALE as int),
        (i64::MIN as int) * (SCALE as int) <= dir.z * speed <= (i64::MAX as int) * (SCALE as int),
        in_range(spec_scale(dir, speed), 0x2000_0000),
{
    lemma_mixed_product_bound(dir.x as int, speed as int, 2 * SCALE, BOOST_FACTOR * 480 * SCALE);
    lemma_mixed_product_bound(dir.y as int, speed as int, 2 * SCALE, BOOST_FACTOR * 480 * SCALE);
    lemma_mixed_product_bound(dir.z as int, speed as int, 2 * SCALE, BOOST_FACTOR * 480 * SCALE);
    let p = (2 * SCALE) * (BOOST_FACTOR * 480 * SCALE);
    assert((2 * SCALE) * (BOOST_FACTOR * 480 * SCALE) == (2 * BOOST_FACTOR * 480 * SCALE) * SCALE)
        by (nonlinear_arith);
    assert((2 * BOOST_FACTOR * 480 * SCALE) * (SCALE as int) <= (i64::MAX as int) * (SCALE as int))
        by (nonlinear_arith)
        requires
            SCALE == 65536,
            BOOST_FACTOR == 5,
    ;
    lemma_fx_mul_bound(dir.x, speed, p);
    lemma_fx_mul_bound(dir.y, speed, p);
    lemma_fx_mul_bound(dir.z, speed, p);
    lemma_fundamental_div_mod_converse(p, SCALE as int, 2 * BOOST_FACTOR * 480 * SCALE, 0);
    assert(2 * BOOST_FACTOR * 480 * SCALE < 0x2000_0000);
}

} // verus!
