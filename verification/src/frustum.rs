//! The view frustum: five half-space planes derived from the camera, and
//! the conservative sphere-versus-plane visibility test run over every
//! placed instance each frame.
//!
//! A plane stores a normal at the fixed-point unit scale and a signed
//! distance at the coordinate-product scale, so the visibility comparison
//! `dot(normal, pos) > dist - radius * SCALE` is exact integer arithmetic.
//! The normal of every plane points into the visible half-space.

use vstd::prelude::*;
use crate::fixed::{fx_mul, COORD_BOUND, SCALE};
use crate::instance::InstanceData;
use crate::vec3::{
    dot,
    dot_i64,
    in_range,
    in_range_chk,
    lemma_cross_bounds,
    lemma_mixed_product_bound,
    spec_add,
    spec_cross,
    spec_neg,
    spec_normalize,
    spec_scale,
    spec_sub,
    Vec3Fx,
};

verus! {

/// Bound on the points the construction touches: beyond it the camera is
/// rejected rather than risking overflow.
pub const POINT_BOUND: i64 = 0x200_0000_0000;

/// One half-space: a unit-scale inward normal and a signed distance at the
/// coordinate-product scale.
#[derive(Clone, Copy, PartialEq, Eq, Structural, Debug)]
pub struct FrustumPlane {
    pub normal: Vec3Fx,
    pub dist: i64,
}

/// The five planes of the view frustum; the near plane is intentionally
/// omitted as redundant for this camera's near distance.
#[derive(Clone, Copy, PartialEq, Eq, Structural, Debug)]
pub struct Frustum {
    pub far: FrustumPlane,
    pub left: FrustumPlane,
    pub right: FrustumPlane,
    pub top: FrustumPlane,
    pub bottom: FrustumPlane,
}

/// The plane's normal stays within twice the fixed-point unit.
pub open spec fn plane_wf(p: FrustumPlane) -> bool {
    in_range(p.normal, 2 * SCALE)
}

/// All five planes are well-formed.
pub open spec fn frustum_wf(f: Frustum) -> bool {
    &&& plane_wf(f.far)
    &&& plane_wf(f.left)
    &&& plane_wf(f.right)
    &&& plane_wf(f.top)
    &&& plane_wf(f.bottom)
}

/// The bounding sphere at `pos` with the given radius reaches past `p` into
/// the visible side.
pub open spec fn sphere_past_plane(pos: Vec3Fx, radius: i64, p: FrustumPlane) -> bool {
    dot(p.normal, pos) > p.dist - radius * SCALE
}

/// The bounding sphere is on the visible side of every plane.
pub open spec fn sphere_visible(f: Frustum, pos: Vec3Fx, radius: i64) -> bool {
    &&& sphere_past_plane(pos, radius, f.far)
    &&& sphere_past_plane(pos, radius, f.left)
    &&& sphere_past_plane(pos, radius, f.right)
    &&& sphere_past_plane(pos, radius, f.top)
    &&& sphere_past_plane(pos, radius, f.bottom)
}

/// The conservative sphere-versus-plane test of one plane.
pub fn is_sphere_past_plane(pos: &Vec3Fx, radius: i64, plane: &FrustumPlane) -> (r: bool)
    requires
        plane_wf(*plane),
        in_range(*pos, COORD_BOUND as int),
        0 <= radius <= COORD_BOUND,
    ensures
        r == sphere_past_plane(*pos, radius, *plane),
{
    proof {
        lemma_mixed_product_bound(radius as int, SCALE as int, COORD_BOUND as int, SCALE as int);
    }
    let d: i128 = plane.normal.dot_wide(*pos);
    d > (plane.dist as i128) - (radius as i128) * (SCALE as i128)
}

/// Whether one instance at `pos` with the model's bounding radius is
/// visible: it must reach past all five planes.
pub fn model_is_visible(pos: &Vec3Fx, bounding_radius: i64, frustum: &Frustum) -> (r: bool)
    requires
        frustum_wf(*frustum),
        in_range(*pos, COORD_BOUND as int),
        0 <= bounding_radius <= COORD_BOUND,
    ensures
        r == sphere_visible(*frustum, *pos, bounding_radius),
{
    is_sphere_past_plane(pos, bounding_radius, &frustum.far)
        && is_sphere_past_plane(pos, bounding_radius, &frustum.left)
        && is_sphere_past_plane(pos, bounding_radius, &frustum.right)
        && is_sphere_past_plane(pos, bounding_radius, &frustum.top)
        && is_sphere_past_plane(pos, bounding_radius, &frustum.bottom)
}

/// The indices of the visible instances, in input order.
pub open spec fn visible_indices(instances: Seq<InstanceData>, radius: i64, f: Frustum) -> Seq<
    usize,
>
    decreases instances.len(),
{
    if instances.len() == 0 {
        Seq::empty()
    } else {
        let prefix = visible_indices(instances.drop_last(), radius, f);
        if sphere_visible(f, instances.last().pos, radius) {
            prefix.push((instances.len() - 1) as usize)
        } else {
            prefix
        }
    }
}

/// Runs the visibility test over every instance and returns the indices of
/// the visible ones, keeping the input order.
pub fn get_visible_models(
    instance_datas: &Vec<InstanceData>,
    bounding_radius: i64,
    frustum: &Frustum,
) -> (r: Vec<usize>)
    requires
        frustum_wf(*frustum),
        0 <= bounding_radius <= COORD_BOUND,
        forall|k: int|
            0 <= k < instance_datas@.len() ==> in_range(
                #[trigger] instance_datas@[k].pos,
                COORD_BOUND as int,
            ),
    ensures
        r@ == visible_indices(instance_datas@, bounding_radius, *frustum),
{
    let mut out: Vec<usize> = Vec::new();
    let mut i: usize = 0;
    while i < instance_datas.len()
        invariant
            0 <= i <= instance_datas@.len(),
            frustum_wf(*frustum),
            0 <= bounding_radius <= COORD_BOUND,
            forall|k: int|
                0 <= k < instance_datas@.len() ==> in_range(
                    #[trigger] instance_datas@[k].pos,
                    COORD_BOUND as int,
                ),
            out@ == visible_indices(
                instance_datas@.take(i as int),
                bounding_radius,
                *frustum,
            ),
        decreases instance_datas@.len() - i,
    {
        let inst = instance_datas[i];
        if model_is_visible(&inst.pos, bounding_radius, frustum) {
            out.push(i);
        }
        proof {
            let taken = instance_datas@.take(i + 1);
            assert(taken.drop_last() =~= instance_datas@.take(i as int));
            assert(taken.last() == instance_datas@[i as int]);
        }
        i = i + 1;
    }
    proof {
        assert(instance_datas@.take(instance_datas@.len() as int) =~= instance_datas@);
    }
    out
}

/// One frame's culled instance data: the packed transforms of exactly the
/// visible instances, in input order, ready for the instance buffer.
pub fn culled_raw_transforms(
    instance_datas: &Vec<InstanceData>,
    bounding_radius: i64,
    frustum: &Frustum,
) -> (r: Vec<crate::instance::RawInstanceData>)
    requires
        frustum_wf(*frustum),
        0 <= bounding_radius <= COORD_BOUND,
        forall|k: int|
            0 <= k < instance_datas@.len() ==> in_range(
                #[trigger] instance_datas@[k].pos,
                COORD_BOUND as int,
            ) && crate::instance::quat_in_range(instance_datas@[k].rot),
    ensures
        ({
            let visible = visible_indices(instance_datas@, bounding_radius, *frustum);
            &&& r@.len() == visible.len()
            &&& forall|k: int|
                0 <= k < r@.len() ==> crate::instance::raw_matches(
                    #[trigger] r@[k],
                    instance_datas@[visible[k] as int],
                )
        }),
{
    let total = instance_datas.len();
    let visible = get_visible_models(instance_datas, bounding_radius, frustum);
    proof {
        assert(instance_datas@.len() == total);
        lemma_visible_indices_characterized(instance_datas@, bounding_radius, *frustum);
        assert forall|k: int|
            0 <= k < instance_datas@.len() implies crate::instance::quat_in_range(
            #[trigger] instance_datas@[k].rot,
        ) && in_range(instance_datas@[k].pos, COORD_BOUND as int) by {
            assert(in_range(instance_datas@[k].pos, COORD_BOUND as int)
                && crate::instance::quat_in_range(instance_datas@[k].rot));
        }
    }
    crate::instance::raw_transforms_for(instance_datas, &visible)
}

/// The world's fixed up direction.
pub open spec fn spec_world_up() -> Vec3Fx {
    Vec3Fx { x: 0, y: SCALE, z: 0 }
}

/// The camera's right direction: forward crossed with world up,
/// renormalized.
pub open spec fn spec_right_dir(forward: Vec3Fx) -> Vec3Fx {
    spec_normalize(spec_cross(forward, spec_world_up()))
}

/// The camera's up direction: forward crossed with the negated right
/// direction, renormalized.
pub open spec fn spec_up_dir(forward: Vec3Fx) -> Vec3Fx {
    spec_normalize(spec_cross(forward, spec_neg(spec_right_dir(forward))))
}

/// Half the near-plane rectangle's height: the tangent of half the field
/// of view scaled by the near distance.
pub open spec fn spec_half_height(tan_half_fov: i64, near: i64) -> int {
    fx_mul(tan_half_fov, near)
}

/// Half the near-plane rectangle's width: the half height scaled by the
/// aspect ratio.
pub open spec fn spec_half_width(tan_half_fov: i64, aspect: i64, near: i64) -> int {
    fx_mul(spec_half_height(tan_half_fov, near) as i64, aspect)
}

/// The center of the near-plane rectangle.
pub open spec fn spec_near_center(pos: Vec3Fx, forward: Vec3Fx, near: i64) -> Vec3Fx {
    spec_add(pos, spec_scale(forward, near))
}

/// A side plane through `point`: its normal is the cross product of `axis`
/// with the ray from the camera to the point, renormalized and flipped
/// where needed so that it points inward.
pub open spec fn spec_plane_through(point: Vec3Fx, pos: Vec3Fx, axis: Vec3Fx, flip: bool)
    -> FrustumPlane {
    let n1 = spec_normalize(spec_cross(axis, spec_sub(point, pos)));
    let n = if flip {
        spec_neg(n1)
    } else {
        n1
    };
    FrustumPlane { normal: n, dist: dot(point, n) as i64 }
}

/// The far plane: the negated forward direction through the point at the
/// far distance.
pub open spec fn spec_far_plane(pos: Vec3Fx, forward: Vec3Fx, far: i64) -> FrustumPlane {
    let n = spec_neg(forward);
    FrustumPlane { normal: n, dist: dot(spec_add(pos, spec_scale(forward, far)), n) as i64 }
}

/// The whole frustum, as the construction computes it.
pub open spec fn spec_build_frustum(
    pos: Vec3Fx,
    forward: Vec3Fx,
    tan_half_fov: i64,
    aspect: i64,
    near: i64,
    far: i64,
) -> Frustum {
    let right_dir = spec_right_dir(forward);
    let up_dir = spec_up_dir(forward);
    let hh = spec_half_height(tan_half_fov, near) as i64;
    let hw = spec_half_width(tan_half_fov, aspect, near) as i64;
    let nc = spec_near_center(pos, forward, near);
    let right_off = spec_scale(right_dir, hw);
    let up_off = spec_scale(up_dir, hh);
    Frustum {
        far: spec_far_plane(pos, forward, far),
        left: spec_plane_through(spec_sub(nc, right_off), pos, up_dir, true),
        right: spec_plane_through(spec_add(nc, right_off), pos, up_dir, false),
        top: spec_plane_through(spec_add(nc, up_off), pos, right_dir, true),
        bottom: spec_plane_through(spec_sub(nc, up_off), pos, right_dir, false),
    }
}

/// The cross product behind a side plane's normal has positive squared
/// length, so its normalization is meaningful.
pub open spec fn side_plane_ok(point: Vec3Fx, pos: Vec3Fx, axis: Vec3Fx) -> bool {
    let c = spec_cross(axis, spec_sub(point, pos));
    dot(c, c) >= 1
}

/// Every intermediate value of the frustum construction stays within its
/// working range and no normalization degenerates. The camera's pitch
/// clamp keeps real cameras far away from the degenerate cases; the
/// construction still checks and reports them rather than assuming.
pub open spec fn frustum_admissible(
    pos: Vec3Fx,
    forward: Vec3Fx,
    tan_half_fov: i64,
    aspect: i64,
    near: i64,
    far: i64,
) -> bool {
    let c1 = spec_cross(forward, spec_world_up());
    let right_dir = spec_right_dir(forward);
    let c2 = spec_cross(forward, spec_neg(right_dir));
    let up_dir = spec_up_dir(forward);
    let hh = spec_half_height(tan_half_fov, near);
    let hw = spec_half_width(tan_half_fov, aspect, near);
    let fwd_near = spec_scale(forward, near);
    let nc = spec_near_center(pos, forward, near);
    let right_off = spec_scale(right_dir, hw as i64);
    let up_off = spec_scale(up_dir, hh as i64);
    let point_left = spec_sub(nc, right_off);
    let point_right = spec_add(nc, right_off);
    let point_top = spec_add(nc, up_off);
    let point_bottom = spec_sub(nc, up_off);
    let fwd_far = spec_scale(forward, far);
    let point_far = spec_add(pos, fwd_far);
    &&& dot(c1, c1) >= 1
    &&& dot(c2, c2) >= 1
    &&& 0 <= hh <= COORD_BOUND
    &&& 0 <= hw <= COORD_BOUND
    &&& in_range(fwd_near, POINT_BOUND as int)
    &&& in_range(nc, POINT_BOUND as int)
    &&& in_range(right_off, POINT_BOUND as int)
    &&& in_range(up_off, POINT_BOUND as int)
    &&& in_range(point_left, POINT_BOUND as int)
    &&& side_plane_ok(point_left, pos, up_dir)
    &&& in_range(point_right, POINT_BOUND as int)
    &&& side_plane_ok(point_right, pos, up_dir)
    &&& in_range(point_top, POINT_BOUND as int)
    &&& side_plane_ok(point_top, pos, right_dir)
    &&& in_range(point_bottom, POINT_BOUND as int)
    &&& side_plane_ok(point_bottom, pos, right_dir)
    &&& in_range(fwd_far, POINT_BOUND as int)
    &&& in_range(point_far, POINT_BOUND as int)
}

/// Builds one side plane through `point`. Returns `None` exactly when the
/// plane's cross product degenerates.
fn plane_through(point: Vec3Fx, pos: Vec3Fx, axis: Vec3Fx, flip: bool) -> (r: Option<FrustumPlane>)
    requires
        in_range(point, POINT_BOUND as int),
        in_range(pos, COORD_BOUND as int),
        in_range(axis, SCALE as int),
    ensures
        r is Some ==> r->Some_0 == spec_plane_through(point, pos, axis, flip) && plane_wf(
            r->Some_0,
        ) && side_plane_ok(point, pos, axis),
        r is None ==> !side_plane_ok(point, pos, axis),
{
    let diff = point.sub(pos);
    proof {
        lemma_cross_bounds(axis, diff, SCALE as int, POINT_BOUND as int + COORD_BOUND as int);
    }
    let c = axis.cross(diff);
    let d = c.dot_wide(c);
    if d < 1 {
        return None;
    }
    let n1 = c.normalize();
    let n = if flip {
        n1.neg()
    } else {
        n1
    };
    let dist = dot_i64(&point, &n);
    Some(FrustumPlane { normal: n, dist })
}

/// Derives the five frustum planes from the camera's position, its unit
/// forward direction, the tangent of half its vertical field of view, the
/// aspect ratio and the near and far distances. Returns `None` exactly
/// when an intermediate value degenerates or leaves the working range,
/// which a pitch-clamped camera with sane distances never produces.
pub fn get_frustum_planes(
    pos: Vec3Fx,
    forward: Vec3Fx,
    tan_half_fov: i64,
    aspect: i64,
    near: i64,
    far: i64,
) -> (r: Option<Frustum>)
    requires
        in_range(pos, COORD_BOUND as int),
        in_range(forward, 2 * SCALE),
        0 <= tan_half_fov <= 4 * SCALE,
        0 < aspect <= 8 * SCALE,
        0 < near <= far <= COORD_BOUND,
    ensures
        r is Some ==> r->Some_0 == spec_build_frustum(pos, forward, tan_half_fov, aspect, near, far)
            && frustum_wf(r->Some_0) && frustum_admissible(
            pos,
            forward,
            tan_half_fov,
            aspect,
            near,
            far,
        ),
        r is None ==> !frustum_admissible(pos, forward, tan_half_fov, aspect, near, far),
{
    let up_world = Vec3Fx { x: 0, y: SCALE, z: 0 };
    proof {
        lemma_cross_bounds(forward, up_world, 2 * SCALE, SCALE as int);
    }
    let c1 = forward.cross(up_world);
    let d1 = c1.dot_wide(c1);
    if d1 < 1 {
        return None;
    }
    let right_dir = c1.normalize();
    proof {
        lemma_cross_bounds(forward, spec_neg(right_dir), 2 * SCALE, SCALE as int);
    }
    let c2 = forward.cross(right_dir.neg());
    let d2 = c2.dot_wide(c2);
    if d2 < 1 {
        return None;
    }
    let up_dir = c2.normalize();

    proof {
        lemma_mixed_product_bound(
            tan_half_fov as int,
            near as int,
            4 * SCALE,
            COORD_BOUND as int,
        );
    }
    let hh = crate::fixed::mul_fx(tan_half_fov, near);
    if !(0 <= hh && hh <= COORD_BOUND) {
        return None;
    }
    proof {
        lemma_mixed_product_bound(hh as int, aspect as int, COORD_BOUND as int, 8 * SCALE);
    }
    let hw = crate::fixed::mul_fx(hh, aspect);
    if !(0 <= hw && hw <= COORD_BOUND) {
        return None;
    }

    proof {
        lemma_scale_products(forward, near, 2 * SCALE, COORD_BOUND as int);
    }
    let fwd_near = forward.scale(near);
    if !in_range_chk(&fwd_near, POINT_BOUND) {
        return None;
    }
    let near_center = pos.add(fwd_near);
    if !in_range_chk(&near_center, POINT_BOUND) {
        return None;
    }
    proof {
        lemma_scale_products(right_dir, hw, SCALE as int, COORD_BOUND as int);
        lemma_scale_products(up_dir, hh, SCALE as int, COORD_BOUND as int);
    }
    let right_off = right_dir.scale(hw);
    if !in_range_chk(&right_off, POINT_BOUND) {
        return None;
    }
    let up_off = up_dir.scale(hh);
    if !in_range_chk(&up_off, POINT_BOUND) {
        return None;
    }

    let point_left = near_center.sub(right_off);
    if !in_range_chk(&point_left, POINT_BOUND) {
        return None;
    }
    let left = match plane_through(point_left, pos, up_dir, true) {
        Some(p) => p,
        None => {
            return None;
        },
    };
    let point_right = near_center.add(right_off);
    if !in_range_chk(&point_right, POINT_BOUND) {
        return None;
    }
    let right = match plane_through(point_right, pos, up_dir, false) {
        Some(p) => p,
        None => {
            return None;
        },
    };
    let point_top = near_center.add(up_off);
    if !in_range_chk(&point_top, POINT_BOUND) {
        return None;
    }
    let top = match plane_through(point_top, pos, right_dir, true) {
        Some(p) => p,
        None => {
            return None;
        },
    };
    let point_bottom = near_center.sub(up_off);
    if !in_range_chk(&point_bottom, POINT_BOUND) {
        return None;
    }
    let bottom = match plane_through(point_bottom, pos, right_dir, false) {
        Some(p) => p,
        None => {
            return None;
        },
    };

    proof {
        lemma_scale_products(forward, far, 2 * SCALE, COORD_BOUND as int);
    }
    let fwd_far = forward.scale(far);
    if !in_range_chk(&fwd_far, POINT_BOUND) {
        return None;
    }
    let point_far = pos.add(fwd_far);
    if !in_range_chk(&point_far, POINT_BOUND) {
        return None;
    }
    let far_normal = forward.neg();
    let far_dist = dot_i64(&point_far, &far_normal);
    Some(
        Frustum {
            far: FrustumPlane { normal: far_normal, dist: far_dist },
            left,
            right,
            top,
            bottom,
        },
    )
}

/// Componentwise products of a bounded vector with a bounded scalar stay
/// within the range that `Vec3Fx::scale` asks for.
proof fn lemma_scale_products(v: Vec3Fx, s: i64, bv: int, bs: int)
    requires
        in_range(v, bv),
        -bs <= s <= bs,
        0 <= bv,
        0 <= bs,
        bv * bs <= (i64::MAX as int) * (SCALE as int),
    ensures
        (i64::MIN as int) * (SCALE as int) <= v.x * s <= (i64::MAX as int) * (SCALE as int),
        (i64::MIN as int) * (SCALE as int) <= v.y * s <= (i64::MAX as int) * (SCALE as int),
        (i64::MIN as int) * (SCALE as int) <= v.z * s <= (i64::MAX as int) * (SCALE as int),
{
    lemma_mixed_product_bound(v.x as int, s as int, bv, bs);
    lemma_mixed_product_bound(v.y as int, s as int, bv, bs);
    lemma_mixed_product_bound(v.z as int, s as int, bv, bs);
    assert((i64::MIN as int) * (SCALE as int) <= -((i64::MAX as int) * (SCALE as int)))
        by (nonlinear_arith);
}

/// Culling soundness: a sphere that stands inside every plane by at least
/// its own (positive) radius is classified visible.
pub proof fn lemma_culling_sound(f: Frustum, pos: Vec3Fx, radius: i64)
    requires
        0 < radius,
        dot(f.far.normal, pos) - f.far.dist >= radius * SCALE,
        dot(f.left.normal, pos) - f.left.dist >= radius * SCALE,
        dot(f.right.normal, pos) - f.right.dist >= radius * SCALE,
        dot(f.top.normal, pos) - f.top.dist >= radius * SCALE,
        dot(f.bottom.normal, pos) - f.bottom.dist >= radius * SCALE,
    ensures
        sphere_visible(f, pos, radius),
{
    assert(0 < radius * SCALE) by (nonlinear_arith)
        requires
            0 < radius,
            0 < SCALE,
    ;
}

/// Culling conservatism: a sphere entirely outside at least one plane, by
/// more than its radius, is never classified visible.
pub proof fn lemma_culling_conservative(f: Frustum, pos: Vec3Fx, radius: i64)
    requires
        ({
            ||| dot(f.far.normal, pos) < f.far.dist - radius * SCALE
            ||| dot(f.left.normal, pos) < f.left.dist - radius * SCALE
            ||| dot(f.right.normal, pos) < f.right.dist - radius * SCALE
            ||| dot(f.top.normal, pos) < f.top.dist - radius * SCALE
            ||| dot(f.bottom.normal, pos) < f.bottom.dist - radius * SCALE
        }),
    ensures
        !sphere_visible(f, pos, radius),
{
}

/// What the cull's result holds: every returned index is in bounds, the
/// indices are strictly increasing — the input order is kept — and an
/// index appears exactly when its instance's bounding sphere is visible.
pub proof fn lemma_visible_indices_characterized(
    instances: Seq<InstanceData>,
    radius: i64,
    f: Frustum,
)
    requires
        instances.len() <= usize::MAX,
    ensures
        ({
            let r = visible_indices(instances, radius, f);
            &&& forall|i: int| 0 <= i < r.len() ==> #[trigger] r[i] < instances.len()
            &&& forall|i: int, j: int| 0 <= i < j < r.len() ==> r[i] < r[j]
            &&& forall|k: usize|
                r.contains(k) <==> (k < instances.len() && sphere_visible(
                    f,
                    instances[k as int].pos,
                    radius,
                ))
        }),
    decreases instances.len(),
{
    let r = visible_indices(instances, radius, f);
    if instances.len() == 0 {
        assert forall|k: usize|
            r.contains(k) <==> (k < instances.len() && sphere_visible(
                f,
                instances[k as int].pos,
                radius,
            )) by {
            if r.contains(k) {
                let i = choose|i: int| 0 <= i < r.len() && r[i] == k;
            }
        }
    } else {
        lemma_visible_indices_characterized(instances.drop_last(), radius, f);
        let shorter = instances.drop_last();
        let prefix = visible_indices(shorter, radius, f);
        let last_index = (instances.len() - 1) as usize;
        assert(forall|k: int| 0 <= k < shorter.len() ==> shorter[k] == #[trigger] instances[k]);
        if sphere_visible(f, instances.last().pos, radius) {
            assert(r == prefix.push(last_index));
            assert forall|k: usize|
                r.contains(k) <==> (k < instances.len() && sphere_visible(
                    f,
                    instances[k as int].pos,
                    radius,
                )) by {
                if r.contains(k) {
                    let i = choose|i: int| 0 <= i < r.len() && r[i] == k;
                    if i < prefix.len() {
                        assert(prefix[i] == k);
                        assert(prefix.contains(k));
                    } else {
                        assert(k == last_index);
                        assert(instances[k as int] == instances.last());
                    }
                }
                if k < instances.len() && sphere_visible(f, instances[k as int].pos, radius) {
                    if k < last_index {
                        assert(shorter[k as int] == instances[k as int]);
                        assert(prefix.contains(k));
                        let i = choose|i: int| 0 <= i < prefix.len() && prefix[i] == k;
                        assert(r[i] == k);
                    } else {
                        assert(r.last() == k);
                    }
                }
            }
        } else {
            assert(r == prefix);
            assert forall|k: usize|
                r.contains(k) <==> (k < instances.len() && sphere_visible(
                    f,
                    instances[k as int].pos,
                    radius,
                )) by {
                if r.contains(k) {
                    let i = choose|i: int| 0 <= i < r.len() && r[i] == k;
                    assert(k < shorter.len());
                    assert(shorter[k as int] == instances[k as int]);
                }
                if k < instances.len() && sphere_visible(f, instances[k as int].pos, radius) {
                    assert(instances[k as int] != instances.last() || k < last_index
                        || !sphere_visible(f, instances.last().pos, radius));
                    assert(k != last_index);
                    assert(shorter[k as int] == instances[k as int]);
                    assert(prefix.contains(k));
                }
            }
        }
    }
}

/// Culling determinism: the visible subset and its order are a function of
/// the instance sequence, the radius and the frustum alone, so two culls of
/// the same state agree.
pub proof fn lemma_cull_deterministic(
    instances: Seq<InstanceData>,
    radius: i64,
    f: Frustum,
    r1: Seq<usize>,
    r2: Seq<usize>,
)
    requires
        r1 == visible_indices(instances, radius, f),
        r2 == visible_indices(instances, radius, f),
    ensures
        r1 == r2,
{
}

} // verus!
