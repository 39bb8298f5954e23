//! The directional shadow caster: a fixed orientation and an orthographic
//! box extent, from which each frame derives a light-space transform
//! recentered on the camera.
//!
//! The transform is kept unnormalized: the linear part carries the product
//! of the reciprocal extent and the rotation, the translation column the
//! negated image of the camera position under that linear part. Applying
//! the matrix to a point therefore needs no division at all, and applying
//! it to the camera position itself cancels exactly to the origin.

use vstd::prelude::*;
use crate::fixed::{COORD_BOUND, SCALE};
use crate::vec3::{in_range, lemma_mixed_product_bound, Vec3Fx};
use vstd::arithmetic::div_mod::lemma_fundamental_div_mod_converse;

verus! {

/// A rotation as three row vectors at the fixed-point unit scale.
#[derive(Clone, Copy, PartialEq, Eq, Structural, Debug)]
pub struct Mat3Fx {
    pub row_x: Vec3Fx,
    pub row_y: Vec3Fx,
    pub row_z: Vec3Fx,
}

/// The shadow caster: the orthographic box extent per axis and the light's
/// fixed orientation.
#[derive(Clone, Copy, PartialEq, Eq, Structural, Debug)]
pub struct ShadowCasterData {
    pub size: Vec3Fx,
    pub rot: Mat3Fx,
}

/// The caster's invariant: the extent is at least one world unit and
/// bounded, and the rotation rows stay within twice the unit scale.
pub open spec fn caster_wf(c: ShadowCasterData) -> bool {
    &&& SCALE <= c.size.x <= COORD_BOUND
    &&& SCALE <= c.size.y <= COORD_BOUND
    &&& SCALE <= c.size.z <= COORD_BOUND
    &&& in_range(c.rot.row_x, 2 * SCALE)
    &&& in_range(c.rot.row_y, 2 * SCALE)
    &&& in_range(c.rot.row_z, 2 * SCALE)
}

/// The light-space transform: three linear rows and a translation, both
/// unnormalized (the rows carry the reciprocal-extent scale times the
/// rotation scale, the translation one coordinate scale more).
pub struct LightMatrix {
    pub row_x: Vec3Fx,
    pub row_y: Vec3Fx,
    pub row_z: Vec3Fx,
    pub tx: i128,
    pub ty: i128,
    pub tz: i128,
}

/// The fixed-point reciprocal of one extent component.
pub open spec fn spec_inv_extent(e: i64) -> int {
    ((SCALE * SCALE) as int) / (e as int)
}

/// One row of the linear part: the rotation row scaled by the axis'
/// reciprocal extent.
pub open spec fn spec_light_row(inv: int, row: Vec3Fx) -> Vec3Fx {
    Vec3Fx { x: (inv * row.x) as i64, y: (inv * row.y) as i64, z: (inv * row.z) as i64 }
}

/// One translation component: the negated image of the camera position
/// under the corresponding linear row.
pub open spec fn spec_light_translation(row: Vec3Fx, c: Vec3Fx) -> int {
    -(row.x * c.x + row.y * c.y + row.z * c.z)
}

/// The whole light-space transform recentered on `center_pos`.
pub open spec fn spec_build_light_matrix(caster: ShadowCasterData, center_pos: Vec3Fx)
    -> LightMatrix {
    let row_x = spec_light_row(spec_inv_extent(caster.size.x), caster.rot.row_x);
    let row_y = spec_light_row(spec_inv_extent(caster.size.y), caster.rot.row_y);
    let row_z = spec_light_row(spec_inv_extent(caster.size.z), caster.rot.row_z);
    LightMatrix {
        row_x,
        row_y,
        row_z,
        tx: spec_light_translation(row_x, center_pos) as i128,
        ty: spec_light_translation(row_y, center_pos) as i128,
        tz: spec_light_translation(row_z, center_pos) as i128,
    }
}

/// The image of a world point under the transform, one coordinate per row.
pub open spec fn spec_apply_light_matrix(m: LightMatrix, p: Vec3Fx) -> (int, int, int) {
    (
        m.row_x.x * p.x + m.row_x.y * p.y + m.row_x.z * p.z + m.tx,
        m.row_y.x * p.x + m.row_y.y * p.y + m.row_y.z * p.z + m.ty,
        m.row_z.x * p.x + m.row_z.y * p.y + m.row_z.z * p.z + m.tz,
    )
}

/// The transform's rows stay within the product of the unit scale and
/// twice the unit scale, and the translation within three such products of
/// a coordinate.
pub open spec fn light_matrix_wf(m: LightMatrix) -> bool {
    &&& in_range(m.row_x, 2 * SCALE * SCALE)
    &&& in_range(m.row_y, 2 * SCALE * SCALE)
    &&& in_range(m.row_z, 2 * SCALE * SCALE)
    &&& -3 * (2 * SCALE * SCALE * COORD_BOUND) <= m.tx <= 3 * (2 * SCALE * SCALE * COORD_BOUND)
    &&& -3 * (2 * SCALE * SCALE * COORD_BOUND) <= m.ty <= 3 * (2 * SCALE * SCALE * COORD_BOUND)
    &&& -3 * (2 * SCALE * SCALE * COORD_BOUND) <= m.tz <= 3 * (2 * SCALE * SCALE * COORD_BOUND)
}

impl ShadowCasterData {
    /// Derives the light-space transform for this frame, recentered on the
    /// camera at `center_pos`.
    pub fn build_gpu_data(&self, center_pos: Vec3Fx) -> (r: LightMatrix)
        requires
            caster_wf(*self),
            in_range(center_pos, COORD_BOUND as int),
        ensures
            r == spec_build_light_matrix(*self, center_pos),
            light_matrix_wf(r),
    {
        let inv_x = inv_extent(self.size.x);
        let inv_y = inv_extent(self.size.y);
        let inv_z = inv_extent(self.size.z);
        let row_x = light_row(inv_x, &self.rot.row_x);
        let row_y = light_row(inv_y, &self.rot.row_y);
        let row_z = light_row(inv_z, &self.rot.row_z);
        let tx = light_translation(&row_x, &center_pos);
        let ty = light_translation(&row_y, &center_pos);
        let tz = light_translation(&row_z, &center_pos);
        LightMatrix { row_x, row_y, row_z, tx, ty, tz }
    }
}

/// The fixed-point reciprocal of one positive extent component.
fn inv_extent(e: i64) -> (r: i64)
    requires
        SCALE <= e <= COORD_BOUND,
    ensures
        r == spec_inv_extent(e),
        1 <= r <= SCALE,
{
    proof {
        assert((SCALE as int) * (SCALE as int) == 0x1_0000_0000int) by (nonlinear_arith)
            requires
                SCALE == 65536,
        ;
    }
    let q = ((SCALE as u64) * (SCALE as u64)) / (e as u64);
    proof {
        lemma_inv_extent_bounds(e);
    }
    q as i64
}

/// The reciprocal of an in-range extent lies between one and the unit
/// scale.
pub proof fn lemma_inv_extent_bounds(e: i64)
    requires
        SCALE <= e <= COORD_BOUND,
    ensures
        1 <= spec_inv_extent(e) <= SCALE,
{
    let s2 = (SCALE * SCALE) as int;
    let ei = e as int;
    vstd::arithmetic::div_mod::lemma_div_is_ordered_by_denominator(s2, SCALE as int, ei);
    lemma_fundamental_div_mod_converse(s2, SCALE as int, SCALE as int, 0);
    vstd::arithmetic::div_mod::lemma_div_is_ordered_by_denominator(s2, ei, s2);
    vstd::arithmetic::div_mod::lemma_div_by_self(s2);
}

/// One linear row: the rotation row scaled by the reciprocal extent.
fn light_row(inv: i64, row: &Vec3Fx) -> (r: Vec3Fx)
    requires
        1 <= inv <= SCALE,
        in_range(*row, 2 * SCALE),
    ensures
        r == spec_light_row(inv as int, *row),
        in_range(r, 2 * SCALE * SCALE),
{
    proof {
        lemma_mixed_product_bound(inv as int, row.x as int, SCALE as int, 2 * SCALE);
        lemma_mixed_product_bound(inv as int, row.y as int, SCALE as int, 2 * SCALE);
        lemma_mixed_product_bound(inv as int, row.z as int, SCALE as int, 2 * SCALE);
    }
    Vec3Fx { x: inv * row.x, y: inv * row.y, z: inv * row.z }
}

/// One translation component: the negated image of the camera position
/// under a linear row.
fn light_translation(row: &Vec3Fx, c: &Vec3Fx) -> (r: i128)
    requires
        in_range(*row, 2 * SCALE * SCALE),
        in_range(*c, COORD_BOUND as int),
    ensures
        r == spec_light_translation(*row, *c),
        -3 * (2 * SCALE * SCALE * COORD_BOUND) <= r <= 3 * (2 * SCALE * SCALE * COORD_BOUND),
{
    proof {
        lemma_mixed_product_bound(row.x as int, c.x as int, 2 * SCALE * SCALE, COORD_BOUND as int);
        lemma_mixed_product_bound(row.y as int, c.y as int, 2 * SCALE * SCALE, COORD_BOUND as int);
        lemma_mixed_product_bound(row.z as int, c.z as int, 2 * SCALE * SCALE, COORD_BOUND as int);
        assert((2 * SCALE * SCALE) * (COORD_BOUND as int) == 2 * SCALE * SCALE * COORD_BOUND)
            by (nonlinear_arith);
    }
    -((row.x as i128) * (c.x as i128) + (row.y as i128) * (c.y as i128) + (row.z as i128) * (
    c.z as i128))
}

/// Applies the light-space transform to a world point.
pub fn apply_light_matrix(m: &LightMatrix, p: &Vec3Fx) -> (r: (i128, i128, i128))
    requires
        light_matrix_wf(*m),
        in_range(*p, COORD_BOUND as int),
    ensures
        r.0 == spec_apply_light_matrix(*m, *p).0,
        r.1 == spec_apply_light_matrix(*m, *p).1,
        r.2 == spec_apply_light_matrix(*m, *p).2,
{
    proof {
        lemma_mixed_product_bound(m.row_x.x as int, p.x as int, 2 * SCALE * SCALE,
            COORD_BOUND as int);
        lemma_mixed_product_bound(m.row_x.y as int, p.y as int, 2 * SCALE * SCALE,
            COORD_BOUND as int);
        lemma_mixed_product_bound(m.row_x.z as int, p.z as int, 2 * SCALE * SCALE,
            COORD_BOUND as int);
        lemma_mixed_product_bound(m.row_y.x as int, p.x as int, 2 * SCALE * SCALE,
            COORD_BOUND as int);
        lemma_mixed_product_bound(m.row_y.y as int, p.y as int, 2 * SCALE * SCALE,
            COORD_BOUND as int);
        lemma_mixed_product_bound(m.row_y.z as int, p.z as int, 2 * SCALE * SCALE,
            COORD_BOUND as int);
        lemma_mixed_product_bound(m.row_z.x as int, p.x as int, 2 * SCALE * SCALE,
            COORD_BOUND as int);
        lemma_mixed_product_bound(m.row_z.y as int, p.y as int, 2 * SCALE * SCALE,
            COORD_BOUND as int);
        lemma_mixed_product_bound(m.row_z.z as int, p.z as int, 2 * SCALE * SCALE,
            COORD_BOUND as int);
        assert((2 * SCALE * SCALE) * (COORD_BOUND as int) == 2 * SCALE * SCALE * COORD_BOUND)
            by (nonlinear_arith);
    }
    let x = (m.row_x.x as i128) * (p.x as i128) + (m.row_x.y as i128) * (p.y as i128) + (
    m.row_x.z as i128) * (p.z as i128) + m.tx;
    let y = (m.row_y.x as i128) * (p.x as i128) + (m.row_y.y as i128) * (p.y as i128) + (
    m.row_y.z as i128) * (p.z as i128) + m.ty;
    let z = (m.row_z.x as i128) * (p.x as i128) + (m.row_z.y as i128) * (p.y as i128) + (
    m.row_z.z as i128) * (p.z as i128) + m.tz;
    (x, y, z)
}

/// Shadow recentering: the light-space transform built around a camera
/// position maps that very position to the origin of the light volume,
/// whatever the caster's orientation and extent.
pub proof fn lemma_shadow_recenters(caster: ShadowCasterData, center_pos: Vec3Fx)
    requires
        caster_wf(caster),
        in_range(center_pos, COORD_BOUND as int),
    ensures
        spec_apply_light_matrix(spec_build_light_matrix(caster, center_pos), center_pos) == (
        0int,
        0int,
        0int,
        ),
{
    lemma_light_matrix_fits(caster, center_pos);
}

/// The transform built around an in-range camera position under a
/// well-formed caster stays within its ranges, and both the row casts and
/// the translation casts are lossless.
pub proof fn lemma_light_matrix_fits(caster: ShadowCasterData, center_pos: Vec3Fx)
    requires
        caster_wf(caster),
        in_range(center_pos, COORD_BOUND as int),
    ensures
        light_matrix_wf(spec_build_light_matrix(caster, center_pos)),
        ({
            let m = spec_build_light_matrix(caster, center_pos);
            &&& m.tx == spec_light_translation(m.row_x, center_pos)
            &&& m.ty == spec_light_translation(m.row_y, center_pos)
            &&& m.tz == spec_light_translation(m.row_z, center_pos)
        }),
{
    lemma_inv_extent_bounds(caster.size.x);
    lemma_inv_extent_bounds(caster.size.y);
    lemma_inv_extent_bounds(caster.size.z);
    lemma_light_row_fits(spec_inv_extent(caster.size.x), caster.rot.row_x);
    lemma_light_row_fits(spec_inv_extent(caster.size.y), caster.rot.row_y);
    lemma_light_row_fits(spec_inv_extent(caster.size.z), caster.rot.row_z);
    let m = spec_build_light_matrix(caster, center_pos);
    lemma_light_translation_fits(m.row_x, center_pos);
    lemma_light_translation_fits(m.row_y, center_pos);
    lemma_light_translation_fits(m.row_z, center_pos);
}

/// A linear row built from an in-range reciprocal and rotation row keeps
/// its fields within `i64`, so its casts are lossless.
proof fn lemma_light_row_fits(inv: int, row: Vec3Fx)
    requires
        1 <= inv <= SCALE,
        in_range(row, 2 * SCALE),
    ensures
        in_range(spec_light_row(inv, row), 2 * SCALE * SCALE),
        spec_light_row(inv, row).x == inv * row.x,
        spec_light_row(inv, row).y == inv * row.y,
        spec_light_row(inv, row).z == inv * row.z,
{
    lemma_mixed_product_bound(inv, row.x as int, SCALE as int, 2 * SCALE);
    lemma_mixed_product_bound(inv, row.y as int, SCALE as int, 2 * SCALE);
    lemma_mixed_product_bound(inv, row.z as int, SCALE as int, 2 * SCALE);
    assert((SCALE as int) * (2 * SCALE) == 2 * SCALE * SCALE) by (nonlinear_arith);
}

/// The translation of an in-range row over an in-range camera position
/// stays within `i128`, so its cast is lossless.
proof fn lemma_light_translation_fits(row: Vec3Fx, c: Vec3Fx)
    requires
        in_range(row, 2 * SCALE * SCALE),
        in_range(c, COORD_BOUND as int),
    ensures
        spec_light_translation(row, c) as i128 == spec_light_translation(row, c),
        -3 * (2 * SCALE * SCALE * COORD_BOUND) <= spec_light_translation(row, c) <= 3 * (2 * SCALE
            * SCALE * COORD_BOUND),
{
    lemma_mixed_product_bound(row.x as int, c.x as int, 2 * SCALE * SCALE, COORD_BOUND as int);
    lemma_mixed_product_bound(row.y as int, c.y as int, 2 * SCALE * SCALE, COORD_BOUND as int);
    lemma_mixed_product_bound(row.z as int, c.z as int, 2 * SCALE * SCALE, COORD_BOUND as int);
    assert((2 * SCALE * SCALE) * (COORD_BOUND as int) == 2 * SCALE * SCALE * COORD_BOUND)
        by (nonlinear_arith);
}

} // verus!
