//! Placed model instances: a position and an orientation, and the packed
//! object-to-world matrix handed to the instance buffer.
//!
//! The matrix is produced in column-major order, sixteen fixed-point values:
//! the rotation derived from the quaternion in the upper three columns and
//! the translation in the fourth, exactly as the instance buffer expects it.

use vstd::prelude::*;
use crate::fixed::{fx_mul, fx_product, lemma_fx_mul_bound, mul_fx, COORD_BOUND, SCALE};
use crate::vec3::{in_range, lemma_mixed_product_bound, Vec3Fx};

verus! {

/// An orientation as a fixed-point quaternion.
#[derive(Clone, Copy, PartialEq, Eq, Structural, Debug)]
pub struct QuatFx {
    pub x: i64,
    pub y: i64,
    pub z: i64,
    pub w: i64,
}

/// Every component of `q` lies within two fixed-point units of zero; a unit
/// quaternion satisfies this with room to spare.
pub open spec fn quat_in_range(q: QuatFx) -> bool {
    &&& -2 * SCALE <= q.x <= 2 * SCALE
    &&& -2 * SCALE <= q.y <= 2 * SCALE
    &&& -2 * SCALE <= q.z <= 2 * SCALE
    &&& -2 * SCALE <= q.w <= 2 * SCALE
}

/// One placed copy of a model: where it stands and how it is turned.
#[derive(Clone, Copy, PartialEq, Eq, Structural, Debug)]
pub struct InstanceData {
    pub pos: Vec3Fx,
    pub rot: QuatFx,
}

/// The packed object-to-world matrix of one instance, column-major.
pub struct RawInstanceData {
    pub model: Vec<i64>,
}

/// The column-major model matrix of `inst`: the quaternion's rotation in
/// the first three columns, the translation in the fourth.
pub open spec fn spec_model_matrix(inst: InstanceData) -> Seq<int> {
    let q = inst.rot;
    let xx = fx_mul(q.x, q.x);
    let yy = fx_mul(q.y, q.y);
    let zz = fx_mul(q.z, q.z);
    let xy = fx_mul(q.x, q.y);
    let xz = fx_mul(q.x, q.z);
    let yz = fx_mul(q.y, q.z);
    let wx = fx_mul(q.w, q.x);
    let wy = fx_mul(q.w, q.y);
    let wz = fx_mul(q.w, q.z);
    seq![
        SCALE - 2 * (yy + zz),
        2 * (xy + wz),
        2 * (xz - wy),
        0,
        2 * (xy - wz),
        SCALE - 2 * (xx + zz),
        2 * (yz + wx),
        0,
        2 * (xz + wy),
        2 * (yz - wx),
        SCALE - 2 * (xx + yy),
        0,
        inst.pos.x as int,
        inst.pos.y as int,
        inst.pos.z as int,
        SCALE as int,
    ]
}

/// `r` is the packed form of `inst`: sixteen values matching the model
/// matrix entry for entry.
pub open spec fn raw_matches(r: RawInstanceData, inst: InstanceData) -> bool {
    &&& r.model@.len() == 16
    &&& forall|k: int| 0 <= k < 16 ==> r.model@[k] == spec_model_matrix(inst)[k]
}

impl InstanceData {
    /// Packs this instance's transform for the instance buffer.
    pub fn to_raw(&self) -> (r: RawInstanceData)
        requires
            quat_in_range(self.rot),
            in_range(self.pos, COORD_BOUND as int),
        ensures
            raw_matches(r, *self),
    {
        let q = self.rot;
        proof {
            lemma_quat_product_bounds(q);
        }
        let xx = mul_fx(q.x, q.x);
        let yy = mul_fx(q.y, q.y);
        let zz = mul_fx(q.z, q.z);
        let xy = mul_fx(q.x, q.y);
        let xz = mul_fx(q.x, q.z);
        let yz = mul_fx(q.y, q.z);
        let wx = mul_fx(q.w, q.x);
        let wy = mul_fx(q.w, q.y);
        let wz = mul_fx(q.w, q.z);
        let mut model: Vec<i64> = Vec::new();
        model.push(SCALE - 2 * (yy + zz));
        model.push(2 * (xy + wz));
        model.push(2 * (xz - wy));
        model.push(0);
        model.push(2 * (xy - wz));
        model.push(SCALE - 2 * (xx + zz));
        model.push(2 * (yz + wx));
        model.push(0);
        model.push(2 * (xz + wy));
        model.push(2 * (yz - wx));
        model.push(SCALE - 2 * (xx + yy));
        model.push(0);
        model.push(self.pos.x);
        model.push(self.pos.y);
        model.push(self.pos.z);
        model.push(SCALE);
        RawInstanceData { model }
    }
}

/// Packs the transforms of the selected instances, in selection order:
/// what the culled-instance buffer is overwritten with each frame.
pub fn raw_transforms_for(instances: &Vec<InstanceData>, indices: &Vec<usize>) -> (r: Vec<
    RawInstanceData,
>)
    requires
        forall|k: int| 0 <= k < indices@.len() ==> #[trigger] indices@[k] < instances@.len(),
        forall|k: int|
            0 <= k < instances@.len() ==> quat_in_range(#[trigger] instances@[k].rot) && in_range(
                instances@[k].pos,
                COORD_BOUND as int,
            ),
    ensures
        r@.len() == indices@.len(),
        forall|k: int|
            0 <= k < r@.len() ==> raw_matches(#[trigger] r@[k], instances@[indices@[k] as int]),
{
    let mut out: Vec<RawInstanceData> = Vec::new();
    let mut i: usize = 0;
    while i < indices.len()
        invariant
            0 <= i <= indices@.len(),
            out@.len() == i,
            forall|k: int| 0 <= k < indices@.len() ==> #[trigger] indices@[k] < instances@.len(),
            forall|k: int|
                0 <= k < instances@.len() ==> quat_in_range(#[trigger] instances@[k].rot)
                    && in_range(instances@[k].pos, COORD_BOUND as int),
            forall|k: int|
                0 <= k < i ==> raw_matches(#[trigger] out@[k], instances@[indices@[k] as int]),
        decreases indices@.len() - i,
    {
        let idx = indices[i];
        proof {
            assert(quat_in_range(instances@[idx as int].rot));
        }
        let raw = instances[idx].to_raw();
        out.push(raw);
        i = i + 1;
    }
    out
}

/// Bounds on the pairwise fixed-point products of a range-checked
/// quaternion: each stays within a few fixed-point units.
proof fn lemma_quat_product_bounds(q: QuatFx)
    requires
        quat_in_range(q),
    ensures
        -4 * SCALE - 1 <= fx_mul(q.x, q.x) <= 4 * SCALE,
        -4 * SCALE - 1 <= fx_mul(q.y, q.y) <= 4 * SCALE,
        -4 * SCALE - 1 <= fx_mul(q.z, q.z) <= 4 * SCALE,
        -4 * SCALE - 1 <= fx_mul(q.x, q.y) <= 4 * SCALE,
        -4 * SCALE - 1 <= fx_mul(q.x, q.z) <= 4 * SCALE,
        -4 * SCALE - 1 <= fx_mul(q.y, q.z) <= 4 * SCALE,
        -4 * SCALE - 1 <= fx_mul(q.w, q.x) <= 4 * SCALE,
        -4 * SCALE - 1 <= fx_mul(q.w, q.y) <= 4 * SCALE,
        -4 * SCALE - 1 <= fx_mul(q.w, q.z) <= 4 * SCALE,
        (i64::MIN as int) * (SCALE as int) <= fx_product(q.x, q.x) <= (i64::MAX as int) * (
        SCALE as int),
        (i64::MIN as int) * (SCALE as int) <= fx_product(q.y, q.y) <= (i64::MAX as int) * (
        SCALE as int),
        (i64::MIN as int) * (SCALE as int) <= fx_product(q.z, q.z) <= (i64::MAX as int) * (
        SCALE as int),
        (i64::MIN as int) * (SCALE as int) <= fx_product(q.x, q.y) <= (i64::MAX as int) * (
        SCALE as int),
        (i64::MIN as int) * (SCALE as int) <= fx_product(q.x, q.z) <= (i64::MAX as int) * (
        SCALE as int),
        (i64::MIN as int) * (SCALE as int) <= fx_product(q.y, q.z) <= (i64::MAX as int) * (
        SCALE as int),
        (i64::MIN as int) * (SCALE as int) <= fx_product(q.w, q.x) <= (i64::MAX as int) * (
        SCALE as int),
        (i64::MIN as int) * (SCALE as int) <= fx_product(q.w, q.y) <= (i64::MAX as int) * (
        SCALE as int),
        (i64::MIN as int) * (SCALE as int) <= fx_product(q.w, q.z) <= (i64::MAX as int) * (
        SCALE as int),
{
    lemma_one_quat_product(q.x, q.x);
    lemma_one_quat_product(q.y, q.y);
    lemma_one_quat_product(q.z, q.z);
    lemma_one_quat_product(q.x, q.y);
    lemma_one_quat_product(q.x, q.z);
    lemma_one_quat_product(q.y, q.z);
    lemma_one_quat_product(q.w, q.x);
    lemma_one_quat_product(q.w, q.y);
    lemma_one_quat_product(q.w, q.z);
}

/// Bound of one pairwise product of quaternion components.
proof fn lemma_one_quat_product(a: i64, b: i64)
    requires
        -2 * SCALE <= a <= 2 * SCALE,
        -2 * SCALE <= b <= 2 * SCALE,
    ensures
        -4 * SCALE - 1 <= fx_mul(a, b) <= 4 * SCALE,
        (i64::MIN as int) * (SCALE as int) <= fx_product(a, b) <= (i64::MAX as int) * (SCALE as int),
{
    let s = SCALE as int;
    lemma_mixed_product_bound(a as int, b as int, 2 * s, 2 * s);
    assert((2 * s) * (2 * s) == 4 * s * s) by (nonlinear_arith);
    lemma_fx_mul_bound(a, b, 4 * s * s);
    assert((4 * s * s) / s == 4 * s) by {
        vstd::arithmetic::div_mod::lemma_fundamental_div_mod_converse(4 * s * s, s, 4 * s, 0);
        assert((4 * s) * s + 0 == 4 * s * s) by (nonlinear_arith);
    }
    assert(4 * s * s <= (i64::MAX as int) * s) by (nonlinear_arith)
        requires
            s == 65536,
    ;
}

} // verus!
