//! Three-component vectors over fixed-point coordinates, with the dot and
//! cross products and the integer normalization the frustum construction
//! needs.

use vstd::prelude::*;
use vstd::arithmetic::div_mod::{lemma_div_is_ordered, lemma_fundamental_div_mod_converse};
use crate::fixed::{
    div_floor,
    is_isqrt,
    isqrt,
    lemma_isqrt_dominates,
    spec_isqrt,
    SCALE,
};

verus! {

/// A vector of three fixed-point coordinates.
#[derive(Clone, Copy, PartialEq, Eq, Structural, Debug)]
pub struct Vec3Fx {
    pub x: i64,
    pub y: i64,
    pub z: i64,
}

/// Every coordinate of `v` lies within `b` of zero.
pub open spec fn in_range(v: Vec3Fx, b: int) -> bool {
    &&& -b <= v.x <= b
    &&& -b <= v.y <= b
    &&& -b <= v.z <= b
}

/// The dot product, at the scale of the coordinate product.
pub open spec fn dot(a: Vec3Fx, b: Vec3Fx) -> int {
    (a.x as int) * (b.x as int) + (a.y as int) * (b.y as int) + (a.z as int) * (b.z as int)
}

/// The cross product, at the scale of the coordinate product.
pub open spec fn spec_cross(a: Vec3Fx, b: Vec3Fx) -> Vec3Fx {
    Vec3Fx {
        x: (a.y * b.z - a.z * b.y) as i64,
        y: (a.z * b.x - a.x * b.z) as i64,
        z: (a.x * b.y - a.y * b.x) as i64,
    }
}

/// Componentwise sum.
pub open spec fn spec_add(a: Vec3Fx, b: Vec3Fx) -> Vec3Fx {
    Vec3Fx { x: (a.x + b.x) as i64, y: (a.y + b.y) as i64, z: (a.z + b.z) as i64 }
}

/// Componentwise difference.
pub open spec fn spec_sub(a: Vec3Fx, b: Vec3Fx) -> Vec3Fx {
    Vec3Fx { x: (a.x - b.x) as i64, y: (a.y - b.y) as i64, z: (a.z - b.z) as i64 }
}

/// Componentwise negation.
pub open spec fn spec_neg(a: Vec3Fx) -> Vec3Fx {
    Vec3Fx { x: (-a.x) as i64, y: (-a.y) as i64, z: (-a.z) as i64 }
}

/// Each coordinate scaled by the fixed-point value `s`.
pub open spec fn spec_scale(v: Vec3Fx, s: i64) -> Vec3Fx {
    Vec3Fx {
        x: (v.x * s / (SCALE as int)) as i64,
        y: (v.y * s / (SCALE as int)) as i64,
        z: (v.z * s / (SCALE as int)) as i64,
    }
}

/// `v` rescaled so that its length is the fixed-point unit: each coordinate
/// becomes `v_i * SCALE / |v|`, with `|v|` the integer square root of the
/// squared length.
pub open spec fn spec_normalize(v: Vec3Fx) -> Vec3Fx {
    let len = spec_isqrt(dot(v, v));
    Vec3Fx {
        x: (v.x * SCALE / len) as i64,
        y: (v.y * SCALE / len) as i64,
        z: (v.z * SCALE / len) as i64,
    }
}

impl Vec3Fx {
    /// The zero vector.
    pub fn zero() -> (r: Vec3Fx)
        ensures
            r == (Vec3Fx { x: 0i64, y: 0i64, z: 0i64 }),
    {
        Vec3Fx { x: 0, y: 0, z: 0 }
    }

    /// Componentwise sum.
    pub fn add(self, other: Vec3Fx) -> (r: Vec3Fx)
        requires
            i64::MIN <= self.x + other.x <= i64::MAX,
            i64::MIN <= self.y + other.y <= i64::MAX,
            i64::MIN <= self.z + other.z <= i64::MAX,
        ensures
            r == spec_add(self, other),
    {
        Vec3Fx { x: self.x + other.x, y: self.y + other.y, z: self.z + other.z }
    }

    /// Componentwise difference.
    pub fn sub(self, other: Vec3Fx) -> (r: Vec3Fx)
        requires
            i64::MIN <= self.x - other.x <= i64::MAX,
            i64::MIN <= self.y - other.y <= i64::MAX,
            i64::MIN <= self.z - other.z <= i64::MAX,
        ensures
            r == spec_sub(self, other),
    {
        Vec3Fx { x: self.x - other.x, y: self.y - other.y, z: self.z - other.z }
    }

    /// Componentwise negation.
    pub fn neg(self) -> (r: Vec3Fx)
        requires
            i64::MIN < self.x,
            i64::MIN < self.y,
            i64::MIN < self.z,
        ensures
            r == spec_neg(self),
    {
        Vec3Fx { x: -self.x, y: -self.y, z: -self.z }
    }

    /// Each coordinate scaled by the fixed-point factor `s`.
    pub fn scale(self, s: i64) -> (r: Vec3Fx)
        requires
            (i64::MIN as int) * (SCALE as int) <= self.x * s <= (i64::MAX as int) * (SCALE as int),
            (i64::MIN as int) * (SCALE as int) <= self.y * s <= (i64::MAX as int) * (SCALE as int),
            (i64::MIN as int) * (SCALE as int) <= self.z * s <= (i64::MAX as int) * (SCALE as int),
        ensures
            r == spec_scale(self, s),
    {
        Vec3Fx {
            x: crate::fixed::mul_fx(self.x, s),
            y: crate::fixed::mul_fx(self.y, s),
            z: crate::fixed::mul_fx(self.z, s),
        }
    }

    /// The dot product of two bounded vectors, on wide integers.
    pub fn dot_wide(self, other: Vec3Fx) -> (r: i128)
        requires
            in_range(self, 0x4000_0000_0000_0000),
            in_range(other, 0x4000_0000_0000_0000),
        ensures
            r == dot(self, other),
    {
        proof {
            lemma_abs_product_bound(self.x as int, other.x as int, 0x4000_0000_0000_0000);
            lemma_abs_product_bound(self.y as int, other.y as int, 0x4000_0000_0000_0000);
            lemma_abs_product_bound(self.z as int, other.z as int, 0x4000_0000_0000_0000);
        }
        (self.x as i128) * (other.x as i128) + (self.y as i128) * (other.y as i128) + (
        self.z as i128) * (other.z as i128)
    }

    /// The cross product of two vectors whose coordinate products stay
    /// within `i64`.
    pub fn cross(self, other: Vec3Fx) -> (r: Vec3Fx)
        requires
            in_range(self, 0x4000_0000),
            in_range(other, 0x4000_0000_0000_0000),
            i64::MIN <= self.y * other.z - self.z * other.y <= i64::MAX,
            i64::MIN <= self.z * other.x - self.x * other.z <= i64::MAX,
            i64::MIN <= self.x * other.y - self.y * other.x <= i64::MAX,
        ensures
            r == spec_cross(self, other),
    {
        proof {
            lemma_abs_product_bound(self.y as int, other.z as int, 0x4000_0000_0000_0000);
            lemma_abs_product_bound(self.z as int, other.y as int, 0x4000_0000_0000_0000);
            lemma_abs_product_bound(self.z as int, other.x as int, 0x4000_0000_0000_0000);
            lemma_abs_product_bound(self.x as int, other.z as int, 0x4000_0000_0000_0000);
            lemma_abs_product_bound(self.x as int, other.y as int, 0x4000_0000_0000_0000);
            lemma_abs_product_bound(self.y as int, other.x as int, 0x4000_0000_0000_0000);
        }
        let cx = (self.y as i128) * (other.z as i128) - (self.z as i128) * (other.y as i128);
        let cy = (self.z as i128) * (other.x as i128) - (self.x as i128) * (other.z as i128);
        let cz = (self.x as i128) * (other.y as i128) - (self.y as i128) * (other.x as i128);
        Vec3Fx { x: cx as i64, y: cy as i64, z: cz as i64 }
    }

    /// Rescales `self` to the fixed-point unit length. The result's
    /// coordinates never exceed `SCALE` in magnitude.
    pub fn normalize(self) -> (r: Vec3Fx)
        requires
            in_range(self, 0x4000_0000_0000_0000),
            1 <= dot(self, self),
        ensures
            r == spec_normalize(self),
            in_range(r, SCALE as int),
    {
        proof {
            lemma_abs_product_bound(self.x as int, self.x as int, 0x4000_0000_0000_0000);
            lemma_abs_product_bound(self.y as int, self.y as int, 0x4000_0000_0000_0000);
            lemma_abs_product_bound(self.z as int, self.z as int, 0x4000_0000_0000_0000);
            lemma_square_nonneg(self.x as int);
            lemma_square_nonneg(self.y as int);
            lemma_square_nonneg(self.z as int);
        }
        let n: i128 = self.dot_wide(self);
        proof {
            assert(0 <= n);
        }
        let len: u64 = isqrt(n as u128);
        proof {
            assert(n as u128 as int == n as int);
            if len == 0 {
                assert((0 + 1) * (0 + 1) == 1);
                assert(n < 1);
            }
        }
        let x = Self::normalize_coord(self.x, len);
        let y = Self::normalize_coord(self.y, len);
        let z = Self::normalize_coord(self.z, len);
        proof {
            lemma_normalize_coord_in_unit(self.x as int, n as int, len as int);
            lemma_normalize_coord_in_unit(self.y as int, n as int, len as int);
            lemma_normalize_coord_in_unit(self.z as int, n as int, len as int);
        }
        Vec3Fx { x: x as i64, y: y as i64, z: z as i64 }
    }

    /// One coordinate of the normalization: `c * SCALE / len`.
    fn normalize_coord(c: i64, len: u64) -> (r: i128)
        requires
            1 <= len,
        ensures
            r == (c as int) * (SCALE as int) / (len as int),
    {
        proof {
            lemma_abs_product_bound(c as int, SCALE as int, 0x8000_0000_0000_0000);
        }
        div_floor((c as i128) * (SCALE as i128), len as i128)
    }
}

/// Exec check that every coordinate of `v` lies within `b` of zero.
pub fn in_range_chk(v: &Vec3Fx, b: i64) -> (r: bool)
    requires
        0 <= b,
    ensures
        r == in_range(*v, b as int),
{
    -b <= v.x && v.x <= b && -b <= v.y && v.y <= b && -b <= v.z && v.z <= b
}

/// The dot product on `i64`, for a bounded vector against a short one.
pub fn dot_i64(a: &Vec3Fx, b: &Vec3Fx) -> (r: i64)
    requires
        in_range(*a, 0x200_0000_0000),
        in_range(*b, 0x2_0000),
    ensures
        r == dot(*a, *b),
{
    proof {
        lemma_mixed_product_bound(a.x as int, b.x as int, 0x200_0000_0000, 0x2_0000);
        lemma_mixed_product_bound(a.y as int, b.y as int, 0x200_0000_0000, 0x2_0000);
        lemma_mixed_product_bound(a.z as int, b.z as int, 0x200_0000_0000, 0x2_0000);
    }
    a.x * b.x + a.y * b.y + a.z * b.z
}

/// Componentwise bounds of a cross product of bounded vectors.
pub proof fn lemma_cross_bounds(a: Vec3Fx, b: Vec3Fx, ba: int, bb: int)
    requires
        in_range(a, ba),
        in_range(b, bb),
        0 <= ba,
        0 <= bb,
        2 * (ba * bb) <= i64::MAX as int,
    ensures
        -(2 * (ba * bb)) <= a.y * b.z - a.z * b.y <= 2 * (ba * bb),
        -(2 * (ba * bb)) <= a.z * b.x - a.x * b.z <= 2 * (ba * bb),
        -(2 * (ba * bb)) <= a.x * b.y - a.y * b.x <= 2 * (ba * bb),
        in_range(spec_cross(a, b), 2 * (ba * bb)),
{
    lemma_mixed_product_bound(a.y as int, b.z as int, ba, bb);
    lemma_mixed_product_bound(a.z as int, b.y as int, ba, bb);
    lemma_mixed_product_bound(a.z as int, b.x as int, ba, bb);
    lemma_mixed_product_bound(a.x as int, b.z as int, ba, bb);
    lemma_mixed_product_bound(a.x as int, b.y as int, ba, bb);
    lemma_mixed_product_bound(a.y as int, b.x as int, ba, bb);
}

/// The product of values bounded by `ba` and `bb` is bounded by `ba * bb`.
pub proof fn lemma_mixed_product_bound(a: int, b: int, ba: int, bb: int)
    requires
        -ba <= a <= ba,
        -bb <= b <= bb,
        0 <= ba,
        0 <= bb,
    ensures
        -(ba * bb) <= a * b <= ba * bb,
{
    assert(-(ba * bb) <= a * b <= ba * bb) by (nonlinear_arith)
        requires
            -ba <= a <= ba,
            -bb <= b <= bb,
            0 <= ba,
            0 <= bb,
    ;
}

/// The product of two values bounded by `b` is bounded by `b * b`.
proof fn lemma_abs_product_bound(a: int, b: int, bound: int)
    requires
        -bound <= a <= bound,
        -bound <= b <= bound,
        0 <= bound,
    ensures
        -(bound * bound) <= a * b <= bound * bound,
{
    assert(-(bound * bound) <= a * b <= bound * bound) by (nonlinear_arith)
        requires
            -bound <= a <= bound,
            -bound <= b <= bound,
            0 <= bound,
    ;
}

/// Squares are nonnegative.
proof fn lemma_square_nonneg(a: int)
    ensures
        0 <= a * a,
{
    assert(0 <= a * a) by (nonlinear_arith);
}

/// A coordinate of a vector of squared length `n` divided by the integer
/// square root of `n` stays within the fixed-point unit.
proof fn lemma_normalize_coord_in_unit(c: int, n: int, len: int)
    requires
        is_isqrt(n, len),
        1 <= len,
        c * c <= n,
    ensures
        -(SCALE as int) <= c * (SCALE as int) / len <= SCALE as int,
{
    let s = SCALE as int;
    if c >= 0 {
        lemma_isqrt_dominates(n, len, c);
        assert(c * s <= len * s) by (nonlinear_arith)
            requires
                c <= len,
                0 <= s,
        ;
        lemma_div_is_ordered(c * s, len * s, len);
        lemma_fundamental_div_mod_converse(len * s, len, s, 0);
        lemma_div_nonneg(c * s, len);
    } else {
        assert((-c) * (-c) == c * c) by (nonlinear_arith);
        lemma_isqrt_dominates(n, len, -c);
        assert((-len) * s <= c * s) by (nonlinear_arith)
            requires
                -len <= c,
                0 <= s,
        ;
        lemma_div_is_ordered((-len) * s, c * s, len);
        assert((-s) * len + 0 == (-len) * s) by (nonlinear_arith);
        lemma_fundamental_div_mod_converse((-len) * s, len, -s, 0);
        assert(c * s <= 0) by (nonlinear_arith)
            requires
                c < 0,
                0 < s,
        ;
        lemma_div_nonpos(c * s, len);
    }
}

/// A nonnegative value divided by a positive one stays nonnegative.
proof fn lemma_div_nonneg(x: int, d: int)
    requires
        0 <= x,
        1 <= d,
    ensures
        0 <= x / d,
{
    vstd::arithmetic::div_mod::lemma_div_pos_is_pos(x, d);
}

/// A nonpositive value divided by a positive one stays nonpositive.
proof fn lemma_div_nonpos(x: int, d: int)
    requires
        x <= 0,
        1 <= d,
    ensures
        x / d <= 0,
{
    lemma_div_is_ordered(x, 0, d);
}

} // verus!
