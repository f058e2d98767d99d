//! Three-dimensional vectors and matrices of fixed-point scalars.
//!
//! Every operation is specified over `V3` and `M3`, the same vectors and
//! matrices with unbounded integer raw values. Sums of products are rounded
//! once, after the sum was formed.

use vstd::prelude::*;
use crate::math::scalar::{fits, fx_mul, lemma_wide_product, quot, quot_wide, within, Scalar, SCALE};

verus! {

/// The raw values of a vector, as unbounded integers.
pub struct V3 {
    pub x: int,
    pub y: int,
    pub z: int,
}

/// The raw values of a matrix, row by row.
pub struct M3 {
    pub r0: V3,
    pub r1: V3,
    pub r2: V3,
}

/// The vector whose components are zero.
pub open spec fn v3_zero() -> V3 {
    V3 { x: 0, y: 0, z: 0 }
}

/// The sum of two vectors.
pub open spec fn v3_add(a: V3, b: V3) -> V3 {
    V3 { x: a.x + b.x, y: a.y + b.y, z: a.z + b.z }
}

/// The difference of two vectors.
pub open spec fn v3_sub(a: V3, b: V3) -> V3 {
    V3 { x: a.x - b.x, y: a.y - b.y, z: a.z - b.z }
}

/// The vector of the same length that points the other way.
pub open spec fn v3_neg(a: V3) -> V3 {
    V3 { x: -a.x, y: -a.y, z: -a.z }
}

/// The vector `a` times the fixed-point number with raw value `k`.
pub open spec fn v3_scale(a: V3, k: int) -> V3 {
    V3 { x: fx_mul(a.x, k), y: fx_mul(a.y, k), z: fx_mul(a.z, k) }
}

/// The point halfway between `a` and `b`.
pub open spec fn v3_midpoint(a: V3, b: V3) -> V3 {
    V3 { x: quot(a.x + b.x, 2), y: quot(a.y + b.y, 2), z: quot(a.z + b.z, 2) }
}

/// Sum of the products of the components, before it is brought back to scale.
pub open spec fn v3_dot_wide(a: V3, b: V3) -> int {
    a.x * b.x + a.y * b.y + a.z * b.z
}

/// Fixed-point dot product.
pub open spec fn v3_dot(a: V3, b: V3) -> int {
    quot(v3_dot_wide(a, b), SCALE as int)
}

/// Fixed-point cross product.
pub open spec fn v3_cross(a: V3, b: V3) -> V3 {
    V3 {
        x: quot(a.y * b.z - a.z * b.y, SCALE as int),
        y: quot(a.z * b.x - a.x * b.z, SCALE as int),
        z: quot(a.x * b.y - a.y * b.x, SCALE as int),
    }
}

/// Fixed-point product of a matrix and a vector.
pub open spec fn m3_apply(m: M3, v: V3) -> V3 {
    V3 { x: v3_dot(m.r0, v), y: v3_dot(m.r1, v), z: v3_dot(m.r2, v) }
}

/// Whether every component is the raw value of some scalar.
pub open spec fn v3_fits(a: V3) -> bool {
    fits(a.x) && fits(a.y) && fits(a.z)
}

/// Whether the magnitude of every component is at most `bound`.
pub open spec fn v3_within(a: V3, bound: int) -> bool {
    within(a.x, bound) && within(a.y, bound) && within(a.z, bound)
}

/// Whether the magnitude of every entry is at most `bound`.
pub open spec fn m3_within(m: M3, bound: int) -> bool {
    v3_within(m.r0, bound) && v3_within(m.r1, bound) && v3_within(m.r2, bound)
}

/// A vector of three fixed-point scalars.
#[derive(Clone, Copy, Debug, PartialEq, Eq)]
pub struct Vec3 {
    pub x: Scalar,
    pub y: Scalar,
    pub z: Scalar,
}

impl View for Vec3 {
    type V = V3;

    open spec fn view(&self) -> V3 {
        V3 { x: self.x@, y: self.y@, z: self.z@ }
    }
}

/// A matrix of three rows of fixed-point scalars.
#[derive(Clone, Copy, Debug, PartialEq, Eq)]
pub struct Mat3 {
    pub r0: Vec3,
    pub r1: Vec3,
    pub r2: Vec3,
}

impl View for Mat3 {
    type V = M3;

    open spec fn view(&self) -> M3 {
        M3 { r0: self.r0@, r1: self.r1@, r2: self.r2@ }
    }
}

/// Difference of two products of 64-bit values, rounded toward zero after
/// division by the scale.
fn scaled_difference(a: i64, b: i64, c: i64, d: i64) -> (q: i128)
    ensures
        q == quot(a * b - c * d, SCALE as int),
{
    proof {
        lemma_wide_product(a as int, b as int);
        lemma_wide_product(c as int, d as int);
    }
    let first: i128 = (a as i128) * (b as i128);
    let second: i128 = (c as i128) * (d as i128);
    quot_wide(first - second, SCALE as i128)
}

impl Vec3 {
    /// The vector with the given components.
    pub fn new(x: Scalar, y: Scalar, z: Scalar) -> (r: Vec3)
        ensures
            r.x == x,
            r.y == y,
            r.z == z,
    {
        Vec3 { x, y, z }
    }

    /// The vector with the given raw components.
    pub fn from_raw(x: i64, y: i64, z: i64) -> (r: Vec3)
        ensures
            r@ == (V3 { x: x as int, y: y as int, z: z as int }),
    {
        Vec3 { x: Scalar::from_raw(x), y: Scalar::from_raw(y), z: Scalar::from_raw(z) }
    }

    /// The vector whose components are zero.
    pub fn zero() -> (r: Vec3)
        ensures
            r@ == v3_zero(),
    {
        Vec3 { x: Scalar::zero(), y: Scalar::zero(), z: Scalar::zero() }
    }

    /// Whether the magnitude of every component is at most `bound`.
    pub open spec fn bounded(self, bound: int) -> bool {
        v3_within(self@, bound)
    }

    /// Decides whether the magnitude of every component is at most `bound`.
    pub fn is_bounded(&self, bound: i64) -> (r: bool)
        ensures
            r == self.bounded(bound as int),
    {
        self.x.is_bounded(bound) && self.y.is_bounded(bound) && self.z.is_bounded(bound)
    }

    /// The sum of two vectors.
    pub fn add(&self, other: &Vec3) -> (r: Vec3)
        requires
            v3_fits(v3_add(self@, other@)),
        ensures
            r@ == v3_add(self@, other@),
    {
        Vec3 { x: self.x.add(other.x), y: self.y.add(other.y), z: self.z.add(other.z) }
    }

    /// The difference of two vectors.
    pub fn sub(&self, other: &Vec3) -> (r: Vec3)
        requires
            v3_fits(v3_sub(self@, other@)),
        ensures
            r@ == v3_sub(self@, other@),
    {
        Vec3 { x: self.x.sub(other.x), y: self.y.sub(other.y), z: self.z.sub(other.z) }
    }

    /// The vector of the same length that points the other way.
    pub fn neg(&self) -> (r: Vec3)
        requires
            v3_fits(v3_neg(self@)),
        ensures
            r@ == v3_neg(self@),
    {
        Vec3 { x: self.x.neg(), y: self.y.neg(), z: self.z.neg() }
    }

    /// The vector times a scalar, each component rounded toward zero.
    pub fn scale(&self, k: Scalar) -> (r: Vec3)
        requires
            v3_fits(v3_scale(self@, k@)),
        ensures
            r@ == v3_scale(self@, k@),
    {
        Vec3 { x: self.x.mul(k), y: self.y.mul(k), z: self.z.mul(k) }
    }

    /// The point halfway to `other`, each component rounded toward zero.
    pub fn midpoint(&self, other: &Vec3) -> (r: Vec3)
        ensures
            r@ == v3_midpoint(self@, other@),
    {
        let x: i128 = quot_wide((self.x.raw as i128) + (other.x.raw as i128), 2);
        let y: i128 = quot_wide((self.y.raw as i128) + (other.y.raw as i128), 2);
        let z: i128 = quot_wide((self.z.raw as i128) + (other.z.raw as i128), 2);
        Vec3 {
            x: Scalar::from_raw(x as i64),
            y: Scalar::from_raw(y as i64),
            z: Scalar::from_raw(z as i64),
        }
    }

    /// Fixed-point dot product, rounded toward zero.
    pub fn dot(&self, other: &Vec3) -> (r: Scalar)
        requires
            fits(v3_dot(self@, other@)),
        ensures
            r@ == v3_dot(self@, other@),
    {
        proof {
            lemma_wide_product(self.x@, other.x@);
            lemma_wide_product(self.y@, other.y@);
            lemma_wide_product(self.z@, other.z@);
        }
        let px: i128 = (self.x.raw as i128) * (other.x.raw as i128);
        let py: i128 = (self.y.raw as i128) * (other.y.raw as i128);
        let pz: i128 = (self.z.raw as i128) * (other.z.raw as i128);
        let q: i128 = quot_wide(px + py + pz, SCALE as i128);
        Scalar::from_raw(q as i64)
    }

    /// Fixed-point cross product, each component rounded toward zero.
    pub fn cross(&self, other: &Vec3) -> (r: Vec3)
        requires
            v3_fits(v3_cross(self@, other@)),
        ensures
            r@ == v3_cross(self@, other@),
    {
        let x: i128 = scaled_difference(self.y.raw, other.z.raw, self.z.raw, other.y.raw);
        let y: i128 = scaled_difference(self.z.raw, other.x.raw, self.x.raw, other.z.raw);
        let z: i128 = scaled_difference(self.x.raw, other.y.raw, self.y.raw, other.x.raw);
        Vec3 {
            x: Scalar::from_raw(x as i64),
            y: Scalar::from_raw(y as i64),
            z: Scalar::from_raw(z as i64),
        }
    }
}

impl Mat3 {
    /// The matrix with the given rows.
    pub fn new(r0: Vec3, r1: Vec3, r2: Vec3) -> (r: Mat3)
        ensures
            r.r0 == r0,
            r.r1 == r1,
            r.r2 == r2,
    {
        Mat3 { r0, r1, r2 }
    }

    /// The matrix with `d` on its diagonal and zero elsewhere.
    pub fn diagonal(d: Scalar) -> (r: Mat3)
        ensures
            r@ == (M3 {
                r0: V3 { x: d@, y: 0, z: 0 },
                r1: V3 { x: 0, y: d@, z: 0 },
                r2: V3 { x: 0, y: 0, z: d@ },
            }),
    {
        let o = Scalar::zero();
        Mat3 { r0: Vec3::new(d, o, o), r1: Vec3::new(o, d, o), r2: Vec3::new(o, o, d) }
    }

    /// Whether the magnitude of every entry is at most `bound`.
    pub open spec fn bounded(self, bound: int) -> bool {
        m3_within(self@, bound)
    }

    /// Decides whether the magnitude of every entry is at most `bound`.
    pub fn is_bounded(&self, bound: i64) -> (r: bool)
        ensures
            r == self.bounded(bound as int),
    {
        self.r0.is_bounded(bound) && self.r1.is_bounded(bound) && self.r2.is_bounded(bound)
    }

    /// The matrix times a vector, each component rounded toward zero.
    pub fn apply(&self, v: &Vec3) -> (r: Vec3)
        requires
            v3_fits(m3_apply(self@, v@)),
        ensures
            r@ == m3_apply(self@, v@),
    {
        Vec3 { x: self.r0.dot(v), y: self.r1.dot(v), z: self.r2.dot(v) }
    }
}

} // verus!
