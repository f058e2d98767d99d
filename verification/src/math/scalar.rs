//! Fixed-point scalars with six decimal digits after the point.

use vstd::prelude::*;

verus! {

/// Number of raw steps that make up the value one.
pub const SCALE: i64 = 1_000_000;

/// Largest magnitude, in raw steps, of a quantity that takes part in the
/// construction of a constraint: one thousand units.
///
/// Physical inputs within this working range cannot drive any intermediate
/// result of the constraint equations out of the 64-bit range.
pub const WORKING_RANGE: i64 = 1_000_000_000;

/// Quotient of `a` by `b`, rounded toward zero.
pub open spec fn quot(a: int, b: int) -> int {
    if b > 0 {
        if a >= 0 {
            a / b
        } else {
            -((-a) / b)
        }
    } else {
        if a >= 0 {
            -(a / (-b))
        } else {
            (-a) / (-b)
        }
    }
}

/// Raw value of the product of the fixed-point numbers with raw values `a` and `b`.
pub open spec fn fx_mul(a: int, b: int) -> int {
    quot(a * b, SCALE as int)
}

/// Raw value of the quotient of the fixed-point numbers with raw values `a` and `b`.
pub open spec fn fx_div(a: int, b: int) -> int {
    quot(a * SCALE, b)
}

/// Number of raw steps of a fine scalar that make up the value one.
pub const FINE_SCALE: i64 = 1_000_000_000_000;

/// Raw value, in fine steps, of the inverse of the fixed-point number with
/// raw value `a`, rounded toward zero.
pub open spec fn fx_recip(a: int) -> int {
    quot(SCALE * FINE_SCALE, a)
}

/// Whether `v` is the raw value of some scalar.
pub open spec fn fits(v: int) -> bool {
    i64::MIN <= v <= i64::MAX
}

/// Whether the magnitude of `v` is at most `bound`.
pub open spec fn within(v: int, bound: int) -> bool {
    -bound <= v <= bound
}

/// A fixed-point number: `raw` counts steps of one millionth.
#[derive(Clone, Copy, Debug, PartialEq, Eq)]
pub struct Scalar {
    pub raw: i64,
}

impl View for Scalar {
    type V = int;

    open spec fn view(&self) -> int {
        self.raw as int
    }
}

/// A fixed-point number with twelve decimal digits after the point: `raw`
/// counts steps of one millionth of a millionth.
///
/// It holds the inverse of a scalar. A mass accumulated from quantities of
/// the working range can reach hundreds of thousands of millions of units:
/// its inverse is less than one step of a scalar, and a few steps of a fine
/// scalar.
#[derive(Clone, Copy, Debug, PartialEq, Eq)]
pub struct FineScalar {
    pub raw: i64,
}

impl View for FineScalar {
    type V = int;

    open spec fn view(&self) -> int {
        self.raw as int
    }
}

impl FineScalar {
    /// The fine scalar with the given raw value.
    pub fn from_raw(raw: i64) -> (r: FineScalar)
        ensures
            r@ == raw,
    {
        FineScalar { raw }
    }

    /// The fine scalar zero.
    pub fn zero() -> (r: FineScalar)
        ensures
            r@ == 0,
    {
        FineScalar { raw: 0 }
    }
}

/// The inverse of a number has the sign of the number, and is not zero for a
/// number of at most a million million units.
pub proof fn lemma_recip_sign(a: int)
    requires
        a != 0,
        within(a, SCALE * FINE_SCALE),
    ensures
        a > 0 ==> 0 < fx_recip(a) <= SCALE * FINE_SCALE,
        a < 0 ==> -(SCALE * FINE_SCALE) <= fx_recip(a) < 0,
{
    let n = SCALE * FINE_SCALE;
    if a > 0 {
        assert(0 < n / a <= n) by (nonlinear_arith)
            requires
                0 < a <= n,
        ;
    } else {
        let m = -a;
        assert(0 < n / m <= n) by (nonlinear_arith)
            requires
                0 < m <= n,
        ;
    }
}

/// The product of two 64-bit values has a magnitude of at most `2^126`.
pub proof fn lemma_wide_product(a: int, b: int)
    requires
        fits(a),
        fits(b),
    ensures
        -0x3fff_ffff_ffff_ffff_8000_0000_0000_0000 <= a * b <= 0x4000_0000_0000_0000_0000_0000_0000_0000,
{
    assert(-0x3fff_ffff_ffff_ffff_8000_0000_0000_0000 <= a * b
        <= 0x4000_0000_0000_0000_0000_0000_0000_0000) by (nonlinear_arith)
        requires
            -0x8000_0000_0000_0000 <= a <= 0x7fff_ffff_ffff_ffff,
            -0x8000_0000_0000_0000 <= b <= 0x7fff_ffff_ffff_ffff,
    ;
}

/// Quotient rounded toward zero, on 128-bit integers.
pub fn quot_wide(a: i128, b: i128) -> (q: i128)
    requires
        b != 0,
        i128::MIN < a,
        i128::MIN < b,
    ensures
        q == quot(a as int, b as int),
{
    if b > 0 {
        a / b
    } else {
        (-a) / (-b)
    }
}

impl Scalar {
    /// The scalar with the given raw value.
    pub fn from_raw(raw: i64) -> (r: Scalar)
        ensures
            r@ == raw,
    {
        Scalar { raw }
    }

    /// The scalar that stands for the whole number `units`.
    pub fn from_int(units: i32) -> (r: Scalar)
        ensures
            r@ == units * SCALE,
    {
        let wide: i64 = units as i64;
        Scalar { raw: wide * SCALE }
    }

    /// The scalar zero.
    pub fn zero() -> (r: Scalar)
        ensures
            r@ == 0,
    {
        Scalar { raw: 0 }
    }

    /// The scalar one.
    pub fn one() -> (r: Scalar)
        ensures
            r@ == SCALE,
    {
        Scalar { raw: SCALE }
    }

    /// The largest scalar; it stands for "no bound".
    pub fn max_value() -> (r: Scalar)
        ensures
            r@ == i64::MAX,
    {
        Scalar { raw: i64::MAX }
    }

    /// The smallest scalar; it stands for "no lower limit".
    pub fn min_value() -> (r: Scalar)
        ensures
            r@ == i64::MIN,
    {
        Scalar { raw: i64::MIN }
    }

    /// Whether the magnitude of the raw value is at most `bound`.
    pub open spec fn bounded(self, bound: int) -> bool {
        within(self@, bound)
    }

    /// Decides whether the magnitude of the raw value is at most `bound`.
    pub fn is_bounded(self, bound: i64) -> (r: bool)
        ensures
            r == self.bounded(bound as int),
    {
        bound >= 0 && -bound <= self.raw && self.raw <= bound
    }

    /// The sum of two scalars.
    pub fn add(self, other: Scalar) -> (r: Scalar)
        requires
            fits(self@ + other@),
        ensures
            r@ == self@ + other@,
    {
        Scalar { raw: self.raw + other.raw }
    }

    /// The difference of two scalars.
    pub fn sub(self, other: Scalar) -> (r: Scalar)
        requires
            fits(self@ - other@),
        ensures
            r@ == self@ - other@,
    {
        Scalar { raw: self.raw - other.raw }
    }

    /// The scalar of the same magnitude on the other side of zero.
    pub fn neg(self) -> (r: Scalar)
        requires
            fits(-self@),
        ensures
            r@ == -self@,
    {
        Scalar { raw: -self.raw }
    }

    /// Fixed-point product, rounded toward zero.
    pub fn mul(self, other: Scalar) -> (r: Scalar)
        requires
            fits(fx_mul(self@, other@)),
        ensures
            r@ == fx_mul(self@, other@),
    {
        proof {
            lemma_wide_product(self@, other@);
        }
        let wide: i128 = (self.raw as i128) * (other.raw as i128);
        let q: i128 = quot_wide(wide, SCALE as i128);
        Scalar { raw: q as i64 }
    }

    /// Fixed-point quotient, rounded toward zero.
    pub fn div(self, other: Scalar) -> (r: Scalar)
        requires
            other@ != 0,
            fits(fx_div(self@, other@)),
        ensures
            r@ == fx_div(self@, other@),
    {
        let wide: i128 = (self.raw as i128) * (SCALE as i128);
        let q: i128 = quot_wide(wide, other.raw as i128);
        Scalar { raw: q as i64 }
    }

    /// The inverse of the scalar as a fine scalar, rounded toward zero.
    pub fn recip(self) -> (r: FineScalar)
        requires
            self@ != 0,
        ensures
            r@ == fx_recip(self@),
    {
        let wide: i128 = (SCALE as i128) * (FINE_SCALE as i128);
        let q: i128 = quot_wide(wide, self.raw as i128);
        proof {
            let n = SCALE * FINE_SCALE;
            let a = self@;
            if a > 0 {
                assert(0 <= n / a <= n) by (nonlinear_arith)
                    requires
                        0 < a,
                        0 < n,
                ;
            } else {
                let m = -a;
                assert(0 <= n / m <= n) by (nonlinear_arith)
                    requires
                        0 < m,
                        0 < n,
                ;
            }
        }
        FineScalar { raw: q as i64 }
    }

    /// The larger of two scalars.
    pub fn max(self, other: Scalar) -> (r: Scalar)
        ensures
            r@ == if self@ >= other@ { self@ } else { other@ },
    {
        if self.raw >= other.raw {
            self
        } else {
            other
        }
    }
}

} // verus!
