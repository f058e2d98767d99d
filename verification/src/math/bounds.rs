//! How far the results of the fixed-point operations can lie from zero, and
//! on which side of it.

use vstd::prelude::*;
use crate::math::scalar::{fx_div, fx_mul, quot, within, SCALE};
use crate::math::vector::{m3_apply, m3_within, v3_cross, v3_dot, v3_dot_wide, v3_scale, v3_within, M3, V3};

verus! {

/// A product is at most the product of the bounds of its factors.
pub proof fn lemma_product_within(a: int, b: int, ba: int, bb: int)
    requires
        within(a, ba),
        within(b, bb),
    ensures
        within(a * b, ba * bb),
{
    assert(-(ba * bb) <= a * b <= ba * bb) by (nonlinear_arith)
        requires
            -ba <= a <= ba,
            -bb <= b <= bb,
    ;
}

/// Rounding toward zero never moves a quotient away from zero.
pub proof fn lemma_quot_within(n: int, d: int, bound: int)
    requires
        d > 0,
        within(n, bound * d),
    ensures
        within(quot(n, d), bound),
{
    assert(within(quot(n, d), bound)) by (nonlinear_arith)
        requires
            d > 0,
            -(bound * d) <= n <= bound * d,
            quot(n, d) == if n >= 0 {
                n / d
            } else {
                -((-n) / d)
            },
    ;
}

pub proof fn lemma_fx_mul_within(a: int, b: int, ba: int, bb: int, bound: int)
    requires
        within(a, ba),
        within(b, bb),
        ba * bb <= bound * SCALE,
    ensures
        within(fx_mul(a, b), bound),
{
    lemma_product_within(a, b, ba, bb);
    lemma_quot_within(a * b, SCALE as int, bound);
}

pub proof fn lemma_scale_within(a: V3, k: int, ba: int, bk: int, bound: int)
    requires
        v3_within(a, ba),
        within(k, bk),
        ba * bk <= bound * SCALE,
    ensures
        v3_within(v3_scale(a, k), bound),
{
    lemma_fx_mul_within(a.x, k, ba, bk, bound);
    lemma_fx_mul_within(a.y, k, ba, bk, bound);
    lemma_fx_mul_within(a.z, k, ba, bk, bound);
}

pub proof fn lemma_dot_within(a: V3, b: V3, ba: int, bb: int, bound: int)
    requires
        v3_within(a, ba),
        v3_within(b, bb),
        3 * (ba * bb) <= bound * SCALE,
    ensures
        within(v3_dot(a, b), bound),
{
    lemma_product_within(a.x, b.x, ba, bb);
    lemma_product_within(a.y, b.y, ba, bb);
    lemma_product_within(a.z, b.z, ba, bb);
    lemma_quot_within(v3_dot_wide(a, b), SCALE as int, bound);
}

pub proof fn lemma_cross_within(a: V3, b: V3, ba: int, bb: int, bound: int)
    requires
        v3_within(a, ba),
        v3_within(b, bb),
        2 * (ba * bb) <= bound * SCALE,
    ensures
        v3_within(v3_cross(a, b), bound),
{
    lemma_product_within(a.y, b.z, ba, bb);
    lemma_product_within(a.z, b.y, ba, bb);
    lemma_product_within(a.z, b.x, ba, bb);
    lemma_product_within(a.x, b.z, ba, bb);
    lemma_product_within(a.x, b.y, ba, bb);
    lemma_product_within(a.y, b.x, ba, bb);
    lemma_quot_within(a.y * b.z - a.z * b.y, SCALE as int, bound);
    lemma_quot_within(a.z * b.x - a.x * b.z, SCALE as int, bound);
    lemma_quot_within(a.x * b.y - a.y * b.x, SCALE as int, bound);
}

pub proof fn lemma_apply_within(m: M3, v: V3, bm: int, bv: int, bound: int)
    requires
        m3_within(m, bm),
        v3_within(v, bv),
        3 * (bm * bv) <= bound * SCALE,
    ensures
        v3_within(m3_apply(m, v), bound),
{
    lemma_dot_within(m.r0, v, bm, bv, bound);
    lemma_dot_within(m.r1, v, bm, bv, bound);
    lemma_dot_within(m.r2, v, bm, bv, bound);
}

/// A fixed-point quotient is at most its numerator, brought to scale.
pub proof fn lemma_fx_div_within(a: int, b: int, ba: int)
    requires
        within(a, ba),
        b != 0,
    ensures
        within(fx_div(a, b), ba * SCALE),
{
    let n = a * SCALE;
    if b > 0 {
        assert(within(quot(n, b), ba * SCALE)) by (nonlinear_arith)
            requires
                b > 0,
                -(ba * SCALE) <= n <= ba * SCALE,
                quot(n, b) == if n >= 0 {
                    n / b
                } else {
                    -((-n) / b)
                },
        ;
    } else {
        let c = -b;
        assert(within(quot(n, b), ba * SCALE)) by (nonlinear_arith)
            requires
                c > 0,
                -(ba * SCALE) <= n <= ba * SCALE,
                quot(n, b) == if n >= 0 {
                    -(n / c)
                } else {
                    (-n) / c
                },
        ;
    }
}

/// Rounding toward zero keeps a quotient on the side of its numerator.
pub proof fn lemma_quot_sign(n: int, d: int)
    requires
        d > 0,
    ensures
        n >= 0 ==> quot(n, d) >= 0,
        n <= 0 ==> quot(n, d) <= 0,
{
    if n >= 0 {
        assert(n / d >= 0) by (nonlinear_arith)
            requires
                n >= 0,
                d > 0,
        ;
    } else {
        let m = -n;
        assert(m / d >= 0) by (nonlinear_arith)
            requires
                m >= 0,
                d > 0,
        ;
    }
}

/// A number times its product with a factor that is not negative is not negative.
pub proof fn lemma_weighted_square_nonnegative(x: int, k: int)
    requires
        k >= 0,
    ensures
        x * fx_mul(x, k) >= 0,
{
    lemma_quot_sign(x * k, SCALE as int);
    let w = fx_mul(x, k);
    if x >= 0 {
        assert(x * k >= 0) by (nonlinear_arith)
            requires
                x >= 0,
                k >= 0,
        ;
        assert(x * w >= 0) by (nonlinear_arith)
            requires
                x >= 0,
                w >= 0,
        ;
    } else {
        assert(x * k <= 0) by (nonlinear_arith)
            requires
                x < 0,
                k >= 0,
        ;
        assert(x * w >= 0) by (nonlinear_arith)
            requires
                x < 0,
                w <= 0,
        ;
    }
}

/// A vector dotted with itself, scaled by a factor that is not negative, is
/// not negative.
pub proof fn lemma_weighted_norm_nonnegative(a: V3, k: int)
    requires
        k >= 0,
    ensures
        v3_dot(a, v3_scale(a, k)) >= 0,
{
    lemma_weighted_square_nonnegative(a.x, k);
    lemma_weighted_square_nonnegative(a.y, k);
    lemma_weighted_square_nonnegative(a.z, k);
    lemma_quot_sign(v3_dot_wide(a, v3_scale(a, k)), SCALE as int);
}

/// Whether `m` is zero off its diagonal and not negative on it.
pub open spec fn m3_nonnegative_diagonal(m: M3) -> bool {
    &&& m.r0.x >= 0 && m.r0.y == 0 && m.r0.z == 0
    &&& m.r1.x == 0 && m.r1.y >= 0 && m.r1.z == 0
    &&& m.r2.x == 0 && m.r2.y == 0 && m.r2.z >= 0
}

/// A vector dotted with its image under a diagonal matrix without negative
/// entries is not negative.
pub proof fn lemma_diagonal_form_nonnegative(m: M3, a: V3)
    requires
        m3_nonnegative_diagonal(m),
    ensures
        v3_dot(a, m3_apply(m, a)) >= 0,
{
    let image = m3_apply(m, a);
    assert(v3_dot_wide(m.r0, a) == m.r0.x * a.x && v3_dot_wide(m.r1, a) == m.r1.y * a.y
        && v3_dot_wide(m.r2, a) == m.r2.z * a.z) by (nonlinear_arith)
        requires
            m3_nonnegative_diagonal(m),
    ;
    assert(m.r0.x * a.x == a.x * m.r0.x && m.r1.y * a.y == a.y * m.r1.y && m.r2.z * a.z == a.z
        * m.r2.z) by (nonlinear_arith);
    assert(image.x == fx_mul(a.x, m.r0.x));
    assert(image.y == fx_mul(a.y, m.r1.y));
    assert(image.z == fx_mul(a.z, m.r2.z));
    lemma_weighted_square_nonnegative(a.x, m.r0.x);
    lemma_weighted_square_nonnegative(a.y, m.r1.y);
    lemma_weighted_square_nonnegative(a.z, m.r2.z);
    lemma_quot_sign(v3_dot_wide(a, image), SCALE as int);
}

/// A number times its product with a factor of at least one is at least its square.
pub proof fn lemma_weighted_square_at_least(x: int, k: int)
    requires
        k >= SCALE,
    ensures
        x * fx_mul(x, k) >= x * x,
{
    let s = SCALE as int;
    let m = if x >= 0 { x } else { -x };
    assert(m * k >= m * s) by (nonlinear_arith)
        requires
            m >= 0,
            k >= s,
    ;
    assert((m * k) / s >= m) by (nonlinear_arith)
        requires
            m * k >= m * s,
            s > 0,
    ;
    let w = (m * k) / s;
    assert(m * w >= m * m) by (nonlinear_arith)
        requires
            m >= 0,
            w >= m,
    ;
    if x >= 0 {
        assert(fx_mul(x, k) == w);
    } else {
        assert(x * k == -(m * k)) by (nonlinear_arith)
            requires
                x == -m,
        ;
        assert(m * k >= 0) by (nonlinear_arith)
            requires
                m >= 0,
                k >= 0,
        ;
        assert(fx_mul(x, k) == -w);
        assert(x * (-w) == m * w && x * x == m * m) by (nonlinear_arith)
            requires
                x == -m,
        ;
    }
}

/// A number of at most one, times its product with a factor that is not
/// negative, falls short of the factor times its square by less than one.
pub proof fn lemma_weighted_square_from_below(x: int, k: int)
    requires
        k >= 0,
        within(x, SCALE as int),
    ensures
        SCALE * (x * fx_mul(x, k)) >= x * x * k - SCALE * SCALE,
{
    let s = SCALE as int;
    let m = if x >= 0 { x } else { -x };
    assert(m * k >= 0) by (nonlinear_arith)
        requires
            m >= 0,
            k >= 0,
    ;
    let w = (m * k) / s;
    assert(s * w > m * k - s && w >= 0) by (nonlinear_arith)
        requires
            w == (m * k) / s,
            m * k >= 0,
            s > 0,
    ;
    assert(s * (m * w) >= m * m * k - s * s) by (nonlinear_arith)
        requires
            0 <= m <= s,
            s * w > m * k - s,
            w >= 0,
            k >= 0,
    ;
    if x >= 0 {
        assert(fx_mul(x, k) == w);
    } else {
        assert(x * k == -(m * k)) by (nonlinear_arith)
            requires
                x == -m,
        ;
        assert(fx_mul(x, k) == -w);
        assert(x * (-w) == m * w && x * x * k == m * m * k) by (nonlinear_arith)
            requires
                x == -m,
        ;
    }
}

/// A vector of positive length, dotted with itself scaled by a factor of at
/// least one, is positive.
pub proof fn lemma_weighted_norm_positive(a: V3, k: int)
    requires
        k >= SCALE,
        v3_dot(a, a) > 0,
    ensures
        v3_dot(a, v3_scale(a, k)) > 0,
{
    let s = SCALE as int;
    lemma_weighted_square_at_least(a.x, k);
    lemma_weighted_square_at_least(a.y, k);
    lemma_weighted_square_at_least(a.z, k);
    let plain = v3_dot_wide(a, a);
    let weighted = v3_dot_wide(a, v3_scale(a, k));
    assert(plain >= 0) by (nonlinear_arith)
        requires
            plain == a.x * a.x + a.y * a.y + a.z * a.z,
    ;
    assert(weighted >= plain);
    assert(plain >= s);
    assert(weighted / s >= 1);
}

/// A vector no longer than one in each component, dotted with itself scaled
/// by a factor that is not negative, is positive where the factor times the
/// squared length of the vector is at least four.
pub proof fn lemma_weighted_unit_norm_positive(a: V3, k: int)
    requires
        k >= 0,
        v3_within(a, SCALE as int),
        k * v3_dot_wide(a, a) >= 4 * (SCALE * SCALE),
    ensures
        v3_dot(a, v3_scale(a, k)) > 0,
{
    let s = SCALE as int;
    lemma_weighted_square_from_below(a.x, k);
    lemma_weighted_square_from_below(a.y, k);
    lemma_weighted_square_from_below(a.z, k);
    let weighted = v3_dot_wide(a, v3_scale(a, k));
    let px = a.x * fx_mul(a.x, k);
    let py = a.y * fx_mul(a.y, k);
    let pz = a.z * fx_mul(a.z, k);
    assert(weighted == px + py + pz);
    assert(k * v3_dot_wide(a, a) == a.x * a.x * k + a.y * a.y * k + a.z * a.z * k)
        by (nonlinear_arith)
        requires
            v3_dot_wide(a, a) == a.x * a.x + a.y * a.y + a.z * a.z,
    ;
    assert(s * weighted == s * px + s * py + s * pz) by (nonlinear_arith)
        requires
            weighted == px + py + pz,
    ;
    assert(s * weighted >= s * s);
    assert(weighted >= s) by (nonlinear_arith)
        requires
            s * weighted >= s * s,
            s > 0,
    ;
    assert(weighted / s >= 1);
}

} // verus!
