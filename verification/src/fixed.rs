//! Q16 fixed-point scalar arithmetic.
//!
//! A signal value is an `i64` holding `v * 65536` for a real value `v`.
//! Every operation keeps its result within the headroom bound
//! [`FX_LIMIT`], so sums and products along the signal path can never
//! overflow; the bound is about two to the twenty-fourth in real units,
//! far above any audible level, so the saturation never engages for
//! ordinary audio. Division truncates toward zero, which keeps negation
//! symmetry exact.

use vstd::prelude::*;
use vstd::arithmetic::div_mod::lemma_fundamental_div_mod;

verus! {

/// The fixed-point representation of 1.0.
pub const FX_ONE: i64 = 65536;

/// Headroom bound on every signal value: two to the fortieth.
pub const FX_LIMIT: i64 = 1099511627776;

/// A value within the fixed-point headroom.
pub open spec fn fx_fits(x: int) -> bool {
    -FX_LIMIT <= x <= FX_LIMIT
}

/// Saturation to the fixed-point headroom.
pub open spec fn clip_fx(x: int) -> int {
    if x < -FX_LIMIT {
        -FX_LIMIT as int
    } else if x > FX_LIMIT {
        FX_LIMIT as int
    } else {
        x
    }
}

/// Division truncating toward zero; `d` must be positive.
pub open spec fn tdiv(a: int, d: int) -> int
    recommends
        d > 0,
{
    if a >= 0 {
        a / d
    } else {
        -((-a) / d)
    }
}

/// The saturating Q16 product.
pub open spec fn fx_mul_spec(a: int, b: int) -> int {
    clip_fx(tdiv(a * b, FX_ONE as int))
}

/// The saturating sum.
pub open spec fn fx_add_spec(a: int, b: int) -> int {
    clip_fx(a + b)
}

/// The saturating difference.
pub open spec fn fx_sub_spec(a: int, b: int) -> int {
    clip_fx(a - b)
}

/// Truncating division of a wide intermediate by a positive divisor.
pub(crate) fn tdiv_i128(a: i128, d: i128) -> (r: i128)
    requires
        0 < d,
        -0x40000000000000000000000000000000 < a,
    ensures
        r == tdiv(a as int, d as int),
{
    if a >= 0 {
        let q: u128 = (a as u128) / (d as u128);
        assert(q <= a as u128) by {
            vstd::arithmetic::div_mod::lemma_div_nonincreasing(a as int, d as int);
            vstd::arithmetic::div_mod::lemma_div_pos_is_pos(a as int, d as int);
        }
        q as i128
    } else {
        let m: i128 = -a;
        let q: u128 = (m as u128) / (d as u128);
        assert(q <= m as u128) by {
            vstd::arithmetic::div_mod::lemma_div_nonincreasing(m as int, d as int);
            vstd::arithmetic::div_mod::lemma_div_pos_is_pos(m as int, d as int);
        }
        -(q as i128)
    }
}

/// Saturate a wide intermediate back into the headroom.
fn clamp_limit(q: i128) -> (r: i64)
    ensures
        r == clip_fx(q as int),
        fx_fits(r as int),
{
    if q < -(FX_LIMIT as i128) {
        -FX_LIMIT
    } else if q > FX_LIMIT as i128 {
        FX_LIMIT
    } else {
        q as i64
    }
}

/// Q16 product with saturation.
pub fn fx_mul(a: i64, b: i64) -> (r: i64)
    requires
        fx_fits(a as int),
        fx_fits(b as int),
    ensures
        r == fx_mul_spec(a as int, b as int),
        fx_fits(r as int),
{
    assert((a as int) * (b as int) <= FX_LIMIT * FX_LIMIT
        && -(FX_LIMIT * FX_LIMIT) <= (a as int) * (b as int)) by (nonlinear_arith)
        requires
            fx_fits(a as int),
            fx_fits(b as int),
    ;
    let p: i128 = (a as i128) * (b as i128);
    let q: i128 = tdiv_i128(p, FX_ONE as i128);
    clamp_limit(q)
}

/// Saturating sum.
pub fn fx_add(a: i64, b: i64) -> (r: i64)
    requires
        fx_fits(a as int),
        fx_fits(b as int),
    ensures
        r == fx_add_spec(a as int, b as int),
        fx_fits(r as int),
{
    clamp_limit(a as i128 + b as i128)
}

/// Saturating difference.
pub fn fx_sub(a: i64, b: i64) -> (r: i64)
    requires
        fx_fits(a as int),
        fx_fits(b as int),
    ensures
        r == fx_sub_spec(a as int, b as int),
        fx_fits(r as int),
{
    clamp_limit(a as i128 - b as i128)
}

/// Numerator constant of the soft clipper: 27 in Q16 squared units.
pub const SOFT_C: i128 = 27 * 65536 * 65536;

/// The soft clipper `f(v) = v * (27 + v^2) / (27 + 9 * v^2)` carried to
/// Q16: it attenuates peaks smoothly and never divides by zero.
pub open spec fn soft_clip_spec(x: int) -> int {
    tdiv(x * ((SOFT_C as int) + x * x), (SOFT_C as int) + 9 * (x * x))
}

/// Quotients ordered whenever the cross products are: `a/c <= b/d`.
proof fn lemma_floor_div_compare(a: int, b: int, c: int, d: int)
    requires
        0 <= a,
        0 <= b,
        0 < c,
        0 < d,
        a * d <= b * c,
    ensures
        a / c <= b / d,
{
    let q1 = a / c;
    let r1 = a % c;
    let q2 = b / d;
    let r2 = b % d;
    lemma_fundamental_div_mod(a, c);
    lemma_fundamental_div_mod(b, d);
    assert(q1 <= q2) by (nonlinear_arith)
        requires
            a == c * q1 + r1,
            b == d * q2 + r2,
            0 <= r1 < c,
            0 <= r2 < d,
            0 < c,
            0 < d,
            a * d <= b * c,
    ;
}

/// A truncating quotient is bounded by any multiple bound on the dividend.
pub(crate) proof fn lemma_tdiv_bound(a: int, d: int, m: int)
    requires
        0 < d,
        0 <= m,
        -(m * d) <= a <= m * d,
    ensures
        -m <= tdiv(a, d) <= m,
{
    vstd::arithmetic::mul::lemma_mul_is_commutative(m, d);
    vstd::arithmetic::div_mod::lemma_div_multiples_vanish(m, d);
    if a >= 0 {
        vstd::arithmetic::div_mod::lemma_div_is_ordered(a, m * d, d);
        vstd::arithmetic::div_mod::lemma_div_pos_is_pos(a, d);
    } else {
        vstd::arithmetic::div_mod::lemma_div_is_ordered(-a, m * d, d);
        vstd::arithmetic::div_mod::lemma_div_pos_is_pos(-a, d);
    }
}

/// The saturating product of nonnegative factors is nonnegative.
pub proof fn lemma_fx_mul_nonneg(a: int, b: int)
    requires
        0 <= a,
        0 <= b,
    ensures
        0 <= fx_mul_spec(a, b),
{
    vstd::arithmetic::mul::lemma_mul_nonnegative(a, b);
    vstd::arithmetic::div_mod::lemma_div_pos_is_pos(a * b, 65536);
}

/// Negating the dividend negates a truncating quotient.
proof fn lemma_tdiv_neg(a: int, d: int)
    requires
        0 < d,
    ensures
        tdiv(-a, d) == -tdiv(a, d),
{
}

/// Soft-clip a Q16 sample: `soft_clip_spec` computed exactly.
pub fn soft_clip(x: i64) -> (r: i64)
    requires
        fx_fits(x as int),
    ensures
        r == soft_clip_spec(x as int),
        fx_fits(r as int),
{
    let ghost m: int = if x >= 0 { x as int } else { -(x as int) };
    assert((x as int) * (x as int) <= FX_LIMIT * FX_LIMIT
        && 0 <= (x as int) * (x as int)) by (nonlinear_arith)
        requires
            fx_fits(x as int),
    ;
    let xi: i128 = x as i128;
    let x2: i128 = xi * xi;
    assert((xi as int) * ((SOFT_C + x2) as int) < 0x40000000000000000000000000000000
        && -0x40000000000000000000000000000000 < (xi as int) * ((SOFT_C + x2) as int))
        by (nonlinear_arith)
        requires
            -FX_LIMIT <= xi as int <= FX_LIMIT,
            0 <= x2 as int <= FX_LIMIT * FX_LIMIT,
    ;
    let num: i128 = xi * (SOFT_C + x2);
    let den: i128 = SOFT_C + 9 * x2;
    assert(num as int <= m * (den as int) && -(m * (den as int)) <= num as int)
        by (nonlinear_arith)
        requires
            m == if x >= 0 { x as int } else { -(x as int) },
            num as int == (x as int) * ((SOFT_C as int) + (x as int) * (x as int)),
            den as int == (SOFT_C as int) + 9 * ((x as int) * (x as int)),
    ;
    let q: i128 = tdiv_i128(num, den);
    proof {
        lemma_tdiv_bound(num as int, den as int, m);
    }
    q as i64
}

/// The soft clipper fixes zero.
pub proof fn lemma_soft_clip_zero()
    ensures
        soft_clip_spec(0) == 0,
{
    assert(soft_clip_spec(0) == tdiv(0, SOFT_C as int));
    vstd::arithmetic::div_mod::lemma_div_of0(SOFT_C as int);
}

/// The soft clipper is an odd function: `f(-v) == -f(v)`.
pub proof fn lemma_soft_clip_odd(x: int)
    ensures
        soft_clip_spec(-x) == -soft_clip_spec(x),
{
    let c = SOFT_C as int;
    assert((-x) * (c + (-x) * (-x)) == -(x * (c + x * x)) && (-x) * (-x) == x * x)
        by (nonlinear_arith)
        requires
            c == SOFT_C as int,
    ;
    assert(x * x >= 0) by (nonlinear_arith);
    lemma_tdiv_neg(x * (c + x * x), c + 9 * (x * x));
}

/// The cross-product difference of the clipper fractions factors into
/// the input difference times a sum of squares; `3 * k` stands for the
/// clipper constant.
proof fn lemma_clip_cross(x: int, y: int, k: int)
    ensures
        (y * (3 * k + y * y)) * (3 * k + 9 * (x * x)) - (x * (3 * k + x * x)) * (3 * k + 9 * (y
            * y)) == (y - x) * (9 * ((x * y - k) * (x * y - k)) + 3 * (k * ((x - y) * (x - y)))),
{
    let u = x * x;
    let v = y * y;
    let w = x * y;
    assert(y * (3 * k + v) == 3 * (k * y) + v * y) by (nonlinear_arith);
    assert((3 * (k * y) + v * y) * (3 * k + 9 * u) == 9 * ((k * y) * k) + 27 * ((k * y) * u) + 3
        * ((v * y) * k) + 9 * ((v * y) * u)) by (nonlinear_arith);
    assert(x * (3 * k + u) == 3 * (k * x) + u * x) by (nonlinear_arith);
    assert((3 * (k * x) + u * x) * (3 * k + 9 * v) == 9 * ((k * x) * k) + 27 * ((k * x) * v) + 3
        * ((u * x) * k) + 9 * ((u * x) * v)) by (nonlinear_arith);
    assert((w - k) * (w - k) == w * w - 2 * (k * w) + k * k) by (nonlinear_arith);
    assert((x - y) * (x - y) == u - 2 * w + v) by (nonlinear_arith)
        requires
            u == x * x,
            v == y * y,
            w == x * y,
    ;
    assert(9 * ((w - k) * (w - k)) + 3 * (k * ((x - y) * (x - y))) == 9 * (w * w) - 24 * (k * w)
        + 9 * (k * k) + 3 * (k * u) + 3 * (k * v)) by (nonlinear_arith)
        requires
            (w - k) * (w - k) == w * w - 2 * (k * w) + k * k,
            (x - y) * (x - y) == u - 2 * w + v,
    ;
    let b = 9 * (w * w) - 24 * (k * w) + 9 * (k * k) + 3 * (k * u) + 3 * (k * v);
    assert((y - x) * b == 9 * ((w * w) * y) - 24 * ((k * w) * y) + 9 * ((k * k) * y) + 3 * ((k
        * u) * y) + 3 * ((k * v) * y) - (9 * ((w * w) * x) - 24 * ((k * w) * x) + 9 * ((k * k)
        * x) + 3 * ((k * u) * x) + 3 * ((k * v) * x))) by (nonlinear_arith)
        requires
            b == 9 * (w * w) - 24 * (k * w) + 9 * (k * k) + 3 * (k * u) + 3 * (k * v),
    ;
    assert((k * y) * k == (k * k) * y) by (nonlinear_arith);
    assert((k * x) * k == (k * k) * x) by (nonlinear_arith);
    assert((k * y) * u == (k * u) * y) by (nonlinear_arith);
    assert((k * x) * v == (k * v) * x) by (nonlinear_arith);
    assert((v * y) * k == (k * v) * y) by (nonlinear_arith);
    assert((u * x) * k == (k * u) * x) by (nonlinear_arith);
    assert((v * y) * u == (w * w) * y) by (nonlinear_arith)
        requires
            u == x * x,
            v == y * y,
            w == x * y,
    ;
    assert((u * x) * v == (w * w) * x) by (nonlinear_arith)
        requires
            u == x * x,
            v == y * y,
            w == x * y,
    ;
    assert((k * w) * y == (k * v) * x) by (nonlinear_arith)
        requires
            v == y * y,
            w == x * y,
    ;
    assert((k * w) * x == (k * u) * y) by (nonlinear_arith)
        requires
            u == x * x,
            w == x * y,
    ;
}

/// Nonnegative inputs keep the soft clipper order: the monotone core.
proof fn lemma_soft_clip_monotone_nonneg(x: int, y: int)
    requires
        0 <= x <= y,
    ensures
        soft_clip_spec(x) <= soft_clip_spec(y),
{
    let c = SOFT_C as int;
    let k: int = 9int * 65536 * 65536;
    assert(c == 3 * k);
    lemma_clip_cross(x, y, k);
    assert(9 * ((x * y - k) * (x * y - k)) >= 0 && 3 * (k * ((x - y) * (x - y))) >= 0)
        by (nonlinear_arith)
        requires
            k == 9int * 65536 * 65536,
    ;
    assert((y - x) * (9 * ((x * y - k) * (x * y - k)) + 3 * (k * ((x - y) * (x - y)))) >= 0)
        by (nonlinear_arith)
        requires
            x <= y,
            9 * ((x * y - k) * (x * y - k)) + 3 * (k * ((x - y) * (x - y))) >= 0,
    ;
    let nx = x * (c + x * x);
    let dx = c + 9 * (x * x);
    let ny = y * (c + y * y);
    let dy = c + 9 * (y * y);
    assert(dx > 0 && dy > 0 && nx >= 0 && ny >= 0) by (nonlinear_arith)
        requires
            0 <= x <= y,
            nx == x * (c + x * x),
            dx == c + 9 * (x * x),
            ny == y * (c + y * y),
            dy == c + 9 * (y * y),
            c == 3 * (9int * 65536 * 65536),
    ;
    assert(nx * dy <= ny * dx);
    lemma_floor_div_compare(nx, ny, dx, dy);
}

/// The soft clipper is monotone: inputs in order give outputs in order.
pub proof fn lemma_soft_clip_monotone(x: int, y: int)
    requires
        x <= y,
    ensures
        soft_clip_spec(x) <= soft_clip_spec(y),
{
    let c = SOFT_C as int;
    if 0 <= x {
        lemma_soft_clip_monotone_nonneg(x, y);
    } else if y <= 0 {
        lemma_soft_clip_monotone_nonneg(-y, -x);
        lemma_soft_clip_odd(x);
        lemma_soft_clip_odd(y);
        assert(soft_clip_spec(-x) >= soft_clip_spec(-y));
    } else {
        lemma_soft_clip_monotone_nonneg(0, y);
        lemma_soft_clip_monotone_nonneg(0, -x);
        lemma_soft_clip_odd(x);
        lemma_soft_clip_zero();
    }
}

/// Clamp into the unit interval [0, 1] in Q16.
pub open spec fn clamp01_spec(x: int) -> int {
    if x < 0 {
        0
    } else if x > FX_ONE {
        FX_ONE as int
    } else {
        x
    }
}

/// Clamp a value into [0, 1] in Q16.
pub fn fx_clamp01(x: i64) -> (r: i64)
    ensures
        r == clamp01_spec(x as int),
        0 <= r <= FX_ONE,
{
    if x < 0 {
        0
    } else if x > FX_ONE {
        FX_ONE
    } else {
        x
    }
}

} // verus!
