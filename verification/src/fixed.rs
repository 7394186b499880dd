//! Saturating fixed-point arithmetic in the Q16.16 scale.
//!
//! Every scalar that flows through the noise graph is an `i64` holding a
//! fixed-point number with `ONE` as the unit.  All operations clamp their
//! result into `[-LIMIT, LIMIT]`, a bound far outside the nominal `[-1, 1]`
//! working range of the graph, so every operation is total and no overflow
//! can occur anywhere in the evaluator.

use vstd::prelude::*;

verus! {

use vstd::arithmetic::div_mod::{
    lemma_div_is_ordered, lemma_div_is_ordered_by_denominator, lemma_div_multiples_vanish,
    lemma_div_pos_is_pos, lemma_fundamental_div_mod_converse,
};
use vstd::arithmetic::mul::{lemma_mul_inequality, lemma_mul_nonnegative};

/// One whole unit of the Q16.16 fixed-point scale.
pub const ONE: i64 = 65536;

/// Saturation bound of every scalar: 2^62.
pub const LIMIT: i64 = 0x4000_0000_0000_0000;

/// A scalar the arithmetic has produced: clamped into `[-LIMIT, LIMIT]`.
pub open spec fn bounded(v: int) -> bool {
    -LIMIT <= v && v <= LIMIT
}

/// Clamp an unbounded mathematical value into `[-LIMIT, LIMIT]`.
pub open spec fn sat_spec(v: int) -> int {
    if v < -LIMIT {
        -LIMIT as int
    } else if v > LIMIT {
        LIMIT as int
    } else {
        v
    }
}

/// Absolute value.
pub open spec fn iabs(a: int) -> int {
    if a < 0 {
        -a
    } else {
        a
    }
}

/// Truncating division (round toward zero), for a positive divisor.
/// This is the rounding rule of the executable machine division used below.
pub open spec fn tdiv(a: int, d: int) -> int {
    if a >= 0 {
        a / d
    } else {
        -((-a) / d)
    }
}

/// Fixed-point product: `a * b / ONE`, truncated and clamped.
pub open spec fn mul_one_spec(a: int, b: int) -> int {
    sat_spec(tdiv(a * b, ONE as int))
}

/// Scaled quotient: `a * b / d`, truncated and clamped.
pub open spec fn mul_div_spec(a: int, b: int, d: int) -> int {
    sat_spec(tdiv(a * b, d))
}

/// Linear interpolation from `a` to `b` by `t` in `[0, ONE]`.
pub open spec fn lerp_spec(a: int, b: int, t: int) -> int {
    sat_spec(a + tdiv((b - a) * t, ONE as int))
}

/// The cubic smoothstep `t^2 * (3 - 2t)` in fixed point, for `t` in `[0, ONE]`.
pub open spec fn scurve3_spec(t: int) -> int {
    tdiv(t * t * (3 * ONE - 2 * t), (ONE * ONE) as int)
}

pub open spec fn min_spec(a: int, b: int) -> int {
    if a <= b {
        a
    } else {
        b
    }
}

pub open spec fn max_spec(a: int, b: int) -> int {
    if a >= b {
        a
    } else {
        b
    }
}

/// Clamp `v` into `[lo, hi]` (callers establish `lo <= hi`).
pub open spec fn clamp_spec(v: int, lo: int, hi: int) -> int {
    if v < lo {
        lo
    } else if v > hi {
        hi
    } else {
        v
    }
}

/// Clamp an `i128` intermediate into the saturated scalar range.
pub fn sat128(v: i128) -> (r: i64)
    ensures
        r as int == sat_spec(v as int),
{
    if v < -(LIMIT as i128) {
        -LIMIT
    } else if v > LIMIT as i128 {
        LIMIT
    } else {
        v as i64
    }
}

/// Saturating addition.
pub fn add_sat(a: i64, b: i64) -> (r: i64)
    ensures
        r as int == sat_spec(a + b),
{
    sat128(a as i128 + b as i128)
}

/// Truncating, saturating scaled quotient `a * b / d`.
pub fn mul_div(a: i64, b: i64, d: i64) -> (r: i64)
    requires
        bounded(a as int),
        bounded(b as int),
        0 < d <= LIMIT,
    ensures
        r as int == mul_div_spec(a as int, b as int, d as int),
{
    let neg: bool = (a < 0) != (b < 0);
    let ua: u128 = if a < 0 {
        (-(a as i128)) as u128
    } else {
        a as u128
    };
    let ub: u128 = if b < 0 {
        (-(b as i128)) as u128
    } else {
        b as u128
    };
    proof {
        assert(ua as int == iabs(a as int));
        assert(ub as int == iabs(b as int));
        assert(ua as int * ub as int <= LIMIT as int * LIMIT as int) by {
            lemma_mul_inequality(ua as int, LIMIT as int, ub as int);
            lemma_mul_inequality(ub as int, LIMIT as int, LIMIT as int);
        }
    }
    let p: u128 = ua * ub;
    let q: u128 = p / (d as u128);
    proof {
        assert(p as int == iabs(a as int * b as int)) by (nonlinear_arith)
            requires
                ua as int == iabs(a as int),
                ub as int == iabs(b as int),
                p as int == ua as int * ub as int,
        ;
        assert(q as int == (p as int) / (d as int));
        if neg && p != 0 {
            assert(a as int * b as int == -(p as int)) by (nonlinear_arith)
                requires
                    p as int == iabs(a as int * b as int),
                    (a < 0) != (b < 0),
            ;
        }
        if !neg {
            assert(a as int * b as int == p as int) by (nonlinear_arith)
                requires
                    p as int == iabs(a as int * b as int),
                    (a < 0) == (b < 0),
            ;
        }
    }
    let qc: u128 = if q > LIMIT as u128 {
        LIMIT as u128
    } else {
        q
    };
    proof {
        lemma_div_pos_is_pos(p as int, d as int);
        if q > LIMIT as u128 {
            assert(sat_spec(q as int) == LIMIT as int);
        }
    }
    if neg {
        (-(qc as i128)) as i64
    } else {
        qc as i64
    }
}

/// Truncating, saturating fixed-point product `a * b / ONE`.
pub fn mul_one(a: i64, b: i64) -> (r: i64)
    requires
        bounded(a as int),
        bounded(b as int),
    ensures
        r as int == mul_one_spec(a as int, b as int),
{
    mul_div(a, b, ONE)
}

pub fn imin(a: i64, b: i64) -> (r: i64)
    ensures
        r as int == min_spec(a as int, b as int),
{
    if a <= b {
        a
    } else {
        b
    }
}

pub fn imax(a: i64, b: i64) -> (r: i64)
    ensures
        r as int == max_spec(a as int, b as int),
{
    if a >= b {
        a
    } else {
        b
    }
}

pub fn iclamp(v: i64, lo: i64, hi: i64) -> (r: i64)
    requires
        lo <= hi,
    ensures
        r as int == clamp_spec(v as int, lo as int, hi as int),
{
    if v < lo {
        lo
    } else if v > hi {
        hi
    } else {
        v
    }
}

/// Truncating division by a positive divisor.
pub fn div_trunc(a: i64, d: i64) -> (r: i64)
    requires
        0 < d,
    ensures
        r as int == tdiv(a as int, d as int),
{
    if a >= 0 {
        let q: u64 = (a as u64) / (d as u64);
        q as i64
    } else {
        let m: u128 = (-(a as i128)) as u128;
        let q: u128 = m / (d as u128);
        proof {
            lemma_div_pos_is_pos(m as int, d as int);
            lemma_div_is_ordered(m as int, 0x8000_0000_0000_0000, d as int);
            lemma_div_is_ordered_by_denominator(0x8000_0000_0000_0000, 1, d as int);
        }
        (-(q as i128)) as i64
    }
}

/// Scaling a unit-range factor onto any scalar cannot grow its magnitude.
pub proof fn lemma_mul_one_unit_scale(v: int, a: int)
    requires
        -ONE <= v <= ONE,
        bounded(a),
    ensures
        iabs(mul_one_spec(v, a)) <= iabs(a),
{
    lemma_scale_frac_bounds(iabs(a), iabs(v));
    assert(iabs(v * a) == iabs(a) * iabs(v)) by (nonlinear_arith);
    if v * a >= 0 {
        lemma_div_pos_is_pos(v * a, ONE as int);
    }
}

/// A fixed-point product of a positive scalar and a factor of at least one
/// whole unit stays positive.
pub proof fn lemma_mul_one_pos(a: int, b: int)
    requires
        1 <= a <= LIMIT,
        ONE <= b <= LIMIT,
    ensures
        1 <= mul_one_spec(a, b),
{
    assert(a * (ONE as int) <= a * b) by (nonlinear_arith)
        requires
            1 <= a,
            (ONE as int) <= b,
    ;
    lemma_div_is_ordered(a * (ONE as int), a * b, ONE as int);
    lemma_div_multiples_vanish(a, ONE as int);
    assert(a * (ONE as int) == (ONE as int) * a) by (nonlinear_arith);
}

/// Saturated displacement moves a bounded value by no more than the step.
pub proof fn lemma_sat_step(x: int, delta: int, m: int)
    requires
        bounded(x),
        iabs(delta) <= m,
    ensures
        iabs(sat_spec(x + delta) - x) <= m,
{
}

/// `0 <= a * t / ONE <= a` for `a >= 0` and `t` in `[0, ONE]`.
pub proof fn lemma_scale_frac_bounds(a: int, t: int)
    requires
        a >= 0,
        0 <= t <= ONE,
    ensures
        0 <= tdiv(a * t, ONE as int) <= a,
{
    lemma_mul_nonnegative(a, t);
    lemma_mul_inequality(t, ONE as int, a);
    assert(a * t == t * a) by (nonlinear_arith);
    lemma_div_is_ordered(a * t, a * (ONE as int), ONE as int);
    lemma_div_multiples_vanish(a, ONE as int);
    lemma_div_pos_is_pos(a * t, ONE as int);
}

/// The interpolant stays between its endpoints.
pub proof fn lemma_lerp_between(a: int, b: int, t: int)
    requires
        bounded(a),
        bounded(b),
        0 <= t <= ONE,
    ensures
        min_spec(a, b) <= lerp_spec(a, b, t) <= max_spec(a, b),
{
    if b >= a {
        lemma_scale_frac_bounds(b - a, t);
    } else {
        lemma_scale_frac_bounds(a - b, t);
        assert((b - a) * t == -((a - b) * t)) by (nonlinear_arith);
    }
}

/// Interpolate from `a` to `b` by `t` in `[0, ONE]`.
pub fn lerp(a: i64, b: i64, t: i64) -> (r: i64)
    requires
        bounded(a as int),
        bounded(b as int),
        0 <= t <= ONE,
    ensures
        r as int == lerp_spec(a as int, b as int, t as int),
        min_spec(a as int, b as int) <= r as int <= max_spec(a as int, b as int),
{
    let d: i128 = b as i128 - a as i128;
    let neg: bool = d < 0;
    let ud: u128 = if neg {
        (-d) as u128
    } else {
        d as u128
    };
    proof {
        assert(ud as int * t as int <= 4 * (LIMIT as int) * (ONE as int)) by (nonlinear_arith)
            requires
                0 <= ud as int <= 2 * (LIMIT as int),
                0 <= t as int <= ONE as int,
        ;
    }
    let p: u128 = (ud * (t as u128)) / (ONE as u128);
    proof {
        assert(ud as int * t as int == iabs((b - a) * t)) by (nonlinear_arith)
            requires
                ud as int == iabs(b as int - a as int),
                0 <= t <= ONE,
        ;
        assert(ud as int * t as int <= LIMIT as int * 2 * ONE as int) by (nonlinear_arith)
            requires
                0 <= ud as int <= 2 * LIMIT as int,
                0 <= t <= ONE,
        ;
        lemma_div_pos_is_pos(ud as int * t as int, ONE as int);
        if neg {
            assert((b - a) * t == -(ud as int * t as int)) by (nonlinear_arith)
                requires
                    ud as int == -(b as int - a as int),
                    (b as int - a as int) < 0,
                    0 <= t,
            ;
        } else {
            assert((b - a) * t == ud as int * t as int);
        }
        assert(p as int <= 2 * LIMIT as int) by {
            assert(ud as int * t as int <= ud as int * ONE as int) by (nonlinear_arith)
                requires
                    0 <= t <= ONE,
                    ud as int >= 0,
            ;
            lemma_div_is_ordered(ud as int * t as int, ud as int * (ONE as int), ONE as int);
            lemma_div_multiples_vanish(ud as int, ONE as int);
        }
    }
    let delta: i128 = if neg {
        -(p as i128)
    } else {
        p as i128
    };
    let r = sat128(a as i128 + delta);
    proof {
        lemma_lerp_between(a as int, b as int, t as int);
    }
    r
}

/// The cubic smoothstep, exact in fixed point and proved to stay in `[0, ONE]`.
pub fn scurve3(t: i64) -> (r: i64)
    requires
        0 <= t <= ONE,
    ensures
        r as int == scurve3_spec(t as int),
        0 <= r <= ONE,
{
    let u: u128 = t as u128;
    let m: u128 = (3 * ONE - 2 * t) as u128;
    proof {
        assert(u as int * u as int * m as int <= 65536 * 65536 * 196608) by (nonlinear_arith)
            requires
                0 <= u as int <= 65536,
                0 <= m as int <= 196608,
        ;
        assert(u as int * u as int <= 65536 * 65536) by (nonlinear_arith)
            requires
                0 <= u as int <= 65536,
        ;
    }
    let num: u128 = u * u * m;
    let den: u128 = (ONE as u128) * (ONE as u128);
    let q: u128 = num / den;
    proof {
        assert(num as int == t as int * t as int * (3 * ONE - 2 * t as int));
        assert(num as int <= (ONE as int) * (ONE as int) * (ONE as int)) by (nonlinear_arith)
            requires
                0 <= t as int <= ONE as int,
                num as int == t as int * t as int * (3 * ONE - 2 * t as int),
        ;
        lemma_div_is_ordered(
            num as int,
            (ONE as int) * (ONE as int) * (ONE as int),
            (ONE as int) * (ONE as int),
        );
        assert((ONE as int) * (ONE as int) * (ONE as int) / ((ONE as int) * (ONE as int))
            == ONE as int);
        lemma_div_pos_is_pos(num as int, (ONE as int) * (ONE as int));
    }
    q as i64
}

/// The integer square-root, defined recursively so that contracts can name it.
pub open spec fn sqrt_floor(n: nat) -> nat
    decreases n,
{
    if n == 0 {
        0
    } else {
        let r = sqrt_floor((n - 1) as nat);
        if (r + 1) * (r + 1) <= n {
            r + 1
        } else {
            r
        }
    }
}

/// `sqrt_floor` is the floor of the square root.
pub proof fn lemma_sqrt_floor_bounds(n: nat)
    ensures
        sqrt_floor(n) * sqrt_floor(n) <= n,
        n < (sqrt_floor(n) + 1) * (sqrt_floor(n) + 1),
    decreases n,
{
    let s = sqrt_floor(n);
    if n > 0 {
        lemma_sqrt_floor_bounds((n - 1) as nat);
        let r = sqrt_floor((n - 1) as nat);
        if (r + 1) * (r + 1) <= n {
            assert(s == r + 1);
            assert(s * s <= n && n < (s + 1) * (s + 1)) by (nonlinear_arith)
                requires
                    s == r + 1,
                    (r + 1) * (r + 1) <= n,
                    (n - 1) < (r + 1) * (r + 1),
            ;
        } else {
            assert(s == r);
            assert(s * s <= n && n < (s + 1) * (s + 1)) by (nonlinear_arith)
                requires
                    s == r,
                    n >= 1,
                    r * r <= n - 1,
                    !((r + 1) * (r + 1) <= n),
            ;
        }
    } else {
        assert(s == 0);
        assert(s * s <= n && n < (s + 1) * (s + 1)) by (nonlinear_arith)
            requires
                s == 0,
                n == 0,
        ;
    }
}

/// Any `r` with `r^2 <= n < (r+1)^2` is `sqrt_floor(n)`.
pub proof fn lemma_sqrt_floor_unique(n: nat, r: nat)
    requires
        r * r <= n,
        n < (r + 1) * (r + 1),
    ensures
        r == sqrt_floor(n),
{
    lemma_sqrt_floor_bounds(n);
    let s = sqrt_floor(n);
    assert(r == s) by (nonlinear_arith)
        requires
            r * r <= n,
            n < (r + 1) * (r + 1),
            s * s <= n,
            n < (s + 1) * (s + 1),
            r >= 0,
            s >= 0,
    ;
}

/// Integer square root by bisection.
pub fn isqrt(n: u64) -> (r: u64)
    ensures
        r as nat == sqrt_floor(n as nat),
        r * r <= n,
{
    if n == 0 {
        proof {
            assert(0nat * 0nat <= 0 && 0nat < (0nat + 1) * (0nat + 1)) by (nonlinear_arith);
            lemma_sqrt_floor_unique(0, 0);
        }
        return 0;
    }
    let mut lo: u64 = 0;
    let mut hi: u64 = 0x1_0000_0000;
    proof {
        assert((hi as int) * (hi as int) > n as int);
    }
    while lo + 1 < hi
        invariant
            lo < hi,
            hi <= 0x1_0000_0000,
            (lo as int) * (lo as int) <= n as int,
            (n as int) < (hi as int) * (hi as int),
        decreases hi - lo,
    {
        let mid: u64 = lo + (hi - lo) / 2;
        assert(lo < mid < hi);
        proof {
            assert((mid as int) * (mid as int) < 0x1_0000_0000_0000_0000) by (nonlinear_arith)
                requires
                    0 <= (mid as int) && (mid as int) < 0x1_0000_0000,
            ;
        }
        if mid * mid <= n {
            lo = mid;
        } else {
            hi = mid;
        }
    }
    proof {
        lemma_sqrt_floor_unique(n as nat, lo as nat);
    }
    lo
}

} // verus!
