//! The node kinds of the noise-module graph and their evaluation semantics.
//!
//! A graph is a sequence of nodes in which every combinator refers to
//! earlier nodes by index, so the structure is acyclic by construction.
//! `eval_spec` gives each node's value at a coordinate as a pure function
//! of the node sequence, the control-point tables and the coordinate; the
//! executable evaluator in the graph module is proved to return exactly
//! this value.

use vstd::prelude::*;

verus! {

use crate::fixed::{
    add_sat, bounded, clamp_spec, div_trunc, iabs, iclamp, isqrt, lemma_lerp_between,
    lemma_mul_one_unit_scale, lemma_sat_step, lemma_scale_frac_bounds, lemma_sqrt_floor_bounds,
    lerp, lerp_spec, max_spec, min_spec, mul_one, mul_one_spec, sat_spec, scurve3, scurve3_spec,
    sqrt_floor, tdiv, LIMIT, ONE,
};
use crate::generator::{fractal, fractal_spec, worley, worley_spec, FractalKind};
use vstd::arithmetic::div_mod::{
    lemma_div_is_ordered, lemma_div_pos_is_pos, lemma_multiply_divide_lt,
};

/// Lacunarity of the auxiliary fBm that drives a turbulence warp: 2.
pub const TURBULENCE_LACUNARITY: i64 = 131072;

/// Persistence of the auxiliary fBm that drives a turbulence warp: 1/2.
pub const TURBULENCE_PERSISTENCE: i64 = 32768;

/// One node of the module graph.  Fields named `a`, `b`, `low`, `high`,
/// `control` and `child` are handles of earlier nodes; `table` indexes the
/// graph's control-point tables.
#[derive(Clone, Copy, Debug)]
pub enum Node {
    /// A fixed scalar.
    Constant { value: i64 },
    /// A fractal generator leaf (fBm, billow or ridged octaves).
    Fractal {
        kind: FractalKind,
        seed: i64,
        freq: i64,
        lacunarity: i64,
        persistence: i64,
        octaves: u32,
    },
    /// A Worley (cell) noise leaf.
    Cell { seed: i64, freq: i64 },
    /// Sum of two children.
    Add { a: usize, b: usize },
    /// Product of two children.
    Multiply { a: usize, b: usize },
    /// Smaller of two children.
    Min { a: usize, b: usize },
    /// Larger of two children.
    Max { a: usize, b: usize },
    /// Affine remap `child * scale + bias`.
    ScaleBias { child: usize, scale: i64, bias: i64 },
    /// Child value clamped into `[lo, hi]`.
    ClampNode { child: usize, lo: i64, hi: i64 },
    /// Power-curve remap by the exponent `num / 2^roots`.
    Exponent { child: usize, num: u32, roots: u32 },
    /// Piecewise-linear remap through `(input, output)` control points.
    Curve { child: usize, table: usize },
    /// Terracing remap through ascending control scalars.
    Terrace { child: usize, table: usize },
    /// `low` and `high` mixed by the control child's value.
    Blend { low: usize, high: usize, control: usize },
    /// Threshold switch with a smooth falloff band at each boundary.
    Select {
        low: usize,
        high: usize,
        control: usize,
        lower: i64,
        upper: i64,
        falloff: i64,
    },
    /// The child read at a coordinate displaced by three auxiliary fBm reads.
    Turbulence { child: usize, seed: i64, freq: i64, power: i64, roughness: u32 },
    /// Single-slot memo of the child's most recent evaluation.
    Cache { child: usize },
}

/// Well-formed curve table: at least four bounded points, inputs strictly
/// ascending.
pub open spec fn curve_points_wf(ps: Seq<(i64, i64)>) -> bool {
    &&& ps.len() >= 4
    &&& forall|j: int|
        0 <= j < ps.len() ==> bounded(#[trigger] ps[j].0 as int) && bounded(ps[j].1 as int)
    &&& forall|j: int| 0 <= j < ps.len() - 1 ==> #[trigger] ps[j].0 < ps[j + 1].0
}

/// Well-formed terrace table: at least two bounded scalars, strictly
/// ascending.
pub open spec fn terrace_points_wf(ps: Seq<i64>) -> bool {
    &&& ps.len() >= 2
    &&& forall|j: int| 0 <= j < ps.len() ==> bounded(#[trigger] ps[j] as int)
    &&& forall|j: int| 0 <= j < ps.len() - 1 ==> #[trigger] ps[j] < ps[j + 1]
}

/// Well-formedness of the node at index `i`: children strictly earlier,
/// parameters in the ranges the evaluator's arithmetic relies on.
pub open spec fn node_wf(
    ns: Seq<Node>,
    cs: Seq<Seq<(i64, i64)>>,
    ts: Seq<Seq<i64>>,
    i: int,
) -> bool {
    match ns[i] {
        Node::Constant { value } => bounded(value as int),
        Node::Fractal { kind, seed, freq, lacunarity, persistence, octaves } => {
            &&& bounded(seed as int)
            &&& 0 < freq
            &&& bounded(freq as int)
            &&& 0 < lacunarity
            &&& bounded(lacunarity as int)
            &&& 0 <= persistence <= ONE
            &&& 1 <= octaves <= 30
        },
        Node::Cell { seed, freq } => {
            &&& bounded(seed as int)
            &&& 0 < freq
            &&& bounded(freq as int)
        },
        Node::Add { a, b } => (a as int) < i && (b as int) < i,
        Node::Multiply { a, b } => (a as int) < i && (b as int) < i,
        Node::Min { a, b } => (a as int) < i && (b as int) < i,
        Node::Max { a, b } => (a as int) < i && (b as int) < i,
        Node::ScaleBias { child, scale, bias } => {
            &&& (child as int) < i
            &&& bounded(scale as int)
            &&& bounded(bias as int)
        },
        Node::ClampNode { child, lo, hi } => {
            &&& (child as int) < i
            &&& lo <= hi
            &&& bounded(lo as int)
            &&& bounded(hi as int)
        },
        Node::Exponent { child, num, roots } => {
            &&& (child as int) < i
            &&& 1 <= num <= 16
            &&& roots <= 4
        },
        Node::Curve { child, table } => {
            &&& (child as int) < i
            &&& (table as int) < cs.len()
            &&& curve_points_wf(cs[table as int])
        },
        Node::Terrace { child, table } => {
            &&& (child as int) < i
            &&& (table as int) < ts.len()
            &&& terrace_points_wf(ts[table as int])
        },
        Node::Blend { low, high, control } => {
            &&& (low as int) < i
            &&& (high as int) < i
            &&& (control as int) < i
        },
        Node::Select { low, high, control, lower, upper, falloff } => {
            &&& (low as int) < i
            &&& (high as int) < i
            &&& (control as int) < i
            &&& lower <= upper
            &&& 0 <= falloff
            &&& bounded(lower as int)
            &&& bounded(upper as int)
            &&& bounded(falloff as int)
        },
        Node::Turbulence { child, seed, freq, power, roughness } => {
            &&& (child as int) < i
            &&& -LIMIT <= seed
            &&& seed as int + 2 <= LIMIT
            &&& 0 < freq
            &&& bounded(freq as int)
            &&& bounded(power as int)
            &&& 1 <= roughness <= 30
        },
        Node::Cache { child } => (child as int) < i,
    }
}

/// Every node of the sequence is well formed.
pub open spec fn graph_wf(ns: Seq<Node>, cs: Seq<Seq<(i64, i64)>>, ts: Seq<Seq<i64>>) -> bool {
    forall|i: int| 0 <= i < ns.len() ==> node_wf(ns, cs, ts, i)
}

/// `u^n` on the unit interval, `ONE` standing for 1.
pub open spec fn upow_spec(u: int, n: nat) -> int
    decreases n,
{
    if n == 0 {
        ONE as int
    } else {
        mul_one_spec(upow_spec(u, (n - 1) as nat), u)
    }
}

/// Fixed-point square root of a unit-interval value.
pub open spec fn sqrt_unit_spec(w: int) -> int {
    if w <= 0 {
        0
    } else {
        sqrt_floor((w * (ONE as int)) as nat) as int
    }
}

/// `roots` successive square roots.
pub open spec fn root_iter_spec(w: int, roots: nat) -> int
    decreases roots,
{
    if roots == 0 {
        w
    } else {
        sqrt_unit_spec(root_iter_spec(w, (roots - 1) as nat))
    }
}

/// The power-curve remap with exponent `num / 2^roots`: the child value is
/// moved into `[0, ONE]`, raised to the exponent, and moved back.
pub open spec fn exponent_spec(v: int, num: nat, roots: nat) -> int {
    let u = clamp_spec(tdiv(v + ONE, 2), 0, ONE as int);
    2 * root_iter_spec(upow_spec(u, num), roots) - ONE
}

pub proof fn lemma_upow_range(u: int, n: nat)
    requires
        0 <= u <= ONE,
    ensures
        0 <= upow_spec(u, n) <= ONE,
    decreases n,
{
    if n > 0 {
        lemma_upow_range(u, (n - 1) as nat);
        lemma_scale_frac_bounds(upow_spec(u, (n - 1) as nat), u);
    }
}

pub proof fn lemma_sqrt_unit_range(w: int)
    requires
        0 <= w <= ONE,
    ensures
        0 <= sqrt_unit_spec(w) <= ONE,
{
    if w > 0 {
        let n = (w * (ONE as int)) as nat;
        lemma_sqrt_floor_bounds(n);
        let s = sqrt_floor(n);
        assert(s <= ONE) by (nonlinear_arith)
            requires
                s * s <= n,
                n <= (ONE as int) * (ONE as int),
                ONE == 65536,
        ;
    }
}

pub proof fn lemma_root_iter_range(w: int, roots: nat)
    requires
        0 <= w <= ONE,
    ensures
        0 <= root_iter_spec(w, roots) <= ONE,
    decreases roots,
{
    if roots > 0 {
        lemma_root_iter_range(w, (roots - 1) as nat);
        lemma_sqrt_unit_range(root_iter_spec(w, (roots - 1) as nat));
    }
}

pub proof fn lemma_exponent_range(v: int, num: nat, roots: nat)
    ensures
        -ONE <= exponent_spec(v, num, roots) <= ONE,
{
    let u = clamp_spec(tdiv(v + ONE, 2), 0, ONE as int);
    lemma_upow_range(u, num);
    lemma_root_iter_range(upow_spec(u, num), roots);
}

/// Apply the power-curve remap.
pub fn exponent_apply(v: i64, num: u32, roots: u32) -> (r: i64)
    requires
        bounded(v as int),
        1 <= num <= 16,
        roots <= 4,
    ensures
        r as int == exponent_spec(v as int, num as nat, roots as nat),
        -ONE <= r <= ONE,
{
    let u = iclamp(div_trunc(v + ONE, 2), 0, ONE);
    let mut w: i64 = ONE;
    let mut k: u32 = 0;
    while k < num
        invariant
            0 <= k <= num,
            0 <= u <= ONE,
            w as int == upow_spec(u as int, k as nat),
            0 <= w <= ONE,
        decreases num - k,
    {
        let w2 = mul_one(w, u);
        proof {
            lemma_scale_frac_bounds(w as int, u as int);
        }
        w = w2;
        k = k + 1;
    }
    let mut j: u32 = 0;
    while j < roots
        invariant
            0 <= j <= roots,
            0 <= u <= ONE,
            w as int == root_iter_spec(upow_spec(u as int, num as nat), j as nat),
            0 <= w <= ONE,
        decreases roots - j,
    {
        let w2 = if w <= 0 {
            0
        } else {
            let s = isqrt((w * ONE) as u64);
            proof {
                lemma_sqrt_unit_range(w as int);
            }
            s as i64
        };
        proof {
            lemma_sqrt_unit_range(w as int);
        }
        w = w2;
        j = j + 1;
    }
    2 * w - ONE
}

/// The index of the control-point pair bracketing `v`, searched from `k`.
pub open spec fn curve_find(ps: Seq<(i64, i64)>, v: int, k: nat) -> nat
    decreases ps.len() - k,
{
    if k + 2 >= ps.len() {
        k
    } else if v < ps[k as int + 1].0 {
        k
    } else {
        curve_find(ps, v, k + 1)
    }
}

/// The bracket found is in range and really brackets `v`.
pub proof fn lemma_curve_find_props(ps: Seq<(i64, i64)>, v: int, k: nat)
    requires
        curve_points_wf(ps),
        k + 2 <= ps.len(),
        ps[k as int].0 <= v,
        v < ps[ps.len() - 1].0,
    ensures
        k <= curve_find(ps, v, k),
        curve_find(ps, v, k) + 2 <= ps.len(),
        ps[curve_find(ps, v, k) as int].0 <= v,
        v < ps[curve_find(ps, v, k) as int + 1].0,
    decreases ps.len() - k,
{
    if k + 2 >= ps.len() {
    } else if v < ps[k as int + 1].0 {
    } else {
        lemma_curve_find_props(ps, v, k + 1);
    }
}

/// The piecewise-linear curve remap: flat beyond the end points, linear
/// interpolation between the bracketing control points inside.
pub open spec fn curve_apply_spec(ps: Seq<(i64, i64)>, v: int) -> int {
    if ps.len() == 0 {
        0
    } else if v <= ps[0].0 {
        ps[0].1 as int
    } else if v >= ps[ps.len() - 1].0 {
        ps[ps.len() - 1].1 as int
    } else {
        let k = curve_find(ps, v, 0) as int;
        let t = tdiv((v - ps[k].0) * (ONE as int), ps[k + 1].0 - ps[k].0);
        lerp_spec(ps[k].1 as int, ps[k + 1].1 as int, t)
    }
}

/// The in-bracket interpolation parameter lies in `[0, ONE)`.
proof fn lemma_bracket_param(x0: int, x1: int, v: int)
    requires
        x0 <= v < x1,
    ensures
        0 <= tdiv((v - x0) * (ONE as int), x1 - x0) < ONE,
{
    let d = x1 - x0;
    lemma_div_pos_is_pos((v - x0) * (ONE as int), d);
    assert((v - x0) * (ONE as int) < d * (ONE as int)) by (nonlinear_arith)
        requires
            0 <= v - x0 < d,
    ;
    lemma_multiply_divide_lt((v - x0) * (ONE as int), d, ONE as int);
}

/// Interpolate `v` through the bracketing pair of a curve table.
fn curve_interp(ps: &Vec<(i64, i64)>, k: usize, v: i64) -> (r: i64)
    requires
        curve_points_wf(ps@),
        k + 2 <= ps@.len(),
        ps@[k as int].0 <= v,
        (v as int) < ps@[k as int + 1].0 as int,
    ensures
        r as int == lerp_spec(
            ps@[k as int].1 as int,
            ps@[k as int + 1].1 as int,
            tdiv((v - ps@[k as int].0) * (ONE as int), ps@[k as int + 1].0 - ps@[k as int].0),
        ),
        bounded(r as int),
{
    let n = ps.len();
    assert(k + 2 <= n);
    let (x0, y0) = ps[k];
    let (x1, y1) = ps[k + 1];
    let num: u128 = ((v as i128 - x0 as i128) * 65536) as u128;
    let den: u128 = (x1 as i128 - x0 as i128) as u128;
    let q: u128 = num / den;
    proof {
        lemma_bracket_param(x0 as int, x1 as int, v as int);
    }
    let t = q as i64;
    let r = lerp(y0, y1, t);
    proof {
        lemma_lerp_between(y0 as int, y1 as int, t as int);
    }
    r
}

/// Find the bracketing pair by walking the table, then interpolate.
pub(crate) fn curve_apply(ps: &Vec<(i64, i64)>, v: i64) -> (r: i64)
    requires
        curve_points_wf(ps@),
        bounded(v as int),
    ensures
        r as int == curve_apply_spec(ps@, v as int),
        bounded(r as int),
{
    let n = ps.len();
    if v <= ps[0].0 {
        return ps[0].1;
    }
    if v >= ps[n - 1].0 {
        return ps[n - 1].1;
    }
    let mut k: usize = 0;
    while k + 2 < n && v >= ps[k + 1].0
        invariant
            curve_points_wf(ps@),
            n == ps@.len(),
            k + 2 <= n,
            ps@[k as int].0 <= v,
            (v as int) < ps@[n - 1].0 as int,
            curve_find(ps@, v as int, 0) == curve_find(ps@, v as int, k as nat),
        decreases n - k,
    {
        k = k + 1;
    }
    proof {
        lemma_curve_find_props(ps@, v as int, k as nat);
    }
    curve_interp(ps, k, v)
}

/// The index of the control-scalar pair bracketing `v`, searched from `k`.
pub open spec fn terrace_find(ps: Seq<i64>, v: int, k: nat) -> nat
    decreases ps.len() - k,
{
    if k + 2 >= ps.len() {
        k
    } else if v < ps[k as int + 1] {
        k
    } else {
        terrace_find(ps, v, k + 1)
    }
}

pub proof fn lemma_terrace_find_props(ps: Seq<i64>, v: int, k: nat)
    requires
        terrace_points_wf(ps),
        k + 2 <= ps.len(),
        ps[k as int] <= v,
        v < ps[ps.len() - 1],
    ensures
        k <= terrace_find(ps, v, k),
        terrace_find(ps, v, k) + 2 <= ps.len(),
        ps[terrace_find(ps, v, k) as int] <= v,
        v < ps[terrace_find(ps, v, k) as int + 1],
    decreases ps.len() - k,
{
    if k + 2 >= ps.len() {
    } else if v < ps[k as int + 1] {
    } else {
        lemma_terrace_find_props(ps, v, k + 1);
    }
}

/// The terracing remap: flat beyond the end points; inside a bracket the
/// interpolation parameter is squared, which flattens each step's base.
pub open spec fn terrace_apply_spec(ps: Seq<i64>, v: int) -> int {
    if ps.len() == 0 {
        0
    } else if v <= ps[0] {
        ps[0] as int
    } else if v >= ps[ps.len() - 1] {
        ps[ps.len() - 1] as int
    } else {
        let k = terrace_find(ps, v, 0) as int;
        let t = tdiv((v - ps[k]) * (ONE as int), ps[k + 1] - ps[k]);
        lerp_spec(ps[k] as int, ps[k + 1] as int, mul_one_spec(t, t))
    }
}

/// Find the bracketing scalars by walking the table, then remap.
pub(crate) fn terrace_apply(ps: &Vec<i64>, v: i64) -> (r: i64)
    requires
        terrace_points_wf(ps@),
        bounded(v as int),
    ensures
        r as int == terrace_apply_spec(ps@, v as int),
        bounded(r as int),
{
    let n = ps.len();
    if v <= ps[0] {
        return ps[0];
    }
    if v >= ps[n - 1] {
        return ps[n - 1];
    }
    let mut k: usize = 0;
    while k + 2 < n && v >= ps[k + 1]
        invariant
            terrace_points_wf(ps@),
            n == ps@.len(),
            k + 2 <= n,
            (ps@[k as int] as int) <= v as int,
            (v as int) < ps@[n - 1] as int,
            terrace_find(ps@, v as int, 0) == terrace_find(ps@, v as int, k as nat),
        decreases n - k,
    {
        k = k + 1;
    }
    proof {
        lemma_terrace_find_props(ps@, v as int, k as nat);
    }
    let x0 = ps[k];
    let x1 = ps[k + 1];
    let num: u128 = ((v as i128 - x0 as i128) * 65536) as u128;
    let den: u128 = (x1 as i128 - x0 as i128) as u128;
    let q: u128 = num / den;
    proof {
        lemma_bracket_param(x0 as int, x1 as int, v as int);
    }
    let t = q as i64;
    let t2 = mul_one(t, t);
    proof {
        lemma_scale_frac_bounds(t as int, t as int);
    }
    let r = lerp(x0, x1, t2);
    proof {
        lemma_lerp_between(x0 as int, x1 as int, t2 as int);
    }
    r
}

/// The blend combinator: `low` and `high` mixed by the control value moved
/// from `[-ONE, ONE]` into a `[0, ONE]` weight.
pub open spec fn blend_spec(low: int, high: int, control: int) -> int {
    let t = tdiv(clamp_spec(control, -ONE as int, ONE as int) + ONE, 2);
    lerp_spec(low, high, t)
}

pub(crate) fn blend_apply(low: i64, high: i64, control: i64) -> (r: i64)
    requires
        bounded(low as int),
        bounded(high as int),
        bounded(control as int),
    ensures
        r as int == blend_spec(low as int, high as int, control as int),
        bounded(r as int),
{
    let cc = iclamp(control, -ONE, ONE);
    let t = div_trunc(cc + ONE, 2);
    let r = lerp(low, high, t);
    proof {
        lemma_lerp_between(low as int, high as int, t as int);
    }
    r
}

/// The three-zone select combinator.  Outside `[lower - falloff,
/// upper + falloff]` the low child passes through; strictly inside the
/// bounds but beyond the falloff bands the high child passes through; in a
/// falloff band the two are mixed by a smoothstep of the distance into the
/// band.
pub open spec fn select_spec(
    low: int,
    high: int,
    control: int,
    lower: int,
    upper: int,
    falloff: int,
) -> int {
    if falloff > 0 {
        if control < lower - falloff {
            low
        } else if control < lower + falloff {
            let t = scurve3_spec(tdiv((control - (lower - falloff)) * (ONE as int), 2 * falloff));
            lerp_spec(low, high, t)
        } else if control < upper - falloff {
            high
        } else if control < upper + falloff {
            let t = scurve3_spec(tdiv((control - (upper - falloff)) * (ONE as int), 2 * falloff));
            lerp_spec(high, low, t)
        } else {
            low
        }
    } else {
        if lower <= control <= upper {
            high
        } else {
            low
        }
    }
}

/// The smoothstep parameter of a falloff band lies in `[0, ONE)`.
proof fn lemma_band_param(control: int, lo_edge: int, falloff: int)
    requires
        falloff > 0,
        lo_edge <= control,
        control < lo_edge + 2 * falloff,
    ensures
        0 <= tdiv((control - lo_edge) * (ONE as int), 2 * falloff) < ONE,
{
    lemma_bracket_param(lo_edge, lo_edge + 2 * falloff, control);
    assert(tdiv((control - lo_edge) * (ONE as int), (lo_edge + 2 * falloff) - lo_edge) == tdiv(
        (control - lo_edge) * (ONE as int),
        2 * falloff,
    ));
}

pub(crate) fn select_apply(low: i64, high: i64, control: i64, lower: i64, upper: i64, falloff: i64) -> (r:
    i64)
    requires
        bounded(low as int),
        bounded(high as int),
        bounded(control as int),
        bounded(lower as int),
        bounded(upper as int),
        0 <= falloff,
        bounded(falloff as int),
        lower <= upper,
    ensures
        r as int == select_spec(
            low as int,
            high as int,
            control as int,
            lower as int,
            upper as int,
            falloff as int,
        ),
        bounded(r as int),
{
    if falloff > 0 {
        let c: i128 = control as i128;
        if c < lower as i128 - falloff as i128 {
            low
        } else if c < lower as i128 + falloff as i128 {
            let edge: i128 = lower as i128 - falloff as i128;
            let num: u128 = ((c - edge) * 65536) as u128;
            let den: u128 = (2 * (falloff as i128)) as u128;
            let q: u128 = num / den;
            proof {
                lemma_band_param(control as int, edge as int, falloff as int);
            }
            let t = scurve3(q as i64);
            let r = lerp(low, high, t);
            proof {
                lemma_lerp_between(low as int, high as int, t as int);
            }
            r
        } else if c < upper as i128 - falloff as i128 {
            high
        } else if c < upper as i128 + falloff as i128 {
            let edge: i128 = upper as i128 - falloff as i128;
            let num: u128 = ((c - edge) * 65536) as u128;
            let den: u128 = (2 * (falloff as i128)) as u128;
            let q: u128 = num / den;
            proof {
                lemma_band_param(control as int, edge as int, falloff as int);
            }
            let t = scurve3(q as i64);
            let r = lerp(high, low, t);
            proof {
                lemma_lerp_between(high as int, low as int, t as int);
            }
            r
        } else {
            low
        }
    } else {
        if lower <= control && control <= upper {
            high
        } else {
            low
        }
    }
}

/// The warped coordinate a turbulence node hands to its child: each axis is
/// displaced by an independent fBm read scaled by `power`.
pub open spec fn turbulence_warp_spec(
    seed: int,
    freq: int,
    power: int,
    roughness: nat,
    x: int,
    y: int,
    z: int,
) -> (int, int, int) {
    let dx = clamp_spec(
        fractal_spec(
            FractalKind::Standard,
            seed,
            freq,
            TURBULENCE_LACUNARITY as int,
            TURBULENCE_PERSISTENCE as int,
            roughness,
            x,
            y,
            z,
        ),
        -ONE as int,
        ONE as int,
    );
    let dy = clamp_spec(
        fractal_spec(
            FractalKind::Standard,
            seed + 1,
            freq,
            TURBULENCE_LACUNARITY as int,
            TURBULENCE_PERSISTENCE as int,
            roughness,
            x,
            y,
            z,
        ),
        -ONE as int,
        ONE as int,
    );
    let dz = clamp_spec(
        fractal_spec(
            FractalKind::Standard,
            seed + 2,
            freq,
            TURBULENCE_LACUNARITY as int,
            TURBULENCE_PERSISTENCE as int,
            roughness,
            x,
            y,
            z,
        ),
        -ONE as int,
        ONE as int,
    );
    (
        sat_spec(x + mul_one_spec(dx, power)),
        sat_spec(y + mul_one_spec(dy, power)),
        sat_spec(z + mul_one_spec(dz, power)),
    )
}

/// Compute the warped coordinate of a turbulence node.
pub fn turbulence_warp(
    seed: i64,
    freq: i64,
    power: i64,
    roughness: u32,
    x: i64,
    y: i64,
    z: i64,
) -> (w: (i64, i64, i64))
    requires
        -LIMIT <= seed,
        seed as int + 2 <= LIMIT,
        bounded(freq as int),
        bounded(power as int),
        1 <= roughness <= 30,
        bounded(x as int),
        bounded(y as int),
        bounded(z as int),
    ensures
        (w.0 as int, w.1 as int, w.2 as int) == turbulence_warp_spec(
            seed as int,
            freq as int,
            power as int,
            roughness as nat,
            x as int,
            y as int,
            z as int,
        ),
        bounded(w.0 as int),
        bounded(w.1 as int),
        bounded(w.2 as int),
{
    let dx = fractal(
        FractalKind::Standard,
        seed,
        freq,
        TURBULENCE_LACUNARITY,
        TURBULENCE_PERSISTENCE,
        roughness,
        x,
        y,
        z,
    );
    let dy = fractal(
        FractalKind::Standard,
        seed + 1,
        freq,
        TURBULENCE_LACUNARITY,
        TURBULENCE_PERSISTENCE,
        roughness,
        x,
        y,
        z,
    );
    let dz = fractal(
        FractalKind::Standard,
        seed + 2,
        freq,
        TURBULENCE_LACUNARITY,
        TURBULENCE_PERSISTENCE,
        roughness,
        x,
        y,
        z,
    );
    let wx = add_sat(x, mul_one(dx, power));
    let wy = add_sat(y, mul_one(dy, power));
    let wz = add_sat(z, mul_one(dz, power));
    (wx, wy, wz)
}

/// A turbulence warp displaces each axis by at most the warp's `power`.
pub proof fn lemma_turbulence_displacement(
    seed: int,
    freq: int,
    power: int,
    roughness: nat,
    x: int,
    y: int,
    z: int,
)
    requires
        bounded(x),
        bounded(y),
        bounded(z),
        bounded(power),
    ensures
        iabs(turbulence_warp_spec(seed, freq, power, roughness, x, y, z).0 - x) <= iabs(power),
        iabs(turbulence_warp_spec(seed, freq, power, roughness, x, y, z).1 - y) <= iabs(power),
        iabs(turbulence_warp_spec(seed, freq, power, roughness, x, y, z).2 - z) <= iabs(power),
{
    let dx = clamp_spec(
        fractal_spec(
            FractalKind::Standard,
            seed,
            freq,
            TURBULENCE_LACUNARITY as int,
            TURBULENCE_PERSISTENCE as int,
            roughness,
            x,
            y,
            z,
        ),
        -ONE as int,
        ONE as int,
    );
    let dy = clamp_spec(
        fractal_spec(
            FractalKind::Standard,
            seed + 1,
            freq,
            TURBULENCE_LACUNARITY as int,
            TURBULENCE_PERSISTENCE as int,
            roughness,
            x,
            y,
            z,
        ),
        -ONE as int,
        ONE as int,
    );
    let dz = clamp_spec(
        fractal_spec(
            FractalKind::Standard,
            seed + 2,
            freq,
            TURBULENCE_LACUNARITY as int,
            TURBULENCE_PERSISTENCE as int,
            roughness,
            x,
            y,
            z,
        ),
        -ONE as int,
        ONE as int,
    );
    lemma_mul_one_unit_scale(dx, power);
    lemma_mul_one_unit_scale(dy, power);
    lemma_mul_one_unit_scale(dz, power);
    lemma_sat_step(x, mul_one_spec(dx, power), iabs(power));
    lemma_sat_step(y, mul_one_spec(dy, power), iabs(power));
    lemma_sat_step(z, mul_one_spec(dz, power), iabs(power));
}

/// The value of node `i` at `(x, y, z)`: the mathematical semantics of the
/// graph, independent of any cache state.
pub open spec fn eval_spec(
    ns: Seq<Node>,
    cs: Seq<Seq<(i64, i64)>>,
    ts: Seq<Seq<i64>>,
    i: int,
    x: int,
    y: int,
    z: int,
) -> int
    decreases i,
{
    if 0 <= i < ns.len() && node_wf(ns, cs, ts, i) {
        match ns[i] {
            Node::Constant { value } => value as int,
            Node::Fractal { kind, seed, freq, lacunarity, persistence, octaves } => clamp_spec(
                fractal_spec(
                    kind,
                    seed as int,
                    freq as int,
                    lacunarity as int,
                    persistence as int,
                    octaves as nat,
                    x,
                    y,
                    z,
                ),
                -ONE as int,
                ONE as int,
            ),
            Node::Cell { seed, freq } => clamp_spec(
                worley_spec(seed as int, freq as int, x, y, z),
                -ONE as int,
                ONE as int,
            ),
            Node::Add { a, b } => sat_spec(
                eval_spec(ns, cs, ts, a as int, x, y, z) + eval_spec(ns, cs, ts, b as int, x, y, z),
            ),
            Node::Multiply { a, b } => mul_one_spec(
                eval_spec(ns, cs, ts, a as int, x, y, z),
                eval_spec(ns, cs, ts, b as int, x, y, z),
            ),
            Node::Min { a, b } => min_spec(
                eval_spec(ns, cs, ts, a as int, x, y, z),
                eval_spec(ns, cs, ts, b as int, x, y, z),
            ),
            Node::Max { a, b } => max_spec(
                eval_spec(ns, cs, ts, a as int, x, y, z),
                eval_spec(ns, cs, ts, b as int, x, y, z),
            ),
            Node::ScaleBias { child, scale, bias } => sat_spec(
                mul_one_spec(eval_spec(ns, cs, ts, child as int, x, y, z), scale as int)
                    + bias as int,
            ),
            Node::ClampNode { child, lo, hi } => clamp_spec(
                eval_spec(ns, cs, ts, child as int, x, y, z),
                lo as int,
                hi as int,
            ),
            Node::Exponent { child, num, roots } => exponent_spec(
                eval_spec(ns, cs, ts, child as int, x, y, z),
                num as nat,
                roots as nat,
            ),
            Node::Curve { child, table } => curve_apply_spec(
                cs[table as int],
                eval_spec(ns, cs, ts, child as int, x, y, z),
            ),
            Node::Terrace { child, table } => terrace_apply_spec(
                ts[table as int],
                eval_spec(ns, cs, ts, child as int, x, y, z),
            ),
            Node::Blend { low, high, control } => blend_spec(
                eval_spec(ns, cs, ts, low as int, x, y, z),
                eval_spec(ns, cs, ts, high as int, x, y, z),
                eval_spec(ns, cs, ts, control as int, x, y, z),
            ),
            Node::Select { low, high, control, lower, upper, falloff } => select_spec(
                eval_spec(ns, cs, ts, low as int, x, y, z),
                eval_spec(ns, cs, ts, high as int, x, y, z),
                eval_spec(ns, cs, ts, control as int, x, y, z),
                lower as int,
                upper as int,
                falloff as int,
            ),
            Node::Turbulence { child, seed, freq, power, roughness } => {
                let w = turbulence_warp_spec(
                    seed as int,
                    freq as int,
                    power as int,
                    roughness as nat,
                    x,
                    y,
                    z,
                );
                eval_spec(ns, cs, ts, child as int, w.0, w.1, w.2)
            },
            Node::Cache { child } => eval_spec(ns, cs, ts, child as int, x, y, z),
        }
    } else {
        0
    }
}

/// Every node's value is a bounded scalar.
pub proof fn lemma_eval_bounded(
    ns: Seq<Node>,
    cs: Seq<Seq<(i64, i64)>>,
    ts: Seq<Seq<i64>>,
    i: int,
    x: int,
    y: int,
    z: int,
)
    ensures
        bounded(eval_spec(ns, cs, ts, i, x, y, z)),
    decreases i,
{
    if 0 <= i < ns.len() && node_wf(ns, cs, ts, i) {
        match ns[i] {
            Node::Constant { value } => {},
            Node::Fractal { .. } => {},
            Node::Cell { .. } => {},
            Node::Add { a, b } => {},
            Node::Multiply { a, b } => {},
            Node::Min { a, b } => {
                lemma_eval_bounded(ns, cs, ts, a as int, x, y, z);
                lemma_eval_bounded(ns, cs, ts, b as int, x, y, z);
            },
            Node::Max { a, b } => {
                lemma_eval_bounded(ns, cs, ts, a as int, x, y, z);
                lemma_eval_bounded(ns, cs, ts, b as int, x, y, z);
            },
            Node::ScaleBias { .. } => {},
            Node::ClampNode { child, lo, hi } => {},
            Node::Exponent { child, num, roots } => {
                lemma_exponent_range(
                    eval_spec(ns, cs, ts, child as int, x, y, z),
                    num as nat,
                    roots as nat,
                );
            },
            Node::Curve { child, table } => {
                lemma_curve_apply_bounded(
                    cs[table as int],
                    eval_spec(ns, cs, ts, child as int, x, y, z),
                );
            },
            Node::Terrace { child, table } => {
                lemma_terrace_apply_bounded(
                    ts[table as int],
                    eval_spec(ns, cs, ts, child as int, x, y, z),
                );
            },
            Node::Blend { low, high, control } => {
                lemma_eval_bounded(ns, cs, ts, low as int, x, y, z);
                lemma_eval_bounded(ns, cs, ts, high as int, x, y, z);
                lemma_eval_bounded(ns, cs, ts, control as int, x, y, z);
                let t = tdiv(
                    clamp_spec(
                        eval_spec(ns, cs, ts, control as int, x, y, z),
                        -ONE as int,
                        ONE as int,
                    ) + ONE,
                    2,
                );
                lemma_lerp_between(
                    eval_spec(ns, cs, ts, low as int, x, y, z),
                    eval_spec(ns, cs, ts, high as int, x, y, z),
                    t,
                );
            },
            Node::Select { low, high, control, lower, upper, falloff } => {
                lemma_eval_bounded(ns, cs, ts, low as int, x, y, z);
                lemma_eval_bounded(ns, cs, ts, high as int, x, y, z);
                lemma_eval_bounded(ns, cs, ts, control as int, x, y, z);
                lemma_select_bounded(
                    eval_spec(ns, cs, ts, low as int, x, y, z),
                    eval_spec(ns, cs, ts, high as int, x, y, z),
                    eval_spec(ns, cs, ts, control as int, x, y, z),
                    lower as int,
                    upper as int,
                    falloff as int,
                );
            },
            Node::Turbulence { child, seed, freq, power, roughness } => {
                let w = turbulence_warp_spec(
                    seed as int,
                    freq as int,
                    power as int,
                    roughness as nat,
                    x,
                    y,
                    z,
                );
                lemma_eval_bounded(ns, cs, ts, child as int, w.0, w.1, w.2);
            },
            Node::Cache { child } => {
                lemma_eval_bounded(ns, cs, ts, child as int, x, y, z);
            },
        }
    }
}

/// A curve's output interpolates bounded control outputs, so it is bounded.
pub proof fn lemma_curve_apply_bounded(ps: Seq<(i64, i64)>, v: int)
    requires
        curve_points_wf(ps),
    ensures
        bounded(curve_apply_spec(ps, v)),
{
    if v <= ps[0].0 {
    } else if v >= ps[ps.len() - 1].0 {
    } else {
        lemma_curve_find_props(ps, v, 0);
        let k = curve_find(ps, v, 0) as int;
        let t = tdiv((v - ps[k].0) * (ONE as int), ps[k + 1].0 - ps[k].0);
        lemma_bracket_param(ps[k].0 as int, ps[k + 1].0 as int, v);
        lemma_lerp_between(ps[k].1 as int, ps[k + 1].1 as int, t);
    }
}

/// A terrace's output interpolates bounded control scalars, so it is bounded.
pub proof fn lemma_terrace_apply_bounded(ps: Seq<i64>, v: int)
    requires
        terrace_points_wf(ps),
    ensures
        bounded(terrace_apply_spec(ps, v)),
{
    if v <= ps[0] {
    } else if v >= ps[ps.len() - 1] {
    } else {
        lemma_terrace_find_props(ps, v, 0);
        let k = terrace_find(ps, v, 0) as int;
        let t = tdiv((v - ps[k]) * (ONE as int), ps[k + 1] - ps[k]);
        lemma_bracket_param(ps[k] as int, ps[k + 1] as int, v);
        lemma_scale_frac_bounds(t, t);
        lemma_lerp_between(ps[k] as int, ps[k + 1] as int, mul_one_spec(t, t));
    }
}

/// A select's output is one of its children or an interpolant of them.
pub proof fn lemma_select_bounded(
    low: int,
    high: int,
    control: int,
    lower: int,
    upper: int,
    falloff: int,
)
    requires
        bounded(low),
        bounded(high),
        falloff >= 0,
    ensures
        bounded(select_spec(low, high, control, lower, upper, falloff)),
{
    if falloff > 0 {
        if control < lower - falloff {
        } else if control < lower + falloff {
            let t = scurve3_spec(tdiv((control - (lower - falloff)) * (ONE as int), 2 * falloff));
            lemma_band_param(control, lower - falloff, falloff);
            lemma_scurve3_range(tdiv((control - (lower - falloff)) * (ONE as int), 2 * falloff));
            lemma_lerp_between(low, high, t);
        } else if control < upper - falloff {
        } else if control < upper + falloff {
            let t = scurve3_spec(tdiv((control - (upper - falloff)) * (ONE as int), 2 * falloff));
            lemma_band_param(control, upper - falloff, falloff);
            lemma_scurve3_range(tdiv((control - (upper - falloff)) * (ONE as int), 2 * falloff));
            lemma_lerp_between(high, low, t);
        } else {
        }
    }
}

/// A node's value does not change when nodes or tables are appended after
/// it: evaluation reads only the prefix up to the node itself.
pub proof fn lemma_eval_frame(
    ns1: Seq<Node>,
    cs1: Seq<Seq<(i64, i64)>>,
    ts1: Seq<Seq<i64>>,
    ns2: Seq<Node>,
    cs2: Seq<Seq<(i64, i64)>>,
    ts2: Seq<Seq<i64>>,
    i: int,
    x: int,
    y: int,
    z: int,
)
    requires
        0 <= i < ns1.len(),
        graph_wf(ns1, cs1, ts1),
        ns1.len() <= ns2.len(),
        forall|j: int| 0 <= j <= i ==> ns2[j] == ns1[j],
        cs1.len() <= cs2.len(),
        forall|t: int| 0 <= t < cs1.len() ==> cs2[t] == cs1[t],
        ts1.len() <= ts2.len(),
        forall|t: int| 0 <= t < ts1.len() ==> ts2[t] == ts1[t],
    ensures
        eval_spec(ns2, cs2, ts2, i, x, y, z) == eval_spec(ns1, cs1, ts1, i, x, y, z),
    decreases i,
{
    assert(node_wf(ns1, cs1, ts1, i));
    assert(ns2[i] == ns1[i]);
    assert(node_wf(ns2, cs2, ts2, i));
    match ns1[i] {
        Node::Constant { .. } => {},
        Node::Fractal { .. } => {},
        Node::Cell { .. } => {},
        Node::Add { a, b } => {
            lemma_eval_frame(ns1, cs1, ts1, ns2, cs2, ts2, a as int, x, y, z);
            lemma_eval_frame(ns1, cs1, ts1, ns2, cs2, ts2, b as int, x, y, z);
        },
        Node::Multiply { a, b } => {
            lemma_eval_frame(ns1, cs1, ts1, ns2, cs2, ts2, a as int, x, y, z);
            lemma_eval_frame(ns1, cs1, ts1, ns2, cs2, ts2, b as int, x, y, z);
        },
        Node::Min { a, b } => {
            lemma_eval_frame(ns1, cs1, ts1, ns2, cs2, ts2, a as int, x, y, z);
            lemma_eval_frame(ns1, cs1, ts1, ns2, cs2, ts2, b as int, x, y, z);
        },
        Node::Max { a, b } => {
            lemma_eval_frame(ns1, cs1, ts1, ns2, cs2, ts2, a as int, x, y, z);
            lemma_eval_frame(ns1, cs1, ts1, ns2, cs2, ts2, b as int, x, y, z);
        },
        Node::ScaleBias { child, .. } => {
            lemma_eval_frame(ns1, cs1, ts1, ns2, cs2, ts2, child as int, x, y, z);
        },
        Node::ClampNode { child, .. } => {
            lemma_eval_frame(ns1, cs1, ts1, ns2, cs2, ts2, child as int, x, y, z);
        },
        Node::Exponent { child, .. } => {
            lemma_eval_frame(ns1, cs1, ts1, ns2, cs2, ts2, child as int, x, y, z);
        },
        Node::Curve { child, table } => {
            lemma_eval_frame(ns1, cs1, ts1, ns2, cs2, ts2, child as int, x, y, z);
        },
        Node::Terrace { child, table } => {
            lemma_eval_frame(ns1, cs1, ts1, ns2, cs2, ts2, child as int, x, y, z);
        },
        Node::Blend { low, high, control } => {
            lemma_eval_frame(ns1, cs1, ts1, ns2, cs2, ts2, low as int, x, y, z);
            lemma_eval_frame(ns1, cs1, ts1, ns2, cs2, ts2, high as int, x, y, z);
            lemma_eval_frame(ns1, cs1, ts1, ns2, cs2, ts2, control as int, x, y, z);
        },
        Node::Select { low, high, control, .. } => {
            lemma_eval_frame(ns1, cs1, ts1, ns2, cs2, ts2, low as int, x, y, z);
            lemma_eval_frame(ns1, cs1, ts1, ns2, cs2, ts2, high as int, x, y, z);
            lemma_eval_frame(ns1, cs1, ts1, ns2, cs2, ts2, control as int, x, y, z);
        },
        Node::Turbulence { child, seed, freq, power, roughness } => {
            let w = turbulence_warp_spec(
                seed as int,
                freq as int,
                power as int,
                roughness as nat,
                x,
                y,
                z,
            );
            lemma_eval_frame(ns1, cs1, ts1, ns2, cs2, ts2, child as int, w.0, w.1, w.2);
        },
        Node::Cache { child } => {
            lemma_eval_frame(ns1, cs1, ts1, ns2, cs2, ts2, child as int, x, y, z);
        },
    }
}

/// Strict ascent of consecutive curve inputs carries over any distance.
pub proof fn lemma_curve_ascending(ps: Seq<(i64, i64)>, i: int, j: int)
    requires
        curve_points_wf(ps),
        0 <= i < j < ps.len(),
    ensures
        ps[i].0 < ps[j].0,
    decreases j - i,
{
    if i + 1 < j {
        lemma_curve_ascending(ps, i + 1, j);
    }
}

/// The bracket search run at one of the control inputs stops exactly there.
proof fn lemma_curve_find_exact(ps: Seq<(i64, i64)>, k: int, j: nat)
    requires
        curve_points_wf(ps),
        0 < k < ps.len() - 1,
        j <= k,
    ensures
        curve_find(ps, ps[k].0 as int, j) == k,
    decreases ps.len() - j,
{
    if j + 2 >= ps.len() {
        assert(j == k);
    } else if (ps[k].0 as int) < ps[j as int + 1].0 {
        if (j as int) < k {
            lemma_curve_ascending(ps, j as int + 1, k);
            assert(false);
        }
    } else {
        if j as int == k {
            assert(ps[k].0 < ps[k + 1].0);
            assert(false);
        }
        lemma_curve_find_exact(ps, k, j + 1);
    }
}

/// At each control point's input the curve returns that point's output
/// exactly.
pub proof fn lemma_curve_control_points(ps: Seq<(i64, i64)>, k: int)
    requires
        curve_points_wf(ps),
        0 <= k < ps.len(),
    ensures
        curve_apply_spec(ps, ps[k].0 as int) == ps[k].1 as int,
{
    let v = ps[k].0 as int;
    if k == 0 {
    } else if v >= ps[ps.len() - 1].0 {
        if k < ps.len() - 1 {
            lemma_curve_ascending(ps, k, ps.len() - 1);
        }
        if (ps.len() - 1) as int > 0 {
            lemma_curve_ascending(ps, 0, ps.len() - 1);
        }
        assert(ps[ps.len() - 1].1 == ps[k].1);
    } else {
        lemma_curve_ascending(ps, 0, k);
        lemma_curve_find_exact(ps, k, 0);
        let t = tdiv((v - ps[k].0) * (ONE as int), ps[k + 1].0 - ps[k].0);
        assert((v - ps[k].0) * (ONE as int) == 0) by (nonlinear_arith)
            requires
                v == ps[k].0 as int,
        ;
        assert(t == 0);
        assert((ps[k + 1].1 - ps[k].1) * 0 == 0) by (nonlinear_arith);
        assert(lerp_spec(ps[k].1 as int, ps[k + 1].1 as int, 0) == ps[k].1 as int);
    }
}

/// Below the lower falloff band the select returns its low child exactly.
pub proof fn lemma_select_low_zone(
    low: int,
    high: int,
    control: int,
    lower: int,
    upper: int,
    falloff: int,
)
    requires
        falloff > 0,
        control < lower - falloff,
    ensures
        select_spec(low, high, control, lower, upper, falloff) == low,
{
}

/// Above the upper falloff band the select returns its low child exactly.
pub proof fn lemma_select_low_zone_above(
    low: int,
    high: int,
    control: int,
    lower: int,
    upper: int,
    falloff: int,
)
    requires
        falloff > 0,
        lower <= upper,
        control >= upper + falloff,
    ensures
        select_spec(low, high, control, lower, upper, falloff) == low,
{
}

/// Strictly inside the bounds, beyond both falloff bands, the select
/// returns its high child exactly.
pub proof fn lemma_select_high_zone(
    low: int,
    high: int,
    control: int,
    lower: int,
    upper: int,
    falloff: int,
)
    requires
        falloff > 0,
        lower + falloff <= control,
        control < upper - falloff,
    ensures
        select_spec(low, high, control, lower, upper, falloff) == high,
{
}

/// Inside a falloff band the select stays between its two children.
pub proof fn lemma_select_band_between(
    low: int,
    high: int,
    control: int,
    lower: int,
    upper: int,
    falloff: int,
)
    requires
        falloff > 0,
        bounded(low),
        bounded(high),
        lower - falloff <= control < lower + falloff,
    ensures
        min_spec(low, high) <= select_spec(low, high, control, lower, upper, falloff) <= max_spec(
            low,
            high,
        ),
{
    if control < lower + falloff {
        let t = scurve3_spec(tdiv((control - (lower - falloff)) * (ONE as int), 2 * falloff));
        lemma_band_param(control, lower - falloff, falloff);
        lemma_scurve3_range(tdiv((control - (lower - falloff)) * (ONE as int), 2 * falloff));
        lemma_lerp_between(low, high, t);
    }
}

/// In the middle half of the lower falloff band, with the two children at
/// least two whole units apart, the select's output is strictly between
/// them: the mix is genuinely partial there, not a disguised pass-through.
/// (Closer to the band's edges, or with nearly equal children, fixed-point
/// rounding can make the mix land exactly on a child.)
pub proof fn lemma_select_band_strict(
    low: int,
    high: int,
    control: int,
    lower: int,
    upper: int,
    falloff: int,
)
    requires
        falloff > 0,
        bounded(low),
        bounded(high),
        high - low >= 2 * ONE,
        2 * lower - falloff <= 2 * control,
        2 * control < 2 * lower + falloff,
        lower + falloff <= upper,
    ensures
        low < select_spec(low, high, control, lower, upper, falloff) < high,
{
    let d = 2 * falloff;
    let nn = (control - (lower - falloff)) * (ONE as int);
    let t = tdiv(nn, d);
    assert(control < lower + falloff);
    assert(lower - falloff <= control);
    assert(nn >= d * 16384 && nn < d * 49152) by (nonlinear_arith)
        requires
            nn == (control - (lower - falloff)) * (ONE as int),
            2 * lower - falloff <= 2 * control,
            2 * control < 2 * lower + falloff,
            falloff > 0,
            d == 2 * falloff,
            ONE == 65536,
    ;
    assert(t >= 16384) by {
        lemma_div_is_ordered(d * 16384, nn, d);
        vstd::arithmetic::div_mod::lemma_div_multiples_vanish(16384, d);
    }
    assert(t < 49152) by {
        lemma_multiply_divide_lt(nn, d, 49152);
    }
    let sig = scurve3_spec(t);
    lemma_scurve3_range(t);
    assert(t * t * (3 * ONE - 2 * t) >= (ONE as int) * (ONE as int)) by (nonlinear_arith)
        requires
            16384 <= t <= (ONE as int),
            ONE == 65536,
    ;
    assert(sig >= 1) by {
        lemma_div_is_ordered(
            (ONE as int) * (ONE as int),
            t * t * (3 * ONE - 2 * t),
            (ONE * ONE) as int,
        );
        vstd::arithmetic::div_mod::lemma_div_by_self((ONE * ONE) as int);
    }
    assert(t * t * (3 * ONE - 2 * t) <= (ONE as int) * (ONE as int) * 65535) by (nonlinear_arith)
        requires
            0 <= t < 49152,
            ONE == 65536,
    ;
    assert(sig <= 65535) by {
        lemma_div_is_ordered(
            t * t * (3 * ONE - 2 * t),
            (ONE as int) * (ONE as int) * 65535,
            (ONE * ONE) as int,
        );
        vstd::arithmetic::div_mod::lemma_div_multiples_vanish(65535, (ONE * ONE) as int);
        assert((ONE as int) * (ONE as int) * 65535 == ((ONE * ONE) as int) * 65535)
            by (nonlinear_arith);
    }
    let dd = high - low;
    let step = tdiv(dd * sig, ONE as int);
    assert(dd * sig >= (ONE as int) * 1 && dd * sig <= dd * 65535) by (nonlinear_arith)
        requires
            dd >= 2 * (ONE as int),
            1 <= sig <= 65535,
            ONE == 65536,
    ;
    assert(step >= 1) by {
        lemma_div_is_ordered(ONE as int, dd * sig, ONE as int);
        vstd::arithmetic::div_mod::lemma_div_by_self(ONE as int);
    }
    assert(step <= dd - 1) by {
        assert(dd * 65535 <= (dd - 1) * (ONE as int)) by (nonlinear_arith)
            requires
                dd >= 2 * (ONE as int),
                ONE == 65536,
        ;
        lemma_div_is_ordered(dd * sig, (dd - 1) * (ONE as int), ONE as int);
        vstd::arithmetic::div_mod::lemma_div_multiples_vanish(dd - 1, ONE as int);
        assert((dd - 1) * (ONE as int) == (ONE as int) * (dd - 1)) by (nonlinear_arith);
    }
    assert(select_spec(low, high, control, lower, upper, falloff) == lerp_spec(low, high, sig));
}

/// The smoothstep maps `[0, ONE]` into `[0, ONE]`.
pub proof fn lemma_scurve3_range(t: int)
    requires
        0 <= t <= ONE,
    ensures
        0 <= scurve3_spec(t) <= ONE,
{
    assert(0 <= t * t * (3 * ONE - 2 * t) <= (ONE as int) * (ONE as int) * (ONE as int))
        by (nonlinear_arith)
        requires
            0 <= t <= (ONE as int),
            ONE == 65536,
    ;
    lemma_div_pos_is_pos(t * t * (3 * ONE - 2 * t), (ONE * ONE) as int);
    lemma_div_is_ordered(
        t * t * (3 * ONE - 2 * t),
        (ONE as int) * (ONE as int) * (ONE as int),
        (ONE * ONE) as int,
    );
    assert((ONE as int) * (ONE as int) * (ONE as int) / ((ONE * ONE) as int) == ONE as int);
}

} // verus!
