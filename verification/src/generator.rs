//! Primitive seeded noise generators: fractal sums over the lattice noise
//! (plain fractional Brownian motion, billow, ridged multifractal) and
//! cell/feature-point (Worley) noise.
//!
//! Every generator is a pure function of its parameters and the coordinate,
//! normalized so that the result stays inside the nominal `[-ONE, ONE]`
//! range, which is proved as part of each contract.

use vstd::prelude::*;

verus! {

use crate::fixed::{
    bounded, clamp_spec, iabs, iclamp, imin, lemma_scale_frac_bounds, min_spec, mul_div,
    mul_div_spec, mul_one, mul_one_spec, LIMIT, ONE,
};
use crate::noise::{feature_offset, feature_offset_spec, lattice_noise, lattice_noise_spec};
use vstd::arithmetic::div_mod::{
    lemma_div_is_ordered, lemma_div_multiples_vanish, lemma_div_pos_is_pos,
};

/// How one octave of lattice noise is shaped before it joins the sum.
#[derive(Clone, Copy, Debug, PartialEq, Eq, Structural)]
pub enum FractalKind {
    /// Plain fractional Brownian motion: the octave joins as it is.
    Standard,
    /// Rounded bumps: `2 * |n| - 1`.
    Billow,
    /// Sharp ridges: `2 * ((1 - |n|)^2) - 1`.
    Ridged,
}

/// The per-octave shaping transform, on a value in `[-ONE, ONE]`.
pub open spec fn octave_transform_spec(kind: FractalKind, n: int) -> int {
    match kind {
        FractalKind::Standard => n,
        FractalKind::Billow => 2 * iabs(n) - ONE,
        FractalKind::Ridged => 2 * mul_one_spec(ONE - iabs(n), ONE - iabs(n)) - ONE,
    }
}

/// Frequency of octave `n`: the base frequency raised by `lacunarity` per octave.
pub open spec fn fractal_freq(freq: int, lac: int, n: nat) -> int
    decreases n,
{
    if n == 0 {
        freq
    } else {
        mul_one_spec(fractal_freq(freq, lac, (n - 1) as nat), lac)
    }
}

/// Amplitude of octave `n`: unity lowered by `persistence` per octave.
pub open spec fn fractal_amp(pers: int, n: nat) -> int
    decreases n,
{
    if n == 0 {
        ONE as int
    } else {
        mul_one_spec(fractal_amp(pers, (n - 1) as nat), pers)
    }
}

/// The shaped noise of octave `n`, read at the coordinate scaled by the
/// octave's frequency, under the octave's own seed.
pub open spec fn octave_value(
    kind: FractalKind,
    seed: int,
    freq: int,
    lac: int,
    x: int,
    y: int,
    z: int,
    n: nat,
) -> int {
    let f = fractal_freq(freq, lac, n);
    octave_transform_spec(
        kind,
        lattice_noise_spec(seed + n, mul_one_spec(x, f), mul_one_spec(y, f), mul_one_spec(z, f)),
    )
}

/// Amplitude-weighted sum of the first `n` octaves.
pub open spec fn fractal_sum(
    kind: FractalKind,
    seed: int,
    freq: int,
    lac: int,
    pers: int,
    x: int,
    y: int,
    z: int,
    n: nat,
) -> int
    decreases n,
{
    if n == 0 {
        0
    } else {
        let j = (n - 1) as nat;
        fractal_sum(kind, seed, freq, lac, pers, x, y, z, j) + mul_one_spec(
            octave_value(kind, seed, freq, lac, x, y, z, j),
            fractal_amp(pers, j),
        )
    }
}

/// Sum of the first `n` octave amplitudes: the normalization divisor.
pub open spec fn fractal_norm(pers: int, n: nat) -> int
    decreases n,
{
    if n == 0 {
        0
    } else {
        fractal_norm(pers, (n - 1) as nat) + fractal_amp(pers, (n - 1) as nat)
    }
}

/// A fractal generator's value: the weighted octave sum, normalized back
/// into the unit range by the total amplitude.
pub open spec fn fractal_spec(
    kind: FractalKind,
    seed: int,
    freq: int,
    lac: int,
    pers: int,
    octaves: nat,
    x: int,
    y: int,
    z: int,
) -> int {
    mul_div_spec(
        fractal_sum(kind, seed, freq, lac, pers, x, y, z, octaves),
        ONE as int,
        fractal_norm(pers, octaves),
    )
}

/// The shaping transform keeps the unit range.
proof fn lemma_octave_transform_bounds(kind: FractalKind, n: int)
    requires
        -ONE <= n <= ONE,
    ensures
        -ONE <= octave_transform_spec(kind, n) <= ONE,
{
    let a = iabs(n);
    match kind {
        FractalKind::Standard => {},
        FractalKind::Billow => {},
        FractalKind::Ridged => {
            lemma_scale_frac_bounds(ONE - a, ONE - a);
        },
    }
}

/// Scaling a unit-range value by a nonnegative amplitude stays within the
/// amplitude.
proof fn lemma_mul_one_abs_le(v: int, a: int)
    requires
        -ONE <= v <= ONE,
        0 <= a <= ONE,
    ensures
        -a <= mul_one_spec(v, a) <= a,
{
    if v >= 0 {
        lemma_scale_frac_bounds(a, v);
        assert(v * a == a * v) by (nonlinear_arith);
    } else {
        lemma_scale_frac_bounds(a, -v);
        assert(v * a == -(a * (-v))) by (nonlinear_arith);
    }
}

/// A sum within `[-norm, norm]`, divided through by `norm`, is in the unit
/// range.
proof fn lemma_normalized_bounds(sum: int, norm: int)
    requires
        iabs(sum) <= norm,
        1 <= norm <= LIMIT,
    ensures
        -ONE <= mul_div_spec(sum, ONE as int, norm) <= ONE,
{
    lemma_div_multiples_vanish(ONE as int, norm);
    if sum >= 0 {
        lemma_div_pos_is_pos(sum * (ONE as int), norm);
        assert(sum * (ONE as int) <= norm * (ONE as int));
        lemma_div_is_ordered(sum * (ONE as int), norm * (ONE as int), norm);
    } else {
        lemma_div_pos_is_pos((-sum) * (ONE as int), norm);
        assert((-sum) * (ONE as int) <= norm * (ONE as int));
        lemma_div_is_ordered((-sum) * (ONE as int), norm * (ONE as int), norm);
    }
}

fn octave_transform(kind: FractalKind, n: i64) -> (r: i64)
    requires
        -ONE <= n <= ONE,
    ensures
        r as int == octave_transform_spec(kind, n as int),
        -ONE <= r <= ONE,
{
    proof {
        lemma_octave_transform_bounds(kind, n as int);
    }
    match kind {
        FractalKind::Standard => n,
        FractalKind::Billow => {
            let a = if n < 0 {
                -n
            } else {
                n
            };
            2 * a - ONE
        },
        FractalKind::Ridged => {
            let a = if n < 0 {
                -n
            } else {
                n
            };
            let d = ONE - a;
            let sq = mul_one(d, d);
            proof {
                lemma_scale_frac_bounds(d as int, d as int);
            }
            2 * sq - ONE
        },
    }
}

/// Evaluate a fractal generator.
pub fn fractal(
    kind: FractalKind,
    seed: i64,
    freq: i64,
    lac: i64,
    pers: i64,
    octaves: u32,
    x: i64,
    y: i64,
    z: i64,
) -> (r: i64)
    requires
        bounded(seed as int),
        bounded(freq as int),
        bounded(lac as int),
        0 <= pers <= ONE,
        1 <= octaves <= 30,
        bounded(x as int),
        bounded(y as int),
        bounded(z as int),
    ensures
        r as int == fractal_spec(
            kind,
            seed as int,
            freq as int,
            lac as int,
            pers as int,
            octaves as nat,
            x as int,
            y as int,
            z as int,
        ),
        -ONE <= r <= ONE,
{
    let mut i: u32 = 0;
    let mut f: i64 = freq;
    let mut amp: i64 = ONE;
    let mut sum: i64 = 0;
    let mut norm: i64 = 0;
    while i < octaves
        invariant
            0 <= i <= octaves,
            octaves <= 30,
            bounded(seed as int),
            bounded(freq as int),
            bounded(lac as int),
            0 <= pers <= ONE,
            bounded(x as int),
            bounded(y as int),
            bounded(z as int),
            bounded(f as int),
            f as int == fractal_freq(freq as int, lac as int, i as nat),
            0 <= amp <= ONE,
            amp as int == fractal_amp(pers as int, i as nat),
            sum as int == fractal_sum(
                kind,
                seed as int,
                freq as int,
                lac as int,
                pers as int,
                x as int,
                y as int,
                z as int,
                i as nat,
            ),
            norm as int == fractal_norm(pers as int, i as nat),
            0 <= norm,
            norm <= i * ONE,
            iabs(sum as int) <= norm as int,
            i >= 1 ==> norm >= ONE,
        decreases octaves - i,
    {
        let sseed: i64 = seed + (i as i64);
        let sx = mul_one(x, f);
        let sy = mul_one(y, f);
        let sz = mul_one(z, f);
        let n = lattice_noise(sseed, sx, sy, sz);
        let t = octave_transform(kind, n);
        let term = mul_one(t, amp);
        proof {
            lemma_mul_one_abs_le(t as int, amp as int);
        }
        sum = sum + term;
        norm = norm + amp;
        f = mul_one(f, lac);
        let new_amp = mul_one(amp, pers);
        proof {
            lemma_scale_frac_bounds(amp as int, pers as int);
        }
        amp = new_amp;
        i = i + 1;
    }
    proof {
        lemma_normalized_bounds(sum as int, norm as int);
    }
    mul_div(sum, ONE, norm)
}

/// Fractional Brownian motion: `octaves` summed layers of lattice noise.
pub fn fbm(seed: i64, freq: i64, lac: i64, pers: i64, octaves: u32, x: i64, y: i64, z: i64) -> (r:
    i64)
    requires
        bounded(seed as int),
        bounded(freq as int),
        bounded(lac as int),
        0 <= pers <= ONE,
        1 <= octaves <= 30,
        bounded(x as int),
        bounded(y as int),
        bounded(z as int),
    ensures
        r as int == fractal_spec(
            FractalKind::Standard,
            seed as int,
            freq as int,
            lac as int,
            pers as int,
            octaves as nat,
            x as int,
            y as int,
            z as int,
        ),
        -ONE <= r <= ONE,
{
    fractal(FractalKind::Standard, seed, freq, lac, pers, octaves, x, y, z)
}

/// Billow noise: fBm whose octaves are folded into rounded bumps.
pub fn billow(seed: i64, freq: i64, lac: i64, pers: i64, octaves: u32, x: i64, y: i64, z: i64) -> (
    r: i64)
    requires
        bounded(seed as int),
        bounded(freq as int),
        bounded(lac as int),
        0 <= pers <= ONE,
        1 <= octaves <= 30,
        bounded(x as int),
        bounded(y as int),
        bounded(z as int),
    ensures
        r as int == fractal_spec(
            FractalKind::Billow,
            seed as int,
            freq as int,
            lac as int,
            pers as int,
            octaves as nat,
            x as int,
            y as int,
            z as int,
        ),
        -ONE <= r <= ONE,
{
    fractal(FractalKind::Billow, seed, freq, lac, pers, octaves, x, y, z)
}

/// Ridged multifractal noise: fBm whose octaves emphasize sharp ridgelines.
pub fn ridged(seed: i64, freq: i64, lac: i64, octaves: u32, x: i64, y: i64, z: i64) -> (r: i64)
    requires
        bounded(seed as int),
        bounded(freq as int),
        bounded(lac as int),
        1 <= octaves <= 30,
        bounded(x as int),
        bounded(y as int),
        bounded(z as int),
    ensures
        r as int == fractal_spec(
            FractalKind::Ridged,
            seed as int,
            freq as int,
            lac as int,
            (ONE / 2) as int,
            octaves as nat,
            x as int,
            y as int,
            z as int,
        ),
        -ONE <= r <= ONE,
{
    fractal(FractalKind::Ridged, seed, freq, lac, ONE / 2, octaves, x, y, z)
}

/// Squared distance (in fixed-point units) from the in-cell query position
/// to the feature point of the neighboring cell displaced by `(dx, dy, dz)`.
pub open spec fn worley_cell_dist2(
    seed: int,
    xi: int,
    yi: int,
    zi: int,
    dx: int,
    dy: int,
    dz: int,
    fx: int,
    fy: int,
    fz: int,
) -> int {
    let ox = feature_offset_spec(seed, 0, xi + dx, yi + dy, zi + dz);
    let oy = feature_offset_spec(seed, 1, xi + dx, yi + dy, zi + dz);
    let oz = feature_offset_spec(seed, 2, xi + dx, yi + dy, zi + dz);
    let ddx = dx * ONE + ox - fx;
    let ddy = dy * ONE + oy - fy;
    let ddz = dz * ONE + oz - fz;
    mul_one_spec(ddx, ddx) + mul_one_spec(ddy, ddy) + mul_one_spec(ddz, ddz)
}

/// Least squared feature distance over the first `k` of the 27 neighboring
/// cells, seeded with a bound no real distance reaches.
pub open spec fn worley_best(
    seed: int,
    xi: int,
    yi: int,
    zi: int,
    fx: int,
    fy: int,
    fz: int,
    k: nat,
) -> int
    decreases k,
{
    if k == 0 {
        13 * ONE
    } else {
        let j = (k - 1) as int;
        min_spec(
            worley_best(seed, xi, yi, zi, fx, fy, fz, (k - 1) as nat),
            worley_cell_dist2(
                seed,
                xi,
                yi,
                zi,
                j / 9 - 1,
                (j % 9) / 3 - 1,
                j % 3 - 1,
                fx,
                fy,
                fz,
            ),
        )
    }
}

/// Worley (cell) noise: the clamped distance to the nearest feature point.
pub open spec fn worley_spec(seed: int, freq: int, x: int, y: int, z: int) -> int {
    let sx = mul_one_spec(x, freq);
    let sy = mul_one_spec(y, freq);
    let sz = mul_one_spec(z, freq);
    let best = worley_best(
        seed,
        sx / (ONE as int),
        sy / (ONE as int),
        sz / (ONE as int),
        sx % (ONE as int),
        sy % (ONE as int),
        sz % (ONE as int),
        27,
    );
    clamp_spec(best - ONE, -ONE as int, ONE as int)
}

/// A squared fixed-point difference of magnitude at most `2 * ONE` lies in
/// `[0, 4 * ONE]`.
proof fn lemma_dist_square_range(d: int)
    requires
        -2 * ONE <= d <= 2 * ONE,
    ensures
        0 <= mul_one_spec(d, d) <= 4 * ONE,
{
    assert(0 <= d * d <= 4 * (ONE as int) * (ONE as int)) by (nonlinear_arith)
        requires
            -2 * (ONE as int) <= d <= 2 * (ONE as int),
    ;
    lemma_div_pos_is_pos(d * d, ONE as int);
    lemma_div_is_ordered(d * d, 4 * (ONE as int) * (ONE as int), ONE as int);
    assert(4 * (ONE as int) * (ONE as int) / (ONE as int) == 4 * (ONE as int));
}

/// Evaluate Worley noise.
#[verifier::rlimit(80)]
pub fn worley(seed: i64, freq: i64, x: i64, y: i64, z: i64) -> (r: i64)
    requires
        bounded(seed as int),
        bounded(freq as int),
        bounded(x as int),
        bounded(y as int),
        bounded(z as int),
    ensures
        r as int == worley_spec(seed as int, freq as int, x as int, y as int, z as int),
        -ONE <= r <= ONE,
{
    let sx = mul_one(x, freq);
    let sy = mul_one(y, freq);
    let sz = mul_one(z, freq);
    let (xi, fx) = crate::noise::split_units(sx);
    let (yi, fy) = crate::noise::split_units(sy);
    let (zi, fz) = crate::noise::split_units(sz);
    let mut best: i64 = 13 * ONE;
    let mut k: u32 = 0;
    while k < 27
        invariant
            0 <= k <= 27,
            bounded(seed as int),
            -0x1_0000_0000_0000 <= xi <= 0x1_0000_0000_0000,
            -0x1_0000_0000_0000 <= yi <= 0x1_0000_0000_0000,
            -0x1_0000_0000_0000 <= zi <= 0x1_0000_0000_0000,
            0 <= fx < ONE,
            0 <= fy < ONE,
            0 <= fz < ONE,
            best as int == worley_best(
                seed as int,
                xi as int,
                yi as int,
                zi as int,
                fx as int,
                fy as int,
                fz as int,
                k as nat,
            ),
            0 <= best <= 13 * ONE,
        decreases 27 - k,
    {
        let dx: i64 = (k / 9) as i64 - 1;
        let dy: i64 = ((k % 9) / 3) as i64 - 1;
        let dz: i64 = (k % 3) as i64 - 1;
        let cx = xi + dx;
        let cy = yi + dy;
        let cz = zi + dz;
        let ox = feature_offset(seed, 0, cx, cy, cz);
        let oy = feature_offset(seed, 1, cx, cy, cz);
        let oz = feature_offset(seed, 2, cx, cy, cz);
        let ddx = dx * ONE + ox - fx;
        let ddy = dy * ONE + oy - fy;
        let ddz = dz * ONE + oz - fz;
        let qx = mul_one(ddx, ddx);
        let qy = mul_one(ddy, ddy);
        let qz = mul_one(ddz, ddz);
        proof {
            lemma_dist_square_range(ddx as int);
            lemma_dist_square_range(ddy as int);
            lemma_dist_square_range(ddz as int);
        }
        let d2 = qx + qy + qz;
        best = imin(best, d2);
        k = k + 1;
    }
    iclamp(best - ONE, -ONE, ONE)
}

} // verus!
