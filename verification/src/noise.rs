//! Seeded coherent noise on the unit lattice.
//!
//! A 64-bit mixer hashes each lattice corner of the cell containing the
//! query point to a reproducible value in `[-ONE, ONE]`; the eight corner
//! values are blended by smoothstep-faded trilinear interpolation.  The
//! result depends on nothing but the seed and the coordinate, which is what
//! every generator built on top of it relies on.

use vstd::prelude::*;

verus! {

use crate::fixed::{lerp, lerp_spec, scurve3, scurve3_spec, ONE};
use vstd::arithmetic::div_mod::{
    lemma_fundamental_div_mod, lemma_fundamental_div_mod_converse,
};

/// Product on the 64-bit ring.
pub open spec fn wmul_spec(a: u64, b: u64) -> u64 {
    (((a as int) * (b as int)) % 0x1_0000_0000_0000_0000) as u64
}

fn wmul(a: u64, b: u64) -> (r: u64)
    ensures
        r == wmul_spec(a, b),
{
    proof {
        assert((a as int) * (b as int) < 0x1_0000_0000_0000_0000_0000_0000_0000_0000)
            by (nonlinear_arith)
            requires
                0 <= (a as int) < 0x1_0000_0000_0000_0000,
                0 <= (b as int) < 0x1_0000_0000_0000_0000,
        ;
    }
    let p: u128 = (a as u128) * (b as u128);
    let low: u128 = p % 0x1_0000_0000_0000_0000;
    low as u64
}

/// A 64-bit finalizing mixer: two folded multiplies with xor-shifts.
pub open spec fn mix64_spec(h: u64) -> u64 {
    let z0 = h ^ (h >> 30u64);
    let z1 = wmul_spec(z0, 0xBF58_476D_1CE4_E5B9);
    let z2 = z1 ^ (z1 >> 27u64);
    let z3 = wmul_spec(z2, 0x94D0_49BB_1331_11EB);
    z3 ^ (z3 >> 31u64)
}

fn mix64(h: u64) -> (r: u64)
    ensures
        r == mix64_spec(h),
{
    let z0 = h ^ (h >> 30u64);
    let z1 = wmul(z0, 0xBF58_476D_1CE4_E5B9);
    let z2 = z1 ^ (z1 >> 27u64);
    let z3 = wmul(z2, 0x94D0_49BB_1331_11EB);
    z3 ^ (z3 >> 31u64)
}

/// The 64-bit residue of any integer, as the mixer consumes it.
pub open spec fn residue64(v: int) -> u64 {
    (v % 0x1_0000_0000_0000_0000) as u64
}

fn cast_u64(v: i64) -> (r: u64)
    ensures
        r == residue64(v as int),
{
    if v >= 0 {
        v as u64
    } else {
        let w: u128 = ((v as i128) + 0x1_0000_0000_0000_0000) as u128;
        proof {
            lemma_fundamental_div_mod_converse(
                v as int,
                0x1_0000_0000_0000_0000,
                -1,
                v as int + 0x1_0000_0000_0000_0000,
            );
        }
        w as u64
    }
}

/// The hash of one lattice corner under one seed.
#[verifier::opaque]
pub open spec fn corner_hash_spec(seed: int, xi: int, yi: int, zi: int) -> u64 {
    let h0 = mix64_spec(residue64(seed) ^ 0x9E37_79B9_7F4A_7C15);
    let h1 = mix64_spec(h0 ^ residue64(xi));
    let h2 = mix64_spec(h1 ^ residue64(yi));
    mix64_spec(h2 ^ residue64(zi))
}

/// The fixed-point value a corner contributes, in `[-ONE, ONE]`.
pub open spec fn corner_value_spec(seed: int, xi: int, yi: int, zi: int) -> int {
    (corner_hash_spec(seed, xi, yi, zi) as int) % 131073 - 65536
}

fn corner_value(seed: i64, xi: i64, yi: i64, zi: i64) -> (r: i64)
    ensures
        r as int == corner_value_spec(seed as int, xi as int, yi as int, zi as int),
        -ONE <= r <= ONE,
{
    proof {
        reveal(corner_hash_spec);
    }
    let h0 = mix64(cast_u64(seed) ^ 0x9E37_79B9_7F4A_7C15);
    let h1 = mix64(h0 ^ cast_u64(xi));
    let h2 = mix64(h1 ^ cast_u64(yi));
    let h3 = mix64(h2 ^ cast_u64(zi));
    let m: u64 = h3 % 131073;
    (m as i64) - ONE
}

/// Lattice cell index of a fixed-point coordinate: its floor in whole units.
pub open spec fn floor_unit(v: int) -> int {
    v / (ONE as int)
}

/// Position within the lattice cell, in `[0, ONE)`.
pub open spec fn frac_unit(v: int) -> int {
    v % (ONE as int)
}

/// Split a coordinate into lattice cell and in-cell offset.
pub fn split_units(v: i64) -> (qr: (i64, i64))
    ensures
        qr.0 as int == floor_unit(v as int),
        qr.1 as int == frac_unit(v as int),
        -0x1_0000_0000_0000 <= qr.0 <= 0x1_0000_0000_0000,
        0 <= qr.1 < ONE,
{
    if v >= 0 {
        let u: u64 = v as u64;
        let q: i64 = (u / 65536) as i64;
        let r: i64 = (u % 65536) as i64;
        (q, r)
    } else {
        let m: u128 = (-(v as i128)) as u128;
        let qm: u128 = (m + 65535) / 65536;
        let rr: i64 = ((v as i128) + (qm as i128) * 65536) as i64;
        let q: i64 = (-(qm as i128)) as i64;
        proof {
            lemma_fundamental_div_mod((m + 65535) as int, 65536);
            lemma_fundamental_div_mod_converse(v as int, 65536, q as int, rr as int);
        }
        (q, rr)
    }
}

/// The offset of a cell's feature point along one axis, in `[0, ONE)`.
pub open spec fn feature_offset_spec(seed: int, axis: int, cx: int, cy: int, cz: int) -> int {
    (corner_hash_spec(seed + axis, cx, cy, cz) as int) % (ONE as int)
}

/// Hash a cell to its feature point's offset along one axis.
pub fn feature_offset(seed: i64, axis: i64, cx: i64, cy: i64, cz: i64) -> (r: i64)
    requires
        crate::fixed::bounded(seed as int),
        0 <= axis <= 2,
    ensures
        r as int == feature_offset_spec(
            seed as int,
            axis as int,
            cx as int,
            cy as int,
            cz as int,
        ),
        0 <= r < ONE,
{
    proof {
        reveal(corner_hash_spec);
    }
    let h0 = mix64(cast_u64(seed + axis) ^ 0x9E37_79B9_7F4A_7C15);
    let h1 = mix64(h0 ^ cast_u64(cx));
    let h2 = mix64(h1 ^ cast_u64(cy));
    let h3 = mix64(h2 ^ cast_u64(cz));
    (h3 % 65536) as i64
}

/// Smoothstep-faded trilinear interpolation of the eight corner values of
/// the lattice cell containing `(x, y, z)`, under `seed`.
#[verifier::opaque]
pub open spec fn lattice_noise_spec(seed: int, x: int, y: int, z: int) -> int {
    let xi = floor_unit(x);
    let yi = floor_unit(y);
    let zi = floor_unit(z);
    let u = scurve3_spec(frac_unit(x));
    let v = scurve3_spec(frac_unit(y));
    let w = scurve3_spec(frac_unit(z));
    let x00 = lerp_spec(
        corner_value_spec(seed, xi, yi, zi),
        corner_value_spec(seed, xi + 1, yi, zi),
        u,
    );
    let x10 = lerp_spec(
        corner_value_spec(seed, xi, yi + 1, zi),
        corner_value_spec(seed, xi + 1, yi + 1, zi),
        u,
    );
    let x01 = lerp_spec(
        corner_value_spec(seed, xi, yi, zi + 1),
        corner_value_spec(seed, xi + 1, yi, zi + 1),
        u,
    );
    let x11 = lerp_spec(
        corner_value_spec(seed, xi, yi + 1, zi + 1),
        corner_value_spec(seed, xi + 1, yi + 1, zi + 1),
        u,
    );
    let y0 = lerp_spec(x00, x10, v);
    let y1 = lerp_spec(x01, x11, v);
    lerp_spec(y0, y1, w)
}

/// The coherent-noise primitive: deterministic in `(seed, coordinate)` and
/// proved to stay inside its nominal `[-ONE, ONE]` range.
pub fn lattice_noise(seed: i64, x: i64, y: i64, z: i64) -> (r: i64)
    ensures
        r as int == lattice_noise_spec(seed as int, x as int, y as int, z as int),
        -ONE <= r <= ONE,
{
    proof {
        reveal(lattice_noise_spec);
    }
    let (xi, tx) = split_units(x);
    let (yi, ty) = split_units(y);
    let (zi, tz) = split_units(z);
    let u = scurve3(tx);
    let v = scurve3(ty);
    let w = scurve3(tz);
    let c000 = corner_value(seed, xi, yi, zi);
    let c100 = corner_value(seed, xi + 1, yi, zi);
    let c010 = corner_value(seed, xi, yi + 1, zi);
    let c110 = corner_value(seed, xi + 1, yi + 1, zi);
    let c001 = corner_value(seed, xi, yi, zi + 1);
    let c101 = corner_value(seed, xi + 1, yi, zi + 1);
    let c011 = corner_value(seed, xi, yi + 1, zi + 1);
    let c111 = corner_value(seed, xi + 1, yi + 1, zi + 1);
    let x00 = lerp(c000, c100, u);
    let x10 = lerp(c010, c110, u);
    let x01 = lerp(c001, c101, u);
    let x11 = lerp(c011, c111, u);
    let y0 = lerp(x00, x10, v);
    let y1 = lerp(x01, x11, v);
    lerp(y0, y1, w)
}

} // verus!
