//! Combinator semantics, the three-zone select, curve control points, and
//! the single-slot cache, exercised through small hand-built graphs.

use unistone::fixed::ONE;
use unistone::generator::FractalKind;
use unistone::graph::Graph;
use unistone::params::ConfigError;

#[test]
fn arithmetic_combinators_are_exact() {
    let mut g = Graph::new();
    let a = g.constant(3 * ONE).unwrap();
    let b = g.constant(-2 * ONE).unwrap();
    let add = g.add(a, b).unwrap();
    let mul = g.multiply(a, b).unwrap();
    let mi = g.min_of(a, b).unwrap();
    let ma = g.max_of(a, b).unwrap();
    assert_eq!(g.eval(add, 0, 0, 0), ONE);
    assert_eq!(g.eval(mul, 0, 0, 0), -6 * ONE);
    assert_eq!(g.eval(mi, 0, 0, 0), -2 * ONE);
    assert_eq!(g.eval(ma, 0, 0, 0), 3 * ONE);
}

#[test]
fn scale_bias_and_clamp_are_exact() {
    let mut g = Graph::new();
    let c = g.constant(32768).unwrap();
    let sb = g.scale_bias(c, 16384, 8192).unwrap();
    let cl = g.clamp_of(c, -4096, 4096).unwrap();
    assert_eq!(g.eval(sb, 0, 0, 0), 16384); // 0.5 * 0.25 + 0.125
    assert_eq!(g.eval(cl, 0, 0, 0), 4096);
}

#[test]
fn blend_at_zero_control_is_the_midpoint() {
    let mut g = Graph::new();
    let low = g.constant(-ONE).unwrap();
    let high = g.constant(ONE).unwrap();
    let control = g.constant(0).unwrap();
    let bl = g.blend(low, high, control).unwrap();
    assert_eq!(g.eval(bl, 0, 0, 0), 0);
}

#[test]
fn exponent_one_is_the_identity_on_even_values() {
    let mut g = Graph::new();
    let c = g.constant(16384).unwrap();
    let ex = g.exponent(c, 1, 0).unwrap();
    assert_eq!(g.eval(ex, 0, 0, 0), 16384);
}

fn select_of(control_value: i64) -> i64 {
    let mut g = Graph::new();
    let low = g.constant(-ONE).unwrap();
    let high = g.constant(ONE).unwrap();
    let control = g.constant(control_value).unwrap();
    // bounds (0, 1), falloff 0.1
    let se = g.select(low, high, control, 0, ONE, 6554).unwrap();
    g.eval(se, 0, 0, 0)
}

#[test]
fn select_clearly_below_returns_low_exactly() {
    assert_eq!(select_of(-32768), -ONE); // control -0.5
}

#[test]
fn select_clearly_inside_returns_high_exactly() {
    assert_eq!(select_of(32768), ONE); // control 0.5
}

#[test]
fn select_in_lower_falloff_band_is_strictly_between() {
    let v = select_of(3277); // control 0.05, inside the lower band
    assert!(-ONE < v && v < ONE, "expected a strict mix, got {v}");
}

#[test]
fn select_above_upper_band_returns_low_exactly() {
    assert_eq!(select_of(ONE + 32768), -ONE); // control 1.5
}

fn curve_points() -> Vec<(i64, i64)> {
    vec![
        (-131072, -106496),
        (-65536, -90112),
        (0, -24576),
        (4096, 8192),
        (8192, 16384),
        (16384, 65536),
    ]
}

#[test]
fn curve_returns_each_control_output_exactly() {
    for (input, output) in curve_points() {
        let mut g = Graph::new();
        let c = g.constant(input).unwrap();
        let cu = g.curve(c, curve_points()).unwrap();
        assert_eq!(g.eval(cu, 0, 0, 0), output, "at control input {input}");
    }
}

#[test]
fn curve_interpolates_linearly_between_control_points() {
    let mut g = Graph::new();
    let c = g.constant(2048).unwrap(); // midway between 0 and 4096
    let cu = g.curve(c, curve_points()).unwrap();
    assert_eq!(g.eval(cu, 0, 0, 0), -8192); // midway between -24576 and 8192
}

#[test]
fn curve_is_flat_beyond_its_end_points() {
    let mut g = Graph::new();
    let lo = g.constant(-10 * ONE).unwrap();
    let hi = g.constant(10 * ONE).unwrap();
    let cu_lo = g.curve(lo, curve_points()).unwrap();
    let cu_hi = g.curve(hi, curve_points()).unwrap();
    assert_eq!(g.eval(cu_lo, 0, 0, 0), -106496);
    assert_eq!(g.eval(cu_hi, 0, 0, 0), 65536);
}

#[test]
fn terrace_steps_between_ascending_controls() {
    let mut g = Graph::new();
    let c = g.constant(-32768).unwrap();
    let te = g.terrace(c, vec![-65536, 0, 65536]).unwrap();
    // bracket [-1, 0): the squared parameter flattens the lower half
    assert_eq!(g.eval(te, 0, 0, 0), -49152);
    let mut g2 = Graph::new();
    let c2 = g2.constant(-65536).unwrap();
    let te2 = g2.terrace(c2, vec![-65536, 0, 65536]).unwrap();
    assert_eq!(g2.eval(te2, 0, 0, 0), -65536);
}

#[test]
fn cache_returns_the_same_value_and_computes_the_child_once() {
    let mut g = Graph::new();
    let f = g
        .fractal_gen(FractalKind::Standard, 1, ONE, 2 * ONE, ONE / 2, 6)
        .unwrap();
    let c = g.cache(f).unwrap();
    let v1 = g.eval(c, ONE, 2 * ONE, 3 * ONE);
    let v2 = g.eval(c, ONE, 2 * ONE, 3 * ONE);
    assert_eq!(v1, v2);
    assert_eq!(g.cache_misses(c), 1, "second query must reuse the slot");
    let _ = g.eval(c, 4 * ONE, 2 * ONE, 3 * ONE);
    assert_eq!(g.cache_misses(c), 2, "a new coordinate must recompute");
    let v3 = g.eval(c, ONE, 2 * ONE, 3 * ONE);
    assert_eq!(g.cache_misses(c), 3, "the single slot holds only the last coordinate");
    assert_eq!(v1, v3);
}

#[test]
fn cached_and_uncached_nodes_agree() {
    let mut g = Graph::new();
    let f = g
        .fractal_gen(FractalKind::Ridged, 7, ONE, 2 * ONE, ONE / 2, 4)
        .unwrap();
    let c = g.cache(f).unwrap();
    for k in 0..10i64 {
        let x = k * 12345;
        assert_eq!(g.eval(c, x, -x, 2 * x), g.eval(f, x, -x, 2 * x));
    }
}

#[test]
fn builder_rejects_bad_control_points() {
    let mut g = Graph::new();
    let c = g.constant(0).unwrap();
    assert_eq!(g.curve(c, vec![(0, 0), (ONE, ONE)]), Err(ConfigError::UnsortedControlPoints));
    assert_eq!(
        g.curve(c, vec![(0, 0), (ONE, ONE), (ONE, 0), (2 * ONE, 0)]),
        Err(ConfigError::UnsortedControlPoints)
    );
    assert_eq!(g.terrace(c, vec![ONE]), Err(ConfigError::UnsortedControlPoints));
    assert_eq!(g.terrace(c, vec![ONE, ONE]), Err(ConfigError::UnsortedControlPoints));
}

#[test]
fn builder_rejects_bad_parameters_and_handles() {
    let mut g = Graph::new();
    assert_eq!(
        g.fractal_gen(FractalKind::Standard, 1, 0, 2 * ONE, ONE / 2, 6),
        Err(ConfigError::InvalidParameter),
        "a frequency must be positive"
    );
    assert_eq!(
        g.fractal_gen(FractalKind::Standard, 1, ONE, 2 * ONE, ONE / 2, 0),
        Err(ConfigError::InvalidParameter),
        "at least one octave is required"
    );
    assert_eq!(g.add(0, 1), Err(ConfigError::InvalidParameter), "handles must exist");
    assert_eq!(g.cell(1, -ONE), Err(ConfigError::InvalidParameter));
}
