//! The built terrain pipeline: determinism, turbulence displacement, the
//! parameter validation, and a pinned end-to-end scenario.

use unistone::fixed::ONE;
use unistone::graph::Graph;
use unistone::node::turbulence_warp;
use unistone::params::{ConfigError, ParameterSet};
use unistone::terrain::{build_graph, TerrainClass, TerrainGroup, SEED_SPAN};

#[test]
fn default_parameters_validate() {
    assert!(ParameterSet::default().validate().is_ok());
}

#[test]
fn bad_parameters_are_rejected() {
    let mut p = ParameterSet::default();
    p.mountain_lacunarity = 0;
    assert_eq!(p.validate(), Err(ConfigError::InvalidParameter));
    assert!(build_graph(42, &p).is_err());

    let mut p2 = ParameterSet::default();
    p2.continent_frequency = -ONE;
    assert_eq!(p2.validate(), Err(ConfigError::InvalidParameter));

    let p3 = ParameterSet::default();
    assert!(build_graph(SEED_SPAN + 1, &p3).is_err(), "seeds outside the span are rejected");
}

#[test]
fn any_positive_frequency_and_lacunarity_builds() {
    // Validation asks only what the machine arithmetic forces: unusual but
    // positive tunings still construct and sample.
    let mut p = ParameterSet::default();
    p.mountain_lacunarity = ONE; // lacunarity exactly 1
    p.hills_lacunarity = ONE / 2; // octaves that shrink in frequency
    p.continent_frequency = 1; // the smallest representable frequency
    p.mountains_twist = -3 * ONE; // a negative twist
    p.terrain_offset = 0;
    assert!(p.validate().is_ok());
    let mut t = build_graph(5, &p).unwrap();
    let s = t.sample(ONE, 0, ONE);
    assert!(-ONE <= s.elevation && s.elevation <= ONE);
}

#[test]
fn unsorted_derived_terrace_is_rejected_as_such() {
    // Pushing the shelf level down to -1 drags the terrain-type terrace's
    // middle control onto its lower neighbor, so the derived table is no
    // longer strictly ascending.
    let mut p = ParameterSet::default();
    p.shelf_level = -ONE;
    p.sea_level = 0;
    assert!(p.validate().is_ok(), "the values themselves are in range");
    match build_graph(42, &p) {
        Err(e) => assert_eq!(e, ConfigError::UnsortedControlPoints),
        Ok(_) => panic!("a non-ascending derived terrace must be rejected"),
    }
}

#[test]
fn sampling_is_deterministic_within_one_graph() {
    let p = ParameterSet::default();
    let mut t = build_graph(42, &p).unwrap();
    for k in 0..8i64 {
        let (x, y, z) = (k * 3 * ONE, -k * ONE, 5 * k * ONE);
        let a = t.sample(x, y, z);
        let b = t.sample(x, y, z);
        assert_eq!(a.elevation, b.elevation);
        assert_eq!(a.class, b.class);
    }
}

#[test]
fn equally_built_graphs_sample_identically() {
    let p = ParameterSet::default();
    let mut t1 = build_graph(42, &p).unwrap();
    let mut t2 = build_graph(42, &p).unwrap();
    for k in -4..4i64 {
        let (x, y, z) = (k * 7 * ONE, k * ONE, -k * 2 * ONE);
        let a = t1.sample(x, y, z);
        let b = t2.sample(x, y, z);
        assert_eq!(a.elevation, b.elevation);
        assert_eq!(a.class, b.class);
    }
}

#[test]
fn different_seeds_change_the_terrain() {
    let p = ParameterSet::default();
    let mut t1 = build_graph(42, &p).unwrap();
    let mut t2 = build_graph(43, &p).unwrap();
    let mut differs = false;
    for k in 0..16i64 {
        let (x, y, z) = (k * 5 * ONE, 0, k * 5 * ONE);
        if t1.sample(x, y, z).elevation != t2.sample(x, y, z).elevation {
            differs = true;
        }
    }
    assert!(differs);
}

#[test]
fn turbulence_displaces_each_axis_by_at_most_its_power() {
    let power = ONE / 16;
    for k in 0..200i64 {
        let (x, y, z) = (k * 37 * ONE, -k * 11 * ONE, k * 5 * ONE);
        let (wx, wy, wz) = turbulence_warp(99, 4 * ONE, power, 6, x, y, z);
        assert!((wx - x).abs() <= power);
        assert!((wy - y).abs() <= power);
        assert!((wz - z).abs() <= power);
    }
}

#[test]
fn elevation_stays_in_planetary_units() {
    let p = ParameterSet::default();
    let mut t = build_graph(7, &p).unwrap();
    for k in -10..10i64 {
        let s = t.sample(k * 13 * ONE, 0, -k * 17 * ONE);
        assert!(-ONE <= s.elevation && s.elevation <= ONE);
    }
}

#[test]
fn group_outputs_are_readable_and_agree_with_sampling() {
    let p = ParameterSet::default();
    let mut t = build_graph(42, &p).unwrap();
    let e = t.group_value(TerrainGroup::Elevation, 3 * ONE, 0, -2 * ONE);
    let s = t.sample(3 * ONE, 0, -2 * ONE);
    assert_eq!(e, s.elevation);
    let c1 = t.group_value(TerrainGroup::ContinentDefinition, ONE, ONE, ONE);
    let c2 = t.group_value(TerrainGroup::ContinentDefinition, ONE, ONE, ONE);
    assert_eq!(c1, c2);
    // Every group output is a saturated scalar; the cached groups feeding
    // the classification stay in their nominal range.
    for group in [
        TerrainGroup::ContinentDefinition,
        TerrainGroup::TerrainTypeDefinition,
        TerrainGroup::BadlandsTerrain,
        TerrainGroup::Elevation,
    ] {
        let v = t.group_value(group, 5 * ONE, 0, 5 * ONE);
        assert!(-2 * ONE <= v && v <= 2 * ONE, "group value {v} far out of range");
    }
}

#[test]
fn glaciation_power_curve_clamps_out_of_range_input() {
    // The glaciation step applies a power curve that expects its input in
    // [-1, 1], but the scaled mountain sum that feeds it can stray outside
    // that range -- a long-suspect spot in this pipeline's tuning.  The
    // evaluator pins the behavior down instead of leaving it undefined:
    // the power curve clamps its input first, so an overdriven mountain
    // sum saturates at the curve's endpoint value.
    let mut g = Graph::new();
    let hot = g.constant(2 * ONE).unwrap();
    let ex = g.exponent(hot, 11, 3).unwrap(); // the default glaciation exponent 11/8
    assert_eq!(g.eval(ex, 0, 0, 0), ONE);
    let cold = g.constant(-2 * ONE).unwrap();
    let ex2 = g.exponent(cold, 11, 3).unwrap();
    assert_eq!(g.eval(ex2, 0, 0, 0), -ONE);
}

#[test]
fn end_to_end_scenario_matches_pinned_reference() {
    // Golden values captured once from a reference run of this library and
    // pinned here.
    let p = ParameterSet::default();
    let mut t = build_graph(42, &p).unwrap();
    let s0 = t.sample(0, 0, 0);
    let s1 = t.sample(10 * ONE, 0, 10 * ONE);
    let s2 = t.sample(0, 0, -10 * ONE);
    assert_eq!(s0.elevation, -44438);
    assert_eq!(s0.class, TerrainClass::Ocean);
    assert_eq!(s1.elevation, -26416);
    assert_eq!(s1.class, TerrainClass::Ocean);
    assert_eq!(s2.elevation, -20468);
    assert_eq!(s2.class, TerrainClass::Ocean);
}
