//! The terrain graph: the layered elevation pipeline wired from seeded
//! generators and combinators, and the sampling interface over it.
//!
//! The pipeline builds, in order: the base continent definition and its
//! turbulence-warped refinement, the terrain-type map, the mountain base
//! with its high and low mountainous refinements, hilly and plains terrain,
//! badlands sand and cliffs, river positions, and the scaled mountain and
//! hill contributions; a final assembly selects the scaled terrain by the
//! terrain-type map, adds it to the continent elevation, carves rivers and
//! clamps the result into planetary units.  Every group ends in a cache
//! node, since several groups are read by more than one consumer.
//!
//! All fixed numeric constants are the documented tuning of the pipeline,
//! written in Q16.16 fixed point (`ONE` is 1); a trailing comment gives the
//! decimal value.

use vstd::prelude::*;

verus! {

use crate::fixed::{
    bounded, clamp_spec, div_trunc, iclamp, lemma_mul_one_pos, mul_div, mul_one, mul_div_spec,
    mul_one_spec, tdiv, LIMIT, ONE,
};
use crate::generator::FractalKind;
use crate::graph::Graph;
use crate::node::{eval_spec, Node};
use crate::params::{params_wf, ConfigError, ParameterSet};

/// Largest accepted seed magnitude: the saturating arithmetic's working
/// bound less room for the fixed per-leaf seed offsets (which reach +120),
/// so every leaf's offset seed stays a bounded scalar.
pub const SEED_SPAN: i64 = 0x3FFF_FFFF_FFFF_FF80;

/// Half a unit: the persistence of every fractal leaf of the pipeline.
pub const HALF: i64 = 32768;

/// The terrain class a sampled coordinate falls in.
#[derive(Clone, Copy, Debug, PartialEq, Eq, Structural)]
pub enum TerrainClass {
    Ocean,
    Plains,
    Hills,
    Mountains,
    Badlands,
}

/// One sampled point: the elevation in planetary units (nominally
/// `[-ONE, ONE]`) and its terrain class.
#[derive(Clone, Copy, Debug, PartialEq, Eq, Structural)]
pub struct TerrainSample {
    pub elevation: i64,
    pub class: TerrainClass,
}

/// Terrain-type level at or above which a point is classified mountainous:
/// 1/2.
pub const CLASS_MOUNTAIN_LEVEL: i64 = 32768;

/// Badlands level at or above which a land point is classified badlands: 1/2.
pub const CLASS_BADLANDS_LEVEL: i64 = 32768;

/// Terrain-type level at or above which a land point is classified hilly:
/// -1/4.
pub const CLASS_HILLS_LEVEL: i64 = -16384;

/// The classification rule: below sea level is ocean; otherwise the
/// terrain-type map makes mountains above `CLASS_MOUNTAIN_LEVEL`, then the
/// badlands map makes badlands above `CLASS_BADLANDS_LEVEL`, then the
/// terrain-type map makes hills above `CLASS_HILLS_LEVEL`, and the rest is
/// plains.
pub open spec fn classify_spec(continent: int, terrain_type: int, badlands: int, sea: int)
    -> TerrainClass {
    if continent < sea {
        TerrainClass::Ocean
    } else if terrain_type >= CLASS_MOUNTAIN_LEVEL {
        TerrainClass::Mountains
    } else if badlands >= CLASS_BADLANDS_LEVEL {
        TerrainClass::Badlands
    } else if terrain_type >= CLASS_HILLS_LEVEL {
        TerrainClass::Hills
    } else {
        TerrainClass::Plains
    }
}

fn classify(continent: i64, terrain_type: i64, badlands: i64, sea: i64) -> (c: TerrainClass)
    ensures
        c == classify_spec(continent as int, terrain_type as int, badlands as int, sea as int),
{
    if continent < sea {
        TerrainClass::Ocean
    } else if terrain_type >= CLASS_MOUNTAIN_LEVEL {
        TerrainClass::Mountains
    } else if badlands >= CLASS_BADLANDS_LEVEL {
        TerrainClass::Badlands
    } else if terrain_type >= CLASS_HILLS_LEVEL {
        TerrainClass::Hills
    } else {
        TerrainClass::Plains
    }
}

/// The handles of the pipeline's named group outputs.
#[derive(Clone, Copy, Debug, PartialEq, Eq, Structural)]
pub struct GroupHandles {
    pub continent_def: usize,
    pub terrain_type_def: usize,
    pub mountainous_terrain: usize,
    pub hilly_terrain: usize,
    pub plains_terrain: usize,
    pub badlands_terrain: usize,
    pub river_positions: usize,
    pub scaled_mountainous_terrain: usize,
    pub scaled_hilly_terrain: usize,
    pub elevation: usize,
}

/// Unwrap a builder result that the surrounding proof shows cannot fail.
fn built(r: Result<usize, ConfigError>) -> (h: usize)
    requires
        r is Ok,
    ensures
        r == Result::<usize, ConfigError>::Ok(h),
{
    match r {
        Ok(h) => h,
        Err(_) => {
            proof {
                assert(false);
            }
            0
        },
    }
}

/// The control points the basic-continent curve is built from: the
/// documented shape, shifted by the sea level.
pub open spec fn base_continent_points(p: ParameterSet) -> Seq<(i64, i64)> {
    seq![
        ((p.sea_level - 131072) as i64, (p.sea_level - 106496) as i64),
        ((p.sea_level - 65536) as i64, (p.sea_level - 90112) as i64),
        (p.sea_level, (p.sea_level - 24576) as i64),
        ((p.sea_level + 4096) as i64, (p.sea_level + 8192) as i64),
        ((p.sea_level + 8192) as i64, (p.sea_level + 16384) as i64),
        ((p.sea_level + 16384) as i64, (p.sea_level + 65536) as i64),
        ((p.sea_level + 32768) as i64, (p.sea_level + 16384) as i64),
        ((p.sea_level + 49152) as i64, (p.sea_level + 16384) as i64),
        ((p.sea_level + 65536) as i64, (p.sea_level + 32768) as i64),
        ((p.sea_level + 131072) as i64, (p.sea_level + 32768) as i64),
    ]
}

/// The nodes the basic-continent group appends, starting at node offset
/// `off` with the next curve table at `ctab`.
pub open spec fn base_continent_nodes(s: i64, p: ParameterSet, off: int, ctab: int) -> Seq<Node> {
    seq![
        Node::Fractal {
            kind: FractalKind::Standard,
            seed: s,
            freq: p.continent_frequency,
            lacunarity: p.continent_lacunarity,
            persistence: HALF,
            octaves: 14u32,
        },
        Node::Curve { child: off as usize, table: ctab as usize },
        Node::Fractal {
            kind: FractalKind::Standard,
            seed: (s + 1) as i64,
            freq: mul_one_spec(p.continent_frequency as int, 284672) as i64,
            lacunarity: p.continent_lacunarity,
            persistence: HALF,
            octaves: 11u32,
        },
        Node::ScaleBias { child: (off + 2) as usize, scale: 24576i64, bias: 40960i64 },
        Node::Min { a: (off + 3) as usize, b: (off + 1) as usize },
        Node::ClampNode { child: (off + 4) as usize, lo: -65536i64, hi: 65536i64 },
        Node::Cache { child: (off + 5) as usize },
    ]
}

/// Basic continent definition: a curve-shaped continent field cut by a
/// scaled high-frequency roughness field, clamped and cached.
fn base_continent_group(g: &mut Graph, s: i64, p: &ParameterSet) -> (h: usize)
    requires
        old(g).wf(),
        params_wf(*p),
        -SEED_SPAN <= s <= SEED_SPAN,
    ensures
        final(g).wf(),
        final(g).nodes_view() == old(g).nodes_view() + base_continent_nodes(
            s,
            *p,
            old(g).len_spec() as int,
            old(g).curves_view().len() as int,
        ),
        final(g).curves_view() == old(g).curves_view().push(base_continent_points(*p)),
        final(g).terraces_view() == old(g).terraces_view(),
        h as int == old(g).len_spec() + 6,
{
    let cf = p.continent_frequency;
    proof {
        lemma_mul_one_pos(cf as int, 284672);
        lemma_mul_one_pos(cf as int, 999424);
        lemma_mul_one_pos(cf as int, 3096576);
        lemma_mul_one_pos(cf as int, 6242304);
    }
    // Continents: a low-frequency fractal field with many octaves.
    let fb0 = built(
        g.fractal_gen(FractalKind::Standard, s, cf, p.continent_lacunarity, HALF, 14),
    );
    // Shape the field so elevations cluster near sea level.
    let sea = p.sea_level;
    let mut pts: Vec<(i64, i64)> = Vec::new();
    pts.push((sea - 131072, sea - 106496));  // (-2, -1.625)
    pts.push((sea - 65536, sea - 90112));  // (-1, -1.375)
    pts.push((sea, sea - 24576));  // (0, -0.375)
    pts.push((sea + 4096, sea + 8192));  // (0.0625, 0.125)
    pts.push((sea + 8192, sea + 16384));  // (0.125, 0.25)
    pts.push((sea + 16384, sea + 65536));  // (0.25, 1)
    pts.push((sea + 32768, sea + 16384));  // (0.5, 0.25)
    pts.push((sea + 49152, sea + 16384));  // (0.75, 0.25)
    pts.push((sea + 65536, sea + 32768));  // (1, 0.5)
    pts.push((sea + 131072, sea + 32768));  // (2, 0.5)
    proof {
        assert forall|j: int| 0 <= j < pts@.len() implies bounded((#[trigger] pts@[j]).0 as int)
            && bounded(pts@[j].1 as int) by {}
        assert forall|j: int| 0 <= j < pts@.len() - 1 implies #[trigger] pts@[j].0 < pts@[j
            + 1].0 by {}
    }
    let cu = built(g.curve(fb0, pts));
    // A higher-frequency field that cuts passes through the ranges.
    let fb1 = built(
        g.fractal_gen(
            FractalKind::Standard,
            s + 1,
            mul_one(cf, 284672),  // continent frequency * 4.34375
            p.continent_lacunarity,
            HALF,
            11,
        ),
    );
    let sb = built(g.scale_bias(fb1, 24576, 40960));  // scale 0.375, bias 0.625
    // Carve the continents: keep the lower of the two fields.
    let mi = built(g.min_of(sb, cu));
    let cl = built(g.clamp_of(mi, -65536, 65536));
    let h = built(g.cache(cl));
    proof {
        assert(pts@ =~= base_continent_points(*p));
        assert(g.nodes_view() =~= old(g).nodes_view() + base_continent_nodes(
            s,
            *p,
            old(g).len_spec() as int,
            old(g).curves_view().len() as int,
        ));
    }
    h
}

/// The nodes the continent-definition group appends.
pub open spec fn continent_def_nodes(s: i64, p: ParameterSet, off: int, base: usize) -> Seq<Node> {
    seq![
        Node::Turbulence {
            child: base,
            seed: (s + 10) as i64,
            freq: mul_one_spec(p.continent_frequency as int, 999424) as i64,
            power: mul_div_spec(p.continent_frequency as int, ONE as int, 7454720) as i64,
            roughness: 13u32,
        },
        Node::Turbulence {
            child: off as usize,
            seed: (s + 11) as i64,
            freq: mul_one_spec(p.continent_frequency as int, 3096576) as i64,
            power: mul_div_spec(p.continent_frequency as int, ONE as int, 28426240) as i64,
            roughness: 12u32,
        },
        Node::Turbulence {
            child: (off + 1) as usize,
            seed: (s + 12) as i64,
            freq: mul_one_spec(p.continent_frequency as int, 6242304) as i64,
            power: mul_div_spec(p.continent_frequency as int, ONE as int, 66830336) as i64,
            roughness: 11u32,
        },
        Node::Select {
            low: base,
            high: (off + 2) as usize,
            control: base,
            lower: (p.sea_level - 2458) as i64,
            upper: (p.sea_level + 65538458) as i64,
            falloff: 4096i64,
        },
        Node::Cache { child: (off + 3) as usize },
    ]
}

/// Continent definition: the base continents under three turbulence warps,
/// applied selectively above the sea so shorelines stay put, cached.
fn continent_def_group(g: &mut Graph, s: i64, p: &ParameterSet, base: usize) -> (h: usize)
    requires
        old(g).wf(),
        params_wf(*p),
        -SEED_SPAN <= s <= SEED_SPAN,
        (base as int) < old(g).len_spec(),
    ensures
        final(g).wf(),
        final(g).nodes_view() == old(g).nodes_view() + continent_def_nodes(
            s,
            *p,
            old(g).len_spec() as int,
            base,
        ),
        final(g).curves_view() == old(g).curves_view(),
        final(g).terraces_view() == old(g).terraces_view(),
        h as int == old(g).len_spec() + 4,
{
    let cf = p.continent_frequency;
    proof {
        lemma_mul_one_pos(cf as int, 999424);
        lemma_mul_one_pos(cf as int, 3096576);
        lemma_mul_one_pos(cf as int, 6242304);
    }
    // Coarse, intermediate and fine turbulence over the base continents.
    let tu0 = built(
        g.turbulence(
            base,
            s + 10,
            mul_one(cf, 999424),  // continent frequency * 15.25
            mul_div(cf, ONE, 7454720),  // continent frequency / 113.75
            13,
        ),
    );
    let tu1 = built(
        g.turbulence(
            tu0,
            s + 11,
            mul_one(cf, 3096576),  // continent frequency * 47.25
            mul_div(cf, ONE, 28426240),  // continent frequency / 433.75
            12,
        ),
    );
    let tu2 = built(
        g.turbulence(
            tu1,
            s + 12,
            mul_one(cf, 6242304),  // continent frequency * 95.25
            mul_div(cf, ONE, 66830336),  // continent frequency / 1019.75
            11,
        ),
    );
    // Only the regions above the sea take the warped value; the shoreline
    // band blends smoothly and the deep sea keeps the base value.
    let se = built(
        g.select(
            base,
            tu2,
            base,
            p.sea_level - 2458,  // sea level - 0.0375
            p.sea_level + 65538458,  // sea level + 1000.0375
            4096,  // falloff 0.0625
        ),
    );
    let h = built(g.cache(se));
    proof {
        assert(g.nodes_view() =~= old(g).nodes_view() + continent_def_nodes(
            s,
            *p,
            old(g).len_spec() as int,
            base,
        ));
    }
    h
}

/// The terrain-type terrace's middle scalar, `shelf + sea / 2`, must fall
/// strictly between its fixed neighbors `-1` and `1`, or the derived table
/// is not strictly ascending and the builder rejects the configuration.
pub open spec fn terrain_type_terrace_ascending(p: ParameterSet) -> bool {
    -ONE < p.shelf_level + tdiv(p.sea_level as int, 2) < ONE
}

/// The terrace scalars that sharpen the terrain-type map at the shoreline.
pub open spec fn terrain_type_points(p: ParameterSet) -> Seq<i64> {
    seq![
        -65536i64,
        (p.shelf_level + tdiv(p.sea_level as int, 2)) as i64,
        65536i64,
    ]
}

/// The nodes the terrain-type group appends.
pub open spec fn terrain_type_nodes(
    s: i64,
    p: ParameterSet,
    off: int,
    ttab: int,
    continent: usize,
) -> Seq<Node> {
    seq![
        Node::Turbulence {
            child: continent,
            seed: (s + 20) as i64,
            freq: mul_one_spec(p.continent_frequency as int, 1187840) as i64,
            power: mul_one_spec(
                mul_div_spec(p.continent_frequency as int, ONE as int, 1349632),
                p.terrain_offset as int,
            ) as i64,
            roughness: 3u32,
        },
        Node::Terrace { child: off as usize, table: ttab as usize },
        Node::Cache { child: (off + 1) as usize },
    ]
}

/// Terrain-type definition: the continent field slightly warped, then
/// terraced to sharpen the shoreline, cached.
fn terrain_type_group(g: &mut Graph, s: i64, p: &ParameterSet, continent: usize) -> (h: usize)
    requires
        old(g).wf(),
        params_wf(*p),
        terrain_type_terrace_ascending(*p),
        -SEED_SPAN <= s <= SEED_SPAN,
        (continent as int) < old(g).len_spec(),
    ensures
        final(g).wf(),
        final(g).nodes_view() == old(g).nodes_view() + terrain_type_nodes(
            s,
            *p,
            old(g).len_spec() as int,
            old(g).terraces_view().len() as int,
            continent,
        ),
        final(g).curves_view() == old(g).curves_view(),
        final(g).terraces_view() == old(g).terraces_view().push(terrain_type_points(*p)),
        h as int == old(g).len_spec() + 2,
{
    let cf = p.continent_frequency;
    proof {
        lemma_mul_one_pos(cf as int, 1187840);
    }
    let tu = built(
        g.turbulence(
            continent,
            s + 20,
            mul_one(cf, 1187840),  // continent frequency * 18.125
            mul_one(mul_div(cf, ONE, 1349632), p.terrain_offset),  // cf / 20.59375 * offset
            3,
        ),
    );
    let mut pts: Vec<i64> = Vec::new();
    pts.push(-65536);
    pts.push(p.shelf_level + div_trunc(p.sea_level, 2));  // shelf + sea / 2
    pts.push(65536);
    proof {
        assert forall|j: int| 0 <= j < pts@.len() implies bounded(#[trigger] pts@[j] as int) by {}
        assert forall|j: int| 0 <= j < pts@.len() - 1 implies #[trigger] pts@[j] < pts@[j + 1] by {}
    }
    let te = built(g.terrace(tu, pts));
    let h = built(g.cache(te));
    proof {
        assert(pts@ =~= terrain_type_points(*p));
        assert(g.nodes_view() =~= old(g).nodes_view() + terrain_type_nodes(
            s,
            *p,
            old(g).len_spec() as int,
            old(g).terraces_view().len() as int,
            continent,
        ));
        assert(g.terraces_view() == old(g).terraces_view().push(terrain_type_points(*p)));
    }
    h
}

/// The nodes the mountain-base group appends.
pub open spec fn mountain_base_nodes(s: i64, p: ParameterSet, off: int) -> Seq<Node> {
    seq![
        Node::Fractal {
            kind: FractalKind::Ridged,
            seed: (s + 30) as i64,
            freq: 112918528i64,
            lacunarity: p.mountain_lacunarity,
            persistence: HALF,
            octaves: 4u32,
        },
        Node::ScaleBias { child: off as usize, scale: 32768i64, bias: 24576i64 },
        Node::Fractal {
            kind: FractalKind::Ridged,
            seed: (s + 31) as i64,
            freq: 24051712i64,
            lacunarity: p.mountain_lacunarity,
            persistence: HALF,
            octaves: 1u32,
        },
        Node::ScaleBias { child: (off + 2) as usize, scale: -131072i64, bias: -32768i64 },
        Node::Constant { value: -65536i64 },
        Node::Blend {
            low: (off + 4) as usize,
            high: (off + 1) as usize,
            control: (off + 3) as usize,
        },
        Node::Turbulence {
            child: (off + 5) as usize,
            seed: (s + 32) as i64,
            freq: 87621632i64,
            power: mul_div_spec(p.mountains_twist as int, ONE as int, 441057280) as i64,
            roughness: 4u32,
        },
        Node::Turbulence {
            child: (off + 6) as usize,
            seed: (s + 33) as i64,
            freq: 1390739456i64,
            power: mul_div_spec(p.mountains_twist as int, ONE as int, 7874609152) as i64,
            roughness: 6u32,
        },
        Node::Cache { child: (off + 7) as usize },
    ]
}

/// Mountain base definition: scaled mountain ranges blended against river
/// valleys, twisted by two turbulence passes, cached.
fn mountain_base_group(g: &mut Graph, s: i64, p: &ParameterSet) -> (h: usize)
    requires
        old(g).wf(),
        params_wf(*p),
        -SEED_SPAN <= s <= SEED_SPAN,
    ensures
        final(g).wf(),
        final(g).nodes_view() == old(g).nodes_view() + mountain_base_nodes(
            s,
            *p,
            old(g).len_spec() as int,
        ),
        final(g).curves_view() == old(g).curves_view(),
        final(g).terraces_view() == old(g).terraces_view(),
        h as int == old(g).len_spec() + 8,
{
    // Mountain ranges.
    let rm0 = built(
        g.fractal_gen(FractalKind::Ridged, s + 30, 112918528, p.mountain_lacunarity, HALF, 4),
    );  // frequency 1723
    let sb0 = built(g.scale_bias(rm0, 32768, 24576));  // scale 0.5, bias 0.375
    // River valleys: one octave at a much lower frequency.
    let rm1 = built(
        g.fractal_gen(FractalKind::Ridged, s + 31, 24051712, p.mountain_lacunarity, HALF, 1),
    );  // frequency 367
    let sb1 = built(g.scale_bias(rm1, -131072, -32768));  // scale -2, bias -0.5
    let co = built(g.constant(-65536));
    // Low areas stay smooth, high areas keep the ridges.
    let bl = built(g.blend(co, sb0, sb1));
    let tu0 = built(
        g.turbulence(
            bl,
            s + 32,
            87621632,  // frequency 1337
            mul_div(p.mountains_twist, ONE, 441057280),  // twist / 6730
            4,
        ),
    );
    let tu1 = built(
        g.turbulence(
            tu0,
            s + 33,
            1390739456,  // frequency 21221
            mul_div(p.mountains_twist, ONE, 7874609152),  // twist / 120157
            6,
        ),
    );
    let h = built(g.cache(tu1));
    proof {
        assert(g.nodes_view() =~= old(g).nodes_view() + mountain_base_nodes(
            s,
            *p,
            old(g).len_spec() as int,
        ));
    }
    h
}

/// The nodes the high-mountainous group appends.
pub open spec fn mountainous_high_nodes(s: i64, p: ParameterSet, off: int) -> Seq<Node> {
    seq![
        Node::Fractal {
            kind: FractalKind::Ridged,
            seed: (s + 40) as i64,
            freq: 155385856i64,
            lacunarity: p.mountain_lacunarity,
            persistence: HALF,
            octaves: 3u32,
        },
        Node::Fractal {
            kind: FractalKind::Ridged,
            seed: (s + 41) as i64,
            freq: 153419776i64,
            lacunarity: p.mountain_lacunarity,
            persistence: HALF,
            octaves: 3u32,
        },
        Node::Max { a: off as usize, b: (off + 1) as usize },
        Node::Turbulence {
            child: (off + 2) as usize,
            seed: (s + 42) as i64,
            freq: 2065104896i64,
            power: mul_div_spec(p.mountains_twist as int, ONE as int, 11820793856) as i64,
            roughness: 4u32,
        },
        Node::Cache { child: (off + 3) as usize },
    ]
}

/// High mountainous terrain: the larger of two ridged fields, roughened,
/// cached.
fn mountainous_high_group(g: &mut Graph, s: i64, p: &ParameterSet) -> (h: usize)
    requires
        old(g).wf(),
        params_wf(*p),
        -SEED_SPAN <= s <= SEED_SPAN,
    ensures
        final(g).wf(),
        final(g).nodes_view() == old(g).nodes_view() + mountainous_high_nodes(
            s,
            *p,
            old(g).len_spec() as int,
        ),
        final(g).curves_view() == old(g).curves_view(),
        final(g).terraces_view() == old(g).terraces_view(),
        h as int == old(g).len_spec() + 4,
{
    let rm0 = built(
        g.fractal_gen(FractalKind::Ridged, s + 40, 155385856, p.mountain_lacunarity, HALF, 3),
    );  // frequency 2371
    let rm1 = built(
        g.fractal_gen(FractalKind::Ridged, s + 41, 153419776, p.mountain_lacunarity, HALF, 3),
    );  // frequency 2341
    let ma = built(g.max_of(rm0, rm1));
    let tu = built(
        g.turbulence(
            ma,
            s + 42,
            2065104896,  // frequency 31511
            mul_div(p.mountains_twist, ONE, 11820793856),  // twist / 180371
            4,
        ),
    );
    let h = built(g.cache(tu));
    proof {
        assert(g.nodes_view() =~= old(g).nodes_view() + mountainous_high_nodes(
            s,
            *p,
            old(g).len_spec() as int,
        ));
    }
    h
}

/// The nodes the low-mountainous group appends.
pub open spec fn mountainous_low_nodes(s: i64, p: ParameterSet, off: int) -> Seq<Node> {
    seq![
        Node::Fractal {
            kind: FractalKind::Ridged,
            seed: (s + 50) as i64,
            freq: 90505216i64,
            lacunarity: p.mountain_lacunarity,
            persistence: HALF,
            octaves: 8u32,
        },
        Node::Fractal {
            kind: FractalKind::Ridged,
            seed: (s + 51) as i64,
            freq: 93519872i64,
            lacunarity: p.mountain_lacunarity,
            persistence: HALF,
            octaves: 8u32,
        },
        Node::Multiply { a: off as usize, b: (off + 1) as usize },
        Node::Cache { child: (off + 2) as usize },
    ]
}

/// Low mountainous terrain: the product of two ridged fields, cached.
fn mountainous_low_group(g: &mut Graph, s: i64, p: &ParameterSet) -> (h: usize)
    requires
        old(g).wf(),
        params_wf(*p),
        -SEED_SPAN <= s <= SEED_SPAN,
    ensures
        final(g).wf(),
        final(g).nodes_view() == old(g).nodes_view() + mountainous_low_nodes(
            s,
            *p,
            old(g).len_spec() as int,
        ),
        final(g).curves_view() == old(g).curves_view(),
        final(g).terraces_view() == old(g).terraces_view(),
        h as int == old(g).len_spec() + 3,
{
    let rm0 = built(
        g.fractal_gen(FractalKind::Ridged, s + 50, 90505216, p.mountain_lacunarity, HALF, 8),
    );  // frequency 1381
    let rm1 = built(
        g.fractal_gen(FractalKind::Ridged, s + 51, 93519872, p.mountain_lacunarity, HALF, 8),
    );  // frequency 1427
    let mu = built(g.multiply(rm0, rm1));
    let h = built(g.cache(mu));
    proof {
        assert(g.nodes_view() =~= old(g).nodes_view() + mountainous_low_nodes(
            s,
            *p,
            old(g).len_spec() as int,
        ));
    }
    h
}

/// The nodes the final-mountainous group appends.
pub open spec fn mountainous_terrain_nodes(
    p: ParameterSet,
    off: int,
    base: usize,
    high: usize,
    low: usize,
) -> Seq<Node> {
    seq![
        Node::ScaleBias { child: low, scale: 2048i64, bias: -63488i64 },
        Node::ScaleBias { child: high, scale: 16384i64, bias: 16384i64 },
        Node::Add { a: (off + 1) as usize, b: base },
        Node::Select {
            low: off as usize,
            high: (off + 2) as usize,
            control: base,
            lower: -32768i64,
            upper: 65503232i64,
            falloff: 32768i64,
        },
        Node::ScaleBias { child: (off + 3) as usize, scale: 52429i64, bias: 0i64 },
        Node::Exponent {
            child: (off + 4) as usize,
            num: p.mountain_glaciation_num,
            roots: p.mountain_glaciation_roots,
        },
        Node::Cache { child: (off + 5) as usize },
    ]
}

/// Final mountainous terrain: high terrain confined to the tops of the
/// mountain base, low terrain flattened below, glaciation applied, cached.
fn mountainous_terrain_group(
    g: &mut Graph,
    p: &ParameterSet,
    base: usize,
    high: usize,
    low: usize,
) -> (h: usize)
    requires
        old(g).wf(),
        params_wf(*p),
        (base as int) < old(g).len_spec(),
        (high as int) < old(g).len_spec(),
        (low as int) < old(g).len_spec(),
    ensures
        final(g).wf(),
        final(g).nodes_view() == old(g).nodes_view() + mountainous_terrain_nodes(
            *p,
            old(g).len_spec() as int,
            base,
            high,
            low,
        ),
        final(g).curves_view() == old(g).curves_view(),
        final(g).terraces_view() == old(g).terraces_view(),
        h as int == old(g).len_spec() + 6,
{
    let sb0 = built(g.scale_bias(low, 2048, -63488));  // scale 0.03125, bias -0.96875
    let sb1 = built(g.scale_bias(high, 16384, 16384));  // scale 0.25, bias 0.25
    let ad = built(g.add(sb1, base));
    // High terrain only where the mountain base rises.
    let se = built(
        g.select(
            sb0,
            ad,
            base,
            -32768,  // -0.5
            65503232,  // 999.5
            32768,  // falloff 0.5
        ),
    );
    let sb2 = built(g.scale_bias(se, 52429, 0));  // scale 0.8
    // Glaciation: the documented power-curve step of the pipeline.
    let ex = built(g.exponent(sb2, p.mountain_glaciation_num, p.mountain_glaciation_roots));
    let h = built(g.cache(ex));
    proof {
        assert(g.nodes_view() =~= old(g).nodes_view() + mountainous_terrain_nodes(
            *p,
            old(g).len_spec() as int,
            base,
            high,
            low,
        ));
    }
    h
}

/// The nodes the hilly-terrain group appends.
pub open spec fn hilly_nodes(s: i64, p: ParameterSet, off: int) -> Seq<Node> {
    seq![
        Node::Fractal {
            kind: FractalKind::Billow,
            seed: (s + 60) as i64,
            freq: 108986368i64,
            lacunarity: p.hills_lacunarity,
            persistence: HALF,
            octaves: 6u32,
        },
        Node::ScaleBias { child: off as usize, scale: 32768i64, bias: 32768i64 },
        Node::Fractal {
            kind: FractalKind::Ridged,
            seed: (s + 61) as i64,
            freq: 24084480i64,
            lacunarity: p.hills_lacunarity,
            persistence: HALF,
            octaves: 1u32,
        },
        Node::ScaleBias { child: (off + 2) as usize, scale: -131072i64, bias: -65536i64 },
        Node::Constant { value: -65536i64 },
        Node::Blend {
            low: (off + 4) as usize,
            high: (off + 3) as usize,
            control: (off + 1) as usize,
        },
        Node::ScaleBias { child: (off + 5) as usize, scale: 49152i64, bias: -16384i64 },
        Node::Exponent { child: (off + 6) as usize, num: 11u32, roots: 3u32 },
        Node::Turbulence {
            child: (off + 7) as usize,
            seed: (s + 62) as i64,
            freq: 100335616i64,
            power: mul_div_spec(p.hills_twist as int, ONE as int, 1108934656) as i64,
            roughness: 4u32,
        },
        Node::Turbulence {
            child: (off + 8) as usize,
            seed: (s + 63) as i64,
            freq: 1416691712i64,
            power: mul_div_spec(p.hills_twist as int, ONE as int, 7702380544) as i64,
            roughness: 6u32,
        },
        Node::Cache { child: (off + 9) as usize },
    ]
}

/// Hilly terrain: billowed hills against one-octave river valleys, steeper
/// slopes by a power curve, twisted by two turbulence passes, cached.
fn hilly_group(g: &mut Graph, s: i64, p: &ParameterSet) -> (h: usize)
    requires
        old(g).wf(),
        params_wf(*p),
        -SEED_SPAN <= s <= SEED_SPAN,
    ensures
        final(g).wf(),
        final(g).nodes_view() == old(g).nodes_view() + hilly_nodes(
            s,
            *p,
            old(g).len_spec() as int,
        ),
        final(g).curves_view() == old(g).curves_view(),
        final(g).terraces_view() == old(g).terraces_view(),
        h as int == old(g).len_spec() + 10,
{
    let bi = built(
        g.fractal_gen(FractalKind::Billow, s + 60, 108986368, p.hills_lacunarity, HALF, 6),
    );  // frequency 1663
    let sb0 = built(g.scale_bias(bi, 32768, 32768));  // scale 0.5, bias 0.5
    let rm = built(
        g.fractal_gen(FractalKind::Ridged, s + 61, 24084480, p.hills_lacunarity, HALF, 1),
    );  // frequency 367.5
    let sb1 = built(g.scale_bias(rm, -131072, -65536));  // scale -2, bias -1
    let co = built(g.constant(-65536));
    let bl = built(g.blend(co, sb1, sb0));
    let sb2 = built(g.scale_bias(bl, 49152, -16384));  // scale 0.75, bias -0.25
    let ex = built(g.exponent(sb2, 11, 3));  // exponent 11/8 = 1.375
    let tu0 = built(
        g.turbulence(
            ex,
            s + 62,
            100335616,  // frequency 1531
            mul_div(p.hills_twist, ONE, 1108934656),  // twist / 16921
            4,
        ),
    );
    let tu1 = built(
        g.turbulence(
            tu0,
            s + 63,
            1416691712,  // frequency 21617
            mul_div(p.hills_twist, ONE, 7702380544),  // twist / 117529
            6,
        ),
    );
    let h = built(g.cache(tu1));
    proof {
        assert(g.nodes_view() =~= old(g).nodes_view() + hilly_nodes(
            s,
            *p,
            old(g).len_spec() as int,
        ));
    }
    h
}

/// The nodes the plains group appends.
pub open spec fn plains_nodes(s: i64, p: ParameterSet, off: int) -> Seq<Node> {
    seq![
        Node::Fractal {
            kind: FractalKind::Billow,
            seed: (s + 70) as i64,
            freq: 71925760i64,
            lacunarity: p.plains_lacunarity,
            persistence: HALF,
            octaves: 8u32,
        },
        Node::ScaleBias { child: off as usize, scale: 32768i64, bias: 32768i64 },
        Node::Fractal {
            kind: FractalKind::Billow,
            seed: (s + 71) as i64,
            freq: 71925760i64,
            lacunarity: p.plains_lacunarity,
            persistence: HALF,
            octaves: 8u32,
        },
        Node::ScaleBias { child: (off + 2) as usize, scale: 32768i64, bias: 32768i64 },
        Node::Multiply { a: (off + 1) as usize, b: (off + 3) as usize },
        Node::ScaleBias { child: (off + 4) as usize, scale: 131072i64, bias: -65536i64 },
        Node::Cache { child: (off + 5) as usize },
    ]
}

/// Plains terrain: the product of two positive billow fields, remapped back
/// into the standard range, cached.
fn plains_group(g: &mut Graph, s: i64, p: &ParameterSet) -> (h: usize)
    requires
        old(g).wf(),
        params_wf(*p),
        -SEED_SPAN <= s <= SEED_SPAN,
    ensures
        final(g).wf(),
        final(g).nodes_view() == old(g).nodes_view() + plains_nodes(
            s,
            *p,
            old(g).len_spec() as int,
        ),
        final(g).curves_view() == old(g).curves_view(),
        final(g).terraces_view() == old(g).terraces_view(),
        h as int == old(g).len_spec() + 6,
{
    let bi0 = built(
        g.fractal_gen(FractalKind::Billow, s + 70, 71925760, p.plains_lacunarity, HALF, 8),
    );  // frequency 1097.5
    let sb0 = built(g.scale_bias(bi0, 32768, 32768));  // scale 0.5, bias 0.5
    let bi1 = built(
        g.fractal_gen(FractalKind::Billow, s + 71, 71925760, p.plains_lacunarity, HALF, 8),
    );
    let sb1 = built(g.scale_bias(bi1, 32768, 32768));
    let mu = built(g.multiply(sb0, sb1));
    let sb2 = built(g.scale_bias(mu, 131072, -65536));  // scale 2, bias -1
    let h = built(g.cache(sb2));
    proof {
        assert(g.nodes_view() =~= old(g).nodes_view() + plains_nodes(
            s,
            *p,
            old(g).len_spec() as int,
        ));
    }
    h
}

/// The nodes the badlands-sand group appends.
pub open spec fn badlands_sand_nodes(s: i64, p: ParameterSet, off: int) -> Seq<Node> {
    seq![
        Node::Fractal {
            kind: FractalKind::Ridged,
            seed: (s + 80) as i64,
            freq: 403931136i64,
            lacunarity: p.badlands_lacunarity,
            persistence: HALF,
            octaves: 1u32,
        },
        Node::ScaleBias { child: off as usize, scale: 57344i64, bias: 0i64 },
        Node::Cell { seed: (s + 81) as i64, freq: 1060585472i64 },
        Node::ScaleBias { child: (off + 2) as usize, scale: 16384i64, bias: 16384i64 },
        Node::Add { a: (off + 1) as usize, b: (off + 3) as usize },
        Node::Cache { child: (off + 4) as usize },
    ]
}

/// Badlands sand: smooth one-octave dunes with cell-noise detail, cached.
fn badlands_sand_group(g: &mut Graph, s: i64, p: &ParameterSet) -> (h: usize)
    requires
        old(g).wf(),
        params_wf(*p),
        -SEED_SPAN <= s <= SEED_SPAN,
    ensures
        final(g).wf(),
        final(g).nodes_view() == old(g).nodes_view() + badlands_sand_nodes(
            s,
            *p,
            old(g).len_spec() as int,
        ),
        final(g).curves_view() == old(g).curves_view(),
        final(g).terraces_view() == old(g).terraces_view(),
        h as int == old(g).len_spec() + 5,
{
    let rm = built(
        g.fractal_gen(FractalKind::Ridged, s + 80, 403931136, p.badlands_lacunarity, HALF, 1),
    );  // frequency 6163.5
    let sb0 = built(g.scale_bias(rm, 57344, 0));  // scale 0.875
    let wo = built(g.cell(s + 81, 1060585472));  // frequency 16183.25
    let sb1 = built(g.scale_bias(wo, 16384, 16384));  // scale 0.25, bias 0.25
    let ad = built(g.add(sb0, sb1));
    let h = built(g.cache(ad));
    proof {
        assert(g.nodes_view() =~= old(g).nodes_view() + badlands_sand_nodes(
            s,
            *p,
            old(g).len_spec() as int,
        ));
    }
    h
}

/// The control points of the badlands cliff curve.
pub open spec fn badlands_cliff_points() -> Seq<(i64, i64)> {
    seq![
        (-131072i64, -131072i64),
        (-65536i64, -65536i64),
        (0i64, -49152i64),
        (32768i64, -16384i64),
        (40960i64, 57344i64),
        (49152i64, 65536i64),
        (131072i64, 81920i64),
    ]
}

/// The terrace scalars of the badlands cliffs.
pub open spec fn badlands_terrace_points() -> Seq<i64> {
    seq![-65536i64, -57344i64, -49152i64, -32768i64, 0i64, 65536i64]
}

/// The nodes the badlands-cliffs group appends.
pub open spec fn badlands_cliffs_nodes(
    s: i64,
    p: ParameterSet,
    off: int,
    ctab: int,
    ttab: int,
) -> Seq<Node> {
    seq![
        Node::Fractal {
            kind: FractalKind::Standard,
            seed: (s + 90) as i64,
            freq: mul_one_spec(p.continent_frequency as int, 54984704) as i64,
            lacunarity: p.badlands_lacunarity,
            persistence: HALF,
            octaves: 6u32,
        },
        Node::Curve { child: off as usize, table: ctab as usize },
        Node::ClampNode { child: (off + 1) as usize, lo: -65478656i64, hi: 57344i64 },
        Node::Terrace { child: (off + 2) as usize, table: ttab as usize },
        Node::Turbulence {
            child: (off + 3) as usize,
            seed: (s + 91) as i64,
            freq: 1055850496i64,
            power: mul_div_spec(p.badlands_twist as int, ONE as int, 9275899904) as i64,
            roughness: 3u32,
        },
        Node::Turbulence {
            child: (off + 4) as usize,
            seed: (s + 92) as i64,
            freq: 2366308352i64,
            power: mul_div_spec(p.badlands_twist as int, ONE as int, 13863682048) as i64,
            roughness: 3u32,
        },
        Node::Cache { child: (off + 5) as usize },
    ]
}

/// Badlands cliffs: a curve-shaped fractal field, clamped, terraced into
/// stepped cliffs and twisted by two turbulence passes, cached.
#[verifier::rlimit(60)]
fn badlands_cliffs_group(g: &mut Graph, s: i64, p: &ParameterSet) -> (h: usize)
    requires
        old(g).wf(),
        params_wf(*p),
        -SEED_SPAN <= s <= SEED_SPAN,
    ensures
        final(g).wf(),
        final(g).nodes_view() == old(g).nodes_view() + badlands_cliffs_nodes(
            s,
            *p,
            old(g).len_spec() as int,
            old(g).curves_view().len() as int,
            old(g).terraces_view().len() as int,
        ),
        final(g).curves_view() == old(g).curves_view().push(badlands_cliff_points()),
        final(g).terraces_view() == old(g).terraces_view().push(badlands_terrace_points()),
        h as int == old(g).len_spec() + 6,
{
    let cf = p.continent_frequency;
    proof {
        lemma_mul_one_pos(cf as int, 54984704);
    }
    let fb = built(
        g.fractal_gen(
            FractalKind::Standard,
            s + 90,
            mul_one(cf, 54984704),  // continent frequency * 839
            p.badlands_lacunarity,
            HALF,
            6,
        ),
    );
    let mut pts: Vec<(i64, i64)> = Vec::new();
    pts.push((-131072i64, -131072i64));  // (-2, -2)
    pts.push((-65536i64, -65536i64));  // (-1, -1)
    pts.push((0i64, -49152i64));  // (0, -0.75)
    pts.push((32768i64, -16384i64));  // (0.5, -0.25)
    pts.push((40960i64, 57344i64));  // (0.625, 0.875)
    pts.push((49152i64, 65536i64));  // (0.75, 1)
    pts.push((131072i64, 81920i64));  // (2, 1.25)
    proof {
        assert forall|j: int| 0 <= j < pts@.len() implies bounded((#[trigger] pts@[j]).0 as int)
            && bounded(pts@[j].1 as int) by {}
        assert forall|j: int| 0 <= j < pts@.len() - 1 implies #[trigger] pts@[j].0 < pts@[j
            + 1].0 by {}
    }
    let cu = built(g.curve(fb, pts));
    let cl = built(g.clamp_of(cu, -65478656, 57344));  // [-999.125, 0.875]
    let mut tpts: Vec<i64> = Vec::new();
    tpts.push(-65536i64);  // -1
    tpts.push(-57344i64);  // -0.875
    tpts.push(-49152i64);  // -0.75
    tpts.push(-32768i64);  // -0.5
    tpts.push(0i64);
    tpts.push(65536i64);  // 1
    proof {
        assert forall|j: int| 0 <= j < tpts@.len() implies bounded(#[trigger] tpts@[j] as int) by {}
        assert forall|j: int| 0 <= j < tpts@.len() - 1 implies #[trigger] tpts@[j] < tpts@[j
            + 1] by {}
    }
    let te = built(g.terrace(cl, tpts));
    let tu0 = built(
        g.turbulence(
            te,
            s + 91,
            1055850496,  // frequency 16111
            mul_div(p.badlands_twist, ONE, 9275899904),  // twist / 141539
            3,
        ),
    );
    let tu1 = built(
        g.turbulence(
            tu0,
            s + 92,
            2366308352,  // frequency 36107
            mul_div(p.badlands_twist, ONE, 13863682048),  // twist / 211543
            3,
        ),
    );
    let h = built(g.cache(tu1));
    proof {
        assert(pts@ =~= badlands_cliff_points());
        assert(tpts@ =~= badlands_terrace_points());
        assert(g.nodes_view() =~= old(g).nodes_view() + badlands_cliffs_nodes(
            s,
            *p,
            old(g).len_spec() as int,
            old(g).curves_view().len() as int,
            old(g).terraces_view().len() as int,
        ));
    }
    h
}

/// The nodes the badlands-terrain group appends.
pub open spec fn badlands_terrain_nodes(off: int, sand: usize, cliffs: usize) -> Seq<Node> {
    seq![
        Node::ScaleBias { child: sand, scale: 16384i64, bias: -49152i64 },
        Node::Max { a: cliffs, b: off as usize },
        Node::Cache { child: (off + 1) as usize },
    ]
}

/// Badlands terrain: flattened sand in the low areas, cliffs above, cached.
fn badlands_terrain_group(g: &mut Graph, sand: usize, cliffs: usize) -> (h: usize)
    requires
        old(g).wf(),
        (sand as int) < old(g).len_spec(),
        (cliffs as int) < old(g).len_spec(),
    ensures
        final(g).wf(),
        final(g).nodes_view() == old(g).nodes_view() + badlands_terrain_nodes(
            old(g).len_spec() as int,
            sand,
            cliffs,
        ),
        final(g).curves_view() == old(g).curves_view(),
        final(g).terraces_view() == old(g).terraces_view(),
        h as int == old(g).len_spec() + 2,
{
    let sb = built(g.scale_bias(sand, 16384, -49152));  // scale 0.25, bias -0.75
    let ma = built(g.max_of(cliffs, sb));
    let h = built(g.cache(ma));
    proof {
        assert(g.nodes_view() =~= old(g).nodes_view() + badlands_terrain_nodes(
            old(g).len_spec() as int,
            sand,
            cliffs,
        ));
    }
    h
}

/// The control points that invert the deep-river field.
pub open spec fn river_deep_points() -> Seq<(i64, i64)> {
    seq![
        (-131072i64, 131072i64),
        (-65536i64, 65536i64),
        (-8192i64, 57344i64),
        (0i64, -65536i64),
        (65536i64, -98304i64),
        (131072i64, -131072i64),
    ]
}

/// The control points that invert the shallow-river field.
pub open spec fn river_shallow_points() -> Seq<(i64, i64)> {
    seq![
        (-131072i64, 131072i64),
        (-65536i64, 98304i64),
        (-8192i64, 94208i64),
        (0i64, 32768i64),
        (65536i64, 16384i64),
        (131072i64, 0i64),
    ]
}

/// The nodes the river-positions group appends.
pub open spec fn river_nodes(s: i64, p: ParameterSet, off: int, ctab: int) -> Seq<Node> {
    seq![
        Node::Fractal {
            kind: FractalKind::Ridged,
            seed: (s + 100) as i64,
            freq: 1228800i64,
            lacunarity: p.continent_lacunarity,
            persistence: HALF,
            octaves: 1u32,
        },
        Node::Curve { child: off as usize, table: ctab as usize },
        Node::Fractal {
            kind: FractalKind::Ridged,
            seed: (s + 101) as i64,
            freq: 2834432i64,
            lacunarity: p.continent_lacunarity,
            persistence: HALF,
            octaves: 1u32,
        },
        Node::Curve { child: (off + 2) as usize, table: (ctab + 1) as usize },
        Node::Min { a: (off + 1) as usize, b: (off + 3) as usize },
        Node::Turbulence {
            child: (off + 4) as usize,
            seed: (s + 102) as i64,
            freq: 606208i64,
            power: mul_div_spec(ONE as int, ONE as int, 3784704) as i64,
            roughness: 6u32,
        },
        Node::Cache { child: (off + 5) as usize },
    ]
}

/// River positions: deep and shallow river fields, both curve-inverted,
/// combined and lightly twisted, cached.
#[verifier::rlimit(60)]
fn river_group(g: &mut Graph, s: i64, p: &ParameterSet) -> (h: usize)
    requires
        old(g).wf(),
        params_wf(*p),
        -SEED_SPAN <= s <= SEED_SPAN,
    ensures
        final(g).wf(),
        final(g).nodes_view() == old(g).nodes_view() + river_nodes(
            s,
            *p,
            old(g).len_spec() as int,
            old(g).curves_view().len() as int,
        ),
        final(g).curves_view() == old(g).curves_view().push(river_deep_points()).push(
            river_shallow_points(),
        ),
        final(g).terraces_view() == old(g).terraces_view(),
        h as int == old(g).len_spec() + 6,
{
    let rm0 = built(
        g.fractal_gen(FractalKind::Ridged, s + 100, 1228800, p.continent_lacunarity, HALF, 1),
    );  // frequency 18.75
    let mut pts0: Vec<(i64, i64)> = Vec::new();
    pts0.push((-131072i64, 131072i64));  // (-2, 2)
    pts0.push((-65536i64, 65536i64));  // (-1, 1)
    pts0.push((-8192i64, 57344i64));  // (-0.125, 0.875)
    pts0.push((0i64, -65536i64));  // (0, -1)
    pts0.push((65536i64, -98304i64));  // (1, -1.5)
    pts0.push((131072i64, -131072i64));  // (2, -2)
    proof {
        assert forall|j: int| 0 <= j < pts0@.len() implies bounded((#[trigger] pts0@[j]).0 as int)
            && bounded(pts0@[j].1 as int) by {}
        assert forall|j: int| 0 <= j < pts0@.len() - 1 implies #[trigger] pts0@[j].0 < pts0@[j
            + 1].0 by {}
    }
    let cu0 = built(g.curve(rm0, pts0));
    let rm1 = built(
        g.fractal_gen(FractalKind::Ridged, s + 101, 2834432, p.continent_lacunarity, HALF, 1),
    );  // frequency 43.25
    let mut pts1: Vec<(i64, i64)> = Vec::new();
    pts1.push((-131072i64, 131072i64));  // (-2, 2)
    pts1.push((-65536i64, 98304i64));  // (-1, 1.5)
    pts1.push((-8192i64, 94208i64));  // (-0.125, 1.4375)
    pts1.push((0i64, 32768i64));  // (0, 0.5)
    pts1.push((65536i64, 16384i64));  // (1, 0.25)
    pts1.push((131072i64, 0i64));  // (2, 0)
    proof {
        assert forall|j: int| 0 <= j < pts1@.len() implies bounded((#[trigger] pts1@[j]).0 as int)
            && bounded(pts1@[j].1 as int) by {}
        assert forall|j: int| 0 <= j < pts1@.len() - 1 implies #[trigger] pts1@[j].0 < pts1@[j
            + 1].0 by {}
    }
    let cu1 = built(g.curve(rm1, pts1));
    let mi = built(g.min_of(cu0, cu1));
    let tu = built(
        g.turbulence(
            mi,
            s + 102,
            606208,  // frequency 9.25
            mul_div(ONE, ONE, 3784704),  // 1 / 57.75
            6,
        ),
    );
    let h = built(g.cache(tu));
    proof {
        assert(pts0@ =~= river_deep_points());
        assert(pts1@ =~= river_shallow_points());
        assert(g.nodes_view() =~= old(g).nodes_view() + river_nodes(
            s,
            *p,
            old(g).len_spec() as int,
            old(g).curves_view().len() as int,
        ));
    }
    h
}

/// The nodes the scaled-mountainous group appends.
pub open spec fn scaled_mountainous_nodes(
    s: i64,
    p: ParameterSet,
    off: int,
    mountainous: usize,
) -> Seq<Node> {
    seq![
        Node::ScaleBias { child: mountainous, scale: 8192i64, bias: 8192i64 },
        Node::Fractal {
            kind: FractalKind::Standard,
            seed: (s + 110) as i64,
            freq: 950272i64,
            lacunarity: p.mountain_lacunarity,
            persistence: HALF,
            octaves: 6u32,
        },
        Node::Exponent { child: (off + 1) as usize, num: 5u32, roots: 2u32 },
        Node::ScaleBias { child: (off + 2) as usize, scale: 16384i64, bias: 65536i64 },
        Node::Multiply { a: off as usize, b: (off + 3) as usize },
        Node::Cache { child: (off + 4) as usize },
    ]
}

/// Scaled mountainous terrain: mountain heights moved into planetary units
/// and randomized by an exponent-shaped fractal field, cached.
fn scaled_mountainous_group(g: &mut Graph, s: i64, p: &ParameterSet, mountainous: usize) -> (h:
    usize)
    requires
        old(g).wf(),
        params_wf(*p),
        -SEED_SPAN <= s <= SEED_SPAN,
        (mountainous as int) < old(g).len_spec(),
    ensures
        final(g).wf(),
        final(g).nodes_view() == old(g).nodes_view() + scaled_mountainous_nodes(
            s,
            *p,
            old(g).len_spec() as int,
            mountainous,
        ),
        final(g).curves_view() == old(g).curves_view(),
        final(g).terraces_view() == old(g).terraces_view(),
        h as int == old(g).len_spec() + 5,
{
    let sb0 = built(g.scale_bias(mountainous, 8192, 8192));  // scale 0.125, bias 0.125
    let fb = built(
        g.fractal_gen(FractalKind::Standard, s + 110, 950272, p.mountain_lacunarity, HALF, 6),
    );  // frequency 14.5
    let ex = built(g.exponent(fb, 5, 2));  // exponent 5/4 = 1.25
    let sb1 = built(g.scale_bias(ex, 16384, 65536));  // scale 0.25, bias 1
    let mu = built(g.multiply(sb0, sb1));
    let h = built(g.cache(mu));
    proof {
        assert(g.nodes_view() =~= old(g).nodes_view() + scaled_mountainous_nodes(
            s,
            *p,
            old(g).len_spec() as int,
            mountainous,
        ));
    }
    h
}

/// The nodes the scaled-hilly group appends.
pub open spec fn scaled_hilly_nodes(s: i64, p: ParameterSet, off: int, hilly: usize) -> Seq<
    Node,
> {
    seq![
        Node::ScaleBias { child: hilly, scale: 4096i64, bias: 4096i64 },
        Node::Fractal {
            kind: FractalKind::Standard,
            seed: (s + 120) as i64,
            freq: 884736i64,
            lacunarity: p.hills_lacunarity,
            persistence: HALF,
            octaves: 6u32,
        },
        Node::Exponent { child: (off + 1) as usize, num: 5u32, roots: 2u32 },
        Node::ScaleBias { child: (off + 2) as usize, scale: 32768i64, bias: 98304i64 },
        Node::Multiply { a: off as usize, b: (off + 3) as usize },
        Node::Cache { child: (off + 4) as usize },
    ]
}

/// Scaled hilly terrain: hill heights moved into planetary units, at half
/// the mountain scale, randomized the same way, cached.
fn scaled_hilly_group(g: &mut Graph, s: i64, p: &ParameterSet, hilly: usize) -> (h: usize)
    requires
        old(g).wf(),
        params_wf(*p),
        -SEED_SPAN <= s <= SEED_SPAN,
        (hilly as int) < old(g).len_spec(),
    ensures
        final(g).wf(),
        final(g).nodes_view() == old(g).nodes_view() + scaled_hilly_nodes(
            s,
            *p,
            old(g).len_spec() as int,
            hilly,
        ),
        final(g).curves_view() == old(g).curves_view(),
        final(g).terraces_view() == old(g).terraces_view(),
        h as int == old(g).len_spec() + 5,
{
    let sb0 = built(g.scale_bias(hilly, 4096, 4096));  // scale 0.0625, bias 0.0625
    let fb = built(
        g.fractal_gen(FractalKind::Standard, s + 120, 884736, p.hills_lacunarity, HALF, 6),
    );  // frequency 13.5
    let ex = built(g.exponent(fb, 5, 2));  // exponent 5/4 = 1.25
    let sb1 = built(g.scale_bias(ex, 32768, 98304));  // scale 0.5, bias 1.5
    let mu = built(g.multiply(sb0, sb1));
    let h = built(g.cache(mu));
    proof {
        assert(g.nodes_view() =~= old(g).nodes_view() + scaled_hilly_nodes(
            s,
            *p,
            old(g).len_spec() as int,
            hilly,
        ));
    }
    h
}

/// The nodes the final-assembly group appends.
pub open spec fn elevation_nodes(
    off: int,
    continent: usize,
    terrain_type: usize,
    scaled_mountainous: usize,
    scaled_hilly: usize,
    rivers: usize,
) -> Seq<Node> {
    seq![
        Node::Select {
            low: scaled_hilly,
            high: scaled_mountainous,
            control: terrain_type,
            lower: 16384i64,
            upper: 65536000i64,
            falloff: 16384i64,
        },
        Node::Add { a: continent, b: off as usize },
        Node::ScaleBias { child: rivers, scale: -4096i64, bias: 0i64 },
        Node::Add { a: (off + 1) as usize, b: (off + 2) as usize },
        Node::ClampNode { child: (off + 3) as usize, lo: -65536i64, hi: 65536i64 },
        Node::Cache { child: (off + 4) as usize },
    ]
}

/// Final assembly: the scaled terrain selected by the terrain-type map is
/// added to the continent elevation, rivers are carved, and the result is
/// clamped into planetary units, cached.
fn elevation_group(
    g: &mut Graph,
    continent: usize,
    terrain_type: usize,
    scaled_mountainous: usize,
    scaled_hilly: usize,
    rivers: usize,
) -> (h: usize)
    requires
        old(g).wf(),
        (continent as int) < old(g).len_spec(),
        (terrain_type as int) < old(g).len_spec(),
        (scaled_mountainous as int) < old(g).len_spec(),
        (scaled_hilly as int) < old(g).len_spec(),
        (rivers as int) < old(g).len_spec(),
    ensures
        final(g).wf(),
        final(g).nodes_view() == old(g).nodes_view() + elevation_nodes(
            old(g).len_spec() as int,
            continent,
            terrain_type,
            scaled_mountainous,
            scaled_hilly,
            rivers,
        ),
        final(g).curves_view() == old(g).curves_view(),
        final(g).terraces_view() == old(g).terraces_view(),
        h as int == old(g).len_spec() + 5,
{
    // Rough terrain types get the mountain contribution, smooth ones the
    // hill contribution, with a smooth transition between them.
    let se = built(
        g.select(
            scaled_hilly,
            scaled_mountainous,
            terrain_type,
            16384,  // 0.25
            65536000,  // 1000
            16384,  // falloff 0.25
        ),
    );
    let base = built(g.add(continent, se));
    // Carve rivers slightly into the combined elevation.
    let riv = built(g.scale_bias(rivers, -4096, 0));  // scale -0.0625
    let carved = built(g.add(base, riv));
    let cl = built(g.clamp_of(carved, -65536, 65536));
    let h = built(g.cache(cl));
    proof {
        assert(g.nodes_view() =~= old(g).nodes_view() + elevation_nodes(
            old(g).len_spec() as int,
            continent,
            terrain_type,
            scaled_mountainous,
            scaled_hilly,
            rivers,
        ));
    }
    h
}

/// The complete node sequence of the terrain pipeline for a seed and a
/// parameter set: the groups in build order, at their fixed offsets.
pub open spec fn terrain_nodes_spec(seed: i64, p: ParameterSet) -> Seq<Node> {
    base_continent_nodes(seed, p, 0, 0) + continent_def_nodes(seed, p, 7, 6usize)
        + terrain_type_nodes(seed, p, 12, 0, 11usize) + mountain_base_nodes(seed, p, 15)
        + mountainous_high_nodes(seed, p, 24) + mountainous_low_nodes(seed, p, 29)
        + mountainous_terrain_nodes(p, 33, 23usize, 28usize, 32usize) + hilly_nodes(seed, p, 40)
        + plains_nodes(seed, p, 51) + badlands_sand_nodes(seed, p, 58)
        + badlands_cliffs_nodes(seed, p, 64, 1, 1) + badlands_terrain_nodes(71, 63usize, 70usize)
        + river_nodes(seed, p, 74, 2) + scaled_mountainous_nodes(seed, p, 81, 39usize)
        + scaled_hilly_nodes(seed, p, 87, 50usize) + elevation_nodes(
        93,
        11usize,
        14usize,
        86usize,
        92usize,
        80usize,
    )
}

/// The curve tables of the pipeline, in build order.
pub open spec fn terrain_curves_spec(p: ParameterSet) -> Seq<Seq<(i64, i64)>> {
    seq![
        base_continent_points(p),
        badlands_cliff_points(),
        river_deep_points(),
        river_shallow_points(),
    ]
}

/// The terrace tables of the pipeline, in build order.
pub open spec fn terrain_terraces_spec(p: ParameterSet) -> Seq<Seq<i64>> {
    seq![terrain_type_points(p), badlands_terrace_points()]
}

/// The fixed handles of the pipeline's group outputs.
pub open spec fn terrain_handles_spec() -> GroupHandles {
    GroupHandles {
        continent_def: 11usize,
        terrain_type_def: 14usize,
        mountainous_terrain: 39usize,
        hilly_terrain: 50usize,
        plains_terrain: 57usize,
        badlands_terrain: 73usize,
        river_positions: 80usize,
        scaled_mountainous_terrain: 86usize,
        scaled_hilly_terrain: 92usize,
        elevation: 98usize,
    }
}

/// One of the pipeline's named group outputs.
#[derive(Clone, Copy, Debug, PartialEq, Eq, Structural)]
pub enum TerrainGroup {
    ContinentDefinition,
    TerrainTypeDefinition,
    MountainousTerrain,
    HillyTerrain,
    PlainsTerrain,
    BadlandsTerrain,
    RiverPositions,
    ScaledMountainousTerrain,
    ScaledHillyTerrain,
    Elevation,
}

/// A built terrain graph with its named group outputs.
pub struct TerrainGraph {
    g: Graph,
    handles: GroupHandles,
    sea_level: i64,
}

impl TerrainGraph {
    /// The node sequence of the underlying graph.
    pub closed spec fn nodes_spec(self) -> Seq<Node> {
        self.g.nodes_view()
    }

    /// The curve tables of the underlying graph.
    pub closed spec fn curves_spec(self) -> Seq<Seq<(i64, i64)>> {
        self.g.curves_view()
    }

    /// The terrace tables of the underlying graph.
    pub closed spec fn terraces_spec(self) -> Seq<Seq<i64>> {
        self.g.terraces_view()
    }

    /// The named group handles.
    pub closed spec fn handles_spec(self) -> GroupHandles {
        self.handles
    }

    /// The sea level the classification uses.
    pub closed spec fn sea_spec(self) -> int {
        self.sea_level as int
    }

    /// The underlying graph is well formed and every group handle is valid.
    pub open spec fn wf(self) -> bool {
        &&& self.graph_wf_spec()
        &&& (self.handles_spec().continent_def as int) < self.nodes_spec().len()
        &&& (self.handles_spec().terrain_type_def as int) < self.nodes_spec().len()
        &&& (self.handles_spec().mountainous_terrain as int) < self.nodes_spec().len()
        &&& (self.handles_spec().hilly_terrain as int) < self.nodes_spec().len()
        &&& (self.handles_spec().plains_terrain as int) < self.nodes_spec().len()
        &&& (self.handles_spec().badlands_terrain as int) < self.nodes_spec().len()
        &&& (self.handles_spec().river_positions as int) < self.nodes_spec().len()
        &&& (self.handles_spec().scaled_mountainous_terrain as int) < self.nodes_spec().len()
        &&& (self.handles_spec().scaled_hilly_terrain as int) < self.nodes_spec().len()
        &&& (self.handles_spec().elevation as int) < self.nodes_spec().len()
        &&& bounded(self.sea_spec())
    }

    /// The underlying graph's own well-formedness.
    pub closed spec fn graph_wf_spec(self) -> bool {
        self.g.wf()
    }

    /// The mathematical value of the group output `h` at a coordinate.
    pub open spec fn value_at(self, h: int, x: int, y: int, z: int) -> int {
        eval_spec(self.nodes_spec(), self.curves_spec(), self.terraces_spec(), h, x, y, z)
    }

    /// The elevation the graph assigns to a coordinate.
    pub open spec fn elevation_at(self, x: int, y: int, z: int) -> int {
        self.value_at(self.handles_spec().elevation as int, x, y, z)
    }

    /// The terrain class the graph assigns to a coordinate.
    pub open spec fn class_at(self, x: int, y: int, z: int) -> TerrainClass {
        classify_spec(
            self.value_at(self.handles_spec().continent_def as int, x, y, z),
            self.value_at(self.handles_spec().terrain_type_def as int, x, y, z),
            self.value_at(self.handles_spec().badlands_terrain as int, x, y, z),
            self.sea_spec(),
        )
    }

    /// The handle of one named group output.
    pub open spec fn group_handle(self, group: TerrainGroup) -> int {
        match group {
            TerrainGroup::ContinentDefinition => self.handles_spec().continent_def as int,
            TerrainGroup::TerrainTypeDefinition => self.handles_spec().terrain_type_def as int,
            TerrainGroup::MountainousTerrain => self.handles_spec().mountainous_terrain as int,
            TerrainGroup::HillyTerrain => self.handles_spec().hilly_terrain as int,
            TerrainGroup::PlainsTerrain => self.handles_spec().plains_terrain as int,
            TerrainGroup::BadlandsTerrain => self.handles_spec().badlands_terrain as int,
            TerrainGroup::RiverPositions => self.handles_spec().river_positions as int,
            TerrainGroup::ScaledMountainousTerrain => self.handles_spec(
            ).scaled_mountainous_terrain as int,
            TerrainGroup::ScaledHillyTerrain => self.handles_spec().scaled_hilly_terrain as int,
            TerrainGroup::Elevation => self.handles_spec().elevation as int,
        }
    }

    /// Read one named group output at a coordinate (clamped into the
    /// evaluator's working range): the reusable intermediate fields of the
    /// pipeline, for callers that want more than the final elevation.
    pub fn group_value(&mut self, group: TerrainGroup, x: i64, y: i64, z: i64) -> (r: i64)
        requires
            old(self).wf(),
        ensures
            final(self).wf(),
            final(self).nodes_spec() == old(self).nodes_spec(),
            final(self).curves_spec() == old(self).curves_spec(),
            final(self).terraces_spec() == old(self).terraces_spec(),
            final(self).handles_spec() == old(self).handles_spec(),
            final(self).sea_spec() == old(self).sea_spec(),
            r as int == old(self).value_at(
                old(self).group_handle(group),
                clamp_spec(x as int, -LIMIT as int, LIMIT as int),
                clamp_spec(y as int, -LIMIT as int, LIMIT as int),
                clamp_spec(z as int, -LIMIT as int, LIMIT as int),
            ),
            bounded(r as int),
    {
        let cx = iclamp(x, -LIMIT, LIMIT);
        let cy = iclamp(y, -LIMIT, LIMIT);
        let cz = iclamp(z, -LIMIT, LIMIT);
        let h = match group {
            TerrainGroup::ContinentDefinition => self.handles.continent_def,
            TerrainGroup::TerrainTypeDefinition => self.handles.terrain_type_def,
            TerrainGroup::MountainousTerrain => self.handles.mountainous_terrain,
            TerrainGroup::HillyTerrain => self.handles.hilly_terrain,
            TerrainGroup::PlainsTerrain => self.handles.plains_terrain,
            TerrainGroup::BadlandsTerrain => self.handles.badlands_terrain,
            TerrainGroup::RiverPositions => self.handles.river_positions,
            TerrainGroup::ScaledMountainousTerrain => self.handles.scaled_mountainous_terrain,
            TerrainGroup::ScaledHillyTerrain => self.handles.scaled_hilly_terrain,
            TerrainGroup::Elevation => self.handles.elevation,
        };
        self.g.eval(h, cx, cy, cz)
    }

    /// Sample the terrain at a coordinate (in Q16.16 planetary units,
    /// clamped into the evaluator's working range).
    ///
    /// The sample is a pure function of the graph's structure and the
    /// coordinate: the cache slots sampling fills can never change a later
    /// sample's value.
    pub fn sample(&mut self, x: i64, y: i64, z: i64) -> (s: TerrainSample)
        requires
            old(self).wf(),
        ensures
            final(self).wf(),
            final(self).nodes_spec() == old(self).nodes_spec(),
            final(self).curves_spec() == old(self).curves_spec(),
            final(self).terraces_spec() == old(self).terraces_spec(),
            final(self).handles_spec() == old(self).handles_spec(),
            final(self).sea_spec() == old(self).sea_spec(),
            s.elevation as int == old(self).elevation_at(
                clamp_spec(x as int, -LIMIT as int, LIMIT as int),
                clamp_spec(y as int, -LIMIT as int, LIMIT as int),
                clamp_spec(z as int, -LIMIT as int, LIMIT as int),
            ),
            s.class == old(self).class_at(
                clamp_spec(x as int, -LIMIT as int, LIMIT as int),
                clamp_spec(y as int, -LIMIT as int, LIMIT as int),
                clamp_spec(z as int, -LIMIT as int, LIMIT as int),
            ),
            bounded(s.elevation as int),
    {
        let cx = iclamp(x, -LIMIT, LIMIT);
        let cy = iclamp(y, -LIMIT, LIMIT);
        let cz = iclamp(z, -LIMIT, LIMIT);
        let elevation = self.g.eval(self.handles.elevation, cx, cy, cz);
        let continent = self.g.eval(self.handles.continent_def, cx, cy, cz);
        let terrain_type = self.g.eval(self.handles.terrain_type_def, cx, cy, cz);
        let badlands = self.g.eval(self.handles.badlands_terrain, cx, cy, cz);
        let class = classify(continent, terrain_type, badlands, self.sea_level);
        TerrainSample { elevation, class }
    }
}

/// Build the terrain graph for a seed and a parameter set.
///
/// Succeeds for every parameter set within the machine-forced ranges whose
/// derived control-point tables are strictly ascending, and for every seed
/// within `[-SEED_SPAN, SEED_SPAN]`; the graph is then well formed and
/// ready to sample.  A parameter outside its machine range (or a seed
/// outside the span) is rejected as `InvalidParameter`; a parameter set
/// whose terrain-type terrace scalars would not ascend is rejected as
/// `UnsortedControlPoints`.
#[verifier::rlimit(100)]
pub fn build_graph(seed: i64, params: &ParameterSet) -> (r: Result<TerrainGraph, ConfigError>)
    ensures
        match r {
            Ok(t) => {
                &&& t.wf()
                &&& t.sea_spec() == params.sea_level as int
                &&& t.nodes_spec() == terrain_nodes_spec(seed, *params)
                &&& t.curves_spec() == terrain_curves_spec(*params)
                &&& t.terraces_spec() == terrain_terraces_spec(*params)
                &&& t.handles_spec() == terrain_handles_spec()
                &&& params_wf(*params)
                &&& terrain_type_terrace_ascending(*params)
                &&& -SEED_SPAN <= seed <= SEED_SPAN
            },
            Err(e) => {
                &&& !(params_wf(*params) && terrain_type_terrace_ascending(*params) && -SEED_SPAN
                    <= seed <= SEED_SPAN)
                &&& if params_wf(*params) && -SEED_SPAN <= seed <= SEED_SPAN {
                    e == ConfigError::UnsortedControlPoints
                } else {
                    e == ConfigError::InvalidParameter
                }
            },
        },
        r is Ok <==> (params_wf(*params) && terrain_type_terrace_ascending(*params) && -SEED_SPAN
            <= seed <= SEED_SPAN),
{
    if seed < -SEED_SPAN || seed > SEED_SPAN {
        return Err(ConfigError::InvalidParameter);
    }
    match params.validate() {
        Ok(_) => {},
        Err(e) => {
            return Err(e);
        },
    }
    let terrace_mid = params.shelf_level + div_trunc(params.sea_level, 2);
    if !(-ONE < terrace_mid && terrace_mid < ONE) {
        return Err(ConfigError::UnsortedControlPoints);
    }
    let mut g = Graph::new();
    let base_continent_def = base_continent_group(&mut g, seed, params);
    let continent_def = continent_def_group(&mut g, seed, params, base_continent_def);
    let terrain_type_def = terrain_type_group(&mut g, seed, params, continent_def);
    let mountain_base_def = mountain_base_group(&mut g, seed, params);
    let mountainous_high = mountainous_high_group(&mut g, seed, params);
    let mountainous_low = mountainous_low_group(&mut g, seed, params);
    let mountainous_terrain = mountainous_terrain_group(
        &mut g,
        params,
        mountain_base_def,
        mountainous_high,
        mountainous_low,
    );
    let hilly_terrain = hilly_group(&mut g, seed, params);
    let plains_terrain = plains_group(&mut g, seed, params);
    let badlands_sand = badlands_sand_group(&mut g, seed, params);
    let badlands_cliffs = badlands_cliffs_group(&mut g, seed, params);
    let badlands_terrain = badlands_terrain_group(&mut g, badlands_sand, badlands_cliffs);
    let river_positions = river_group(&mut g, seed, params);
    let scaled_mountainous_terrain = scaled_mountainous_group(
        &mut g,
        seed,
        params,
        mountainous_terrain,
    );
    let scaled_hilly_terrain = scaled_hilly_group(&mut g, seed, params, hilly_terrain);
    let elevation = elevation_group(
        &mut g,
        continent_def,
        terrain_type_def,
        scaled_mountainous_terrain,
        scaled_hilly_terrain,
        river_positions,
    );
    proof {
        assert(g.nodes_view() =~= terrain_nodes_spec(seed, *params));
        assert(g.curves_view() =~= terrain_curves_spec(*params));
        assert(g.terraces_view() =~= terrain_terraces_spec(*params));
    }
    Ok(
        TerrainGraph {
            g,
            handles: GroupHandles {
                continent_def,
                terrain_type_def,
                mountainous_terrain,
                hilly_terrain,
                plains_terrain,
                badlands_terrain,
                river_positions,
                scaled_mountainous_terrain,
                scaled_hilly_terrain,
                elevation,
            },
            sea_level: params.sea_level,
        },
    )
}

/// Two graphs built from the same seed and parameter set (so their
/// structure is `terrain_nodes_spec` of those inputs, as `build_graph`
/// guarantees) assign every coordinate the same elevation and the same
/// class, whatever has been sampled on either of them before.
pub proof fn lemma_equal_builds_sample_equally(
    t1: TerrainGraph,
    t2: TerrainGraph,
    seed: i64,
    p: ParameterSet,
    x: int,
    y: int,
    z: int,
)
    requires
        t1.nodes_spec() == terrain_nodes_spec(seed, p),
        t2.nodes_spec() == terrain_nodes_spec(seed, p),
        t1.curves_spec() == terrain_curves_spec(p),
        t2.curves_spec() == terrain_curves_spec(p),
        t1.terraces_spec() == terrain_terraces_spec(p),
        t2.terraces_spec() == terrain_terraces_spec(p),
        t1.handles_spec() == terrain_handles_spec(),
        t2.handles_spec() == terrain_handles_spec(),
        t1.sea_spec() == p.sea_level as int,
        t2.sea_spec() == p.sea_level as int,
    ensures
        t1.elevation_at(x, y, z) == t2.elevation_at(x, y, z),
        t1.class_at(x, y, z) == t2.class_at(x, y, z),
{
    lemma_sample_deterministic(t1, t2, x, y, z);
}

/// Two terrain graphs with the same structure assign every coordinate the
/// same elevation and the same class: sampling is deterministic, and no
/// cache state or query history can make two equally built graphs differ.
pub proof fn lemma_sample_deterministic(t1: TerrainGraph, t2: TerrainGraph, x: int, y: int, z: int)
    requires
        t1.nodes_spec() == t2.nodes_spec(),
        t1.curves_spec() == t2.curves_spec(),
        t1.terraces_spec() == t2.terraces_spec(),
        t1.handles_spec() == t2.handles_spec(),
        t1.sea_spec() == t2.sea_spec(),
    ensures
        t1.elevation_at(x, y, z) == t2.elevation_at(x, y, z),
        t1.class_at(x, y, z) == t2.class_at(x, y, z),
{
}

} // verus!
