//! The tunable parameter set of the terrain graph, with its validation.
//!
//! All scalar parameters are fixed-point numbers in the Q16.16 scale of the
//! evaluator (`ONE` is 1).  The defaults are the tuned constants of the
//! terrain pipeline, rounded to the nearest representable value where the
//! decimal constant is not an exact binary fraction.

use vstd::prelude::*;

verus! {

use crate::fixed::{LIMIT, ONE};

/// A configuration the graph builder rejects.
#[derive(Clone, Copy, Debug, PartialEq, Eq, Structural)]
pub enum ConfigError {
    /// Curve or terrace control points were not strictly ascending (or too
    /// few were supplied).
    UnsortedControlPoints,
    /// A numeric parameter was outside its machine-forced range (a
    /// frequency or lacunarity not positive, a scalar beyond the saturating
    /// arithmetic's working range, an exponent not representable, a seed
    /// beyond the span the per-leaf offsets leave room for, or a node
    /// handle out of range).
    InvalidParameter,
}

/// The named tuning constants of the terrain graph.
///
/// Every constant is independently overridable.  Validation asks only what
/// the evaluator's machine arithmetic forces: frequencies and lacunarities
/// positive and within the saturation bound, the other scalars within the
/// saturation bound (half of it for the sea and shelf levels, whose derived
/// control points add fixed offsets), and the glaciation exponent in its
/// dyadic form `num / 2^roots` with `num` in `[1, 16]` and `roots` at most
/// 4.
#[derive(Clone, Copy, Debug, PartialEq, Eq, Structural)]
pub struct ParameterSet {
    /// Frequency of the continent-defining noise (default 1).
    pub continent_frequency: i64,
    /// Octave frequency multiplier of the continent noise (default about 2.209).
    pub continent_lacunarity: i64,
    /// Octave frequency multiplier of mountainous noise (default about 2.143).
    pub mountain_lacunarity: i64,
    /// Octave frequency multiplier of hilly noise (default about 2.162).
    pub hills_lacunarity: i64,
    /// Octave frequency multiplier of plains noise (default about 2.314).
    pub plains_lacunarity: i64,
    /// Octave frequency multiplier of badlands noise (default about 2.213).
    pub badlands_lacunarity: i64,
    /// Strength of the turbulence that twists mountains (default 1).
    pub mountains_twist: i64,
    /// Strength of the turbulence that twists hills (default 1).
    pub hills_twist: i64,
    /// Strength of the turbulence that twists badlands (default 1).
    pub badlands_twist: i64,
    /// Planetary sea level (default 0).
    pub sea_level: i64,
    /// Elevation of the continental shelf (default -3/8).
    pub shelf_level: i64,
    /// Numerator of the glaciation exponent (default 11).
    pub mountain_glaciation_num: u32,
    /// The glaciation exponent's denominator is `2^this` (default 3,
    /// making the default exponent 11/8).
    pub mountain_glaciation_roots: u32,
    /// Scale of the turbulence that roughens the terrain-type map (default 1).
    pub terrain_offset: i64,
}

/// The machine-forced ranges of the parameters: positive frequencies and
/// lacunarities, every scalar within the saturating arithmetic's working
/// range, the glaciation exponent representable in its dyadic form.  Any
/// finite tuning a caller would write passes; the bounds exist because the
/// fixed-point scalars themselves are bounded.
pub open spec fn params_wf(p: ParameterSet) -> bool {
    &&& 0 < p.continent_frequency <= LIMIT
    &&& 0 < p.continent_lacunarity <= LIMIT
    &&& 0 < p.mountain_lacunarity <= LIMIT
    &&& 0 < p.hills_lacunarity <= LIMIT
    &&& 0 < p.plains_lacunarity <= LIMIT
    &&& 0 < p.badlands_lacunarity <= LIMIT
    &&& -LIMIT <= p.mountains_twist <= LIMIT
    &&& -LIMIT <= p.hills_twist <= LIMIT
    &&& -LIMIT <= p.badlands_twist <= LIMIT
    &&& -LIMIT / 2 <= p.sea_level <= LIMIT / 2
    &&& -LIMIT / 2 <= p.shelf_level <= LIMIT / 2
    &&& 1 <= p.mountain_glaciation_num <= 16
    &&& p.mountain_glaciation_roots <= 4
    &&& -LIMIT <= p.terrain_offset <= LIMIT
}

impl ParameterSet {
    /// Check every parameter against its machine-forced range.
    pub fn validate(&self) -> (r: Result<(), ConfigError>)
        ensures
            r is Ok <==> params_wf(*self),
            r is Err ==> r == Result::<(), ConfigError>::Err(ConfigError::InvalidParameter),
    {
        if !(0 < self.continent_frequency && self.continent_frequency <= LIMIT) {
            return Err(ConfigError::InvalidParameter);
        }
        if !(0 < self.continent_lacunarity && self.continent_lacunarity <= LIMIT) {
            return Err(ConfigError::InvalidParameter);
        }
        if !(0 < self.mountain_lacunarity && self.mountain_lacunarity <= LIMIT) {
            return Err(ConfigError::InvalidParameter);
        }
        if !(0 < self.hills_lacunarity && self.hills_lacunarity <= LIMIT) {
            return Err(ConfigError::InvalidParameter);
        }
        if !(0 < self.plains_lacunarity && self.plains_lacunarity <= LIMIT) {
            return Err(ConfigError::InvalidParameter);
        }
        if !(0 < self.badlands_lacunarity && self.badlands_lacunarity <= LIMIT) {
            return Err(ConfigError::InvalidParameter);
        }
        if !(-LIMIT <= self.mountains_twist && self.mountains_twist <= LIMIT) {
            return Err(ConfigError::InvalidParameter);
        }
        if !(-LIMIT <= self.hills_twist && self.hills_twist <= LIMIT) {
            return Err(ConfigError::InvalidParameter);
        }
        if !(-LIMIT <= self.badlands_twist && self.badlands_twist <= LIMIT) {
            return Err(ConfigError::InvalidParameter);
        }
        if !(-LIMIT / 2 <= self.sea_level && self.sea_level <= LIMIT / 2) {
            return Err(ConfigError::InvalidParameter);
        }
        if !(-LIMIT / 2 <= self.shelf_level && self.shelf_level <= LIMIT / 2) {
            return Err(ConfigError::InvalidParameter);
        }
        if !(1 <= self.mountain_glaciation_num && self.mountain_glaciation_num <= 16) {
            return Err(ConfigError::InvalidParameter);
        }
        if !(self.mountain_glaciation_roots <= 4) {
            return Err(ConfigError::InvalidParameter);
        }
        if !(-LIMIT <= self.terrain_offset && self.terrain_offset <= LIMIT) {
            return Err(ConfigError::InvalidParameter);
        }
        Ok(())
    }
}

/// The default parameter set: the documented tuning of the terrain graph.
pub open spec fn default_params() -> ParameterSet {
    ParameterSet {
        continent_frequency: 65536,  // 1
        continent_lacunarity: 144768,  // 2.208984375
        mountain_lacunarity: 140416,  // 2.142578125
        hills_lacunarity: 141696,  // 2.162109375
        plains_lacunarity: 151680,  // 2.314453125
        badlands_lacunarity: 145024,  // 2.212890625
        mountains_twist: 65536,  // 1
        hills_twist: 65536,  // 1
        badlands_twist: 65536,  // 1
        sea_level: 0,
        shelf_level: -24576i64,  // -0.375
        mountain_glaciation_num: 11,  // exponent 11/8 = 1.375
        mountain_glaciation_roots: 3,
        terrain_offset: 65536,  // 1
    }
}

impl Default for ParameterSet {
    /// The documented default tuning; it passes validation.
    fn default() -> (p: ParameterSet)
        ensures
            p == default_params(),
            params_wf(p),
    {
        ParameterSet {
            continent_frequency: 65536,
            continent_lacunarity: 144768,
            mountain_lacunarity: 140416,
            hills_lacunarity: 141696,
            plains_lacunarity: 151680,
            badlands_lacunarity: 145024,
            mountains_twist: 65536,
            hills_twist: 65536,
            badlands_twist: 65536,
            sea_level: 0,
            shelf_level: -24576,
            mountain_glaciation_num: 11,
            mountain_glaciation_roots: 3,
            terrain_offset: 65536,
        }
    }
}

} // verus!
