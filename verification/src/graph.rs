//! The noise-module graph: an arena of nodes built bottom-up and evaluated
//! with per-node single-slot caches.
//!
//! Building: each `push` method validates its inputs, appends one node and
//! returns its handle; a node can only refer to earlier handles, so the
//! graph is acyclic by construction and `eval_spec` is well defined on it.
//!
//! Evaluating: `eval` returns exactly `eval_spec` of the graph's structure
//! at the queried coordinate.  The cache slots are the only mutable state;
//! the contract proves they can never change a returned value, only save
//! recomputation, and that a repeated query of a cached node leaves the
//! graph untouched.

use vstd::prelude::*;

verus! {

use crate::fixed::{add_sat, bounded, iclamp, imax, imin, mul_one, LIMIT, ONE};
use crate::generator::FractalKind;
use crate::node::{
    blend_apply, curve_apply, curve_points_wf, eval_spec, exponent_apply, graph_wf,
    lemma_eval_bounded, lemma_eval_frame, node_wf, select_apply, terrace_apply,
    terrace_points_wf, turbulence_warp, turbulence_warp_spec, Node,
};
use crate::params::ConfigError;
use crate::generator::{fractal, worley};

/// The memo of a cache node: the last queried coordinate and its value.
#[derive(Clone, Copy, Debug, PartialEq, Eq, Structural)]
pub struct CacheSlot {
    pub x: i64,
    pub y: i64,
    pub z: i64,
    pub value: i64,
}

/// Saturating counter step for the cache-miss statistics.
pub open spec fn sat_inc(m: u64) -> u64 {
    if m < 0xFFFF_FFFF_FFFF_FFFF {
        (m + 1) as u64
    } else {
        m
    }
}

/// A noise-module graph under construction or in use.
pub struct Graph {
    nodes: Vec<Node>,
    curves: Vec<Vec<(i64, i64)>>,
    terraces: Vec<Vec<i64>>,
    slots: Vec<Option<CacheSlot>>,
    misses: Vec<u64>,
}

impl Graph {
    /// The node sequence: the graph's structure.
    pub closed spec fn nodes_view(self) -> Seq<Node> {
        self.nodes@
    }

    /// The curve control-point tables.
    pub closed spec fn curves_view(self) -> Seq<Seq<(i64, i64)>> {
        Seq::new(self.curves@.len(), |t: int| self.curves@[t]@)
    }

    /// The terrace control-point tables.
    pub closed spec fn terraces_view(self) -> Seq<Seq<i64>> {
        Seq::new(self.terraces@.len(), |t: int| self.terraces@[t]@)
    }

    /// The cache slots.
    pub closed spec fn slots_view(self) -> Seq<Option<CacheSlot>> {
        self.slots@
    }

    /// The per-node cache-miss counters.
    pub closed spec fn misses_view(self) -> Seq<u64> {
        self.misses@
    }

    /// Number of nodes.
    pub open spec fn len_spec(self) -> nat {
        self.nodes_view().len()
    }

    /// The mathematical value of node `i` at a coordinate: what `eval`
    /// returns, independent of any cache state.
    pub open spec fn value_spec(self, i: int, x: int, y: int, z: int) -> int {
        eval_spec(self.nodes_view(), self.curves_view(), self.terraces_view(), i, x, y, z)
    }

    /// The two graphs have the same structure (cache state may differ).
    pub open spec fn same_structure(self, other: Graph) -> bool {
        &&& self.nodes_view() == other.nodes_view()
        &&& self.curves_view() == other.curves_view()
        &&& self.terraces_view() == other.terraces_view()
    }

    /// A filled slot belongs to a cache node and holds that node's true
    /// value at the recorded coordinate.
    pub open spec fn slot_ok(self, j: int) -> bool {
        match self.slots_view()[j] {
            Some(s) => match self.nodes_view()[j] {
                Node::Cache { child } => {
                    &&& bounded(s.x as int)
                    &&& bounded(s.y as int)
                    &&& bounded(s.z as int)
                    &&& s.value as int == self.value_spec(
                        child as int,
                        s.x as int,
                        s.y as int,
                        s.z as int,
                    )
                },
                _ => false,
            },
            None => true,
        }
    }

    /// Well-formedness: every node is well formed and every cache slot is
    /// either empty or truthful.
    pub open spec fn wf(self) -> bool {
        &&& graph_wf(self.nodes_view(), self.curves_view(), self.terraces_view())
        &&& self.slots_view().len() == self.len_spec()
        &&& self.misses_view().len() == self.len_spec()
        &&& forall|j: int| 0 <= j < self.len_spec() ==> self.slot_ok(j)
    }

    /// The cache node `i` already holds a value for this exact coordinate.
    pub open spec fn cache_hit(self, i: int, x: i64, y: i64, z: i64) -> bool {
        match self.slots_view()[i] {
            Some(s) => s.x == x && s.y == y && s.z == z,
            None => false,
        }
    }

    /// An empty graph.
    pub fn new() -> (g: Graph)
        ensures
            g.wf(),
            g.len_spec() == 0,
            g.curves_view().len() == 0,
            g.terraces_view().len() == 0,
    {
        Graph {
            nodes: Vec::new(),
            curves: Vec::new(),
            terraces: Vec::new(),
            slots: Vec::new(),
            misses: Vec::new(),
        }
    }

    /// Number of nodes.
    pub fn node_count(&self) -> (n: usize)
        ensures
            n as int == self.len_spec(),
    {
        self.nodes.len()
    }

    /// How often the cache node `i` has had to recompute its child.
    pub fn cache_misses(&self, i: usize) -> (m: u64)
        requires
            (i as int) < self.len_spec(),
            self.wf(),
        ensures
            m == self.misses_view()[i as int],
    {
        self.misses[i]
    }

    /// Append a node already known to satisfy `node_wf` at the new index.
    fn push_raw(&mut self, n: Node) -> (h: usize)
        requires
            old(self).wf(),
            node_wf(
                old(self).nodes_view().push(n),
                old(self).curves_view(),
                old(self).terraces_view(),
                old(self).len_spec() as int,
            ),
        ensures
            final(self).wf(),
            final(self).nodes_view() == old(self).nodes_view().push(n),
            final(self).curves_view() == old(self).curves_view(),
            final(self).terraces_view() == old(self).terraces_view(),
            final(self).slots_view() == old(self).slots_view().push(None::<CacheSlot>),
            final(self).misses_view() == old(self).misses_view().push(0u64),
            h as int == old(self).len_spec(),
    {
        let h = self.nodes.len();
        self.nodes.push(n);
        self.slots.push(None);
        self.misses.push(0);
        proof {
            let ns1 = old(self).nodes_view();
            let cs = old(self).curves_view();
            let ts = old(self).terraces_view();
            let ns2 = self.nodes_view();
            assert(self.curves_view() =~= cs);
            assert(self.terraces_view() =~= ts);
            assert forall|j: int| 0 <= j < ns2.len() implies node_wf(ns2, cs, ts, j) by {
                if j < ns1.len() {
                    assert(node_wf(ns1, cs, ts, j));
                    assert(ns2[j] == ns1[j]);
                }
            }
            assert forall|j: int| 0 <= j < self.len_spec() implies self.slot_ok(j) by {
                if j < ns1.len() {
                    assert(old(self).slot_ok(j));
                    assert(node_wf(ns1, cs, ts, j));
                    match self.slots_view()[j] {
                        Some(s) => match ns2[j] {
                            Node::Cache { child } => {
                                assert forall|q: int| 0 <= q <= child as int implies ns2[q]
                                    == ns1[q] by {}
                                lemma_eval_frame(
                                    ns1,
                                    cs,
                                    ts,
                                    ns2,
                                    cs,
                                    ts,
                                    child as int,
                                    s.x as int,
                                    s.y as int,
                                    s.z as int,
                                );
                            },
                            _ => {},
                        },
                        None => {},
                    }
                }
            }
        }
        h
    }

    /// A constant-valued leaf.
    pub fn constant(&mut self, value: i64) -> (r: Result<usize, ConfigError>)
        requires
            old(self).wf(),
        ensures
            final(self).wf(),
            match r {
                Ok(h) => {
                    &&& bounded(value as int)
                    &&& final(self).nodes_view() == old(self).nodes_view().push(
                        Node::Constant { value },
                    )
                    &&& final(self).curves_view() == old(self).curves_view()
                    &&& final(self).terraces_view() == old(self).terraces_view()
                    &&& h as int == old(self).len_spec()
                },
                Err(e) => {
                    &&& !bounded(value as int)
                    &&& e == ConfigError::InvalidParameter
                    &&& *final(self) == *old(self)
                },
            },
    {
        if value < -LIMIT || value > LIMIT {
            return Err(ConfigError::InvalidParameter);
        }
        Ok(self.push_raw(Node::Constant { value }))
    }

    /// A fractal generator leaf.
    pub fn fractal_gen(
        &mut self,
        kind: FractalKind,
        seed: i64,
        freq: i64,
        lacunarity: i64,
        persistence: i64,
        octaves: u32,
    ) -> (r: Result<usize, ConfigError>)
        requires
            old(self).wf(),
        ensures
            final(self).wf(),
            match r {
                Ok(h) => {
                    &&& final(self).nodes_view() == old(self).nodes_view().push(
                        Node::Fractal { kind, seed, freq, lacunarity, persistence, octaves },
                    )
                    &&& final(self).curves_view() == old(self).curves_view()
                    &&& final(self).terraces_view() == old(self).terraces_view()
                    &&& h as int == old(self).len_spec()
                },
                Err(e) => {
                    &&& e == ConfigError::InvalidParameter
                    &&& *final(self) == *old(self)
                },
            },
            r is Ok <==> {
                &&& bounded(seed as int)
                &&& 0 < freq
                &&& bounded(freq as int)
                &&& 0 < lacunarity
                &&& bounded(lacunarity as int)
                &&& 0 <= persistence <= ONE
                &&& 1 <= octaves <= 30
            },
    {
        if !(seed >= -LIMIT && seed <= LIMIT && freq > 0 && freq <= LIMIT && lacunarity > 0
            && lacunarity <= LIMIT && persistence >= 0 && persistence <= ONE && octaves >= 1
            && octaves <= 30) {
            return Err(ConfigError::InvalidParameter);
        }
        Ok(self.push_raw(Node::Fractal { kind, seed, freq, lacunarity, persistence, octaves }))
    }

    /// A Worley (cell) noise leaf.
    pub fn cell(&mut self, seed: i64, freq: i64) -> (r: Result<usize, ConfigError>)
        requires
            old(self).wf(),
        ensures
            final(self).wf(),
            match r {
                Ok(h) => {
                    &&& final(self).nodes_view() == old(self).nodes_view().push(
                        Node::Cell { seed, freq },
                    )
                    &&& final(self).curves_view() == old(self).curves_view()
                    &&& final(self).terraces_view() == old(self).terraces_view()
                    &&& h as int == old(self).len_spec()
                },
                Err(e) => {
                    &&& e == ConfigError::InvalidParameter
                    &&& *final(self) == *old(self)
                },
            },
            r is Ok <==> {
                &&& bounded(seed as int)
                &&& 0 < freq
                &&& bounded(freq as int)
            },
    {
        if !(seed >= -LIMIT && seed <= LIMIT && freq > 0 && freq <= LIMIT) {
            return Err(ConfigError::InvalidParameter);
        }
        Ok(self.push_raw(Node::Cell { seed, freq }))
    }

    /// Append a two-child combinator once its handles are known valid.
    fn push_pair(&mut self, n: Node, a: usize, b: usize) -> (r: Result<usize, ConfigError>)
        requires
            old(self).wf(),
            (n matches Node::Add { a: x, b: y } && x == a && y == b)
                || (n matches Node::Multiply { a: x, b: y } && x == a && y == b)
                || (n matches Node::Min { a: x, b: y } && x == a && y == b)
                || (n matches Node::Max { a: x, b: y } && x == a && y == b),
        ensures
            final(self).wf(),
            match r {
                Ok(h) => {
                    &&& (a as int) < old(self).len_spec()
                    &&& (b as int) < old(self).len_spec()
                    &&& final(self).nodes_view() == old(self).nodes_view().push(n)
                    &&& final(self).curves_view() == old(self).curves_view()
                    &&& final(self).terraces_view() == old(self).terraces_view()
                    &&& h as int == old(self).len_spec()
                },
                Err(e) => {
                    &&& !((a as int) < old(self).len_spec() && (b as int) < old(self).len_spec())
                    &&& e == ConfigError::InvalidParameter
                    &&& *final(self) == *old(self)
                },
            },
    {
        let len = self.nodes.len();
        if !(a < len && b < len) {
            return Err(ConfigError::InvalidParameter);
        }
        Ok(self.push_raw(n))
    }

    /// Sum of two earlier nodes.
    pub fn add(&mut self, a: usize, b: usize) -> (r: Result<usize, ConfigError>)
        requires
            old(self).wf(),
        ensures
            final(self).wf(),
            match r {
                Ok(h) => {
                    &&& (a as int) < old(self).len_spec()
                    &&& (b as int) < old(self).len_spec()
                    &&& final(self).nodes_view() == old(self).nodes_view().push(Node::Add { a, b })
                    &&& final(self).curves_view() == old(self).curves_view()
                    &&& final(self).terraces_view() == old(self).terraces_view()
                    &&& h as int == old(self).len_spec()
                },
                Err(e) => {
                    &&& !((a as int) < old(self).len_spec() && (b as int) < old(self).len_spec())
                    &&& e == ConfigError::InvalidParameter
                    &&& *final(self) == *old(self)
                },
            },
    {
        self.push_pair(Node::Add { a, b }, a, b)
    }

    /// Product of two earlier nodes.
    pub fn multiply(&mut self, a: usize, b: usize) -> (r: Result<usize, ConfigError>)
        requires
            old(self).wf(),
        ensures
            final(self).wf(),
            match r {
                Ok(h) => {
                    &&& (a as int) < old(self).len_spec()
                    &&& (b as int) < old(self).len_spec()
                    &&& final(self).nodes_view() == old(self).nodes_view().push(
                        Node::Multiply { a, b },
                    )
                    &&& final(self).curves_view() == old(self).curves_view()
                    &&& final(self).terraces_view() == old(self).terraces_view()
                    &&& h as int == old(self).len_spec()
                },
                Err(e) => {
                    &&& !((a as int) < old(self).len_spec() && (b as int) < old(self).len_spec())
                    &&& e == ConfigError::InvalidParameter
                    &&& *final(self) == *old(self)
                },
            },
    {
        self.push_pair(Node::Multiply { a, b }, a, b)
    }

    /// Smaller of two earlier nodes.
    pub fn min_of(&mut self, a: usize, b: usize) -> (r: Result<usize, ConfigError>)
        requires
            old(self).wf(),
        ensures
            final(self).wf(),
            match r {
                Ok(h) => {
                    &&& (a as int) < old(self).len_spec()
                    &&& (b as int) < old(self).len_spec()
                    &&& final(self).nodes_view() == old(self).nodes_view().push(Node::Min { a, b })
                    &&& final(self).curves_view() == old(self).curves_view()
                    &&& final(self).terraces_view() == old(self).terraces_view()
                    &&& h as int == old(self).len_spec()
                },
                Err(e) => {
                    &&& !((a as int) < old(self).len_spec() && (b as int) < old(self).len_spec())
                    &&& e == ConfigError::InvalidParameter
                    &&& *final(self) == *old(self)
                },
            },
    {
        self.push_pair(Node::Min { a, b }, a, b)
    }

    /// Larger of two earlier nodes.
    pub fn max_of(&mut self, a: usize, b: usize) -> (r: Result<usize, ConfigError>)
        requires
            old(self).wf(),
        ensures
            final(self).wf(),
            match r {
                Ok(h) => {
                    &&& (a as int) < old(self).len_spec()
                    &&& (b as int) < old(self).len_spec()
                    &&& final(self).nodes_view() == old(self).nodes_view().push(Node::Max { a, b })
                    &&& final(self).curves_view() == old(self).curves_view()
                    &&& final(self).terraces_view() == old(self).terraces_view()
                    &&& h as int == old(self).len_spec()
                },
                Err(e) => {
                    &&& !((a as int) < old(self).len_spec() && (b as int) < old(self).len_spec())
                    &&& e == ConfigError::InvalidParameter
                    &&& *final(self) == *old(self)
                },
            },
    {
        self.push_pair(Node::Max { a, b }, a, b)
    }

    /// Affine remap of an earlier node.
    pub fn scale_bias(&mut self, child: usize, scale: i64, bias: i64) -> (r: Result<
        usize,
        ConfigError,
    >)
        requires
            old(self).wf(),
        ensures
            final(self).wf(),
            match r {
                Ok(h) => {
                    &&& (child as int) < old(self).len_spec()
                    &&& bounded(scale as int)
                    &&& bounded(bias as int)
                    &&& final(self).nodes_view() == old(self).nodes_view().push(
                        Node::ScaleBias { child, scale, bias },
                    )
                    &&& final(self).curves_view() == old(self).curves_view()
                    &&& final(self).terraces_view() == old(self).terraces_view()
                    &&& h as int == old(self).len_spec()
                },
                Err(e) => {
                    &&& !((child as int) < old(self).len_spec() && bounded(scale as int)
                        && bounded(bias as int))
                    &&& e == ConfigError::InvalidParameter
                    &&& *final(self) == *old(self)
                },
            },
    {
        let len = self.nodes.len();
        if !(child < len && scale >= -LIMIT && scale <= LIMIT && bias >= -LIMIT && bias <= LIMIT) {
            return Err(ConfigError::InvalidParameter);
        }
        Ok(self.push_raw(Node::ScaleBias { child, scale, bias }))
    }

    /// Clamp of an earlier node into `[lo, hi]`.
    pub fn clamp_of(&mut self, child: usize, lo: i64, hi: i64) -> (r: Result<usize, ConfigError>)
        requires
            old(self).wf(),
        ensures
            final(self).wf(),
            match r {
                Ok(h) => {
                    &&& (child as int) < old(self).len_spec()
                    &&& lo <= hi
                    &&& bounded(lo as int)
                    &&& bounded(hi as int)
                    &&& final(self).nodes_view() == old(self).nodes_view().push(
                        Node::ClampNode { child, lo, hi },
                    )
                    &&& final(self).curves_view() == old(self).curves_view()
                    &&& final(self).terraces_view() == old(self).terraces_view()
                    &&& h as int == old(self).len_spec()
                },
                Err(e) => {
                    &&& !((child as int) < old(self).len_spec() && lo <= hi && bounded(lo as int)
                        && bounded(hi as int))
                    &&& e == ConfigError::InvalidParameter
                    &&& *final(self) == *old(self)
                },
            },
    {
        let len = self.nodes.len();
        if !(child < len && lo <= hi && lo >= -LIMIT && hi <= LIMIT) {
            return Err(ConfigError::InvalidParameter);
        }
        Ok(self.push_raw(Node::ClampNode { child, lo, hi }))
    }

    /// Power-curve remap of an earlier node by the exponent `num / 2^roots`.
    pub fn exponent(&mut self, child: usize, num: u32, roots: u32) -> (r: Result<
        usize,
        ConfigError,
    >)
        requires
            old(self).wf(),
        ensures
            final(self).wf(),
            match r {
                Ok(h) => {
                    &&& (child as int) < old(self).len_spec()
                    &&& 1 <= num <= 16
                    &&& roots <= 4
                    &&& final(self).nodes_view() == old(self).nodes_view().push(
                        Node::Exponent { child, num, roots },
                    )
                    &&& final(self).curves_view() == old(self).curves_view()
                    &&& final(self).terraces_view() == old(self).terraces_view()
                    &&& h as int == old(self).len_spec()
                },
                Err(e) => {
                    &&& !((child as int) < old(self).len_spec() && 1 <= num <= 16 && roots <= 4)
                    &&& e == ConfigError::InvalidParameter
                    &&& *final(self) == *old(self)
                },
            },
    {
        let len = self.nodes.len();
        if !(child < len && num >= 1 && num <= 16 && roots <= 4) {
            return Err(ConfigError::InvalidParameter);
        }
        Ok(self.push_raw(Node::Exponent { child, num, roots }))
    }

    /// Blend of two earlier nodes weighted by a control node.
    pub fn blend(&mut self, low: usize, high: usize, control: usize) -> (r: Result<
        usize,
        ConfigError,
    >)
        requires
            old(self).wf(),
        ensures
            final(self).wf(),
            match r {
                Ok(h) => {
                    &&& (low as int) < old(self).len_spec()
                    &&& (high as int) < old(self).len_spec()
                    &&& (control as int) < old(self).len_spec()
                    &&& final(self).nodes_view() == old(self).nodes_view().push(
                        Node::Blend { low, high, control },
                    )
                    &&& final(self).curves_view() == old(self).curves_view()
                    &&& final(self).terraces_view() == old(self).terraces_view()
                    &&& h as int == old(self).len_spec()
                },
                Err(e) => {
                    &&& !((low as int) < old(self).len_spec() && (high as int) < old(
                        self,
                    ).len_spec() && (control as int) < old(self).len_spec())
                    &&& e == ConfigError::InvalidParameter
                    &&& *final(self) == *old(self)
                },
            },
    {
        let len = self.nodes.len();
        if !(low < len && high < len && control < len) {
            return Err(ConfigError::InvalidParameter);
        }
        Ok(self.push_raw(Node::Blend { low, high, control }))
    }

    /// Three-zone select of two earlier nodes steered by a control node.
    pub fn select(
        &mut self,
        low: usize,
        high: usize,
        control: usize,
        lower: i64,
        upper: i64,
        falloff: i64,
    ) -> (r: Result<usize, ConfigError>)
        requires
            old(self).wf(),
        ensures
            final(self).wf(),
            match r {
                Ok(h) => {
                    &&& (low as int) < old(self).len_spec()
                    &&& (high as int) < old(self).len_spec()
                    &&& (control as int) < old(self).len_spec()
                    &&& lower <= upper
                    &&& 0 <= falloff
                    &&& final(self).nodes_view() == old(self).nodes_view().push(
                        Node::Select { low, high, control, lower, upper, falloff },
                    )
                    &&& final(self).curves_view() == old(self).curves_view()
                    &&& final(self).terraces_view() == old(self).terraces_view()
                    &&& h as int == old(self).len_spec()
                },
                Err(e) => {
                    &&& !((low as int) < old(self).len_spec() && (high as int) < old(
                        self,
                    ).len_spec() && (control as int) < old(self).len_spec() && lower <= upper && 0
                        <= falloff && bounded(lower as int) && bounded(upper as int) && bounded(
                        falloff as int,
                    ))
                    &&& e == ConfigError::InvalidParameter
                    &&& *final(self) == *old(self)
                },
            },
    {
        let len = self.nodes.len();
        if !(low < len && high < len && control < len && lower <= upper && falloff >= 0 && lower
            >= -LIMIT && upper <= LIMIT && falloff <= LIMIT) {
            return Err(ConfigError::InvalidParameter);
        }
        Ok(self.push_raw(Node::Select { low, high, control, lower, upper, falloff }))
    }

    /// Turbulence: the child read at a coordinate displaced by seeded fBm.
    pub fn turbulence(
        &mut self,
        child: usize,
        seed: i64,
        freq: i64,
        power: i64,
        roughness: u32,
    ) -> (r: Result<usize, ConfigError>)
        requires
            old(self).wf(),
        ensures
            final(self).wf(),
            match r {
                Ok(h) => {
                    &&& (child as int) < old(self).len_spec()
                    &&& final(self).nodes_view() == old(self).nodes_view().push(
                        Node::Turbulence { child, seed, freq, power, roughness },
                    )
                    &&& final(self).curves_view() == old(self).curves_view()
                    &&& final(self).terraces_view() == old(self).terraces_view()
                    &&& h as int == old(self).len_spec()
                },
                Err(e) => {
                    &&& e == ConfigError::InvalidParameter
                    &&& *final(self) == *old(self)
                },
            },
            r is Ok <==> {
                &&& (child as int) < old(self).len_spec()
                &&& -LIMIT <= seed
                &&& seed as int + 2 <= LIMIT
                &&& 0 < freq
                &&& bounded(freq as int)
                &&& bounded(power as int)
                &&& 1 <= roughness <= 30
            },
    {
        let len = self.nodes.len();
        if !(child < len && seed >= -LIMIT && seed <= LIMIT - 2 && freq > 0 && freq <= LIMIT
            && power >= -LIMIT && power <= LIMIT && roughness >= 1 && roughness <= 30) {
            return Err(ConfigError::InvalidParameter);
        }
        Ok(self.push_raw(Node::Turbulence { child, seed, freq, power, roughness }))
    }

    /// Single-slot memo of an earlier node.
    pub fn cache(&mut self, child: usize) -> (r: Result<usize, ConfigError>)
        requires
            old(self).wf(),
        ensures
            final(self).wf(),
            match r {
                Ok(h) => {
                    &&& (child as int) < old(self).len_spec()
                    &&& final(self).nodes_view() == old(self).nodes_view().push(
                        Node::Cache { child },
                    )
                    &&& final(self).curves_view() == old(self).curves_view()
                    &&& final(self).terraces_view() == old(self).terraces_view()
                    &&& h as int == old(self).len_spec()
                },
                Err(e) => {
                    &&& !((child as int) < old(self).len_spec())
                    &&& e == ConfigError::InvalidParameter
                    &&& *final(self) == *old(self)
                },
            },
    {
        let len = self.nodes.len();
        if !(child < len) {
            return Err(ConfigError::InvalidParameter);
        }
        Ok(self.push_raw(Node::Cache { child }))
    }

    /// Check that curve control points are plentiful, bounded and strictly
    /// ascending in their inputs.
    fn check_curve_points(ps: &Vec<(i64, i64)>) -> (ok: bool)
        ensures
            ok == curve_points_wf(ps@),
    {
        let n = ps.len();
        if n < 4 {
            return false;
        }
        let mut j: usize = 0;
        while j < n
            invariant
                n == ps@.len(),
                0 <= j <= n,
                forall|t: int|
                    0 <= t < j ==> bounded((#[trigger] ps@[t]).0 as int) && bounded(
                        ps@[t].1 as int,
                    ),
            decreases n - j,
        {
            let (a, b) = ps[j];
            if a < -LIMIT || a > LIMIT || b < -LIMIT || b > LIMIT {
                return false;
            }
            proof {
                assert(bounded(ps@[j as int].0 as int) && bounded(ps@[j as int].1 as int));
            }
            j = j + 1;
        }
        let mut j: usize = 0;
        while j < n - 1
            invariant
                n == ps@.len(),
                0 <= j <= n,
                n >= 4,
                forall|t: int|
                    0 <= t < ps@.len() ==> bounded((#[trigger] ps@[t]).0 as int) && bounded(
                        ps@[t].1 as int,
                    ),
                forall|t: int| 0 <= t < j ==> #[trigger] ps@[t].0 < ps@[t + 1].0,
            decreases n - j,
        {
            if ps[j].0 >= ps[j + 1].0 {
                return false;
            }
            j = j + 1;
        }
        true
    }

    /// Check that terrace control scalars are bounded and strictly ascending.
    fn check_terrace_points(ps: &Vec<i64>) -> (ok: bool)
        ensures
            ok == terrace_points_wf(ps@),
    {
        let n = ps.len();
        if n < 2 {
            return false;
        }
        let mut j: usize = 0;
        while j < n
            invariant
                n == ps@.len(),
                0 <= j <= n,
                forall|t: int| 0 <= t < j ==> bounded(#[trigger] ps@[t] as int),
            decreases n - j,
        {
            let a = ps[j];
            if a < -LIMIT || a > LIMIT {
                return false;
            }
            proof {
                assert(bounded(ps@[j as int] as int));
            }
            j = j + 1;
        }
        let mut j: usize = 0;
        while j < n - 1
            invariant
                n == ps@.len(),
                0 <= j <= n,
                n >= 2,
                forall|t: int| 0 <= t < ps@.len() ==> bounded(#[trigger] ps@[t] as int),
                forall|t: int| 0 <= t < j ==> #[trigger] ps@[t] < ps@[t + 1],
            decreases n - j,
        {
            if ps[j] >= ps[j + 1] {
                return false;
            }
            j = j + 1;
        }
        true
    }

    /// Piecewise-linear curve remap of an earlier node through the given
    /// `(input, output)` control points.
    pub fn curve(&mut self, child: usize, points: Vec<(i64, i64)>) -> (r: Result<
        usize,
        ConfigError,
    >)
        requires
            old(self).wf(),
        ensures
            final(self).wf(),
            match r {
                Ok(h) => {
                    &&& (child as int) < old(self).len_spec()
                    &&& curve_points_wf(points@)
                    &&& final(self).nodes_view() == old(self).nodes_view().push(
                        Node::Curve { child, table: old(self).curves_view().len() as usize },
                    )
                    &&& final(self).curves_view() == old(self).curves_view().push(points@)
                    &&& final(self).terraces_view() == old(self).terraces_view()
                    &&& h as int == old(self).len_spec()
                },
                Err(e) => {
                    &&& *final(self) == *old(self)
                    &&& if !((child as int) < old(self).len_spec()) {
                        e == ConfigError::InvalidParameter
                    } else {
                        e == ConfigError::UnsortedControlPoints && !curve_points_wf(points@)
                    }
                },
            },
    {
        let len = self.nodes.len();
        if !(child < len) {
            return Err(ConfigError::InvalidParameter);
        }
        if !Self::check_curve_points(&points) {
            return Err(ConfigError::UnsortedControlPoints);
        }
        let table = self.curves.len();
        let ghost pre = *self;
        self.curves.push(points);
        proof {
            assert(self.nodes_view() == pre.nodes_view());
            assert(self.terraces_view() =~= pre.terraces_view());
            assert forall|t: int| 0 <= t < pre.curves_view().len() implies self.curves_view()[t]
                == pre.curves_view()[t] by {}
            assert(self.curves_view() =~= pre.curves_view().push(
                self.curves@[pre.curves@.len() as int]@,
            ));
            assert forall|j: int| 0 <= j < self.nodes_view().len() implies node_wf(
                self.nodes_view(),
                self.curves_view(),
                self.terraces_view(),
                j,
            ) by {
                assert(node_wf(pre.nodes_view(), pre.curves_view(), pre.terraces_view(), j));
            }
            assert forall|j: int| 0 <= j < self.len_spec() implies self.slot_ok(j) by {
                assert(pre.slot_ok(j));
                assert(node_wf(pre.nodes_view(), pre.curves_view(), pre.terraces_view(), j));
                match self.slots_view()[j] {
                    Some(s) => match self.nodes_view()[j] {
                        Node::Cache { child: c } => {
                            lemma_eval_frame(
                                pre.nodes_view(),
                                pre.curves_view(),
                                pre.terraces_view(),
                                self.nodes_view(),
                                self.curves_view(),
                                self.terraces_view(),
                                c as int,
                                s.x as int,
                                s.y as int,
                                s.z as int,
                            );
                        },
                        _ => {},
                    },
                    None => {},
                }
            }
        }
        let h = self.push_raw(Node::Curve { child, table });
        Ok(h)
    }

    /// Terracing remap of an earlier node through the given control scalars.
    pub fn terrace(&mut self, child: usize, points: Vec<i64>) -> (r: Result<usize, ConfigError>)
        requires
            old(self).wf(),
        ensures
            final(self).wf(),
            match r {
                Ok(h) => {
                    &&& (child as int) < old(self).len_spec()
                    &&& terrace_points_wf(points@)
                    &&& final(self).nodes_view() == old(self).nodes_view().push(
                        Node::Terrace { child, table: old(self).terraces_view().len() as usize },
                    )
                    &&& final(self).curves_view() == old(self).curves_view()
                    &&& final(self).terraces_view() == old(self).terraces_view().push(points@)
                    &&& h as int == old(self).len_spec()
                },
                Err(e) => {
                    &&& *final(self) == *old(self)
                    &&& if !((child as int) < old(self).len_spec()) {
                        e == ConfigError::InvalidParameter
                    } else {
                        e == ConfigError::UnsortedControlPoints && !terrace_points_wf(points@)
                    }
                },
            },
    {
        let len = self.nodes.len();
        if !(child < len) {
            return Err(ConfigError::InvalidParameter);
        }
        if !Self::check_terrace_points(&points) {
            return Err(ConfigError::UnsortedControlPoints);
        }
        let table = self.terraces.len();
        let ghost pre = *self;
        self.terraces.push(points);
        proof {
            assert(self.nodes_view() == pre.nodes_view());
            assert(self.curves_view() =~= pre.curves_view());
            assert forall|t: int| 0 <= t < pre.terraces_view().len() implies self.terraces_view()[t]
                == pre.terraces_view()[t] by {}
            assert(self.terraces_view() =~= pre.terraces_view().push(
                self.terraces@[pre.terraces@.len() as int]@,
            ));
            assert forall|j: int| 0 <= j < self.nodes_view().len() implies node_wf(
                self.nodes_view(),
                self.curves_view(),
                self.terraces_view(),
                j,
            ) by {
                assert(node_wf(pre.nodes_view(), pre.curves_view(), pre.terraces_view(), j));
            }
            assert forall|j: int| 0 <= j < self.len_spec() implies self.slot_ok(j) by {
                assert(pre.slot_ok(j));
                assert(node_wf(pre.nodes_view(), pre.curves_view(), pre.terraces_view(), j));
                match self.slots_view()[j] {
                    Some(s) => match self.nodes_view()[j] {
                        Node::Cache { child: c } => {
                            lemma_eval_frame(
                                pre.nodes_view(),
                                pre.curves_view(),
                                pre.terraces_view(),
                                self.nodes_view(),
                                self.curves_view(),
                                self.terraces_view(),
                                c as int,
                                s.x as int,
                                s.y as int,
                                s.z as int,
                            );
                        },
                        _ => {},
                    },
                    None => {},
                }
            }
        }
        let h = self.push_raw(Node::Terrace { child, table });
        Ok(h)
    }

    /// Evaluate node `i` at a coordinate.
    ///
    /// The result is exactly the mathematical value of the node; the cache
    /// slots can only save recomputation, never change a value.  A repeated
    /// query of a cached node leaves the graph exactly as it was.
    #[verifier::rlimit(100)]
    pub fn eval(&mut self, i: usize, x: i64, y: i64, z: i64) -> (r: i64)
        requires
            old(self).wf(),
            (i as int) < old(self).len_spec(),
            bounded(x as int),
            bounded(y as int),
            bounded(z as int),
        ensures
            final(self).wf(),
            final(self).same_structure(*old(self)),
            r as int == old(self).value_spec(i as int, x as int, y as int, z as int),
            bounded(r as int),
            old(self).cache_hit(i as int, x, y, z) ==> *final(self) == *old(self),
            (old(self).nodes_view()[i as int] is Cache) ==> final(self).slots_view()[i as int]
                == Some(CacheSlot { x, y, z, value: r }),
            (old(self).nodes_view()[i as int] is Cache && !old(self).cache_hit(i as int, x, y, z))
                ==> final(self).misses_view()[i as int] == sat_inc(
                old(self).misses_view()[i as int],
            ),
            forall|j: int|
                (i as int) < j < old(self).len_spec() ==> final(self).slots_view()[j] == old(
                    self,
                ).slots_view()[j] && final(self).misses_view()[j] == old(self).misses_view()[j],
        decreases i,
    {
        proof {
            assert(node_wf(
                old(self).nodes_view(),
                old(self).curves_view(),
                old(self).terraces_view(),
                i as int,
            ));
            assert(old(self).slot_ok(i as int));
            lemma_eval_bounded(
                old(self).nodes_view(),
                old(self).curves_view(),
                old(self).terraces_view(),
                i as int,
                x as int,
                y as int,
                z as int,
            );
        }
        let n = self.nodes[i];
        match n {
            Node::Constant { value } => value,
            Node::Fractal { kind, seed, freq, lacunarity, persistence, octaves } => {
                fractal(kind, seed, freq, lacunarity, persistence, octaves, x, y, z)
            },
            Node::Cell { seed, freq } => worley(seed, freq, x, y, z),
            Node::Add { a, b } => {
                let ra = self.eval(a, x, y, z);
                let rb = self.eval(b, x, y, z);
                add_sat(ra, rb)
            },
            Node::Multiply { a, b } => {
                let ra = self.eval(a, x, y, z);
                let rb = self.eval(b, x, y, z);
                mul_one(ra, rb)
            },
            Node::Min { a, b } => {
                let ra = self.eval(a, x, y, z);
                let rb = self.eval(b, x, y, z);
                imin(ra, rb)
            },
            Node::Max { a, b } => {
                let ra = self.eval(a, x, y, z);
                let rb = self.eval(b, x, y, z);
                imax(ra, rb)
            },
            Node::ScaleBias { child, scale, bias } => {
                let rc = self.eval(child, x, y, z);
                add_sat(mul_one(rc, scale), bias)
            },
            Node::ClampNode { child, lo, hi } => {
                let rc = self.eval(child, x, y, z);
                iclamp(rc, lo, hi)
            },
            Node::Exponent { child, num, roots } => {
                let rc = self.eval(child, x, y, z);
                exponent_apply(rc, num, roots)
            },
            Node::Curve { child, table } => {
                let rc = self.eval(child, x, y, z);
                let r = curve_apply(&self.curves[table], rc);
                r
            },
            Node::Terrace { child, table } => {
                let rc = self.eval(child, x, y, z);
                let r = terrace_apply(&self.terraces[table], rc);
                r
            },
            Node::Blend { low, high, control } => {
                let rl = self.eval(low, x, y, z);
                let rh = self.eval(high, x, y, z);
                let rc = self.eval(control, x, y, z);
                blend_apply(rl, rh, rc)
            },
            Node::Select { low, high, control, lower, upper, falloff } => {
                let rl = self.eval(low, x, y, z);
                let rh = self.eval(high, x, y, z);
                let rc = self.eval(control, x, y, z);
                select_apply(rl, rh, rc, lower, upper, falloff)
            },
            Node::Turbulence { child, seed, freq, power, roughness } => {
                let w = turbulence_warp(seed, freq, power, roughness, x, y, z);
                let r = self.eval(child, w.0, w.1, w.2);
                r
            },
            Node::Cache { child } => {
                let slot = self.slots[i];
                let hit: bool = match slot {
                    Some(s) => s.x == x && s.y == y && s.z == z,
                    None => false,
                };
                if hit {
                    match slot {
                        Some(s) => s.value,
                        None => {
                            proof {
                                assert(false);
                            }
                            0
                        },
                    }
                } else {
                    let v = self.eval(child, x, y, z);
                    let ghost mid = *self;
                    self.slots[i] = Some(CacheSlot { x, y, z, value: v });
                    let m = self.misses[i];
                    self.misses[i] = if m < 0xFFFF_FFFF_FFFF_FFFF {
                        m + 1
                    } else {
                        m
                    };
                    proof {
                        assert(self.nodes_view() == mid.nodes_view());
                        assert(self.curves_view() == mid.curves_view());
                        assert(self.terraces_view() == mid.terraces_view());
                        assert forall|j: int| 0 <= j < self.len_spec() implies self.slot_ok(j) by {
                            if j != i as int {
                                assert(mid.slot_ok(j));
                                assert(self.slots_view()[j] == mid.slots_view()[j]);
                            }
                        }
                    }
                    v
                }
            },
        }
    }
}

/// The value a graph returns is a function of its structure and the
/// coordinate alone: no cache state, and no history of earlier queries, can
/// make two evaluations of the same node at the same coordinate differ.
pub proof fn lemma_value_deterministic(
    ns: Seq<Node>,
    cs: Seq<Seq<(i64, i64)>>,
    ts: Seq<Seq<i64>>,
    i: int,
    x: int,
    y: int,
    z: int,
    r1: int,
    r2: int,
)
    requires
        r1 == eval_spec(ns, cs, ts, i, x, y, z),
        r2 == eval_spec(ns, cs, ts, i, x, y, z),
    ensures
        r1 == r2,
{
}

} // verus!
