//! The voxel world of the prototype: voxel geometry constants, grid
//! placement, and the generated cube layout.
//!
//! Positions are Q16.16 fixed-point world units, like everything else in
//! the library.  The renderer around the library turns these placements
//! into meshes; here only the placement arithmetic lives, fully specified.

use vstd::prelude::*;

verus! {

use crate::fixed::{bounded, ONE};

/// Edge length of one voxel cube: 0.3 world units (nearest representable).
pub const VOXEL_SIZE: i64 = 19661;

/// An RGB color with fixed-point components in `[0, ONE]`.
#[derive(Clone, Copy, Debug, PartialEq, Eq, Structural)]
pub struct Color3 {
    pub r: i64,
    pub g: i64,
    pub b: i64,
}

/// Voxel placement helpers.
pub struct Voxel;

/// Where a voxel of a grid row lands: scaled by the grid index, except that
/// index zero takes the caller's default position.
pub open spec fn calc_position_spec(iter_pos: int, default_pos: int) -> int {
    if iter_pos != 0 {
        VOXEL_SIZE * iter_pos
    } else {
        default_pos
    }
}

/// One color component drawn from an entropy word: uniform over the
/// representable values of `[0.1, 1.0)`.
pub open spec fn color_component_spec(e: int) -> int {
    6554 + e % 58982
}

impl Voxel {
    /// Position of the voxel at a grid index, with a default for index zero.
    pub fn calc_position(iter_pos: i8, default_pos: i64) -> (r: i64)
        requires
            bounded(default_pos as int),
        ensures
            r as int == calc_position_spec(iter_pos as int, default_pos as int),
    {
        if iter_pos != 0 {
            VOXEL_SIZE * (iter_pos as i64)
        } else {
            default_pos
        }
    }

    /// The resting position of the demo's basic voxel: half a unit up.
    pub fn basic_position() -> (p: (i64, i64, i64))
        ensures
            p == (0i64, 32768i64, 0i64),
    {
        (0, 32768, 0)  // (0, 0.5, 0)
    }

    /// The demo's basic voxel color: a warm sand tone.
    pub fn basic_color() -> (c: Color3)
        ensures
            c == (Color3 { r: 52429i64, g: 45875i64, b: 39322i64 }),
    {
        Color3 { r: 52429, g: 45875, b: 39322 }  // about (0.8, 0.7, 0.6)
    }

    /// Map three entropy words (drawn by the caller) to a color whose
    /// components all lie in `[0.1, 1.0)`.
    pub fn random_color(er: u64, eg: u64, eb: u64) -> (c: Color3)
        ensures
            c.r as int == color_component_spec(er as int),
            c.g as int == color_component_spec(eg as int),
            c.b as int == color_component_spec(eb as int),
            6554 <= c.r < ONE,
            6554 <= c.g < ONE,
            6554 <= c.b < ONE,
    {
        Color3 {
            r: 6554 + (er % 58982) as i64,
            g: 6554 + (eg % 58982) as i64,
            b: 6554 + (eb % 58982) as i64,
        }
    }
}

/// What kind of world the generator lays out.
#[derive(Clone, Copy, Debug, PartialEq, Eq, Structural)]
pub enum Kind {
    Basic,
    Flat,
}

/// A world to generate: its kind and its edge size in voxels.
pub struct World {
    pub size: usize,
    pub kind: Kind,
}

/// X position of grid column `x` (default 0 at the origin).
pub open spec fn pos_x(x: int) -> int {
    calc_position_spec(x, 0)
}

/// Y position of grid row `y`: rows grow downward, with the default one
/// voxel below the origin.
pub open spec fn pos_y(y: int) -> int {
    calc_position_spec(-y, -VOXEL_SIZE as int)
}

/// Z position of grid layer `z`, with the default one voxel forward.
pub open spec fn pos_z(z: int) -> int {
    calc_position_spec(z, VOXEL_SIZE as int)
}

/// The z-run of cubes spawned under column `x`, row `y`.
pub open spec fn z_row(x: int, y: int, n: nat) -> Seq<(i64, i64, i64)> {
    Seq::new(n, |z: int| (pos_x(x) as i64, pos_y(y) as i64, pos_z(z) as i64))
}

/// The first `k` rows of column `x`: each row places one cube at depth
/// zero, then its z-run.
pub open spec fn y_rows(x: int, k: nat, n: nat) -> Seq<(i64, i64, i64)>
    decreases k,
{
    if k == 0 {
        Seq::empty()
    } else {
        y_rows(x, (k - 1) as nat, n) + seq![
            (pos_x(x) as i64, pos_y(k - 1) as i64, 0i64),
        ] + z_row(x, k - 1, n)
    }
}

/// The first `k` columns: each places one cube on the baseline, then its
/// rows.
pub open spec fn x_columns(k: nat, n: nat) -> Seq<(i64, i64, i64)>
    decreases k,
{
    if k == 0 {
        Seq::empty()
    } else {
        x_columns((k - 1) as nat, n) + seq![(pos_x(k - 1) as i64, 0i64, 0i64)] + y_rows(
            (k - 1) as int,
            n,
            n,
        )
    }
}

/// All cube placements of a world of edge size `n`.
pub open spec fn world_layout(n: nat) -> Seq<(i64, i64, i64)> {
    x_columns(n, n)
}

impl World {
    /// Lay out the world's cubes: for each column a baseline cube, for each
    /// of its rows a cube at depth zero and a full z-run of cubes.
    ///
    /// The kind does not influence the layout; it is kept for the renderer.
    /// The size is limited to one signed byte of grid indices.
    pub fn gen(&self) -> (out: Vec<(i64, i64, i64)>)
        requires
            self.size <= 127,
        ensures
            out@ == world_layout(self.size as nat),
    {
        let n = self.size;
        let mut out: Vec<(i64, i64, i64)> = Vec::new();
        let mut x: usize = 0;
        while x < n
            invariant
                n <= 127,
                0 <= x <= n,
                out@ == x_columns(x as nat, n as nat),
            decreases n - x,
        {
            let x_pos = Voxel::calc_position(x as i8, 0);
            out.push((x_pos, 0, 0));
            let ghost col_prefix = out@;
            let mut y: usize = 0;
            while y < n
                invariant
                    n <= 127,
                    0 <= x < n,
                    0 <= y <= n,
                    x_pos as int == pos_x(x as int),
                    col_prefix == x_columns(x as nat, n as nat) + seq![
                        (pos_x(x as int) as i64, 0i64, 0i64),
                    ],
                    out@ == col_prefix + y_rows(x as int, y as nat, n as nat),
                decreases n - y,
            {
                let y_pos = Voxel::calc_position(-(y as i8), -VOXEL_SIZE);
                out.push((x_pos, y_pos, 0));
                let ghost row_prefix = out@;
                let mut z: usize = 0;
                while z < n
                    invariant
                        n <= 127,
                        0 <= x < n,
                        0 <= y < n,
                        0 <= z <= n,
                        x_pos as int == pos_x(x as int),
                        y_pos as int == pos_y(y as int),
                        row_prefix == col_prefix + y_rows(x as int, y as nat, n as nat) + seq![
                            (pos_x(x as int) as i64, pos_y(y as int) as i64, 0i64),
                        ],
                        out@ == row_prefix + z_row(x as int, y as int, n as nat).take(z as int),
                    decreases n - z,
                {
                    let z_pos = Voxel::calc_position(z as i8, VOXEL_SIZE);
                    out.push((x_pos, y_pos, z_pos));
                    proof {
                        assert(z_row(x as int, y as int, n as nat).take(z as int + 1) =~= z_row(
                            x as int,
                            y as int,
                            n as nat,
                        ).take(z as int).push(
                            (pos_x(x as int) as i64, pos_y(y as int) as i64, pos_z(
                                z as int,
                            ) as i64),
                        ));
                    }
                    z = z + 1;
                }
                proof {
                    assert(z_row(x as int, y as int, n as nat).take(n as int) =~= z_row(
                        x as int,
                        y as int,
                        n as nat,
                    ));
                    assert(out@ =~= col_prefix + y_rows(x as int, (y + 1) as nat, n as nat));
                }
                y = y + 1;
            }
            proof {
                assert(out@ =~= x_columns((x + 1) as nat, n as nat));
            }
            x = x + 1;
        }
        out
    }
}

} // verus!
