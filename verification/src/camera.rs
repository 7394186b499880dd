//! The pan-orbit camera's numeric state and its zoom rule.
//!
//! The camera rig's quaternion math and input polling belong to the engine
//! around the library; what is kept here is the camera's plain state (focus
//! point, orbit radius, orientation flag) and the zoom arithmetic, which is
//! pure: a scroll step shrinks or grows the radius by a fifth of itself,
//! bounded below, and is only applied while the prospective radius stays
//! inside the allowed zoom window.

use vstd::prelude::*;

verus! {

use crate::fixed::{bounded, isqrt, max_spec, mul_one, mul_one_spec, sqrt_floor, ONE};

/// Nearest allowed orbit radius: 3.
pub const MAX_ZOOM: i64 = 196608;

/// Farthest allowed orbit radius: 15.
pub const MIN_ZOOM: i64 = 983040;

/// Fraction of the radius one scroll step moves: 1/5 (nearest
/// representable).
pub const ZOOM_STEP: i64 = 13107;

/// Smallest radius the zoom rule can ever produce: 0.05 (nearest
/// representable).
pub const RADIUS_FLOOR: i64 = 3277;

/// The pan-orbit camera's state: the focus point it orbits, its distance
/// from it, and whether it is currently upside down.
#[derive(Clone, Copy, Debug)]
pub struct PanOrbitCamera {
    pub focus: (i64, i64, i64),
    pub radius: i64,
    pub upside_down: bool,
}

impl Default for PanOrbitCamera {
    /// At rest the camera orbits the origin at radius 5, upright.
    fn default() -> (c: PanOrbitCamera)
        ensures
            c == (PanOrbitCamera { focus: (0i64, 0i64, 0i64), radius: 327680i64, upside_down: false }),
    {
        PanOrbitCamera { focus: (0, 0, 0), radius: 327680, upside_down: false }
    }
}

/// The radius a scroll step would produce: the radius less a fifth of
/// itself per unit of scroll, never under the floor.
pub open spec fn sor_spec(scroll: int, radius: int) -> int {
    max_spec(radius - mul_one_spec(mul_one_spec(scroll, radius), ZOOM_STEP as int), RADIUS_FLOOR as int)
}

/// Compute the prospective orbit radius after a scroll step.
pub fn sor(scroll: i64, radius: i64) -> (r: i64)
    requires
        bounded(scroll as int),
        bounded(radius as int),
    ensures
        r as int == sor_spec(scroll as int, radius as int),
        r >= RADIUS_FLOOR,
{
    let step = mul_one(mul_one(scroll, radius), ZOOM_STEP);
    let shrunk = radius - step;
    if shrunk >= RADIUS_FLOOR {
        shrunk
    } else {
        RADIUS_FLOOR
    }
}

/// Camera construction and control.
pub struct Camera;

impl Camera {
    /// The camera's spawn state: looking at the origin from `(-2, 2.5, 5)`,
    /// so its orbit radius is the length of that translation.
    pub fn spawn() -> (c: PanOrbitCamera)
        ensures
            c.focus == (0i64, 0i64, 0i64),
            !c.upside_down,
            c.radius as nat == sqrt_floor((2310144 * 65536) as nat),
    {
        let x: i64 = -131072;  // -2
        let y: i64 = 163840;  // 2.5
        let z: i64 = 327680;  // 5
        let n2 = mul_one(x, x) + mul_one(y, y) + mul_one(z, z);
        assert(n2 == 2310144);  // 35.25, the squared length
        let r = isqrt((n2 * ONE) as u64);
        proof {
            assert(r as int <= 400000) by (nonlinear_arith)
                requires
                    (r as int) * (r as int) <= 151397597184,
            ;
        }
        PanOrbitCamera { focus: (0, 0, 0), radius: r as i64, upside_down: false }
    }

    /// Apply one scroll step to the camera.
    ///
    /// The step only takes effect when there is scroll input and the
    /// prospective radius lies strictly inside the zoom window; the radius
    /// then becomes exactly that prospective value, and the focus and
    /// orientation are untouched.
    pub fn zoom(cam: &mut PanOrbitCamera, scroll: i64) -> (applied: bool)
        requires
            bounded(old(cam).radius as int),
            bounded(scroll as int),
        ensures
            final(cam).focus == old(cam).focus,
            final(cam).upside_down == old(cam).upside_down,
            applied == (scroll != 0 && MAX_ZOOM < sor_spec(scroll as int, old(cam).radius as int)
                < MIN_ZOOM),
            applied ==> final(cam).radius as int == sor_spec(
                scroll as int,
                old(cam).radius as int,
            ),
            !applied ==> final(cam).radius == old(cam).radius,
            applied ==> MAX_ZOOM < final(cam).radius < MIN_ZOOM,
    {
        let prospective = sor(scroll, cam.radius);
        if scroll != 0 && prospective > MAX_ZOOM && prospective < MIN_ZOOM {
            cam.radius = prospective;
            true
        } else {
            false
        }
    }
}

} // verus!
