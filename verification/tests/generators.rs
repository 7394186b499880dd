//! Range and determinism checks of the primitive noise generators.

use unistone::fixed::ONE;
use unistone::generator::{billow, fbm, ridged, worley};

/// A small deterministic pseudo-random stream for test coordinates.
struct Lcg(u64);

impl Lcg {
    fn next(&mut self) -> u64 {
        self.0 = self
            .0
            .wrapping_mul(6364136223846793005)
            .wrapping_add(1442695040888963407);
        self.0
    }

    /// A coordinate within about +/-2048 world units.
    fn coord(&mut self) -> i64 {
        (self.next() % (4096 * ONE as u64)) as i64 - 2048 * ONE
    }
}

const SAMPLES: usize = 10_000;

#[test]
fn fbm_output_stays_in_nominal_range() {
    let mut rng = Lcg(7);
    for _ in 0..SAMPLES {
        let (x, y, z) = (rng.coord(), rng.coord(), rng.coord());
        let v = fbm(3, ONE, 144768, ONE / 2, 6, x, y, z);
        assert!(-ONE <= v && v <= ONE, "fbm out of range: {v}");
    }
}

#[test]
fn billow_output_stays_in_nominal_range() {
    let mut rng = Lcg(11);
    for _ in 0..SAMPLES {
        let (x, y, z) = (rng.coord(), rng.coord(), rng.coord());
        let v = billow(5, 3 * ONE, 141696, ONE / 2, 6, x, y, z);
        assert!(-ONE <= v && v <= ONE, "billow out of range: {v}");
    }
}

#[test]
fn ridged_output_stays_in_nominal_range() {
    let mut rng = Lcg(13);
    for _ in 0..SAMPLES {
        let (x, y, z) = (rng.coord(), rng.coord(), rng.coord());
        let v = ridged(9, 2 * ONE, 140416, 4, x, y, z);
        assert!(-ONE <= v && v <= ONE, "ridged out of range: {v}");
    }
}

#[test]
fn worley_output_stays_in_nominal_range() {
    let mut rng = Lcg(17);
    for _ in 0..SAMPLES {
        let (x, y, z) = (rng.coord(), rng.coord(), rng.coord());
        let v = worley(23, 2 * ONE, x, y, z);
        assert!(-ONE <= v && v <= ONE, "worley out of range: {v}");
    }
}

#[test]
fn generators_are_deterministic() {
    let mut rng = Lcg(29);
    for _ in 0..200 {
        let (x, y, z) = (rng.coord(), rng.coord(), rng.coord());
        assert_eq!(
            fbm(42, ONE, 144768, ONE / 2, 8, x, y, z),
            fbm(42, ONE, 144768, ONE / 2, 8, x, y, z)
        );
        assert_eq!(ridged(42, ONE, 144768, 3, x, y, z), ridged(42, ONE, 144768, 3, x, y, z));
        assert_eq!(worley(42, ONE, x, y, z), worley(42, ONE, x, y, z));
    }
}

#[test]
fn different_seeds_give_different_fields() {
    // Not a contract, but a sanity check that seeding decorrelates leaves:
    // two seeds must disagree somewhere on a small sample.
    let mut rng = Lcg(31);
    let mut differs = false;
    for _ in 0..64 {
        let (x, y, z) = (rng.coord(), rng.coord(), rng.coord());
        if fbm(1, ONE, 144768, ONE / 2, 4, x, y, z) != fbm(2, ONE, 144768, ONE / 2, 4, x, y, z) {
            differs = true;
        }
    }
    assert!(differs);
}
