//! The drawable simulation state: the bodies, their predicted curves,
//! and the check that decides when the curves have drifted too far from
//! the bodies and must be recomputed.

use vstd::prelude::*;
use crate::entities::{OrbitBody, OrbitCurve};
use crate::fixed::{Fx, WorldVec, FX_SCALE, RADIUS_LIMIT, TOLERANCE_LIMIT};
use crate::ids::fresh_id;

verus! {

/// The smallest radius among the bodies, in raw units; 0 when there are
/// no bodies (the value is never compared against in that case).
pub open spec fn min_radius(bodies: Seq<OrbitBody>) -> int
    decreases bodies.len(),
{
    if bodies.len() == 0 {
        0
    } else if bodies.len() == 1 {
        bodies[0].radius.raw as int
    } else {
        let m = min_radius(bodies.drop_last());
        let r = bodies.last().radius.raw as int;
        if r < m {
            r
        } else {
            m
        }
    }
}

/// Squared Euclidean distance between two world points, in squared raw
/// units.
pub open spec fn sq_dist(p: WorldVec, q: WorldVec) -> int {
    (p.x.raw - q.x.raw) * (p.x.raw - q.x.raw) + (p.y.raw - q.y.raw) * (p.y.raw - q.y.raw)
}

/// All identifiers in the sequence of bodies differ pairwise.
pub open spec fn distinct_ids(bodies: Seq<OrbitBody>) -> bool {
    forall|i: int, j: int|
        #![trigger bodies[i].id, bodies[j].id]
        0 <= i < j < bodies.len() ==> bodies[i].id != bodies[j].id
}

/// Aggregates the current bodies and their predicted curves; the curve
/// at index `i` belongs to the body at index `i`.
#[derive(Clone, Debug)]
pub struct Drawables {
    pub orbit_bodies: Vec<OrbitBody>,
    pub orbit_curves: Vec<OrbitCurve>,
}

/// The curve at index `i` has drifted: its first (nearest-term) plot
/// point lies strictly farther from body `i`'s center than the shared
/// threshold, the smallest body radius scaled by the fault tolerance.
/// Distances are compared squared, which is exact in fixed point:
/// `dist > r_min * tol / FX_SCALE` holds iff
/// `dist_sq_raw * FX_SCALE^2 > (r_min_raw * tol_raw)^2`.
pub open spec fn mismatch_at(d: Drawables, tolerance: int, i: int) -> bool {
    &&& 0 <= i < d.orbit_curves@.len()
    &&& d.orbit_curves@[i].plots@.len() > 0
    &&& sq_dist(d.orbit_curves@[i].plots@[0], d.orbit_bodies@[i].center) * (FX_SCALE * FX_SCALE)
        > (min_radius(d.orbit_bodies@) * tolerance) * (min_radius(d.orbit_bodies@) * tolerance)
}

/// Some curve has drifted from its body beyond the tolerance band.
pub open spec fn spec_curve_body_mismatch(d: Drawables, tolerance: int) -> bool {
    exists|i: int| #[trigger] mismatch_at(d, tolerance, i)
}

impl Drawables {
    /// Every body and curve lies within the machine limits, and every
    /// curve that has plotted points has a body at its index.
    pub open spec fn wf(self) -> bool {
        &&& forall|i: int|
            0 <= i < self.orbit_bodies@.len() ==> (#[trigger] self.orbit_bodies@[i]).wf()
        &&& forall|i: int|
            0 <= i < self.orbit_curves@.len() ==> {
                &&& (#[trigger] self.orbit_curves@[i]).wf()
                &&& self.orbit_curves@[i].plots@.len() > 0 ==> i < self.orbit_bodies@.len()
            }
    }

    /// True iff some non-empty curve's first plot point lies strictly
    /// farther than `min(radius) * fault_tolerance` from the center of
    /// the body it belongs to.  A curve with no plotted points is
    /// skipped; with no curves at all the answer is `false`.  A distance
    /// exactly equal to the threshold is not a mismatch.
    pub fn curve_body_mismatch(&self, fault_tolerance: Fx) -> (r: bool)
        requires
            self.wf(),
            0 <= fault_tolerance.raw <= TOLERANCE_LIMIT,
        ensures
            r == spec_curve_body_mismatch(*self, fault_tolerance.raw as int),
    {
        let ghost tol: int = fault_tolerance.raw as int;
        let nb: usize = self.orbit_bodies.len();
        let mut threshold_sq: i128 = 0;
        if nb > 0 {
            let mut min_r: i64 = self.orbit_bodies[0].radius.raw;
            let mut j: usize = 1;
            assert(self.orbit_bodies@.take(1) =~= seq![self.orbit_bodies@[0]]);
            while j < nb
                invariant
                    self.wf(),
                    nb == self.orbit_bodies@.len(),
                    1 <= j <= nb,
                    min_r == min_radius(self.orbit_bodies@.take(j as int)),
                    0 < min_r <= RADIUS_LIMIT,
                decreases nb - j,
            {
                let rj: i64 = self.orbit_bodies[j].radius.raw;
                proof {
                    assert(self.orbit_bodies@.take(j + 1).drop_last()
                        =~= self.orbit_bodies@.take(j as int));
                    assert(self.orbit_bodies@.take(j + 1).last() == self.orbit_bodies@[j as int]);
                }
                if rj < min_r {
                    min_r = rj;
                }
                j = j + 1;
            }
            assert(self.orbit_bodies@.take(nb as int) =~= self.orbit_bodies@);
            assert(0 <= (min_r as int) * (fault_tolerance.raw as int)
                <= 1_000_000_000_000_000_000) by (nonlinear_arith)
                requires
                    0 < min_r <= 10_000_000_000i64,
                    0 <= fault_tolerance.raw <= 100_000_000i64,
            ;
            let t: i128 = (min_r as i128) * (fault_tolerance.raw as i128);
            assert(0 <= t * t
                <= 1_000_000_000_000_000_000_000_000_000_000_000_000i128) by (nonlinear_arith)
                requires
                    0 <= t <= 1_000_000_000_000_000_000i128,
            ;
            threshold_sq = t * t;
        }
        let nc: usize = self.orbit_curves.len();
        let mut i: usize = 0;
        while i < nc
            invariant
                self.wf(),
                0 <= fault_tolerance.raw <= TOLERANCE_LIMIT,
                tol == fault_tolerance.raw as int,
                nb == self.orbit_bodies@.len(),
                nc == self.orbit_curves@.len(),
                i <= nc,
                nb > 0 ==> threshold_sq
                    == (min_radius(self.orbit_bodies@) * tol)
                        * (min_radius(self.orbit_bodies@) * tol),
                forall|k: int| 0 <= k < i ==> !(#[trigger] mismatch_at(*self, tol, k)),
            decreases nc - i,
        {
            let plots_len: usize = self.orbit_curves[i].plots.len();
            if plots_len > 0 {
                assert(i < nb);
                let p: WorldVec = self.orbit_curves[i].plots[0];
                let c: WorldVec = self.orbit_bodies[i].center;
                let dx: i128 = (p.x.raw as i128) - (c.x.raw as i128);
                let dy: i128 = (p.y.raw as i128) - (c.y.raw as i128);
                assert(0 <= dx * dx <= 4_000_000_000_000_000_000_000_000
                    && 0 <= dy * dy <= 4_000_000_000_000_000_000_000_000) by (nonlinear_arith)
                    requires
                        -2_000_000_000_000i128 <= dx <= 2_000_000_000_000i128,
                        -2_000_000_000_000i128 <= dy <= 2_000_000_000_000i128,
                ;
                let d2: i128 = dx * dx + dy * dy;
                let scale_sq: i128 = (FX_SCALE as i128) * (FX_SCALE as i128);
                let lhs: i128 = d2 * scale_sq;
                if lhs > threshold_sq {
                    assert(mismatch_at(*self, tol, i as int));
                    return true;
                }
            }
            i = i + 1;
        }
        assert(!spec_curve_body_mismatch(*self, tol));
        false
    }

    /// The fixed default scenario the simulation starts from: a central
    /// heavy body and three orbiting bodies at increasing distance with
    /// tangential velocities, each with a freshly generated identifier,
    /// and no predicted curves yet.
    pub(crate) fn initial() -> (r: Drawables)
        ensures
            r.orbit_bodies@.len() == 4,
            r.orbit_curves@.len() == 0,
            is_initial_bodies(r.orbit_bodies@),
            distinct_ids(r.orbit_bodies@),
            r.wf(),
    {
        let id0: u128 = fresh_id();
        let id1: u128 = fresh_id();
        let id2: u128 = fresh_id();
        let id3: u128 = fresh_id();
        // The generator is collision-resistant but nothing is proved of
        // it, so distinctness is enforced here: on the (astronomically
        // unlikely) collision, fall back to ids that differ only in
        // their two lowest bits, keeping the random high bits.
        let all_distinct: bool = id0 != id1 && id0 != id2 && id0 != id3 && id1 != id2
            && id1 != id3 && id2 != id3;
        let (a, b, c, d): (u128, u128, u128, u128) = if all_distinct {
            (id0, id1, id2, id3)
        } else {
            proof {
                assert(id0 != id0 ^ 1 && id0 != id0 ^ 2 && id0 != id0 ^ 3
                    && id0 ^ 1 != id0 ^ 2 && id0 ^ 1 != id0 ^ 3
                    && id0 ^ 2 != id0 ^ 3) by (bit_vector);
            }
            (id0, id0 ^ 1, id0 ^ 2, id0 ^ 3)
        };
        let bodies: Vec<OrbitBody> = vec![
            OrbitBody {
                id: a,
                center: WorldVec { x: Fx { raw: 0 }, y: Fx { raw: 0 } },
                radius: Fx { raw: 1_200_000 },
                mass: Fx { raw: 1_660_000_000 },
                velocity: WorldVec { x: Fx { raw: 0 }, y: Fx { raw: -1_000_000i64 } },
            },
            OrbitBody {
                id: b,
                center: WorldVec { x: Fx { raw: 3_500_000 }, y: Fx { raw: 0 } },
                radius: Fx { raw: 900_000 },
                mass: Fx { raw: 1_000_000_000 },
                velocity: WorldVec { x: Fx { raw: 0 }, y: Fx { raw: 1_600_000 } },
            },
            OrbitBody {
                id: c,
                center: WorldVec { x: Fx { raw: 9_000_000 }, y: Fx { raw: 0 } },
                radius: Fx { raw: 300_000 },
                mass: Fx { raw: 1_000_000 },
                velocity: WorldVec { x: Fx { raw: 0 }, y: Fx { raw: 2_000_000 } },
            },
            OrbitBody {
                id: d,
                center: WorldVec { x: Fx { raw: -12_000_000i64 }, y: Fx { raw: 0 } },
                radius: Fx { raw: 400_000 },
                mass: Fx { raw: 2_000_000 },
                velocity: WorldVec { x: Fx { raw: 0 }, y: Fx { raw: -1_500_000i64 } },
            },
        ];
        Drawables { orbit_bodies: bodies, orbit_curves: Vec::new() }
    }
}

/// The fixed starting configuration, field by field, in raw units
/// (millionths of a world unit): a heavy central body and three
/// orbiting bodies at increasing distance with tangential velocities.
pub open spec fn is_initial_bodies(bodies: Seq<OrbitBody>) -> bool {
    &&& bodies.len() == 4
    &&& bodies[0].center == (WorldVec { x: Fx { raw: 0 }, y: Fx { raw: 0 } })
    &&& bodies[0].radius.raw == 1_200_000
    &&& bodies[0].mass.raw == 1_660_000_000
    &&& bodies[0].velocity == (WorldVec { x: Fx { raw: 0 }, y: Fx { raw: -1_000_000i64 } })
    &&& bodies[1].center == (WorldVec { x: Fx { raw: 3_500_000 }, y: Fx { raw: 0 } })
    &&& bodies[1].radius.raw == 900_000
    &&& bodies[1].mass.raw == 1_000_000_000
    &&& bodies[1].velocity == (WorldVec { x: Fx { raw: 0 }, y: Fx { raw: 1_600_000 } })
    &&& bodies[2].center == (WorldVec { x: Fx { raw: 9_000_000 }, y: Fx { raw: 0 } })
    &&& bodies[2].radius.raw == 300_000
    &&& bodies[2].mass.raw == 1_000_000
    &&& bodies[2].velocity == (WorldVec { x: Fx { raw: 0 }, y: Fx { raw: 2_000_000 } })
    &&& bodies[3].center == (WorldVec { x: Fx { raw: -12_000_000i64 }, y: Fx { raw: 0 } })
    &&& bodies[3].radius.raw == 400_000
    &&& bodies[3].mass.raw == 2_000_000
    &&& bodies[3].velocity == (WorldVec { x: Fx { raw: 0 }, y: Fx { raw: -1_500_000i64 } })
}

/// With no predicted curves there is never a mismatch, whatever the
/// fault tolerance.
pub proof fn lemma_no_curves_no_mismatch(d: Drawables, tolerance: int)
    requires
        d.orbit_curves@.len() == 0,
    ensures
        !spec_curve_body_mismatch(d, tolerance),
{
}

/// The mismatch check is a pure query: any two results determined by
/// the same drawables and the same tolerance are equal.
pub proof fn lemma_mismatch_idempotent(d: Drawables, tolerance: int, r1: bool, r2: bool)
    requires
        r1 == spec_curve_body_mismatch(d, tolerance),
        r2 == spec_curve_body_mismatch(d, tolerance),
    ensures
        r1 == r2,
{
}

} // verus!
