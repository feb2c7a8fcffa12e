//! The simulation entities: gravitating bodies and their predicted
//! trajectory curves.

use vstd::prelude::*;
use crate::fixed::{Fx, WorldVec, RADIUS_LIMIT};

verus! {

/// A single gravitating body: a disc with an identity, a world-space
/// position and velocity, a fixed display radius and a fixed mass.
#[derive(Clone, Copy, Debug, PartialEq, Eq, Structural)]
pub struct OrbitBody {
    /// Globally unique identifier, assigned once at creation.
    pub id: u128,
    /// World-space position, advanced by the external integrator.
    pub center: WorldVec,
    /// Fixed display/collision radius, set at creation.
    pub radius: Fx,
    /// Gravitational mass, set at creation.
    pub mass: Fx,
    /// World-space velocity, advanced by the external integrator.
    pub velocity: WorldVec,
}

impl OrbitBody {
    /// The body's position and radius lie within the machine limits the
    /// mismatch check depends on, and the radius is positive.
    pub open spec fn wf(self) -> bool {
        &&& self.center.in_world()
        &&& 0 < self.radius.raw <= RADIUS_LIMIT
    }
}

/// A precomputed, ordered sequence of predicted world-space positions
/// for one body; index 0 is the nearest-term, most authoritative point.
#[derive(Clone, Debug)]
pub struct OrbitCurve {
    pub plots: Vec<WorldVec>,
}

impl OrbitCurve {
    /// Every plotted point lies within the world coordinate limit.
    pub open spec fn wf(self) -> bool {
        forall|i: int| 0 <= i < self.plots@.len() ==> (#[trigger] self.plots@[i]).in_world()
    }
}

} // verus!
