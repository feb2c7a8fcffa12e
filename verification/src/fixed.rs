//! Fixed-point world-space scalars and vectors.
//!
//! A world-space quantity is stored as a count of millionths of a world
//! unit, so decimal literals such as 3.5 or 0.33 are represented exactly
//! and all arithmetic on them is exact integer arithmetic.

use vstd::prelude::*;

verus! {

/// Raw units per world unit: one raw step is a millionth of a world unit.
pub const FX_SCALE: i64 = 1_000_000;

/// Largest magnitude, in raw units, a world coordinate may take
/// (a million world units); keeps squared distances inside `i128`.
pub const COORD_LIMIT: i64 = 1_000_000_000_000;

/// Largest radius, in raw units, a body may have (ten thousand world
/// units); keeps the squared mismatch threshold inside `i128`.
pub const RADIUS_LIMIT: i64 = 10_000_000_000;

/// Largest fault tolerance, in raw units, the mismatch check accepts
/// (a factor of one hundred); keeps the squared threshold inside `i128`.
pub const TOLERANCE_LIMIT: i64 = 100_000_000;

/// A world-space scalar in fixed point: `raw` counts millionths of a
/// world unit.
#[derive(Clone, Copy, Debug, PartialEq, Eq, Structural)]
pub struct Fx {
    pub raw: i64,
}

impl Fx {
    /// The scalar as a count of raw units (millionths of a world unit).
    pub open spec fn value(self) -> int {
        self.raw as int
    }

    /// Wraps a raw count of millionths of a world unit.
    pub fn new(raw: i64) -> (r: Fx)
        ensures
            r.raw == raw,
    {
        Fx { raw }
    }

    /// Builds the scalar for a whole number of world units.
    pub fn from_units(units: i32) -> (r: Fx)
        ensures
            r.raw == units * FX_SCALE,
    {
        Fx { raw: (units as i64) * FX_SCALE }
    }
}

/// A 2-D world-space vector in fixed point.
#[derive(Clone, Copy, Debug, PartialEq, Eq, Structural)]
pub struct WorldVec {
    pub x: Fx,
    pub y: Fx,
}

impl WorldVec {
    /// Builds a vector from raw counts of millionths of a world unit.
    pub fn new(x_raw: i64, y_raw: i64) -> (r: WorldVec)
        ensures
            r.x.raw == x_raw,
            r.y.raw == y_raw,
    {
        WorldVec { x: Fx { raw: x_raw }, y: Fx { raw: y_raw } }
    }

    /// Both coordinates lie within the world coordinate limit.
    pub open spec fn in_world(self) -> bool {
        &&& -COORD_LIMIT <= self.x.raw <= COORD_LIMIT
        &&& -COORD_LIMIT <= self.y.raw <= COORD_LIMIT
    }
}

} // verus!
