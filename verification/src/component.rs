//! Per-agent components. Positions and velocities are continuous 2D vectors
//! stored in signed fixed-point: `SCALE` units make one grid cell width, so
//! a cell's worth of distance is exact and the splatting weights of the
//! field accumulator are exact integers.

use vstd::prelude::*;

verus! {

/// Number of fixed-point units in one grid cell width.
pub const SCALE: i64 = 1024;

/// Half a cell width in fixed-point units; cell centers sit at half-integer
/// offsets from cell corners.
pub const HALF_SCALE: i64 = 512;

/// Largest magnitude a component coordinate may carry, in fixed-point
/// units. Keeping coordinates within this bound lets the field accumulator
/// sum weighted contributions of up to `MAX_AGENTS` agents without
/// overflowing a 64-bit word.
pub const COORD_LIMIT: i64 = 0x10_0000;

/// Largest number of agents the store accepts.
pub const MAX_AGENTS: usize = 0x4000_0000;

/// Continuous position of an agent, in fixed-point cell units.
#[derive(Clone, Copy, Debug, PartialEq, Eq, Structural)]
pub struct Position {
    pub x: i64,
    pub y: i64,
}

/// Velocity of an agent, in fixed-point cell units per second.
#[derive(Clone, Copy, Debug, PartialEq, Eq, Structural)]
pub struct Velocity {
    pub x: i64,
    pub y: i64,
}

impl Position {
    /// Both coordinates stay within the accumulator's safe range.
    pub open spec fn bounded(&self) -> bool {
        -COORD_LIMIT <= self.x <= COORD_LIMIT && -COORD_LIMIT <= self.y <= COORD_LIMIT
    }
}

impl Velocity {
    /// Both coordinates stay within the accumulator's safe range.
    pub open spec fn bounded(&self) -> bool {
        -COORD_LIMIT <= self.x <= COORD_LIMIT && -COORD_LIMIT <= self.y <= COORD_LIMIT
    }
}

/// One agent of the store. Component presence is independent: an entity may
/// carry either component, both, or neither, and systems tolerate all four
/// shapes.
#[derive(Clone, Copy, Debug, PartialEq, Eq, Structural)]
pub struct Entity {
    pub position: Option<Position>,
    pub velocity: Option<Velocity>,
}

impl Entity {
    /// Every component the entity carries stays within the accumulator's
    /// safe range.
    pub open spec fn bounded(&self) -> bool {
        &&& (self.position matches Some(p) ==> p.bounded())
        &&& (self.velocity matches Some(v) ==> v.bounded())
    }
}

} // verus!
