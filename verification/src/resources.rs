//! Resources published once per step by the simulation task and visible
//! read-only to every system during that step.

use vstd::prelude::*;

verus! {

/// The number of frames that have passed since the last simulation step.
#[derive(Clone, Copy, Debug, Default, PartialEq, Eq, Structural)]
pub struct ElapsedFramesCount(pub u64);

/// The amount of time, in milliseconds, that has passed since the last
/// frame of the simulation.
#[derive(Clone, Copy, Debug, Default, PartialEq, Eq, Structural)]
pub struct DurationSinceLastFrame(pub u64);

} // verus!
