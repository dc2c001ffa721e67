//! Easing profiles of the motion planner.

use vstd::prelude::*;

verus! {

/// The velocity profile of a move: linear, cubic smoothstep
/// (3t² − 2t³) or quintic smootherstep (6t⁵ − 15t⁴ + 10t³).
#[derive(Debug, Clone, Copy, PartialEq, Eq, Structural)]
pub enum Easing {
    Linear,
    Cubic,
    Quintic,
}

} // verus!
