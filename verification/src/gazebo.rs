//! The no-op Gazebo bridge, used when no simulator is attached.

use vstd::prelude::*;

verus! {

/// A bridge that publishes nothing and polls nothing.
#[derive(Debug, Default, Clone, Copy, PartialEq, Eq, Structural)]
pub struct NullBridge;

} // verus!
