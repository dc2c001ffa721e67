//! Typed errors raised by the platform's verified logic.

use vstd::prelude::*;

verus! {

/// Errors that library operations report to their callers.
#[derive(Debug, Clone, PartialEq, Eq)]
pub enum RoboticsError {
    /// The target pose is outside the reachable workspace.
    Unreachable,
    /// The kinematics solver failed.
    KinematicsFailure(String),
    /// A backend transport error.
    Backend(String),
    /// A hardware error.
    Hardware(String),
    /// An invalid configuration.
    Config(String),
    /// A transition that the state machine does not allow from its
    /// current state.
    InvalidStateTransition { from: String, to: String },
    /// The emergency stop is engaged.
    EmergencyStop,
}

} // verus!
