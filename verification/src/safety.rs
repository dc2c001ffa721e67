//! The hardware backend's emergency-stop latch.
//!
//! Once the emergency stop is engaged the backend refuses every further
//! command and skips every PWM write until a manual reset releases it.

use vstd::prelude::*;
use crate::error::RoboticsError;

verus! {

#[derive(Debug, Clone, Copy, Default)]
pub struct EstopLatch {
    engaged: bool,
}

impl View for EstopLatch {
    type V = bool;

    /// Whether the emergency stop is engaged.
    closed spec fn view(&self) -> bool {
        self.engaged
    }
}

impl EstopLatch {
    /// A released latch.
    pub fn new() -> (r: Self)
        ensures
            !r@,
    {
        EstopLatch { engaged: false }
    }

    /// Engage the emergency stop. Engaging an engaged latch changes nothing.
    pub fn engage(&mut self)
        ensures
            final(self)@,
    {
        self.engaged = true;
    }

    /// Release the emergency stop (the manual reset).
    pub fn release(&mut self)
        ensures
            !final(self)@,
    {
        self.engaged = false;
    }

    pub fn is_engaged(&self) -> (r: bool)
        ensures
            r == self@,
    {
        self.engaged
    }

    /// Let a command or a PWM write through: refused with `EmergencyStop`
    /// exactly when the latch is engaged.
    pub fn check_clear(&self) -> (r: Result<(), RoboticsError>)
        ensures
            r is Ok <==> !self@,
            r is Err ==> r == Err::<(), RoboticsError>(RoboticsError::EmergencyStop),
    {
        if self.engaged {
            Err(RoboticsError::EmergencyStop)
        } else {
            Ok(())
        }
    }
}

} // verus!
