//! PWM channel addressing and the logging stub transport.

use vstd::prelude::*;

verus! {

/// Which PWM channel a servo lives on: one of the Pi's two hardware
/// channels, or software PWM on a BCM pin.
#[derive(Debug, Clone, Copy, PartialEq, Eq, Hash, Structural)]
pub enum PwmChannel {
    /// Hardware PWM channel 0 — Pi GPIO 12 or 18.
    Hardware0,
    /// Hardware PWM channel 1 — Pi GPIO 13 or 19.
    Hardware1,
    /// Software PWM on the given BCM pin number.
    Software(u8),
}

/// A PWM transport that records nothing and drives nothing; it only
/// logs the commands it is given.
#[derive(Debug, Default, Clone, Copy, PartialEq, Eq, Structural)]
pub struct StubPwm;

impl StubPwm {
    pub fn new() -> (r: Self)
        ensures
            r == StubPwm,
    {
        StubPwm
    }
}

} // verus!
