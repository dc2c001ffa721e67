//! Calibration subcommands of the command-line tool.

use vstd::prelude::*;

verus! {

#[derive(Debug, Clone, PartialEq, Eq)]
pub enum CalibrateCmd {
    /// Drive every joint to its midpoint and hold.
    Center,
    /// Sweep one joint min↔max so the endstops can be read.
    Sweep { joint: String },
}

} // verus!
