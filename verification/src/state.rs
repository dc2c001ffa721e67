//! The robot state machine.
//!
//! Every transition is explicit; a transition that is not in the table
//! is refused with `InvalidStateTransition` and leaves the state as it
//! was. `Estop` is accepted from every state, `Reset` only from
//! `EmergencyStop` and `Error`. The emergency stop is terminal until a
//! manual `Reset`: from `EmergencyStop` nothing else is accepted.

use vstd::prelude::*;
use vstd::string::*;
use crate::error::RoboticsError;

verus! {

#[derive(Debug, Clone, Copy, PartialEq, Eq, Structural)]
pub enum RobotState {
    Idle,
    Targeting,
    Moving,
    Picking,
    Carrying,
    Placing,
    Error,
    EmergencyStop,
}

/// The snake-case name of a state.
pub open spec fn state_name(s: RobotState) -> Seq<char> {
    match s {
        RobotState::Idle => "idle"@,
        RobotState::Targeting => "targeting"@,
        RobotState::Moving => "moving"@,
        RobotState::Picking => "picking"@,
        RobotState::Carrying => "carrying"@,
        RobotState::Placing => "placing"@,
        RobotState::Error => "error"@,
        RobotState::EmergencyStop => "emergency_stop"@,
    }
}

impl RobotState {
    pub fn as_str(self) -> (r: &'static str)
        ensures
            r@ == state_name(self),
    {
        match self {
            RobotState::Idle => "idle",
            RobotState::Targeting => "targeting",
            RobotState::Moving => "moving",
            RobotState::Picking => "picking",
            RobotState::Carrying => "carrying",
            RobotState::Placing => "placing",
            RobotState::Error => "error",
            RobotState::EmergencyStop => "emergency_stop",
        }
    }
}

/// The transition vocabulary.
#[derive(Debug, Clone, Copy, PartialEq, Eq, Structural)]
pub enum Transition {
    BeginPlanning,
    PlanReady,
    AtPickPose,
    Grasped,
    AtPlacePose,
    Released,
    Complete,
    Fault,
    Estop,
    Reset,
}

/// The variant name of a transition, as its `Debug` form prints it.
pub open spec fn transition_name(t: Transition) -> Seq<char> {
    match t {
        Transition::BeginPlanning => "BeginPlanning"@,
        Transition::PlanReady => "PlanReady"@,
        Transition::AtPickPose => "AtPickPose"@,
        Transition::Grasped => "Grasped"@,
        Transition::AtPlacePose => "AtPlacePose"@,
        Transition::Released => "Released"@,
        Transition::Complete => "Complete"@,
        Transition::Fault => "Fault"@,
        Transition::Estop => "Estop"@,
        Transition::Reset => "Reset"@,
    }
}

impl Transition {
    /// The variant name of the transition.
    pub fn name(self) -> (r: &'static str)
        ensures
            r@ == transition_name(self),
    {
        match self {
            Transition::BeginPlanning => "BeginPlanning",
            Transition::PlanReady => "PlanReady",
            Transition::AtPickPose => "AtPickPose",
            Transition::Grasped => "Grasped",
            Transition::AtPlacePose => "AtPlacePose",
            Transition::Released => "Released",
            Transition::Complete => "Complete",
            Transition::Fault => "Fault",
            Transition::Estop => "Estop",
            Transition::Reset => "Reset",
        }
    }
}

/// The transition table: the state that `t` leads to from `s`, or `None`
/// where the pair is not allowed.
pub open spec fn next_state(s: RobotState, t: Transition) -> Option<RobotState> {
    match t {
        Transition::Estop => Some(RobotState::EmergencyStop),
        Transition::Reset => if s == RobotState::EmergencyStop || s == RobotState::Error {
            Some(RobotState::Idle)
        } else {
            None
        },
        Transition::Complete => if s == RobotState::EmergencyStop {
            None
        } else {
            Some(RobotState::Idle)
        },
        Transition::Fault => if s == RobotState::EmergencyStop {
            None
        } else {
            Some(RobotState::Error)
        },
        Transition::BeginPlanning => match s {
            RobotState::Idle | RobotState::Moving | RobotState::Carrying => Some(
                RobotState::Targeting,
            ),
            _ => None,
        },
        Transition::PlanReady => match s {
            RobotState::Targeting | RobotState::Carrying => Some(RobotState::Moving),
            _ => None,
        },
        Transition::AtPickPose => if s == RobotState::Moving {
            Some(RobotState::Picking)
        } else {
            None
        },
        Transition::Grasped => if s == RobotState::Picking {
            Some(RobotState::Carrying)
        } else {
            None
        },
        Transition::AtPlacePose => if s == RobotState::Moving {
            Some(RobotState::Placing)
        } else {
            None
        },
        Transition::Released => if s == RobotState::Placing {
            Some(RobotState::Idle)
        } else {
            None
        },
    }
}

/// The error that refuses transition `t` from state `s`.
pub open spec fn is_refusal(e: RoboticsError, s: RobotState, t: Transition) -> bool {
    match e {
        RoboticsError::InvalidStateTransition { from, to } => from@ == state_name(s) && to@
            == transition_name(t),
        _ => false,
    }
}

#[derive(Debug, Clone, Copy)]
pub struct StateMachine {
    pub state: RobotState,
}

impl Default for StateMachine {
    fn default() -> (r: Self)
        ensures
            r.state == RobotState::Idle,
    {
        StateMachine { state: RobotState::Idle }
    }
}

impl StateMachine {
    /// Apply a transition. Returns the new state on success, or an
    /// `InvalidStateTransition` error naming the current state and the
    /// refused transition; a refused transition leaves the state as it was.
    pub fn transition(&mut self, t: Transition) -> (r: Result<RobotState, RoboticsError>)
        ensures
            match next_state(old(self).state, t) {
                Some(n) => r == Ok::<RobotState, RoboticsError>(n) && final(self).state == n,
                None => r is Err && is_refusal(r->Err_0, old(self).state, t) && final(self).state
                    == old(self).state,
            },
    {
        match t {
            Transition::Estop => {
                self.state = RobotState::EmergencyStop;
                return Ok(self.state);
            },
            Transition::Reset => {
                if matches!(self.state, RobotState::EmergencyStop | RobotState::Error) {
                    self.state = RobotState::Idle;
                    return Ok(self.state);
                }
                return self.bad(t);
            },
            _ => {},
        }
        let next = match (self.state, t) {
            (RobotState::Idle, Transition::BeginPlanning) => RobotState::Targeting,
            (RobotState::Targeting, Transition::PlanReady) => RobotState::Moving,
            (RobotState::Moving, Transition::AtPickPose) => RobotState::Picking,
            (RobotState::Picking, Transition::Grasped) => RobotState::Carrying,
            // Chaining segments: a new plan may start while a previous
            // segment is still in flight.
            (RobotState::Moving, Transition::BeginPlanning) => RobotState::Targeting,
            (RobotState::Carrying, Transition::BeginPlanning) => RobotState::Targeting,
            (RobotState::Carrying, Transition::PlanReady) => RobotState::Moving,
            (RobotState::Moving, Transition::AtPlacePose) => RobotState::Placing,
            (RobotState::Placing, Transition::Released) => RobotState::Idle,
            // The emergency stop holds until a manual reset.
            (RobotState::EmergencyStop, _) => return self.bad(t),
            (_, Transition::Complete) => RobotState::Idle,
            (_, Transition::Fault) => RobotState::Error,
            _ => return self.bad(t),
        };
        self.state = next;
        Ok(next)
    }

    /// The refusal of transition `t` from the current state.
    pub fn bad(&self, t: Transition) -> (r: Result<RobotState, RoboticsError>)
        ensures
            r is Err,
            is_refusal(r->Err_0, self.state, t),
    {
        Err(
            RoboticsError::InvalidStateTransition {
                from: String::from_str(self.state.as_str()),
                to: String::from_str(t.name()),
            },
        )
    }

    /// Once a segment has been planned, a machine in `Targeting` moves on
    /// to `Moving`; a machine in any other state (for example one already
    /// carrying an object along a multi-leg move) stays where it is.
    pub fn confirm_plan(&mut self)
        ensures
            old(self).state == RobotState::Targeting ==> final(self).state == RobotState::Moving,
            old(self).state != RobotState::Targeting ==> final(self).state == old(self).state,
    {
        if matches!(self.state, RobotState::Targeting) {
            let _ = self.transition(Transition::PlanReady);
        }
    }
}

/// The emergency stop is never blocked: from every state, `Estop` is
/// accepted and leads to `EmergencyStop`.
pub proof fn lemma_estop_always_accepted(s: RobotState)
    ensures
        next_state(s, Transition::Estop) == Some(RobotState::EmergencyStop),
{
}

/// `Reset` is accepted exactly from `EmergencyStop` and `Error`, and
/// there it recovers to `Idle`.
pub proof fn lemma_reset_recovers(s: RobotState)
    ensures
        next_state(s, Transition::Reset) is Some <==> (s == RobotState::EmergencyStop || s
            == RobotState::Error),
        next_state(s, Transition::Reset) is Some ==> next_state(s, Transition::Reset) == Some(
            RobotState::Idle,
        ),
{
}

/// The emergency stop is terminal until a manual reset: from
/// `EmergencyStop`, every transition other than `Estop` and `Reset` is
/// refused.
pub proof fn lemma_estop_blocks_motion(t: Transition)
    requires
        t != Transition::Estop,
        t != Transition::Reset,
    ensures
        next_state(RobotState::EmergencyStop, t) is None,
{
}

/// A fault is accepted from every state but the emergency stop, and
/// leads to `Error`.
pub proof fn lemma_fault_always_accepted(s: RobotState)
    requires
        s != RobotState::EmergencyStop,
    ensures
        next_state(s, Transition::Fault) == Some(RobotState::Error),
{
}

/// The full transition table, transition by transition: the states from
/// which each transition is accepted, and where it leads. Every other
/// (state, transition) pair is refused.
pub proof fn lemma_transition_table(s: RobotState)
    ensures
        next_state(s, Transition::BeginPlanning) is Some <==> (s == RobotState::Idle || s
            == RobotState::Moving || s == RobotState::Carrying),
        next_state(s, Transition::BeginPlanning) is Some ==> next_state(
            s,
            Transition::BeginPlanning,
        ) == Some(RobotState::Targeting),
        next_state(s, Transition::PlanReady) is Some <==> (s == RobotState::Targeting || s
            == RobotState::Carrying),
        next_state(s, Transition::PlanReady) is Some ==> next_state(s, Transition::PlanReady)
            == Some(RobotState::Moving),
        next_state(s, Transition::AtPickPose) is Some <==> s == RobotState::Moving,
        next_state(s, Transition::AtPickPose) is Some ==> next_state(s, Transition::AtPickPose)
            == Some(RobotState::Picking),
        next_state(s, Transition::Grasped) is Some <==> s == RobotState::Picking,
        next_state(s, Transition::Grasped) is Some ==> next_state(s, Transition::Grasped) == Some(
            RobotState::Carrying,
        ),
        next_state(s, Transition::AtPlacePose) is Some <==> s == RobotState::Moving,
        next_state(s, Transition::AtPlacePose) is Some ==> next_state(s, Transition::AtPlacePose)
            == Some(RobotState::Placing),
        next_state(s, Transition::Released) is Some <==> s == RobotState::Placing,
        next_state(s, Transition::Released) is Some ==> next_state(s, Transition::Released)
            == Some(RobotState::Idle),
        next_state(s, Transition::Complete) is Some <==> s != RobotState::EmergencyStop,
        next_state(s, Transition::Complete) is Some ==> next_state(s, Transition::Complete)
            == Some(RobotState::Idle),
        next_state(s, Transition::Fault) is Some <==> s != RobotState::EmergencyStop,
        next_state(s, Transition::Fault) is Some ==> next_state(s, Transition::Fault) == Some(
            RobotState::Error,
        ),
        next_state(s, Transition::Estop) == Some(RobotState::EmergencyStop),
        next_state(s, Transition::Reset) is Some <==> (s == RobotState::EmergencyStop || s
            == RobotState::Error),
        next_state(s, Transition::Reset) is Some ==> next_state(s, Transition::Reset) == Some(
            RobotState::Idle,
        ),
{
}

/// The arm is reported at the pick pose only after a move: `AtPickPose`
/// is accepted exactly from `Moving`, and a refused transition leaves the
/// machine where it was.
pub proof fn lemma_at_pick_pose_only_while_moving(s: RobotState)
    ensures
        next_state(s, Transition::AtPickPose) == (if s == RobotState::Moving {
            Some(RobotState::Picking)
        } else {
            None::<RobotState>
        }),
{
}

} // verus!
