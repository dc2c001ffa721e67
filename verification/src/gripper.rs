//! Gripper states and the simulator's grasp bookkeeping.
//!
//! The simulator tracks which object, if any, the gripper holds. Finding
//! the nearest object within grasp range is geometry done by the caller;
//! what follows from its answer is decided here.

use vstd::prelude::*;

verus! {

#[derive(Debug, Clone, Copy, PartialEq, Eq, Structural)]
pub enum GripperState {
    Open,
    Closed,
    /// The gripper has an object attached.
    Holding,
}

/// Try to attach an object. An object already held stays held; otherwise
/// `nearest_in_range` (the index of the nearest object within grasp
/// range, if any) is attached. Returns whether the gripper now holds an
/// object; when nothing is held and nothing is in range, nothing changes.
pub fn attempt_grasp(
    attached: &mut Option<usize>,
    gripper_state: &mut GripperState,
    nearest_in_range: Option<usize>,
) -> (grabbed: bool)
    ensures
        grabbed == (*final(attached) is Some),
        *old(attached) is Some ==> *final(attached) == *old(attached) && *final(gripper_state)
            == GripperState::Holding,
        *old(attached) is None ==> *final(attached) == nearest_in_range,
        *old(attached) is None && nearest_in_range is Some ==> *final(gripper_state)
            == GripperState::Holding,
        *old(attached) is None && nearest_in_range is None ==> *final(gripper_state)
            == *old(gripper_state),
{
    if attached.is_some() {
        *gripper_state = GripperState::Holding;
        return true;
    }
    match nearest_in_range {
        Some(i) => {
            *attached = Some(i);
            *gripper_state = GripperState::Holding;
            true
        },
        None => false,
    }
}

/// Let go of whatever is held: nothing is attached and the gripper is open.
pub fn release(attached: &mut Option<usize>, gripper_state: &mut GripperState)
    ensures
        *final(attached) == None::<usize>,
        *final(gripper_state) == GripperState::Open,
{
    *attached = None;
    *gripper_state = GripperState::Open;
}

} // verus!
