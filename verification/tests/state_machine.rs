use robotics::error::RoboticsError;
use robotics::state::{RobotState, StateMachine, Transition};

#[test]
fn happy_path_pick_and_place() {
    let mut sm = StateMachine::default();
    assert_eq!(sm.state, RobotState::Idle);
    sm.transition(Transition::BeginPlanning).unwrap();
    assert_eq!(sm.state, RobotState::Targeting);
    sm.transition(Transition::PlanReady).unwrap();
    sm.transition(Transition::AtPickPose).unwrap();
    sm.transition(Transition::Grasped).unwrap();
    assert_eq!(sm.state, RobotState::Carrying);
    sm.transition(Transition::PlanReady).unwrap();
    sm.transition(Transition::AtPlacePose).unwrap();
    sm.transition(Transition::Released).unwrap();
    assert_eq!(sm.state, RobotState::Idle);
}

#[test]
fn bad_transitions_are_rejected() {
    let mut sm = StateMachine::default();
    assert!(sm.transition(Transition::Grasped).is_err());
}

#[test]
fn estop_always_works_and_reset_recovers() {
    let mut sm = StateMachine::default();
    sm.transition(Transition::BeginPlanning).unwrap();
    sm.transition(Transition::Estop).unwrap();
    assert_eq!(sm.state, RobotState::EmergencyStop);
    // No normal transition out of EStop.
    assert!(sm.transition(Transition::BeginPlanning).is_err());
    sm.transition(Transition::Reset).unwrap();
    assert_eq!(sm.state, RobotState::Idle);
}

#[test]
fn refusal_names_state_and_transition() {
    let mut sm = StateMachine::default();
    let err = sm.transition(Transition::Grasped).unwrap_err();
    assert_eq!(
        err,
        RoboticsError::InvalidStateTransition { from: "idle".to_string(), to: "Grasped".to_string() }
    );
    assert_eq!(sm.state, RobotState::Idle);
}

#[test]
fn refusal_matches_debug_name() {
    for t in [
        Transition::BeginPlanning,
        Transition::PlanReady,
        Transition::AtPickPose,
        Transition::Grasped,
        Transition::AtPlacePose,
        Transition::Released,
        Transition::Complete,
        Transition::Fault,
        Transition::Estop,
        Transition::Reset,
    ] {
        assert_eq!(t.name(), format!("{:?}", t));
    }
}

#[test]
fn reset_refused_outside_error_states() {
    let mut sm = StateMachine::default();
    let err = sm.transition(Transition::Reset).unwrap_err();
    assert_eq!(
        err,
        RoboticsError::InvalidStateTransition { from: "idle".to_string(), to: "Reset".to_string() }
    );
    sm.transition(Transition::Fault).unwrap();
    assert_eq!(sm.state, RobotState::Error);
    assert_eq!(sm.transition(Transition::Reset).unwrap(), RobotState::Idle);
}

#[test]
fn estop_accepted_from_every_state() {
    for s in [
        RobotState::Idle,
        RobotState::Targeting,
        RobotState::Moving,
        RobotState::Picking,
        RobotState::Carrying,
        RobotState::Placing,
        RobotState::Error,
        RobotState::EmergencyStop,
    ] {
        let mut sm = StateMachine { state: s };
        assert_eq!(sm.transition(Transition::Estop).unwrap(), RobotState::EmergencyStop);
        assert_eq!(sm.state, RobotState::EmergencyStop);
    }
}

#[test]
fn estop_blocks_motion_transitions() {
    for t in [
        Transition::BeginPlanning,
        Transition::PlanReady,
        Transition::AtPickPose,
        Transition::Grasped,
        Transition::AtPlacePose,
        Transition::Released,
        Transition::Complete,
        Transition::Fault,
    ] {
        let mut sm = StateMachine { state: RobotState::EmergencyStop };
        assert!(sm.transition(t).is_err());
        assert_eq!(sm.state, RobotState::EmergencyStop);
    }
}

#[test]
fn estop_refusal_names_emergency_stop() {
    let mut sm = StateMachine { state: RobotState::EmergencyStop };
    let err = sm.transition(Transition::Complete).unwrap_err();
    assert_eq!(
        err,
        RoboticsError::InvalidStateTransition {
            from: "emergency_stop".to_string(),
            to: "Complete".to_string()
        }
    );
    assert_eq!(sm.state, RobotState::EmergencyStop);
}

#[test]
fn segments_chain_while_moving_and_carrying() {
    let mut sm = StateMachine { state: RobotState::Moving };
    assert_eq!(sm.transition(Transition::BeginPlanning).unwrap(), RobotState::Targeting);
    let mut sm = StateMachine { state: RobotState::Carrying };
    assert_eq!(sm.transition(Transition::BeginPlanning).unwrap(), RobotState::Targeting);
    assert_eq!(sm.transition(Transition::PlanReady).unwrap(), RobotState::Moving);
    assert_eq!(sm.transition(Transition::Complete).unwrap(), RobotState::Idle);
}

#[test]
fn confirm_plan_moves_only_from_targeting() {
    let mut sm = StateMachine { state: RobotState::Targeting };
    sm.confirm_plan();
    assert_eq!(sm.state, RobotState::Moving);
    let mut sm = StateMachine { state: RobotState::Carrying };
    sm.confirm_plan();
    assert_eq!(sm.state, RobotState::Carrying);
}

#[test]
fn state_names_are_snake_case() {
    assert_eq!(RobotState::Idle.as_str(), "idle");
    assert_eq!(RobotState::Targeting.as_str(), "targeting");
    assert_eq!(RobotState::Moving.as_str(), "moving");
    assert_eq!(RobotState::Picking.as_str(), "picking");
    assert_eq!(RobotState::Carrying.as_str(), "carrying");
    assert_eq!(RobotState::Placing.as_str(), "placing");
    assert_eq!(RobotState::Error.as_str(), "error");
    assert_eq!(RobotState::EmergencyStop.as_str(), "emergency_stop");
}
