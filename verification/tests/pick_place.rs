use robotics::pick_place::{pick_place_steps, TaskStep, Waypoint};
use robotics::state::{RobotState, StateMachine, Transition};

#[test]
fn pick_place_script_runs_from_idle_to_idle() {
    let mut sm = StateMachine::default();
    let steps = pick_place_steps();
    assert_eq!(steps.len(), 19);
    for step in steps {
        sm.apply_step(step).unwrap();
    }
    assert_eq!(sm.state, RobotState::Idle);
}

#[test]
fn pick_place_script_order() {
    let steps = pick_place_steps();
    assert_eq!(steps[0], TaskStep::Transition(Transition::BeginPlanning));
    assert_eq!(steps[1], TaskStep::MoveTo { waypoint: Waypoint::AbovePick, gripper_open: true });
    assert_eq!(steps[5], TaskStep::CloseGripper);
    assert_eq!(steps[14], TaskStep::OpenGripper);
    assert_eq!(steps[18], TaskStep::Transition(Transition::Complete));
}

#[test]
fn pick_place_script_refused_in_emergency_stop() {
    let mut sm = StateMachine { state: RobotState::EmergencyStop };
    let steps = pick_place_steps();
    assert!(sm.apply_step(steps[0]).is_err());
    assert_eq!(sm.state, RobotState::EmergencyStop);
}
