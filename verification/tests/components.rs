use robotics::error::RoboticsError;
use robotics::safety::EstopLatch;
use robotics::control::Ack;
use robotics::gripper::{attempt_grasp, release, GripperState};
use robotics::joint::{JointId, JointState};
use robotics::pwm::StubPwm;
use robotics::queue::MotionQueue;
use robotics::replay::ReplayReport;

#[test]
fn joint_names_and_chain_order() {
    let names: Vec<&str> = JointId::ALL.iter().map(|j| j.as_str()).collect();
    assert_eq!(names, vec!["base", "shoulder", "elbow", "wrist", "gripper"]);
}

#[test]
fn joint_state_get_after_set() {
    let mut s = JointState::new(0.0f64, 0.1, 0.2, 0.3, 0.4);
    s.set(JointId::Elbow, 1.5);
    assert_eq!(s.get(JointId::Elbow), 1.5);
    assert_eq!(s.get(JointId::Base), 0.0);
    assert_eq!(s.get(JointId::Shoulder), 0.1);
    assert_eq!(s.get(JointId::Wrist), 0.3);
    assert_eq!(s.get(JointId::Gripper), 0.4);
    let d: JointState<f64> = JointState::default();
    assert_eq!(d.get(JointId::Gripper), 0.0);
}

#[test]
fn queue_is_fifo() {
    let mut q: MotionQueue<u32> = MotionQueue::new();
    assert!(q.is_empty());
    assert_eq!(q.pop(), None);
    q.push(1);
    q.push(2);
    q.push(3);
    assert_eq!(q.len(), 3);
    assert_eq!(q.peek(), Some(&1));
    assert_eq!(q.pop(), Some(1));
    assert_eq!(q.pop(), Some(2));
    assert_eq!(q.len(), 1);
    q.clear();
    assert!(q.is_empty());
    assert_eq!(q.peek(), None);
}

#[test]
fn grasp_attaches_nearest_and_release_opens() {
    let mut attached = None;
    let mut gs = GripperState::Open;
    assert!(!attempt_grasp(&mut attached, &mut gs, None));
    assert_eq!(attached, None);
    assert_eq!(gs, GripperState::Open);
    assert!(attempt_grasp(&mut attached, &mut gs, Some(2)));
    assert_eq!(attached, Some(2));
    assert_eq!(gs, GripperState::Holding);
    // Already holding: the held object stays, whatever is nearest.
    assert!(attempt_grasp(&mut attached, &mut gs, Some(0)));
    assert_eq!(attached, Some(2));
    release(&mut attached, &mut gs);
    assert_eq!(attached, None);
    assert_eq!(gs, GripperState::Open);
}

#[test]
fn replay_tally_counts_and_halts() {
    let mut r = ReplayReport::default();
    assert!(!r.record(true, false, true));
    assert!(!r.record(false, false, true));
    assert!(!r.record(true, true, false));
    assert!(!r.halted_on_estop);
    assert!(r.record(true, true, true));
    assert_eq!(r.observed, 4);
    assert_eq!(r.applied, 3);
    assert_eq!(r.rejected, 1);
    assert!(r.halted_on_estop);
    assert_eq!(r.observed, r.applied + r.rejected);
}

#[test]
fn acks_carry_outcome() {
    let a = Ack::for_command(Ok(()));
    assert!(a.ok);
    assert_eq!(a.msg, "accepted");
    let a = Ack::for_command(Err("target pose is outside the reachable workspace".to_string()));
    assert!(!a.ok);
    assert_eq!(a.msg, "target pose is outside the reachable workspace");
    let a = Ack::for_estop(Ok(()));
    assert!(a.ok);
    assert_eq!(a.msg, "estop");
    let a = Ack::for_estop(Err("hardware error: gone".to_string()));
    assert!(!a.ok);
    assert_eq!(a.msg, "estop: hardware error: gone");
    let a = Ack::bad_json("expected value".to_string());
    assert!(!a.ok);
    assert_eq!(a.msg, "bad json: expected value");
    assert_eq!(Ack::ok("x".to_string()), Ack { ok: true, msg: "x".to_string() });
    assert_eq!(Ack::err("y".to_string()), Ack { ok: false, msg: "y".to_string() });
}

#[test]
fn stub_pwm_constructs() {
    assert_eq!(StubPwm::new(), StubPwm);
}

#[test]
fn estop_latch_refuses_once_engaged() {
    let mut latch = EstopLatch::new();
    assert!(!latch.is_engaged());
    assert_eq!(latch.check_clear(), Ok(()));
    latch.engage();
    assert!(latch.is_engaged());
    assert_eq!(latch.check_clear(), Err(RoboticsError::EmergencyStop));
    latch.engage();
    assert_eq!(latch.check_clear(), Err(RoboticsError::EmergencyStop));
    latch.release();
    assert!(!latch.is_engaged());
    assert_eq!(latch.check_clear(), Ok(()));
}

#[test]
fn replay_run_tally_over_whole_log() {
    let outcomes = [true, false, false, true, true];
    let mut r = ReplayReport::default();
    for ok in outcomes {
        assert!(!r.record(ok, false, true));
    }
    assert_eq!(r.observed, 5);
    assert_eq!(r.applied, 3);
    assert_eq!(r.rejected, 2);
    assert_eq!(r.observed, r.applied + r.rejected);
}
