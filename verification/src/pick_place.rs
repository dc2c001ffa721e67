//! The pick-and-place task as a script the state machine drives.
//!
//! The canonical sequence: move above the pick target, descend, close
//! the gripper, lift, move above the place target, descend, open the
//! gripper, retract. Each move is planned and executed by the caller;
//! after planning a move it calls [`StateMachine::confirm_plan`]. The
//! script says which transitions are applied in between.

use vstd::prelude::*;
use crate::error::RoboticsError;
use crate::state::{is_refusal, next_state, RobotState, StateMachine, Transition};

verus! {

/// Where a move of the task goes.
#[derive(Debug, Clone, Copy, PartialEq, Eq, Structural)]
pub enum Waypoint {
    /// The pre-grasp pose above the pick target.
    AbovePick,
    /// The pick target itself.
    Pick,
    /// The pose above the place target.
    AbovePlace,
    /// The place target itself.
    Place,
}

/// One step of the task.
#[derive(Debug, Clone, Copy, PartialEq, Eq, Structural)]
pub enum TaskStep {
    /// Apply this transition to the state machine.
    Transition(Transition),
    /// Plan a move to the waypoint (gripper open or closed), confirm the
    /// plan to the state machine, execute it and wait for it.
    MoveTo { waypoint: Waypoint, gripper_open: bool },
    /// Close the gripper and let it settle.
    CloseGripper,
    /// Open the gripper and let it settle.
    OpenGripper,
}

#[verifier::opaque]
pub open spec fn pick_place_script() -> Seq<TaskStep> {
    seq![
        TaskStep::Transition(Transition::BeginPlanning),
        TaskStep::MoveTo { waypoint: Waypoint::AbovePick, gripper_open: true },
        TaskStep::Transition(Transition::BeginPlanning),
        TaskStep::MoveTo { waypoint: Waypoint::Pick, gripper_open: true },
        TaskStep::Transition(Transition::AtPickPose),
        TaskStep::CloseGripper,
        TaskStep::Transition(Transition::Grasped),
        TaskStep::Transition(Transition::BeginPlanning),
        TaskStep::MoveTo { waypoint: Waypoint::AbovePick, gripper_open: false },
        TaskStep::Transition(Transition::BeginPlanning),
        TaskStep::MoveTo { waypoint: Waypoint::AbovePlace, gripper_open: false },
        TaskStep::Transition(Transition::BeginPlanning),
        TaskStep::MoveTo { waypoint: Waypoint::Place, gripper_open: false },
        TaskStep::Transition(Transition::AtPlacePose),
        TaskStep::OpenGripper,
        TaskStep::Transition(Transition::Released),
        TaskStep::Transition(Transition::BeginPlanning),
        TaskStep::MoveTo { waypoint: Waypoint::AbovePlace, gripper_open: true },
        TaskStep::Transition(Transition::Complete),
    ]
}

/// The state after one step, or `None` where the state machine refuses it.
pub open spec fn step_state(s: RobotState, step: TaskStep) -> Option<RobotState> {
    match step {
        TaskStep::Transition(t) => next_state(s, t),
        TaskStep::MoveTo { .. } => Some(
            if s == RobotState::Targeting {
                RobotState::Moving
            } else {
                s
            },
        ),
        TaskStep::CloseGripper => Some(s),
        TaskStep::OpenGripper => Some(s),
    }
}

/// The state after steps `i..` of `steps`, starting in `s`, or `None`
/// where one of them is refused.
pub open spec fn run_from(s: RobotState, steps: Seq<TaskStep>, i: nat) -> Option<RobotState>
    decreases steps.len() - i,
{
    if i >= steps.len() {
        Some(s)
    } else {
        match step_state(s, steps[i as int]) {
            Some(n) => run_from(n, steps, i + 1),
            None => None,
        }
    }
}

/// The moves among the first `n` steps, in order, each as its waypoint
/// and whether the gripper is open.
pub open spec fn moves_upto(steps: Seq<TaskStep>, n: nat) -> Seq<(Waypoint, bool)>
    decreases n,
{
    if n == 0 {
        Seq::empty()
    } else {
        let rest = moves_upto(steps, (n - 1) as nat);
        match steps[n - 1] {
            TaskStep::MoveTo { waypoint, gripper_open } => rest.push((waypoint, gripper_open)),
            _ => rest,
        }
    }
}

/// The documented sequence of moves of a top-down pick-and-place: above
/// the pick target and down onto it with the gripper open, back up, over
/// to the place target and down onto it with the gripper closed, and a
/// retreat above the place target with the gripper open.
pub open spec fn documented_moves() -> Seq<(Waypoint, bool)> {
    seq![
        (Waypoint::AbovePick, true),
        (Waypoint::Pick, true),
        (Waypoint::AbovePick, false),
        (Waypoint::AbovePlace, false),
        (Waypoint::Place, false),
        (Waypoint::AbovePlace, true),
    ]
}

/// Position `c` is the only step that closes the gripper, position `o`
/// the only one that opens it, and `c` comes first.
pub open spec fn grips_at(steps: Seq<TaskStep>, c: int, o: int) -> bool {
    &&& 0 <= c < o < steps.len()
    &&& steps[c] == TaskStep::CloseGripper
    &&& steps[o] == TaskStep::OpenGripper
    &&& forall|i: int|
        0 <= i < steps.len() && #[trigger] steps[i] == TaskStep::CloseGripper ==> i == c
    &&& forall|i: int|
        0 <= i < steps.len() && #[trigger] steps[i] == TaskStep::OpenGripper ==> i == o
}

/// The gripper closes exactly once and opens exactly once, closing first.
pub open spec fn grasps_once_then_releases(steps: Seq<TaskStep>) -> bool {
    exists|c: int, o: int| grips_at(steps, c, o)
}

/// Every move between closing and opening the gripper keeps it closed:
/// the object is held from grasp to release.
pub open spec fn holds_from_grasp_to_release(steps: Seq<TaskStep>) -> bool {
    forall|c: int, j: int, o: int|
        #![trigger steps[c], steps[j], steps[o]]
        0 <= c < j < o < steps.len() && steps[c] == TaskStep::CloseGripper && steps[o]
            == TaskStep::OpenGripper && steps[j] is MoveTo ==> !steps[j]->gripper_open
}

/// The gripper closes only after a descent onto the pick target with the
/// gripper open, and opens only after a descent onto the place target
/// with the object held.
pub open spec fn descends_before_gripping(steps: Seq<TaskStep>) -> bool {
    &&& forall|c: int|
        0 <= c < steps.len() && #[trigger] steps[c] == TaskStep::CloseGripper ==> moves_upto(
            steps,
            c as nat,
        ).len() > 0 && moves_upto(steps, c as nat).last() == (Waypoint::Pick, true)
    &&& forall|o: int|
        0 <= o < steps.len() && #[trigger] steps[o] == TaskStep::OpenGripper ==> moves_upto(
            steps,
            o as nat,
        ).len() > 0 && moves_upto(steps, o as nat).last() == (Waypoint::Place, false)
}

/// The steps of a top-down pick-and-place, in order.
pub fn pick_place_steps() -> (r: Vec<TaskStep>)
    ensures
        r@ == pick_place_script(),
        moves_upto(r@, r@.len()) == documented_moves(),
        grasps_once_then_releases(r@),
        holds_from_grasp_to_release(r@),
        descends_before_gripping(r@),
{
    let mut v: Vec<TaskStep> = Vec::new();
    v.push(TaskStep::Transition(Transition::BeginPlanning));
    v.push(TaskStep::MoveTo { waypoint: Waypoint::AbovePick, gripper_open: true });
    v.push(TaskStep::Transition(Transition::BeginPlanning));
    v.push(TaskStep::MoveTo { waypoint: Waypoint::Pick, gripper_open: true });
    v.push(TaskStep::Transition(Transition::AtPickPose));
    v.push(TaskStep::CloseGripper);
    v.push(TaskStep::Transition(Transition::Grasped));
    v.push(TaskStep::Transition(Transition::BeginPlanning));
    v.push(TaskStep::MoveTo { waypoint: Waypoint::AbovePick, gripper_open: false });
    v.push(TaskStep::Transition(Transition::BeginPlanning));
    v.push(TaskStep::MoveTo { waypoint: Waypoint::AbovePlace, gripper_open: false });
    v.push(TaskStep::Transition(Transition::BeginPlanning));
    v.push(TaskStep::MoveTo { waypoint: Waypoint::Place, gripper_open: false });
    v.push(TaskStep::Transition(Transition::AtPlacePose));
    v.push(TaskStep::OpenGripper);
    v.push(TaskStep::Transition(Transition::Released));
    v.push(TaskStep::Transition(Transition::BeginPlanning));
    v.push(TaskStep::MoveTo { waypoint: Waypoint::AbovePlace, gripper_open: true });
    v.push(TaskStep::Transition(Transition::Complete));
    assert(v@ =~= pick_place_script()) by {
        reveal(pick_place_script);
    }
    proof {
        lemma_script_moves();
        lemma_script_grasps_once();
        lemma_script_holds();
    }
    v
}

impl StateMachine {
    /// Apply the state-machine side of one task step: a transition step
    /// applies its transition, a move confirms its plan, gripper steps
    /// leave the state alone.
    pub fn apply_step(&mut self, step: TaskStep) -> (r: Result<RobotState, RoboticsError>)
        ensures
            match step_state(old(self).state, step) {
                Some(n) => r == Ok::<RobotState, RoboticsError>(n) && final(self).state == n,
                None => r is Err && final(self).state == old(self).state && (step matches TaskStep::Transition(t) && is_refusal(r->Err_0, old(self).state, t)),
            },
            step is MoveTo && old(self).state == RobotState::Targeting ==> r == Ok::<
                RobotState,
                RoboticsError,
            >(RobotState::Moving) && final(self).state == RobotState::Moving,
            step is MoveTo && old(self).state != RobotState::Targeting ==> r == Ok::<
                RobotState,
                RoboticsError,
            >(old(self).state) && final(self).state == old(self).state,
            (step is CloseGripper || step is OpenGripper) ==> r == Ok::<RobotState, RoboticsError>(
                old(self).state,
            ) && final(self).state == old(self).state,
    {
        match step {
            TaskStep::Transition(t) => self.transition(t),
            TaskStep::MoveTo { .. } => {
                self.confirm_plan();
                Ok(self.state)
            },
            TaskStep::CloseGripper => Ok(self.state),
            TaskStep::OpenGripper => Ok(self.state),
        }
    }
}

/// The task's own transitions never trip the state machine: started from
/// `Idle`, every step of the pick-and-place script is accepted and the
/// machine ends back in `Idle`.
pub proof fn lemma_pick_place_accepted_from_idle()
    ensures
        run_from(RobotState::Idle, pick_place_script(), 0) == Some(RobotState::Idle),
{
    reveal(pick_place_script);
    let s = pick_place_script();
    reveal_with_fuel(run_from, 21);
    assert(s.len() == 19);
}

/// A move confirms its plan and nothing more: from `Targeting` it leads to
/// `Moving`, from every other state it leaves the state as it was; the
/// gripper steps never change the state.
pub proof fn lemma_move_step(s: RobotState, waypoint: Waypoint, gripper_open: bool)
    ensures
        s == RobotState::Targeting ==> step_state(s, TaskStep::MoveTo { waypoint, gripper_open })
            == Some(RobotState::Moving),
        s != RobotState::Targeting ==> step_state(s, TaskStep::MoveTo { waypoint, gripper_open })
            == Some(s),
        step_state(s, TaskStep::CloseGripper) == Some(s),
        step_state(s, TaskStep::OpenGripper) == Some(s),
{
}

/// The moves of the script, in order, are the documented ones; in
/// particular the gripper closes right after the descent onto the pick
/// target and opens right after the descent onto the place target.
pub proof fn lemma_script_moves()
    ensures
        moves_upto(pick_place_script(), pick_place_script().len()) == documented_moves(),
        descends_before_gripping(pick_place_script()),
{
    lemma_script_positions();
    let s = pick_place_script();
    assert(moves_upto(s, 0) =~= Seq::<(Waypoint, bool)>::empty());
    assert(moves_upto(s, 1) =~= Seq::<(Waypoint, bool)>::empty());
    assert(moves_upto(s, 2) =~= seq![(Waypoint::AbovePick, true)]);
    assert(moves_upto(s, 3) =~= seq![(Waypoint::AbovePick, true)]);
    assert(moves_upto(s, 4) =~= seq![(Waypoint::AbovePick, true), (Waypoint::Pick, true)]);
    assert(moves_upto(s, 5) =~= moves_upto(s, 4));
    assert(moves_upto(s, 6) =~= moves_upto(s, 4));
    assert(moves_upto(s, 7) =~= moves_upto(s, 4));
    assert(moves_upto(s, 8) =~= moves_upto(s, 4));
    assert(moves_upto(s, 9) =~= moves_upto(s, 4).push((Waypoint::AbovePick, false)));
    assert(moves_upto(s, 10) =~= moves_upto(s, 9));
    assert(moves_upto(s, 11) =~= moves_upto(s, 9).push((Waypoint::AbovePlace, false)));
    assert(moves_upto(s, 12) =~= moves_upto(s, 11));
    assert(moves_upto(s, 13) =~= moves_upto(s, 11).push((Waypoint::Place, false)));
    assert(moves_upto(s, 14) =~= moves_upto(s, 13));
    assert(moves_upto(s, 15) =~= moves_upto(s, 13));
    assert(moves_upto(s, 16) =~= moves_upto(s, 13));
    assert(moves_upto(s, 17) =~= moves_upto(s, 13));
    assert(moves_upto(s, 18) =~= moves_upto(s, 13).push((Waypoint::AbovePlace, true)));
    assert(moves_upto(s, 19) =~= moves_upto(s, 18));
    assert(moves_upto(s, 19) =~= documented_moves());
    assert forall|c: int|
        0 <= c < s.len() && #[trigger] s[c] == TaskStep::CloseGripper implies moves_upto(
            s,
            c as nat,
        ).len() > 0 && moves_upto(s, c as nat).last() == (Waypoint::Pick, true) by {
        assert(c == 5);
    }
    assert forall|o: int|
        0 <= o < s.len() && #[trigger] s[o] == TaskStep::OpenGripper implies moves_upto(
            s,
            o as nat,
        ).len() > 0 && moves_upto(s, o as nat).last() == (Waypoint::Place, false) by {
        assert(o == 14);
    }
}

/// The steps of the script, position by position.
proof fn lemma_script_positions()
    ensures
        pick_place_script().len() == 19,
        pick_place_script()[0] == TaskStep::Transition(Transition::BeginPlanning),
        pick_place_script()[1] == (TaskStep::MoveTo { waypoint: Waypoint::AbovePick, gripper_open: true }),
        pick_place_script()[2] == TaskStep::Transition(Transition::BeginPlanning),
        pick_place_script()[3] == (TaskStep::MoveTo { waypoint: Waypoint::Pick, gripper_open: true }),
        pick_place_script()[4] == TaskStep::Transition(Transition::AtPickPose),
        pick_place_script()[5] == TaskStep::CloseGripper,
        pick_place_script()[6] == TaskStep::Transition(Transition::Grasped),
        pick_place_script()[7] == TaskStep::Transition(Transition::BeginPlanning),
        pick_place_script()[8] == (TaskStep::MoveTo { waypoint: Waypoint::AbovePick, gripper_open: false }),
        pick_place_script()[9] == TaskStep::Transition(Transition::BeginPlanning),
        pick_place_script()[10] == (TaskStep::MoveTo { waypoint: Waypoint::AbovePlace, gripper_open: false }),
        pick_place_script()[11] == TaskStep::Transition(Transition::BeginPlanning),
        pick_place_script()[12] == (TaskStep::MoveTo { waypoint: Waypoint::Place, gripper_open: false }),
        pick_place_script()[13] == TaskStep::Transition(Transition::AtPlacePose),
        pick_place_script()[14] == TaskStep::OpenGripper,
        pick_place_script()[15] == TaskStep::Transition(Transition::Released),
        pick_place_script()[16] == TaskStep::Transition(Transition::BeginPlanning),
        pick_place_script()[17] == (TaskStep::MoveTo { waypoint: Waypoint::AbovePlace, gripper_open: true }),
        pick_place_script()[18] == TaskStep::Transition(Transition::Complete),
{
    reveal(pick_place_script);
}

/// Only position 5 of the script closes the gripper, and only position 14
/// opens it.
proof fn lemma_script_grip_positions(i: int)
    requires
        0 <= i < pick_place_script().len(),
    ensures
        pick_place_script()[i] == TaskStep::CloseGripper ==> i == 5,
        pick_place_script()[i] == TaskStep::OpenGripper ==> i == 14,
        6 <= i < 14 && pick_place_script()[i] is MoveTo ==> !pick_place_script()[i]->gripper_open,
{
    lemma_script_positions();
    let s = pick_place_script();
    if i < 5 {
        if i < 2 {
            assert(i == 0 || i == 1);
        } else {
            assert(i == 2 || i == 3 || i == 4);
        }
    } else if i < 10 {
        assert(i == 5 || i == 6 || i == 7 || i == 8 || i == 9);
    } else if i < 15 {
        assert(i == 10 || i == 11 || i == 12 || i == 13 || i == 14);
    } else {
        assert(i == 15 || i == 16 || i == 17 || i == 18);
    }
}

/// The script closes the gripper once and opens it once, after.
pub proof fn lemma_script_grasps_once()
    ensures
        grasps_once_then_releases(pick_place_script()),
{
    let s = pick_place_script();
    assert(s.len() == 19 && s[5] == TaskStep::CloseGripper && s[14] == TaskStep::OpenGripper) by {
        lemma_script_positions();
    }
    assert forall|i: int|
        0 <= i < s.len() && #[trigger] s[i] == TaskStep::CloseGripper implies i == 5 by {
        lemma_script_grip_positions(i);
    }
    assert forall|i: int|
        0 <= i < s.len() && #[trigger] s[i] == TaskStep::OpenGripper implies i == 14 by {
        lemma_script_grip_positions(i);
    }
    assert(grips_at(s, 5, 14));
}

/// Every move of the script between closing and opening the gripper keeps
/// it closed.
pub proof fn lemma_script_holds()
    ensures
        holds_from_grasp_to_release(pick_place_script()),
{
    let s = pick_place_script();
    assert forall|c: int, j: int, o: int|
        #![trigger s[c], s[j], s[o]]
        0 <= c < j < o < s.len() && s[c] == TaskStep::CloseGripper && s[o]
            == TaskStep::OpenGripper && s[j] is MoveTo implies !s[j]->gripper_open by {
        lemma_script_grip_positions(c);
        lemma_script_grip_positions(o);
        lemma_script_grip_positions(j);
    }
}

} // verus!
