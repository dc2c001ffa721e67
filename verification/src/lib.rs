//! Verified core of a robotic-arm control platform: the robot state
//! machine and the pick-and-place task script it drives, the joint
//! vocabulary, the trajectory FIFO, the grasp bookkeeping of the
//! simulator, the hardware emergency-stop latch, the replay tally and
//! the dashboard's command acks.

pub mod error;
pub mod joint;
pub mod state;
pub mod gripper;
pub mod pwm;
pub mod easing;
pub mod queue;
pub mod pick_place;
pub mod replay;
pub mod control;
pub mod calibrate;
pub mod gazebo;
pub mod safety;
