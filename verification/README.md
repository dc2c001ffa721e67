# robotics

A robotic-arm control platform whose decision logic is verified with Verus.

* `src/` — the verified library: the robot state machine (`state`), the
  pick-and-place script it drives (`pick_place`), the joint vocabulary and
  per-joint state (`joint`), the trajectory FIFO (`queue`), the grasp
  bookkeeping of the simulator (`gripper`), the hardware emergency-stop
  latch (`safety`), the replay tally (`replay`), the dashboard's command
  acknowledgements (`control`) and the small enums shared by the layers
  (`pwm`, `easing`, `calibrate`, `gazebo`, `error`).
* `app/` — the `robotics` command-line program around it: kinematics,
  easing curves, trajectories, servo calibration and the simulator's
  integration (all floating point), the tokio backends, the axum
  dashboard, the audit log and replay I/O, and the clap front end.
* `tests/` — tests of the library.
