//! Joint-level vocabulary: joint identifiers and per-joint state.

use vstd::prelude::*;

verus! {

/// Identifier for a single joint, in kinematic chain order.
#[derive(Debug, Clone, Copy, PartialEq, Eq, Hash, Structural)]
pub enum JointId {
    Base,
    Shoulder,
    Elbow,
    Wrist,
    Gripper,
}

/// The name of a joint as it appears in logs and on the wire.
pub open spec fn joint_name(j: JointId) -> Seq<char> {
    match j {
        JointId::Base => "base"@,
        JointId::Shoulder => "shoulder"@,
        JointId::Elbow => "elbow"@,
        JointId::Wrist => "wrist"@,
        JointId::Gripper => "gripper"@,
    }
}

impl JointId {
    /// Every joint, base first and gripper last (the kinematic chain order).
    pub const ALL: [JointId; 5] = [
        JointId::Base,
        JointId::Shoulder,
        JointId::Elbow,
        JointId::Wrist,
        JointId::Gripper,
    ];

    pub fn as_str(self) -> (r: &'static str)
        ensures
            r@ == joint_name(self),
    {
        match self {
            JointId::Base => "base",
            JointId::Shoulder => "shoulder",
            JointId::Elbow => "elbow",
            JointId::Wrist => "wrist",
            JointId::Gripper => "gripper",
        }
    }
}

/// One value per joint (a position in radians, a limit, a configuration).
#[derive(Debug, Clone, Copy, Default, PartialEq)]
pub struct JointState<T> {
    pub base: T,
    pub shoulder: T,
    pub elbow: T,
    pub wrist: T,
    pub gripper: T,
}

impl<T> JointState<T> {
    /// The value held for `joint`.
    pub open spec fn at(self, joint: JointId) -> T {
        match joint {
            JointId::Base => self.base,
            JointId::Shoulder => self.shoulder,
            JointId::Elbow => self.elbow,
            JointId::Wrist => self.wrist,
            JointId::Gripper => self.gripper,
        }
    }

    /// The same state with the value for `joint` replaced by `value`.
    pub open spec fn with(self, joint: JointId, value: T) -> Self {
        match joint {
            JointId::Base => JointState { base: value, ..self },
            JointId::Shoulder => JointState { shoulder: value, ..self },
            JointId::Elbow => JointState { elbow: value, ..self },
            JointId::Wrist => JointState { wrist: value, ..self },
            JointId::Gripper => JointState { gripper: value, ..self },
        }
    }
}

impl<T: Copy> JointState<T> {
    pub fn new(base: T, shoulder: T, elbow: T, wrist: T, gripper: T) -> (r: Self)
        ensures
            r == (JointState { base, shoulder, elbow, wrist, gripper }),
    {
        JointState { base, shoulder, elbow, wrist, gripper }
    }

    pub fn get(&self, joint: JointId) -> (r: T)
        ensures
            r == self.at(joint),
    {
        match joint {
            JointId::Base => self.base,
            JointId::Shoulder => self.shoulder,
            JointId::Elbow => self.elbow,
            JointId::Wrist => self.wrist,
            JointId::Gripper => self.gripper,
        }
    }

    pub fn set(&mut self, joint: JointId, value: T)
        ensures
            *final(self) == old(self).with(joint, value),
    {
        match joint {
            JointId::Base => self.base = value,
            JointId::Shoulder => self.shoulder = value,
            JointId::Elbow => self.elbow = value,
            JointId::Wrist => self.wrist = value,
            JointId::Gripper => self.gripper = value,
        }
    }
}

/// A read of a joint gives back what was last written to it, and a write
/// to one joint leaves every other joint as it was.
pub proof fn lemma_get_after_set<T>(s: JointState<T>, written: JointId, read: JointId, value: T)
    ensures
        s.with(written, value).at(written) == value,
        read != written ==> s.with(written, value).at(read) == s.at(read),
{
}

/// Writing back the value a joint already holds changes nothing.
pub proof fn lemma_set_same_is_identity<T>(s: JointState<T>, joint: JointId)
    ensures
        s.with(joint, s.at(joint)) == s,
{
}

} // verus!
