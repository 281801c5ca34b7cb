//! Joint vectors: exactly six joint angles, one per robot axis.

use vstd::prelude::*;
use crate::error::KinematicsError;

verus! {

/// The number of axes of the arm, and so of angles in a joint vector.
pub const JOINT_COUNT: usize = 6;

/// What a sequence of angles yields when it is taken as a joint vector: the
/// same sequence where it has six entries, `InvalidJointCount` otherwise.
pub open spec fn checked_joints(angles: Seq<u64>) -> Result<Seq<u64>, KinematicsError> {
    if angles.len() == JOINT_COUNT {
        Ok(angles)
    } else {
        Err(KinematicsError::InvalidJointCount)
    }
}

/// Six joint angles in radians, each held as the bit pattern of a binary64
/// number. Any angle is admitted; joint limits are not enforced here.
#[derive(Clone, Copy, Debug)]
pub struct JointVector {
    angles: [u64; 6],
}

impl View for JointVector {
    type V = Seq<u64>;

    closed spec fn view(&self) -> Seq<u64> {
        self.angles@
    }
}

impl JointVector {
    /// A joint vector always has six entries.
    pub proof fn lemma_len(self)
        ensures
            self@.len() == JOINT_COUNT,
    {
    }

    /// The vector of six zero angles, at which the arm is in its home pose.
    pub fn zero() -> (joints: JointVector)
        ensures
            joints@ == Seq::new(JOINT_COUNT as nat, |i: int| 0u64),
    {
        let joints = JointVector { angles: [0, 0, 0, 0, 0, 0] };
        assert(joints@ =~= Seq::new(JOINT_COUNT as nat, |i: int| 0u64));
        joints
    }

    /// Builds a joint vector from a fixed-size array of angles.
    pub fn from_array(angles: [u64; 6]) -> (joints: JointVector)
        ensures
            joints@ == angles@,
    {
        JointVector { angles }
    }

    /// Takes a sequence of angles as a joint vector. Succeeds exactly when the
    /// sequence has six entries, and then keeps every angle in its place.
    pub fn from_vec(angles: &Vec<u64>) -> (checked: Result<JointVector, KinematicsError>)
        ensures
            match checked {
                Ok(joints) => checked_joints(angles@) == Ok::<Seq<u64>, KinematicsError>(joints@),
                Err(e) => checked_joints(angles@) == Err::<Seq<u64>, KinematicsError>(e),
            },
    {
        if angles.len() != JOINT_COUNT {
            return Err(KinematicsError::InvalidJointCount);
        }
        let joints = JointVector {
            angles: [angles[0], angles[1], angles[2], angles[3], angles[4], angles[5]],
        };
        assert(joints@ =~= angles@);
        Ok(joints)
    }

    /// The angle of axis `axis`, counted from zero.
    pub fn angle(&self, axis: usize) -> (bits: u64)
        requires
            axis < JOINT_COUNT,
        ensures
            bits == self@[axis as int],
    {
        self.angles[axis]
    }

    /// The six angles as an array.
    pub fn to_array(&self) -> (angles: [u64; 6])
        ensures
            angles@ == self@,
    {
        self.angles
    }

    /// The six angles as a growable sequence, in axis order.
    pub fn to_vec(&self) -> (angles: Vec<u64>)
        ensures
            angles@ == self@,
    {
        let mut angles: Vec<u64> = Vec::new();
        let mut axis: usize = 0;
        while axis < JOINT_COUNT
            invariant
                axis <= JOINT_COUNT,
                angles@ == self@.subrange(0, axis as int),
            decreases JOINT_COUNT - axis,
        {
            angles.push(self.angles[axis]);
            assert(angles@ =~= self@.subrange(0, axis + 1));
            axis += 1;
        }
        assert(angles@ =~= self@);
        angles
    }
}

/// Reading a joint vector back from its own sequence of angles succeeds and
/// gives the same angles.
pub proof fn lemma_joints_round_trip(joints: JointVector)
    ensures
        checked_joints(joints@) == Ok::<Seq<u64>, KinematicsError>(joints@),
{
}

/// A sequence of angles is refused exactly when its length is not six, and a
/// refusal is always `InvalidJointCount`.
pub proof fn lemma_joint_count_decides(angles: Seq<u64>)
    ensures
        checked_joints(angles) is Err <==> angles.len() != JOINT_COUNT,
        checked_joints(angles) is Err ==> checked_joints(angles)
            == Err::<Seq<u64>, KinematicsError>(KinematicsError::InvalidJointCount),
{
}

} // verus!
