//! Joint limits and the clamping of joint vectors to them.

use vstd::prelude::*;
use crate::joints::{JointVector, JOINT_COUNT};
use crate::scalar::{bits_are_nan, bits_at_most, is_nan, order_key};

verus! {

/// A pair of bounds is a range when both are numbers and the lower is at
/// most the upper.
pub open spec fn is_range(lower: u64, upper: u64) -> bool {
    !is_nan(lower) && !is_nan(upper) && order_key(lower) <= order_key(upper)
}

/// An angle lies in a range: it is a number, at least the lower bound and
/// at most the upper.
pub open spec fn in_range(angle: u64, lower: u64, upper: u64) -> bool {
    !is_nan(angle) && order_key(lower) <= order_key(angle) <= order_key(upper)
}

/// An angle brought into a range: the lower bound where it is below, the
/// upper bound where it is above, and otherwise the angle itself. What is
/// not a number stays as it is.
pub open spec fn clamped(angle: u64, lower: u64, upper: u64) -> u64 {
    if is_nan(angle) {
        angle
    } else if order_key(angle) < order_key(lower) {
        lower
    } else if order_key(upper) < order_key(angle) {
        upper
    } else {
        angle
    }
}

/// Six pairs of bounds form joint limits when each pair is a range.
pub open spec fn are_limits(lower: Seq<u64>, upper: Seq<u64>) -> bool {
    &&& lower.len() == JOINT_COUNT
    &&& upper.len() == JOINT_COUNT
    &&& forall|i: int| 0 <= i < JOINT_COUNT ==> is_range(#[trigger] lower[i], upper[i])
}

/// Every angle of a joint vector lies in the range of its axis.
pub open spec fn all_in_range(angles: Seq<u64>, lower: Seq<u64>, upper: Seq<u64>) -> bool {
    forall|i: int| 0 <= i < JOINT_COUNT ==> in_range(#[trigger] angles[i], lower[i], upper[i])
}

/// A joint vector with each angle brought into the range of its axis.
pub open spec fn all_clamped(angles: Seq<u64>, lower: Seq<u64>, upper: Seq<u64>) -> Seq<u64> {
    Seq::new(JOINT_COUNT as nat, |i: int| clamped(angles[i], lower[i], upper[i]))
}

/// Brings one angle into a range.
pub fn clamp_angle(angle: u64, lower: u64, upper: u64) -> (bits: u64)
    ensures
        bits == clamped(angle, lower, upper),
{
    if bits_are_nan(angle) {
        angle
    } else if !bits_at_most(lower, angle) {
        lower
    } else if !bits_at_most(angle, upper) {
        upper
    } else {
        angle
    }
}

/// The limits of the six axes in radians: for each axis a lower and an
/// upper bound, as binary64 bit patterns, the lower at most the upper.
/// The inverse solver keeps its estimates within them; forward kinematics
/// does not look at them.
#[derive(Clone, Copy, Debug)]
pub struct JointLimits {
    lower: [u64; 6],
    upper: [u64; 6],
}

impl JointLimits {
    #[verifier::type_invariant]
    closed spec fn well_formed(self) -> bool {
        are_limits(self.lower@, self.upper@)
    }

    /// The lower bounds, in axis order.
    pub closed spec fn lower_bounds(self) -> Seq<u64> {
        self.lower@
    }

    /// The upper bounds, in axis order.
    pub closed spec fn upper_bounds(self) -> Seq<u64> {
        self.upper@
    }

    /// Takes six lower and six upper bounds as joint limits. Succeeds
    /// exactly when each pair is a range.
    pub fn new(lower: [u64; 6], upper: [u64; 6]) -> (built: Option<JointLimits>)
        ensures
            match built {
                Some(limits) => {
                    &&& are_limits(lower@, upper@)
                    &&& limits.lower_bounds() == lower@
                    &&& limits.upper_bounds() == upper@
                },
                None => !are_limits(lower@, upper@),
            },
    {
        let mut axis: usize = 0;
        while axis < JOINT_COUNT
            invariant
                axis <= JOINT_COUNT,
                forall|i: int| 0 <= i < axis ==> is_range(#[trigger] lower@[i], upper@[i]),
            decreases JOINT_COUNT - axis,
        {
            let low: u64 = lower[axis];
            let high: u64 = upper[axis];
            if bits_are_nan(low) || bits_are_nan(high) || !bits_at_most(low, high) {
                assert(!is_range(lower@[axis as int], upper@[axis as int]));
                return None;
            }
            axis += 1;
        }
        Some(JointLimits { lower, upper })
    }

    /// The bounds of axis `axis`, lower then upper. They form a range.
    pub fn bounds(&self, axis: usize) -> (pair: (u64, u64))
        requires
            axis < JOINT_COUNT,
        ensures
            pair.0 == self.lower_bounds()[axis as int],
            pair.1 == self.upper_bounds()[axis as int],
            is_range(pair.0, pair.1),
    {
        proof {
            use_type_invariant(self);
        }
        (self.lower[axis], self.upper[axis])
    }

    /// Decides whether every angle of a joint vector lies in the range of
    /// its axis.
    pub fn contains(&self, joints: &JointVector) -> (inside: bool)
        ensures
            inside == all_in_range(joints@, self.lower_bounds(), self.upper_bounds()),
    {
        proof {
            joints.lemma_len();
        }
        let mut axis: usize = 0;
        while axis < JOINT_COUNT
            invariant
                axis <= JOINT_COUNT,
                forall|i: int|
                    0 <= i < axis ==> in_range(
                        #[trigger] joints@[i],
                        self.lower_bounds()[i],
                        self.upper_bounds()[i],
                    ),
            decreases JOINT_COUNT - axis,
        {
            let angle: u64 = joints.angle(axis);
            if bits_are_nan(angle) || !bits_at_most(self.lower[axis], angle) || !bits_at_most(
                angle,
                self.upper[axis],
            ) {
                assert(!in_range(
                    joints@[axis as int],
                    self.lower_bounds()[axis as int],
                    self.upper_bounds()[axis as int],
                ));
                return false;
            }
            axis += 1;
        }
        true
    }

    /// Brings each angle of a joint vector into the range of its axis.
    pub fn clamp(&self, joints: &JointVector) -> (kept: JointVector)
        ensures
            kept@ == all_clamped(joints@, self.lower_bounds(), self.upper_bounds()),
    {
        let mut angles: [u64; 6] = joints.to_array();
        let mut axis: usize = 0;
        while axis < JOINT_COUNT
            invariant
                axis <= JOINT_COUNT,
                angles@.len() == JOINT_COUNT,
                joints@.len() == JOINT_COUNT,
                forall|i: int|
                    0 <= i < axis ==> #[trigger] angles@[i] == clamped(
                        joints@[i],
                        self.lower_bounds()[i],
                        self.upper_bounds()[i],
                    ),
                forall|i: int| axis <= i < JOINT_COUNT ==> #[trigger] angles@[i] == joints@[i],
            decreases JOINT_COUNT - axis,
        {
            let bits: u64 = clamp_angle(angles[axis], self.lower[axis], self.upper[axis]);
            angles[axis] = bits;
            axis += 1;
        }
        assert(angles@ =~= all_clamped(joints@, self.lower_bounds(), self.upper_bounds()));
        JointVector::from_array(angles)
    }
}

/// An angle that is a number, brought into a range, lies in that range.
pub proof fn lemma_clamped_in_range(angle: u64, lower: u64, upper: u64)
    requires
        is_range(lower, upper),
        !is_nan(angle),
    ensures
        in_range(clamped(angle, lower, upper), lower, upper),
{
}

/// Clamping leaves an angle unchanged exactly when the angle lies in the
/// range or is not a number.
pub proof fn lemma_clamped_fixes_range(angle: u64, lower: u64, upper: u64)
    requires
        is_range(lower, upper),
    ensures
        in_range(angle, lower, upper) ==> clamped(angle, lower, upper) == angle,
        clamped(clamped(angle, lower, upper), lower, upper) == clamped(angle, lower, upper),
{
}

/// A joint vector of numbers, clamped to joint limits, lies within them;
/// one that lies within them is left as it is.
pub proof fn lemma_all_clamped(angles: Seq<u64>, lower: Seq<u64>, upper: Seq<u64>)
    requires
        angles.len() == JOINT_COUNT,
        are_limits(lower, upper),
    ensures
        (forall|i: int| 0 <= i < JOINT_COUNT ==> !is_nan(#[trigger] angles[i])) ==> all_in_range(
            all_clamped(angles, lower, upper),
            lower,
            upper,
        ),
        all_in_range(angles, lower, upper) ==> all_clamped(angles, lower, upper) == angles,
{
    if forall|i: int| 0 <= i < JOINT_COUNT ==> !is_nan(#[trigger] angles[i]) {
        assert forall|i: int| 0 <= i < JOINT_COUNT implies in_range(
            #[trigger] all_clamped(angles, lower, upper)[i],
            lower[i],
            upper[i],
        ) by {
            assert(is_range(lower[i], upper[i]));
            assert(!is_nan(angles[i]));
        }
    }
    if all_in_range(angles, lower, upper) {
        assert forall|i: int| 0 <= i < JOINT_COUNT implies all_clamped(angles, lower, upper)[i]
            == angles[i] by {
            assert(in_range(angles[i], lower[i], upper[i]));
        }
        assert(all_clamped(angles, lower, upper) =~= angles);
    }
}

} // verus!
