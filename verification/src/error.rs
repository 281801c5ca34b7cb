//! The failures that the kinematics front end reports.

use vstd::prelude::*;

verus! {

/// Every way in which a request can fail. None of them aborts the process.
#[derive(Clone, Copy, Debug, PartialEq, Eq, Structural)]
pub enum KinematicsError {
    /// A joint vector did not hold exactly six angles.
    InvalidJointCount,
    /// A pose matrix was malformed or not rigid.
    InvalidTransform,
    /// The inverse solver used up its iterations without converging.
    NoSolutionFound,
    /// The target lies outside the workspace of the arm.
    UnreachablePose,
    /// The selector names no supported robot model.
    UnknownRobotVariant,
}

impl KinematicsError {
    /// The text of each failure, as a sequence of characters.
    pub open spec fn spec_message(self) -> Seq<char> {
        match self {
            KinematicsError::InvalidJointCount => "Expected 6 joint angles"@,
            KinematicsError::InvalidTransform => "Expected a rigid 4x4 transform"@,
            KinematicsError::NoSolutionFound => "No solution found"@,
            KinematicsError::UnreachablePose => "Target pose is out of reach"@,
            KinematicsError::UnknownRobotVariant => "Unknown CRX type"@,
        }
    }

    /// The text shown to a caller for this failure.
    pub fn message(&self) -> (text: &'static str)
        ensures
            text@ == self.spec_message(),
    {
        match self {
            KinematicsError::InvalidJointCount => "Expected 6 joint angles",
            KinematicsError::InvalidTransform => "Expected a rigid 4x4 transform",
            KinematicsError::NoSolutionFound => "No solution found",
            KinematicsError::UnreachablePose => "Target pose is out of reach",
            KinematicsError::UnknownRobotVariant => "Unknown CRX type",
        }
    }

    /// Whether a retry with another seed can help: true only when the solver
    /// ran out of iterations, false for structurally invalid input.
    pub fn is_retryable(&self) -> (retry: bool)
        ensures
            retry == (*self == KinematicsError::NoSolutionFound),
    {
        match self {
            KinematicsError::NoSolutionFound => true,
            _ => false,
        }
    }
}

} // verus!
