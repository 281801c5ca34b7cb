//! The decisions of the iterative inverse solver.
//!
//! The solver alternates arithmetic and decisions. The caller measures the
//! pose error of the current joint estimate and takes the damped
//! least-squares step; this module checks the request, decides after each
//! measurement whether to accept, to step or to give up, and turns what the
//! search found into the answer.

use vstd::prelude::*;
use crate::error::KinematicsError;
use crate::frame::{checked_pose, Frame3};
use crate::joints::{checked_joints, JointVector};

verus! {

/// The number of measurements after which the search gives up.
pub const MAX_ITERATIONS: u32 = 100;

/// What the solver does after a measurement.
#[derive(Clone, Copy, Debug, PartialEq, Eq, Structural)]
pub enum SolverAction {
    /// The estimate meets the tolerance: return it.
    Accept,
    /// Take one damped least-squares step, clamp to the joint limits and
    /// measure again.
    Step,
    /// The budget is used up: fail with `NoSolutionFound`.
    GiveUp,
}

/// The decision after a measurement, given the number of measurements that
/// failed before it: the new number of failed measurements and the action.
/// An estimate within tolerance is accepted while the budget lasts; the
/// failure that uses up the budget ends the search.
pub open spec fn transition(failed: nat, within_tolerance: bool) -> (nat, SolverAction) {
    if failed >= MAX_ITERATIONS {
        (failed, SolverAction::GiveUp)
    } else if within_tolerance {
        (failed, SolverAction::Accept)
    } else if failed + 1 >= MAX_ITERATIONS {
        (failed + 1, SolverAction::GiveUp)
    } else {
        (failed + 1, SolverAction::Step)
    }
}

/// The search driven by a sequence of measurements, from a given number of
/// failed measurements on: the state and the action at which it stands when
/// it has ended or the measurements have run out. While it has not ended it
/// stands at `Step`.
pub open spec fn run(failed: nat, reports: Seq<bool>) -> (nat, SolverAction)
    decreases reports.len(),
{
    if reports.len() == 0 {
        (failed, SolverAction::Step)
    } else {
        let (next, action) = transition(failed, reports[0]);
        if action == SolverAction::Step {
            run(next, reports.drop_first())
        } else {
            (next, action)
        }
    }
}

/// No measurement among the first `count` is within tolerance.
pub open spec fn all_fail(reports: Seq<bool>, count: int) -> bool {
    forall|j: int| 0 <= j < count && j < reports.len() ==> !#[trigger] reports[j]
}

/// The progress of one search: how many measurements have failed so far.
#[derive(Clone, Copy, Debug, PartialEq, Eq, Structural)]
pub struct SolverState {
    failed: u32,
}

impl SolverState {
    /// The number of measurements that have failed so far.
    pub closed spec fn failed_count(self) -> nat {
        self.failed as nat
    }

    /// Opens a search. A target that the caller has found to lie outside
    /// the workspace is refused with `UnreachablePose` before any iteration;
    /// otherwise the search starts with no failed measurement.
    pub fn start(target_in_reach: bool) -> (opened: Result<SolverState, KinematicsError>)
        ensures
            match opened {
                Ok(state) => target_in_reach && state.failed_count() == 0,
                Err(e) => !target_in_reach && e == KinematicsError::UnreachablePose,
            },
    {
        if target_in_reach {
            Ok(SolverState { failed: 0 })
        } else {
            Err(KinematicsError::UnreachablePose)
        }
    }

    /// The number of measurements that have failed so far.
    pub fn iterations(&self) -> (failed: u32)
        ensures
            failed == self.failed_count(),
    {
        self.failed
    }

    /// Decides what follows a measurement. `within_tolerance` says whether
    /// the error of the current estimate is below the tolerance.
    pub fn decide(self, within_tolerance: bool) -> (decision: (SolverState, SolverAction))
        ensures
            (decision.0.failed_count(), decision.1) == transition(
                self.failed_count(),
                within_tolerance,
            ),
    {
        if self.failed >= MAX_ITERATIONS {
            (self, SolverAction::GiveUp)
        } else if within_tolerance {
            (self, SolverAction::Accept)
        } else if self.failed + 1 >= MAX_ITERATIONS {
            (SolverState { failed: self.failed + 1 }, SolverAction::GiveUp)
        } else {
            (SolverState { failed: self.failed + 1 }, SolverAction::Step)
        }
    }
}

/// A checked request to the inverse solver.
#[derive(Clone, Copy, Debug)]
pub struct IkRequest {
    /// The pose that the end effector is to reach.
    pub target: Frame3,
    /// The joint vector from which the search starts.
    pub seed: JointVector,
}

/// What a pair of flat inputs yields when it is taken as a request: the
/// seed is checked first, then the target pose.
pub open spec fn checked_request(target: Seq<u64>, seed: Seq<u64>) -> Result<
    (Seq<u64>, Seq<u64>),
    KinematicsError,
> {
    if checked_joints(seed) is Err {
        Err(KinematicsError::InvalidJointCount)
    } else if checked_pose(target) is Err {
        Err(KinematicsError::InvalidTransform)
    } else {
        Ok((target, seed))
    }
}

/// Checks the inputs of an inverse-kinematics request. A seed that does not
/// hold six angles is refused with `InvalidJointCount`; otherwise a target
/// that is no well-formed pose matrix is refused with `InvalidTransform`;
/// otherwise both are taken unchanged.
pub fn ik_request(target_pose: &Vec<u64>, starting_joints: &Vec<u64>) -> (checked: Result<
    IkRequest,
    KinematicsError,
>)
    ensures
        match checked {
            Ok(request) => checked_request(target_pose@, starting_joints@) == Ok::<
                (Seq<u64>, Seq<u64>),
                KinematicsError,
            >((request.target@, request.seed@)),
            Err(e) => checked_request(target_pose@, starting_joints@) == Err::<
                (Seq<u64>, Seq<u64>),
                KinematicsError,
            >(e),
        },
{
    let seed = match JointVector::from_vec(starting_joints) {
        Ok(seed) => seed,
        Err(e) => {
            return Err(e);
        },
    };
    let target = match Frame3::from_flat(target_pose) {
        Ok(target) => target,
        Err(e) => {
            return Err(e);
        },
    };
    Ok(IkRequest { target, seed })
}

/// Turns what the search found into the answer: the joint vector found, or
/// `NoSolutionFound` where it found none.
pub fn ik_result(found: Option<[u64; 6]>) -> (answer: Result<JointVector, KinematicsError>)
    ensures
        match answer {
            Ok(joints) => found.is_some() && joints@ == found.unwrap()@,
            Err(e) => found.is_none() && e == KinematicsError::NoSolutionFound,
        },
{
    match found {
        Some(angles) => Ok(JointVector::from_array(angles)),
        None => Err(KinematicsError::NoSolutionFound),
    }
}

/// The number of failed measurements never passes the budget.
pub proof fn lemma_run_within_budget(failed: nat, reports: Seq<bool>)
    requires
        failed <= MAX_ITERATIONS,
    ensures
        run(failed, reports).0 <= MAX_ITERATIONS,
    decreases reports.len(),
{
    if reports.len() > 0 {
        let (next, action) = transition(failed, reports[0]);
        if action == SolverAction::Step {
            lemma_run_within_budget(next, reports.drop_first());
        }
    }
}

/// A search accepts only an estimate that was measured within tolerance,
/// and it does so at the first such measurement, which is one of the first
/// hundred: with `k` the number of failed measurements at the end, the
/// measurement at place `k` is within tolerance and none before it is.
pub proof fn lemma_accept_is_first_success(reports: Seq<bool>)
    requires
        run(0, reports).1 == SolverAction::Accept,
    ensures
        run(0, reports).0 < MAX_ITERATIONS,
        run(0, reports).0 < reports.len(),
        reports[run(0, reports).0 as int],
        all_fail(reports, run(0, reports).0 as int),
{
    lemma_accept_from(0, reports);
}

/// The same, for a search that is under way: the accepted measurement lies
/// `k - failed` places on, and none before it is within tolerance.
pub proof fn lemma_accept_from(failed: nat, reports: Seq<bool>)
    requires
        run(failed, reports).1 == SolverAction::Accept,
    ensures
        failed <= run(failed, reports).0 < MAX_ITERATIONS,
        run(failed, reports).0 - failed < reports.len(),
        reports[run(failed, reports).0 - failed],
        all_fail(reports, run(failed, reports).0 - failed),
    decreases reports.len(),
{
    if reports.len() > 0 {
        let (next, action) = transition(failed, reports[0]);
        if action == SolverAction::Step {
            let rest = reports.drop_first();
            lemma_accept_from(next, rest);
            let k = run(failed, reports).0 - failed;
            assert(reports[k] == rest[k - 1]);
            assert forall|j: int| 0 <= j < k && j < reports.len() implies !#[trigger] reports[j] by {
                if j > 0 {
                    assert(reports[j] == rest[j - 1]);
                }
            }
        }
    }
}

/// A search gives up exactly when the budget is used up without success:
/// there are at least a hundred measurements and none of the first hundred
/// is within tolerance.
pub proof fn lemma_give_up_is_exhaustion(reports: Seq<bool>)
    ensures
        run(0, reports).1 == SolverAction::GiveUp <==> reports.len() >= MAX_ITERATIONS && all_fail(
            reports,
            MAX_ITERATIONS as int,
        ),
{
    lemma_give_up_from(0, reports);
}

/// The same, for a search that is under way with budget left.
pub proof fn lemma_give_up_from(failed: nat, reports: Seq<bool>)
    requires
        failed < MAX_ITERATIONS,
    ensures
        run(failed, reports).1 == SolverAction::GiveUp <==> reports.len() >= MAX_ITERATIONS
            - failed && all_fail(reports, MAX_ITERATIONS - failed),
    decreases reports.len(),
{
    if reports.len() > 0 {
        let (next, action) = transition(failed, reports[0]);
        let rest = reports.drop_first();
        let left = MAX_ITERATIONS - failed;
        if action == SolverAction::Step {
            lemma_give_up_from(next, rest);
            if all_fail(rest, left - 1) {
                assert forall|j: int| 0 <= j < left && j < reports.len() implies !#[trigger] reports[j] by {
                    if j > 0 {
                        assert(reports[j] == rest[j - 1]);
                    }
                }
            }
            if all_fail(reports, left) {
                assert forall|j: int| 0 <= j < left - 1 && j < rest.len() implies !#[trigger] rest[j] by {
                    assert(rest[j] == reports[j + 1]);
                }
            }
        } else if action == SolverAction::GiveUp {
            assert(left == 1);
        } else {
            assert(reports[0]);
        }
    }
}

/// A search that has not ended stands at `Step`, and every measurement it
/// was given has failed.
pub proof fn lemma_step_means_all_failed(reports: Seq<bool>)
    requires
        run(0, reports).1 == SolverAction::Step,
    ensures
        reports.len() < MAX_ITERATIONS,
        run(0, reports).0 == reports.len(),
        all_fail(reports, reports.len() as int),
{
    lemma_step_from(0, reports);
}

/// The same, for a search that is under way.
pub proof fn lemma_step_from(failed: nat, reports: Seq<bool>)
    requires
        failed < MAX_ITERATIONS,
        run(failed, reports).1 == SolverAction::Step,
    ensures
        failed + reports.len() < MAX_ITERATIONS,
        run(failed, reports).0 == failed + reports.len(),
        all_fail(reports, reports.len() as int),
    decreases reports.len(),
{
    if reports.len() > 0 {
        let (next, action) = transition(failed, reports[0]);
        let rest = reports.drop_first();
        lemma_step_from(next, rest);
        assert forall|j: int| 0 <= j < reports.len() implies !#[trigger] reports[j] by {
            if j > 0 {
                assert(reports[j] == rest[j - 1]);
            }
        }
    }
}

} // verus!
