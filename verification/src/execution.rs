//! Running a plan of steps: the steps run in order, one at a time, and the
//! first step that fails ends the run with its error; no later step runs.
//!
//! The front end asks [`Execution::next_step`] for the step to carry out,
//! carries it out, and hands the outcome to [`Execution::record`], until no
//! step is left; [`Execution::finish`] then gives the run's result.

use vstd::prelude::*;
use crate::backend::{steps_model, Step, StepModel};
use crate::error::{result_model, CastleError, ErrorModel};

verus! {

/// A plan being carried out.
pub struct Execution {
    plan: Vec<Step>,
    next: usize,
    failure: Option<CastleError>,
}

/// Model of an [`Execution`]: the plan, how many of its steps succeeded, and
/// the error of the step that failed, if one did.
pub struct ExecutionModel {
    pub plan: Seq<StepModel>,
    pub next: nat,
    pub failure: Option<ErrorModel>,
}

impl View for Execution {
    type V = ExecutionModel;

    closed spec fn view(&self) -> ExecutionModel {
        ExecutionModel {
            plan: steps_model(self.plan@),
            next: self.next as nat,
            failure: match self.failure {
                Some(e) => Some(e@),
                None => None,
            },
        }
    }
}

/// The start of a run of `plan`: nothing done, nothing failed.
pub open spec fn start(plan: Seq<StepModel>) -> ExecutionModel {
    ExecutionModel { plan, next: 0, failure: None }
}

/// A step remains to be carried out: nothing has failed and not every step
/// has run.
pub open spec fn pending(m: ExecutionModel) -> bool {
    m.failure is None && m.next < m.plan.len()
}

/// The run after the pending step ended with `outcome`: on success the next
/// step is pending; on failure the run stops with that error. Where no step
/// is pending, an outcome changes nothing.
pub open spec fn after(m: ExecutionModel, outcome: Result<(), ErrorModel>) -> ExecutionModel {
    if !pending(m) {
        m
    } else {
        match outcome {
            Ok(()) => ExecutionModel { next: m.next + 1, ..m },
            Err(e) => ExecutionModel { failure: Some(e), ..m },
        }
    }
}

/// The run of `plan` after the outcomes of its steps so far, in order.
pub open spec fn run_with(plan: Seq<StepModel>, outcomes: Seq<Result<(), ErrorModel>>) -> ExecutionModel
    decreases outcomes.len(),
{
    if outcomes.len() == 0 {
        start(plan)
    } else {
        after(run_with(plan, outcomes.drop_last()), outcomes.last())
    }
}

/// What a run gives: the failed step's error, or success.
pub open spec fn outcome_of(m: ExecutionModel) -> Result<(), ErrorModel> {
    match m.failure {
        Some(e) => Err(e),
        None => Ok(()),
    }
}

impl Execution {
    /// No more steps have succeeded than the plan holds.
    #[verifier::type_invariant]
    spec fn inv(self) -> bool {
        self.next <= self.plan.len()
    }

    /// Start carrying out `plan`.
    pub fn new(plan: Vec<Step>) -> (r: Self)
        ensures
            r@ == start(steps_model(plan@)),
    {
        Execution { plan, next: 0, failure: None }
    }

    /// The step to carry out now: the first not yet run, unless one failed
    /// or all have run.
    pub fn next_step(&self) -> (r: Option<&Step>)
        ensures
            match r {
                Some(s) => pending(self@) && s@ == self@.plan[self@.next as int],
                None => !pending(self@),
            },
    {
        proof {
            use_type_invariant(self);
        }
        if self.failure.is_none() && self.next < self.plan.len() {
            Some(&self.plan[self.next])
        } else {
            None
        }
    }

    /// Record how the step just carried out ended.
    pub fn record(&mut self, outcome: Result<(), CastleError>)
        ensures
            final(self)@ == after(old(self)@, result_model(outcome)),
    {
        proof {
            use_type_invariant(&*self);
        }
        if self.failure.is_none() && self.next < self.plan.len() {
            match outcome {
                Ok(()) => {
                    self.next = self.next + 1;
                },
                Err(e) => {
                    self.failure = Some(e);
                },
            }
        }
    }

    /// How the run ended: the failed step's error, or success.
    pub fn finish(self) -> (r: Result<(), CastleError>)
        ensures
            result_model(r) == outcome_of(self@),
    {
        match self.failure {
            Some(e) => Err(e),
            None => Ok(()),
        }
    }
}

} // verus!
