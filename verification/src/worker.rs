//! The decisions of one worker of the pool: what to do with a candidate, and
//! what to do after each probe of it.

use crate::probe::ProbeError;
use vstd::prelude::*;

verus! {

/// How often one candidate is probed before it is given up.
pub const MAX_ATTEMPTS: u32 = 5;

/// A probe of `id` that is about to be made, the `number`-th of this candidate.
#[derive(Clone, Copy, Debug, PartialEq, Eq, Structural)]
pub struct Attempt {
    pub id: u64,
    pub number: u32,
}

/// What a worker does once the predictor has answered its request.
#[derive(Clone, Copy, Debug, PartialEq, Eq, Structural)]
pub enum Step {
    /// Probe the candidate.
    Probe(Attempt),
    /// The predictor is exhausted: the worker ends.
    Stop,
}

/// What a worker does once a probe has come back.
#[derive(Clone, Copy, Debug, PartialEq, Eq, Structural)]
pub enum Verdict {
    /// The probe failed and the budget is not spent: probe the same candidate again.
    Retry(Attempt),
    /// The candidate is valid: report it to the predictor, then ask for the next.
    Hit(u64),
    /// The candidate is not valid: ask for the next.
    Miss(u64),
    /// The last probe of the budget failed: log it and ask for the next.
    /// The candidate is not probed again.
    Abandon(u64),
}

/// The step that follows the predictor's answer.
pub open spec fn step_for(candidate: Option<u64>) -> Step {
    match candidate {
        Some(id) => Step::Probe(Attempt { id, number: 1 }),
        None => Step::Stop,
    }
}

/// The verdict that follows the result of `attempt`.
pub open spec fn verdict_for(attempt: Attempt, result: Result<bool, ProbeError>) -> Verdict {
    match result {
        Ok(true) => Verdict::Hit(attempt.id),
        Ok(false) => Verdict::Miss(attempt.id),
        Err(_) => if attempt.number < MAX_ATTEMPTS {
            Verdict::Retry(Attempt { id: attempt.id, number: (attempt.number + 1) as u32 })
        } else {
            Verdict::Abandon(attempt.id)
        },
    }
}

/// Decides what follows the predictor's answer to a request: the first
/// probe of the candidate, or the end of the worker if there is none.
pub fn on_candidate(candidate: Option<u64>) -> (step: Step)
    ensures
        step == step_for(candidate),
{
    match candidate {
        Some(id) => Step::Probe(Attempt { id, number: 1 }),
        None => Step::Stop,
    }
}

/// Decides what follows a probe. Both kinds of failure count alike
/// against the budget of [`MAX_ATTEMPTS`] probes.
pub fn on_probe_result(attempt: Attempt, result: Result<bool, ProbeError>) -> (verdict: Verdict)
    ensures
        verdict == verdict_for(attempt, result),
        verdict matches Verdict::Retry(next) ==> next.id == attempt.id && next.number
            == attempt.number + 1 && next.number <= MAX_ATTEMPTS,
{
    match result {
        Ok(is_match) => {
            if is_match {
                Verdict::Hit(attempt.id)
            } else {
                Verdict::Miss(attempt.id)
            }
        },
        Err(_) => {
            if attempt.number < MAX_ATTEMPTS {
                Verdict::Retry(Attempt { id: attempt.id, number: attempt.number + 1 })
            } else {
                Verdict::Abandon(attempt.id)
            }
        },
    }
}

/// The probe of `id` that is due after `failures` failed probes of it.
pub open spec fn attempt_after(id: u64, failures: nat) -> Attempt {
    Attempt { id, number: (failures + 1) as u32 }
}

/// A candidate whose probes all fail is probed [`MAX_ATTEMPTS`] times and
/// then abandoned: each failure but the last asks for the next probe of
/// the same candidate, the last one gives it up.
pub proof fn lemma_retry_budget(id: u64, failures: nat, error: ProbeError)
    requires
        failures < MAX_ATTEMPTS,
    ensures
        step_for(Some(id)) == Step::Probe(attempt_after(id, 0)),
        failures + 1 < MAX_ATTEMPTS ==> verdict_for(
            attempt_after(id, failures),
            Err(error),
        ) == Verdict::Retry(attempt_after(id, failures + 1)),
        failures + 1 == MAX_ATTEMPTS ==> verdict_for(
            attempt_after(id, failures),
            Err(error),
        ) == Verdict::Abandon(id),
{
}

} // verus!
