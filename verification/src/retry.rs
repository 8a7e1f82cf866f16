//! The bounded readiness-retry protocol for freshly launched processes.
//!
//! A process that has not finished initialising answers accessibility
//! queries with a distinguished "not ready" code. Registration for such a
//! process is retried on a background thread: probe, and while the process is
//! not ready and the budget is not spent, sleep one step and probe again.
//! The budget is bounded, so a process that never becomes ready is abandoned
//! silently; it never reaches registration and nothing panics.
//!
//! The platform layer owns the thread and the sleeping; the decision taken
//! after every probe, and the outcome of a whole probe sequence, are decided
//! here.

use vstd::prelude::*;

verus! {

/// How many sleep steps the retry budget is split into: a probe is made
/// before each step and once more after the last.
pub const TIMEOUT_STEPS: u32 = 10;

/// What to do after one readiness probe.
#[derive(Clone, Copy, Debug, PartialEq, Eq, Structural)]
pub enum RetryDecision {
    /// The process answered: build the watcher now.
    Proceed,
    /// Still not ready and budget remains: sleep one step and probe again.
    Wait,
    /// Still not ready with the budget spent: abandon the process.
    GiveUp,
}

/// How a whole registration attempt ends.
#[derive(Clone, Copy, Debug, PartialEq, Eq, Structural)]
pub enum RetryOutcome {
    /// The process became ready at the given probe (counted from zero);
    /// registration goes ahead.
    Registered(u32),
    /// The process never became ready within the budget; it is given up
    /// silently.
    Abandoned,
}

/// The decision after one probe: `not_ready` is the probe's answer,
/// `steps_waited` how many sleep steps have been spent so far.
pub open spec fn spec_retry_step(not_ready: bool, steps_waited: u32) -> RetryDecision {
    if !not_ready {
        RetryDecision::Proceed
    } else if steps_waited < TIMEOUT_STEPS {
        RetryDecision::Wait
    } else {
        RetryDecision::GiveUp
    }
}

/// Decide what the retry loop does after one probe.
pub fn retry_step(not_ready: bool, steps_waited: u32) -> (d: RetryDecision)
    ensures
        d == spec_retry_step(not_ready, steps_waited),
{
    if !not_ready {
        RetryDecision::Proceed
    } else if steps_waited < TIMEOUT_STEPS {
        RetryDecision::Wait
    } else {
        RetryDecision::GiveUp
    }
}

/// The outcome of running the protocol from probe `i` over a trace of probe
/// answers (`true` meaning "not ready"), with `TIMEOUT_STEPS` as the budget.
pub open spec fn spec_retry_outcome(trace: Seq<bool>, i: u32) -> RetryOutcome
    recommends
        trace.len() > TIMEOUT_STEPS,
        i <= TIMEOUT_STEPS,
    decreases TIMEOUT_STEPS - i,
{
    if i > TIMEOUT_STEPS {
        RetryOutcome::Abandoned
    } else if i < trace.len() && !trace[i as int] {
        RetryOutcome::Registered(i)
    } else if i < TIMEOUT_STEPS {
        spec_retry_outcome(trace, (i + 1) as u32)
    } else {
        RetryOutcome::Abandoned
    }
}

/// Run the retry protocol over a recorded trace of probe answers.
///
/// The platform layer runs the live protocol probe by probe with
/// [`retry_step`]; this runs the same decisions over answers already in
/// hand, so the protocol's behaviour can be examined end to end.
pub fn drive_retry(trace: &Vec<bool>) -> (r: RetryOutcome)
    requires
        trace@.len() > TIMEOUT_STEPS,
    ensures
        r == spec_retry_outcome(trace@, 0),
{
    let mut i: u32 = 0;
    loop
        invariant
            i <= TIMEOUT_STEPS,
            trace@.len() > TIMEOUT_STEPS,
            spec_retry_outcome(trace@, 0) == spec_retry_outcome(trace@, i),
        ensures
            spec_retry_outcome(trace@, 0) == spec_outcome_at(trace@, i),
        decreases TIMEOUT_STEPS - i,
    {
        match retry_step(trace[i as usize], i) {
            RetryDecision::Proceed => {
                break ;
            },
            RetryDecision::Wait => {
                i = i + 1;
            },
            RetryDecision::GiveUp => {
                break ;
            },
        }
    }
    if !trace[i as usize] {
        RetryOutcome::Registered(i)
    } else {
        RetryOutcome::Abandoned
    }
}

/// The result the protocol reads off once its loop has stopped at probe `i`.
spec fn spec_outcome_at(trace: Seq<bool>, i: u32) -> RetryOutcome {
    if i < trace.len() && !trace[i as int] {
        RetryOutcome::Registered(i)
    } else {
        RetryOutcome::Abandoned
    }
}

/// A process that answers "ready" at some probe within the budget is
/// registered, at the first such probe.
pub proof fn lemma_retry_registers_when_ready_in_time(trace: Seq<bool>, ready_at: u32)
    requires
        trace.len() > TIMEOUT_STEPS,
        ready_at <= TIMEOUT_STEPS,
        !trace[ready_at as int],
        forall|j: int| 0 <= j < ready_at ==> trace[j],
    ensures
        spec_retry_outcome(trace, 0) == RetryOutcome::Registered(ready_at),
{
    lemma_retry_registers_from(trace, 0, ready_at);
}

/// A process that answers "not ready" at every probe within the budget is
/// abandoned; it never reaches registration.
pub proof fn lemma_retry_abandons_when_never_ready(trace: Seq<bool>)
    requires
        trace.len() > TIMEOUT_STEPS,
        forall|j: int| 0 <= j <= TIMEOUT_STEPS ==> trace[j],
    ensures
        spec_retry_outcome(trace, 0) == RetryOutcome::Abandoned,
{
    lemma_retry_abandons_from(trace, 0);
}

proof fn lemma_retry_registers_from(trace: Seq<bool>, i: u32, ready_at: u32)
    requires
        trace.len() > TIMEOUT_STEPS,
        i <= ready_at <= TIMEOUT_STEPS,
        !trace[ready_at as int],
        forall|j: int| 0 <= j < ready_at ==> trace[j],
    ensures
        spec_retry_outcome(trace, i) == RetryOutcome::Registered(ready_at),
    decreases TIMEOUT_STEPS - i,
{
    if i < ready_at {
        lemma_retry_registers_from(trace, (i + 1) as u32, ready_at);
    }
}

proof fn lemma_retry_abandons_from(trace: Seq<bool>, i: u32)
    requires
        trace.len() > TIMEOUT_STEPS,
        i <= TIMEOUT_STEPS,
        forall|j: int| 0 <= j <= TIMEOUT_STEPS ==> trace[j],
    ensures
        spec_retry_outcome(trace, i) == RetryOutcome::Abandoned,
    decreases TIMEOUT_STEPS - i,
{
    if i < TIMEOUT_STEPS {
        lemma_retry_abandons_from(trace, (i + 1) as u32);
    }
}

} // verus!
