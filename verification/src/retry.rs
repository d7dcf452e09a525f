//! The two-phase retry of a control operation: one short first attempt, one
//! relocation of the device, one second attempt, all within the caller's time.

use vstd::prelude::*;
use crate::error::WemoError;
use crate::state::WemoState;

verus! {

/// The time allowed for the first attempt, in milliseconds, whatever the
/// caller's timeout.
pub const FIRST_ATTEMPT_TIMEOUT: u64 = 300;

/// What comes next in a retried operation.
#[derive(Debug)]
pub enum RetryStep {
    /// Try the operation for the first time, allowing it this many
    /// milliseconds.
    FirstAttempt { budget_ms: u64 },
    /// Search for the device, allowing the search this many milliseconds.
    Relocate { budget_ms: u64 },
    /// Try the operation once more, at the address that the search found,
    /// allowing it this many milliseconds.
    SecondAttempt { budget_ms: u64 },
    /// The operation is over, with this outcome.
    Finished { outcome: Result<WemoState, WemoError> },
}

/// The step after the first attempt: a success ends the operation; after a
/// failure the device is searched for in the time that is left, and if none
/// is left the operation times out.
pub open spec fn step_after_first(
    first: Result<WemoState, WemoError>,
    elapsed_ms: u64,
    timeout_ms: u64,
) -> RetryStep {
    match first {
        Ok(state) => RetryStep::Finished { outcome: Ok(state) },
        Err(_) => if elapsed_ms >= timeout_ms {
            RetryStep::Finished { outcome: Err(WemoError::TimeoutError) }
        } else {
            RetryStep::Relocate { budget_ms: (timeout_ms - elapsed_ms) as u64 }
        },
    }
}

/// The step after the search: the operation is tried once more in the time
/// that is left; it times out if the device was not found or no time is left.
pub open spec fn step_after_relocation(found: bool, elapsed_ms: u64, budget_ms: u64) -> RetryStep {
    if !found || elapsed_ms >= budget_ms {
        RetryStep::Finished { outcome: Err(WemoError::TimeoutError) }
    } else {
        RetryStep::SecondAttempt { budget_ms: (budget_ms - elapsed_ms) as u64 }
    }
}

/// The first step of every retried operation: an attempt with the fixed
/// first-attempt time.
pub fn first_step() -> (r: RetryStep)
    ensures
        r == (RetryStep::FirstAttempt { budget_ms: FIRST_ATTEMPT_TIMEOUT }),
{
    RetryStep::FirstAttempt { budget_ms: FIRST_ATTEMPT_TIMEOUT }
}

/// Decides what follows the first attempt, which took `elapsed_ms` of the
/// `timeout_ms` that the caller allows.
pub fn after_first_attempt(
    first: Result<WemoState, WemoError>,
    elapsed_ms: u64,
    timeout_ms: u64,
) -> (r: RetryStep)
    ensures
        r == step_after_first(first, elapsed_ms, timeout_ms),
{
    match first {
        Ok(state) => RetryStep::Finished { outcome: Ok(state) },
        Err(_) => {
            if elapsed_ms >= timeout_ms {
                RetryStep::Finished { outcome: Err(WemoError::TimeoutError) }
            } else {
                RetryStep::Relocate { budget_ms: timeout_ms - elapsed_ms }
            }
        },
    }
}

/// Decides what follows the search, which took `elapsed_ms` of the
/// `budget_ms` it was allowed.
pub fn after_relocation(found: bool, elapsed_ms: u64, budget_ms: u64) -> (r: RetryStep)
    ensures
        r == step_after_relocation(found, elapsed_ms, budget_ms),
{
    if !found || elapsed_ms >= budget_ms {
        RetryStep::Finished { outcome: Err(WemoError::TimeoutError) }
    } else {
        RetryStep::SecondAttempt { budget_ms: budget_ms - elapsed_ms }
    }
}

/// The outcome of the second attempt is the outcome of the operation.
pub fn after_second_attempt(second: Result<WemoState, WemoError>) -> (r: RetryStep)
    ensures
        r == (RetryStep::Finished { outcome: second }),
{
    RetryStep::Finished { outcome: second }
}

/// A first attempt that succeeds ends the operation with its state: no
/// search follows.
pub proof fn lemma_success_needs_no_relocation(state: WemoState, elapsed_ms: u64, timeout_ms: u64)
    ensures
        step_after_first(Ok(state), elapsed_ms, timeout_ms) == (RetryStep::Finished {
            outcome: Ok(state),
        }),
{
}

/// The times handed out never add up to more than the caller allows: the
/// search gets what the first attempt left, and the second attempt gets what
/// the search left, so the time spent up to the second attempt and the time
/// allowed for it make the caller's timeout exactly.
pub proof fn lemma_budgets_within_timeout(
    first: Result<WemoState, WemoError>,
    first_elapsed_ms: u64,
    timeout_ms: u64,
    found: bool,
    search_elapsed_ms: u64,
)
    ensures
        match step_after_first(first, first_elapsed_ms, timeout_ms) {
            RetryStep::Relocate { budget_ms } => {
                &&& first_elapsed_ms + budget_ms == timeout_ms
                &&& budget_ms > 0
                &&& match step_after_relocation(found, search_elapsed_ms, budget_ms) {
                    RetryStep::SecondAttempt { budget_ms: second_ms } => {
                        &&& found
                        &&& second_ms > 0
                        &&& first_elapsed_ms + search_elapsed_ms + second_ms == timeout_ms
                    },
                    RetryStep::Finished { outcome } => outcome == Err::<WemoState, WemoError>(
                        WemoError::TimeoutError,
                    ),
                    RetryStep::Relocate { .. } => false,
                    RetryStep::FirstAttempt { .. } => false,
                }
            },
            RetryStep::Finished { outcome } => first is Ok ==> outcome == first,
            RetryStep::FirstAttempt { .. } => false,
            RetryStep::SecondAttempt { .. } => false,
        },
{
}

} // verus!
