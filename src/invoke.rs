use vstd::prelude::*;

use crate::error::CALL_FAILED;
use crate::reward::{reward_accepted, MockRewardContract, Termination};

verus! {

/// What the fault-isolation boundary hands back: success, or a classified code.
#[derive(Debug, Clone, Copy, PartialEq, Eq, Structural)]
pub enum InvocationOutcome {
    Success,
    Failure(u32),
}

/// The outcome that a call ending in `t` is classified as.
pub open spec fn classified(t: Termination) -> InvocationOutcome {
    match t {
        Termination::Returned => InvocationOutcome::Success,
        Termination::Trapped => InvocationOutcome::Failure(CALL_FAILED),
    }
}

/// Turns the way a callee ended into an outcome: a normal return is success,
/// any abrupt stop is the one fixed failure code.
pub fn classify(t: Termination) -> (r: InvocationOutcome)
    ensures
        r == classified(t),
{
    match t {
        Termination::Returned => InvocationOutcome::Success,
        Termination::Trapped => InvocationOutcome::Failure(CALL_FAILED),
    }
}

/// The outcome of granting `amount` through the reward component's entry point.
pub open spec fn reward_outcome(amount: i128) -> InvocationOutcome {
    if reward_accepted(amount) {
        InvocationOutcome::Success
    } else {
        InvocationOutcome::Failure(CALL_FAILED)
    }
}

/// Calls the reward component's "add reward" entry point behind the fault
/// boundary: an abrupt stop of the callee comes back as a value.
pub fn safe_invoke_add_reward(
    rewards: &MockRewardContract,
    beneficiary: u64,
    amount: i128,
) -> (r: InvocationOutcome)
    ensures
        r == reward_outcome(amount),
{
    let ended = rewards.add_reward(beneficiary, amount);
    classify(ended)
}

} // verus!
