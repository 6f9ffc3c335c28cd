use vstd::prelude::*;

verus! {

/// How a call into another component ended.
#[derive(Debug, Clone, Copy, PartialEq, Eq, Structural)]
pub enum Termination {
    /// The callee ran to its end and returned.
    Returned,
    /// The callee stopped abruptly (a trap, a failed assertion, exhausted limits).
    Trapped,
}

/// Whether the reward component accepts a grant of `amount`.
pub open spec fn reward_accepted(amount: i128) -> bool {
    amount > 0
}

/// A reward component that accepts only positive grants and traps on any other.
#[derive(Debug, Clone, Copy, PartialEq, Eq, Structural)]
pub struct MockRewardContract;

impl MockRewardContract {
    /// Records a reward of `amount` for `user`; a non-positive amount is
    /// invalid input, on which the component traps.
    pub fn add_reward(&self, user: u64, amount: i128) -> (r: Termination)
        ensures
            reward_accepted(amount) ==> r == Termination::Returned,
            !reward_accepted(amount) ==> r == Termination::Trapped,
    {
        if amount <= 0 {
            return Termination::Trapped;
        }
        Termination::Returned
    }
}

} // verus!
