use vstd::prelude::*;

use crate::error::TradeError;
use crate::invoke::{reward_outcome, safe_invoke_add_reward, InvocationOutcome};
use crate::pause::PauseGate;
use crate::reward::MockRewardContract;
use crate::token::{transfer_outcome, transferred, AssetLedger};

verus! {

/// What `trade` reports: the pause switch first, then the fee transfer.
pub open spec fn trade_outcome(
    paused: bool,
    m: Map<u64, i128>,
    trader: u64,
    fee: i128,
    recipient: u64,
) -> Result<(), TradeError> {
    if paused {
        Err(TradeError::Paused)
    } else {
        transfer_outcome(m, trader, recipient, fee)
    }
}

/// What `trade_and_reward` reports: the pause switch, then the fee transfer, then the
/// reward call, whose failure fails the whole operation.
pub open spec fn trade_and_reward_outcome(
    paused: bool,
    m: Map<u64, i128>,
    trader: u64,
    fee: i128,
    recipient: u64,
    reward_amount: i128,
) -> Result<(), TradeError> {
    if paused {
        Err(TradeError::Paused)
    } else {
        match transfer_outcome(m, trader, recipient, fee) {
            Err(e) => Err(e),
            Ok(()) => match reward_outcome(reward_amount) {
                InvocationOutcome::Success => Ok(()),
                InvocationOutcome::Failure(code) => Err(TradeError::CallFailed(code)),
            },
        }
    }
}

/// The balances that an operation leaves: the fee transfer when it reported
/// success, the balances it started from otherwise.
pub open spec fn committed(
    r: Result<(), TradeError>,
    m: Map<u64, i128>,
    trader: u64,
    fee: i128,
    recipient: u64,
) -> Map<u64, i128> {
    if r is Ok {
        transferred(m, trader, recipient, fee)
    } else {
        m
    }
}

/// The trading contract: its only persisted state is the pause switch.
#[derive(Debug, Clone, Copy, PartialEq, Eq, Structural)]
pub struct TradingContract {
    pub gate: PauseGate,
}

impl TradingContract {
    /// Sets up the contract with `admin` as its administrator, not paused.
    pub fn initialize(admin: u64) -> (r: TradingContract)
        ensures
            r.gate.admin == admin,
            !r.gate.paused,
    {
        TradingContract { gate: PauseGate::new(admin) }
    }

    /// Whether mutating operations are currently refused.
    pub fn is_paused(&self) -> (r: bool)
        ensures
            r == self.gate.paused,
    {
        self.gate.is_paused()
    }

    /// Sets the pause switch on behalf of `caller`, who must be the admin.
    pub fn set_pause(&mut self, caller: u64, value: bool) -> (r: Result<(), TradeError>)
        ensures
            final(self).gate.admin == old(self).gate.admin,
            caller == old(self).gate.admin ==> r == Ok::<(), TradeError>(())
                && final(self).gate.paused == value,
            caller != old(self).gate.admin ==> r == Err::<(), TradeError>(TradeError::Unauthorized)
                && final(self).gate.paused == old(self).gate.paused,
    {
        self.gate.set_pause(caller, value)
    }

    /// Pays `fee` of `asset` from `trader` to `recipient`, unless paused.
    pub fn trade(&self, asset: &mut AssetLedger, trader: u64, fee: i128, recipient: u64) -> (r:
        Result<(), TradeError>)
        ensures
            r == trade_outcome(self.gate.paused, old(asset)@, trader, fee, recipient),
            final(asset)@ == committed(r, old(asset)@, trader, fee, recipient),
    {
        self.gate.require_passable()?;
        asset.transfer(trader, recipient, fee)
    }

    /// The steps of `trade_and_reward` as they run inside one invocation. On a
    /// failed reward call the fee transfer has been applied to `ledger` and is
    /// left for the invocation boundary to discard.
    fn trade_and_reward_steps(
        &self,
        ledger: &mut AssetLedger,
        trader: u64,
        fee: i128,
        recipient: u64,
        rewards: &MockRewardContract,
        reward_amount: i128,
    ) -> (r: Result<(), TradeError>)
        ensures
            r == trade_and_reward_outcome(
                self.gate.paused,
                old(ledger)@,
                trader,
                fee,
                recipient,
                reward_amount,
            ),
            r is Ok ==> final(ledger)@ == transferred(old(ledger)@, trader, recipient, fee),
    {
        self.gate.require_passable()?;
        ledger.transfer(trader, recipient, fee)?;
        match safe_invoke_add_reward(rewards, recipient, reward_amount) {
            InvocationOutcome::Success => Ok(()),
            InvocationOutcome::Failure(code) => Err(TradeError::CallFailed(code)),
        }
    }

    /// Pays `fee` from `trader` to `recipient` and grants `reward_amount` to
    /// `recipient` through the reward component, as one unit: when any step
    /// fails, the operation reports it and no balance changes.
    pub fn trade_and_reward(
        &self,
        asset: &mut AssetLedger,
        trader: u64,
        fee: i128,
        recipient: u64,
        rewards: &MockRewardContract,
        reward_amount: i128,
    ) -> (r: Result<(), TradeError>)
        ensures
            r == trade_and_reward_outcome(
                self.gate.paused,
                old(asset)@,
                trader,
                fee,
                recipient,
                reward_amount,
            ),
            final(asset)@ == committed(r, old(asset)@, trader, fee, recipient),
    {
        // The invocation works on its own copy of the balances, which replaces
        // the ledger only when the whole operation has succeeded.
        let mut pending = asset.duplicate();
        let r = self.trade_and_reward_steps(
            &mut pending,
            trader,
            fee,
            recipient,
            rewards,
            reward_amount,
        );
        if r.is_ok() {
            *asset = pending;
        }
        r
    }
}

} // verus!
