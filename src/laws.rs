use vstd::prelude::*;

use crate::error::{TradeError, CALL_FAILED};
use crate::reward::reward_accepted;
use crate::token::{balance_of, transfer_outcome};
use crate::trading::{committed, trade_and_reward_outcome, trade_outcome};

verus! {

/// While the contract is paused, both trading operations report `Paused` and
/// leave every balance as it was, whatever their other arguments.
pub proof fn lemma_gate_precedence(
    m: Map<u64, i128>,
    trader: u64,
    fee: i128,
    recipient: u64,
    reward_amount: i128,
)
    ensures
        trade_outcome(true, m, trader, fee, recipient) == Err::<(), TradeError>(TradeError::Paused),
        trade_and_reward_outcome(true, m, trader, fee, recipient, reward_amount) == Err::<
            (),
            TradeError,
        >(TradeError::Paused),
        committed(Err(TradeError::Paused), m, trader, fee, recipient) == m,
{
}

/// While not paused, with a funded trader and a reward that the reward component
/// accepts, `trade_and_reward` succeeds and changes exactly two balances: the
/// trader's goes down by the fee and the recipient's goes up by it.
pub proof fn lemma_atomic_success(
    m: Map<u64, i128>,
    trader: u64,
    fee: i128,
    recipient: u64,
    reward_amount: i128,
)
    requires
        fee > 0,
        balance_of(m, trader) >= fee,
        balance_of(m, recipient) + fee <= i128::MAX,
        trader != recipient,
        reward_accepted(reward_amount),
    ensures
        trade_and_reward_outcome(false, m, trader, fee, recipient, reward_amount) == Ok::<
            (),
            TradeError,
        >(()),
        ({
            let after = committed(Ok(()), m, trader, fee, recipient);
            &&& balance_of(after, trader) == balance_of(m, trader) - fee
            &&& balance_of(after, recipient) == balance_of(m, recipient) + fee
            &&& forall|w: u64|
                w != trader && w != recipient ==> #[trigger] balance_of(after, w) == balance_of(
                    m,
                    w,
                )
        }),
{
}

/// While not paused, with a funded trader, a reward that the reward component
/// rejects abruptly makes `trade_and_reward` report `CallFailed` with the fixed
/// code, and the fee transfer it had applied is gone: every balance is as before.
pub proof fn lemma_atomic_rollback(
    m: Map<u64, i128>,
    trader: u64,
    fee: i128,
    recipient: u64,
    reward_amount: i128,
)
    requires
        fee > 0,
        balance_of(m, trader) >= fee,
        balance_of(m, recipient) + fee <= i128::MAX,
        !reward_accepted(reward_amount),
    ensures
        trade_and_reward_outcome(false, m, trader, fee, recipient, reward_amount) == Err::<
            (),
            TradeError,
        >(TradeError::CallFailed(CALL_FAILED)),
        committed(
            trade_and_reward_outcome(false, m, trader, fee, recipient, reward_amount),
            m,
            trader,
            fee,
            recipient,
        ) == m,
{
}

/// `trade` depends on the pause switch and on the fee transfer alone; and where the
/// reward would be accepted, `trade_and_reward` reports exactly what `trade` does.
pub proof fn lemma_trade_independent(
    paused: bool,
    m: Map<u64, i128>,
    trader: u64,
    fee: i128,
    recipient: u64,
    reward_amount: i128,
)
    ensures
        trade_outcome(paused, m, trader, fee, recipient) == (if paused {
            Err::<(), TradeError>(TradeError::Paused)
        } else {
            transfer_outcome(m, trader, recipient, fee)
        }),
        reward_accepted(reward_amount) ==> trade_and_reward_outcome(
            paused,
            m,
            trader,
            fee,
            recipient,
            reward_amount,
        ) == trade_outcome(paused, m, trader, fee, recipient),
{
}

} // verus!
