use std::collections::HashMap;
use vstd::prelude::*;

use crate::error::TradeError;

verus! {

broadcast use vstd::std_specs::hash::group_hash_axioms;

/// Balance of `who` in a ledger view: holders without an entry hold nothing.
pub open spec fn balance_of(m: Map<u64, i128>, who: u64) -> int {
    if m.contains_key(who) {
        m[who] as int
    } else {
        0
    }
}

/// The outcome that a transfer of `amount` from `from` to `to` has on `m`.
pub open spec fn transfer_outcome(m: Map<u64, i128>, from: u64, to: u64, amount: i128) -> Result<
    (),
    TradeError,
> {
    if amount <= 0 {
        Err(TradeError::InvalidAmount)
    } else if balance_of(m, from) < amount {
        Err(TradeError::InsufficientBalance)
    } else if from != to && balance_of(m, to) + amount > i128::MAX {
        Err(TradeError::BalanceOverflow)
    } else {
        Ok(())
    }
}

/// The ledger after a successful transfer: `from` is debited, then `to` credited.
pub open spec fn transferred(m: Map<u64, i128>, from: u64, to: u64, amount: i128) -> Map<u64, i128> {
    let debited = m.insert(from, (balance_of(m, from) - amount) as i128);
    debited.insert(to, (balance_of(debited, to) + amount) as i128)
}

/// Every balance recorded in the ledger view is non-negative.
pub open spec fn balances_nonnegative(m: Map<u64, i128>) -> bool {
    forall|w: u64| #[trigger] m.contains_key(w) ==> m[w] >= 0
}

/// The outcome of minting `amount` to `to` on `m`.
pub open spec fn mint_outcome(m: Map<u64, i128>, to: u64, amount: i128) -> Result<(), TradeError> {
    if amount <= 0 {
        Err(TradeError::InvalidAmount)
    } else if balance_of(m, to) + amount > i128::MAX {
        Err(TradeError::BalanceOverflow)
    } else {
        Ok(())
    }
}

/// A fungible asset: the balance that each holder has of it.
#[derive(Debug)]
pub struct AssetLedger {
    balances: HashMap<u64, i128>,
}

impl View for AssetLedger {
    type V = Map<u64, i128>;

    closed spec fn view(&self) -> Map<u64, i128> {
        self.balances@
    }
}

impl AssetLedger {
    /// A ledger in which nobody holds anything.
    pub fn new() -> (r: AssetLedger)
        ensures
            r@ == Map::<u64, i128>::empty(),
            balances_nonnegative(r@),
    {
        AssetLedger { balances: HashMap::new() }
    }

    /// A copy of the ledger with the same balances.
    pub fn duplicate(&self) -> (r: AssetLedger)
        ensures
            r@ == self@,
    {
        AssetLedger { balances: self.balances.clone() }
    }

    /// The balance that `who` holds.
    pub fn balance(&self, who: u64) -> (r: i128)
        ensures
            r as int == balance_of(self@, who),
    {
        match self.balances.get(&who) {
            Some(v) => *v,
            None => 0,
        }
    }

    /// Issues `amount` new units to `to`.
    pub fn mint(&mut self, to: u64, amount: i128) -> (r: Result<(), TradeError>)
        ensures
            r == mint_outcome(old(self)@, to, amount),
            r is Ok ==> final(self)@ == old(self)@.insert(
                to,
                (balance_of(old(self)@, to) + amount) as i128,
            ),
            r is Err ==> final(self)@ == old(self)@,
            balances_nonnegative(old(self)@) ==> balances_nonnegative(final(self)@),
    {
        if amount <= 0 {
            return Err(TradeError::InvalidAmount);
        }
        let current = self.balance(to);
        if current > i128::MAX - amount {
            return Err(TradeError::BalanceOverflow);
        }
        self.balances.insert(to, current + amount);
        Ok(())
    }

    /// Moves `amount` from `from` to `to`; on failure nothing changes.
    pub fn transfer(&mut self, from: u64, to: u64, amount: i128) -> (r: Result<(), TradeError>)
        ensures
            r == transfer_outcome(old(self)@, from, to, amount),
            r is Ok ==> final(self)@ == transferred(old(self)@, from, to, amount),
            r is Err ==> final(self)@ == old(self)@,
            balances_nonnegative(old(self)@) ==> balances_nonnegative(final(self)@),
    {
        if amount <= 0 {
            return Err(TradeError::InvalidAmount);
        }
        let from_balance = self.balance(from);
        if from_balance < amount {
            return Err(TradeError::InsufficientBalance);
        }
        if from != to {
            let to_balance = self.balance(to);
            if to_balance > i128::MAX - amount {
                return Err(TradeError::BalanceOverflow);
            }
        }
        self.balances.insert(from, from_balance - amount);
        let credited = self.balance(to);
        self.balances.insert(to, credited + amount);
        Ok(())
    }
}

} // verus!
