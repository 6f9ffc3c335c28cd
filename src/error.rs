use vstd::prelude::*;

verus! {

/// The code that the safe invoker reports for any abrupt failure of a callee.
pub const CALL_FAILED: u32 = 2001;

/// Every failure that an operation of the trading contract can report.
#[derive(Debug, Clone, Copy, PartialEq, Eq, Structural)]
pub enum TradeError {
    /// The caller is not the principal that the action requires.
    Unauthorized,
    /// A mutating operation was attempted while the contract is paused.
    Paused,
    /// An asset amount was zero or negative.
    InvalidAmount,
    /// The payer holds less than the amount to move.
    InsufficientBalance,
    /// Crediting the amount would overflow the holder's balance.
    BalanceOverflow,
    /// A cross-component call failed abruptly; carries the classified code.
    CallFailed(u32),
}

} // verus!
