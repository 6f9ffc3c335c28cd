//! A trading contract that composes a fee transfer and a reward call into one
//! all-or-nothing operation, guarded by an admin-controlled pause switch.

pub mod error;
pub mod token;
pub mod invoke;
pub mod pause;
pub mod reward;
pub mod trading;
pub mod laws;
