use vstd::prelude::*;

use crate::error::TradeError;

verus! {

/// The pause switch and the one identity allowed to flip it.
#[derive(Debug, Clone, Copy, PartialEq, Eq, Structural)]
pub struct PauseGate {
    pub paused: bool,
    pub admin: u64,
}

impl PauseGate {
    /// A switch, off, administered by `admin`.
    pub fn new(admin: u64) -> (r: PauseGate)
        ensures
            r.admin == admin,
            !r.paused,
    {
        PauseGate { paused: false, admin }
    }

    /// Whether the switch is set; reads only.
    pub fn is_paused(&self) -> (r: bool)
        ensures
            r == self.paused,
    {
        self.paused
    }

    /// Sets the switch to `value` when `caller` is the admin; otherwise refuses
    /// and leaves the switch as it was.
    pub fn set_pause(&mut self, caller: u64, value: bool) -> (r: Result<(), TradeError>)
        ensures
            final(self).admin == old(self).admin,
            caller == old(self).admin ==> r == Ok::<(), TradeError>(()) && final(self).paused
                == value,
            caller != old(self).admin ==> r == Err::<(), TradeError>(TradeError::Unauthorized)
                && final(self).paused == old(self).paused,
    {
        if caller != self.admin {
            return Err(TradeError::Unauthorized);
        }
        self.paused = value;
        Ok(())
    }

    /// Lets a mutating operation through only while the switch is off.
    pub fn require_passable(&self) -> (r: Result<(), TradeError>)
        ensures
            self.paused ==> r == Err::<(), TradeError>(TradeError::Paused),
            !self.paused ==> r == Ok::<(), TradeError>(()),
    {
        if self.paused {
            Err(TradeError::Paused)
        } else {
            Ok(())
        }
    }
}

} // verus!
