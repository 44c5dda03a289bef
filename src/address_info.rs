use vstd::prelude::*;

verus! {

/// The streak record kept for one account.
#[derive(Clone, Copy, Debug, PartialEq, Eq, Structural)]
pub struct AddressInfo {
    /// Consecutive epochs claimed up to and including `last_epoch_claimed`.
    pub current_streak: u64,
    /// Epoch of the most recent successful claim.
    pub last_epoch_claimed: u64,
    /// Number of successful claims over the account's lifetime.
    pub total_epochs_claimed: u64,
    /// Largest value `current_streak` has reached.
    pub best_streak: u64,
}

/// The record of an account that has never claimed: every field zero.
pub open spec fn zero_info() -> AddressInfo {
    AddressInfo { current_streak: 0, last_epoch_claimed: 0, total_epochs_claimed: 0, best_streak: 0 }
}

pub open spec fn max_u64(a: u64, b: u64) -> u64 {
    if a >= b { a } else { b }
}

/// A claim at `epoch` continues the streak when it is the account's first
/// claim or comes in the epoch right after the last one.
pub open spec fn continues_streak(info: AddressInfo, first: bool, epoch: u64) -> bool {
    first || epoch as int == info.last_epoch_claimed as int + 1
}

/// The record after a successful claim at `epoch` whose new streak is
/// `streak`.
pub open spec fn advanced(info: AddressInfo, epoch: u64, streak: u64) -> AddressInfo {
    AddressInfo {
        current_streak: streak,
        last_epoch_claimed: epoch,
        total_epochs_claimed: (info.total_epochs_claimed + 1) as u64,
        best_streak: max_u64(info.best_streak, streak),
    }
}

impl AddressInfo {
    pub fn new(
        current_streak: u64,
        last_epoch_claimed: u64,
        total_epochs_claimed: u64,
        best_streak: u64,
    ) -> (r: AddressInfo)
        ensures
            r == (AddressInfo { current_streak, last_epoch_claimed, total_epochs_claimed, best_streak }),
    {
        AddressInfo { current_streak, last_epoch_claimed, total_epochs_claimed, best_streak }
    }

    /// Whether the fields can each take one more claim without overflow.
    pub open spec fn has_room(self) -> bool {
        self.current_streak < u64::MAX && self.total_epochs_claimed < u64::MAX
    }

    /// The record after one more claim at `epoch` that extends the streak by
    /// one.
    pub fn extended(&self, epoch: u64) -> (r: AddressInfo)
        requires
            self.has_room(),
        ensures
            r == advanced(*self, epoch, (self.current_streak + 1) as u64),
    {
        let streak = self.current_streak + 1;
        let best = if self.best_streak >= streak { self.best_streak } else { streak };
        AddressInfo {
            current_streak: streak,
            last_epoch_claimed: epoch,
            total_epochs_claimed: self.total_epochs_claimed + 1,
            best_streak: best,
        }
    }

    /// The record after a claim at `epoch` that starts a new streak of one.
    pub fn restarted(&self, epoch: u64) -> (r: AddressInfo)
        requires
            self.total_epochs_claimed < u64::MAX,
        ensures
            r == advanced(*self, epoch, 1),
    {
        let best = if self.best_streak >= 1 { self.best_streak } else { 1 };
        AddressInfo {
            current_streak: 1,
            last_epoch_claimed: epoch,
            total_epochs_claimed: self.total_epochs_claimed + 1,
            best_streak: best,
        }
    }
}

impl Default for AddressInfo {
    fn default() -> (r: AddressInfo)
        ensures
            r == zero_info(),
    {
        AddressInfo { current_streak: 0, last_epoch_claimed: 0, total_epochs_claimed: 0, best_streak: 0 }
    }
}

} // verus!
