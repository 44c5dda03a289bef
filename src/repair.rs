use vstd::prelude::*;
use crate::address_info::AddressInfo;

verus! {

/// How many epochs in a row an account may miss and still repair its streak.
pub const MAX_REPAIR_GAP: u64 = 5;

/// The amount of the repair token a repair costs.
pub const REPAIR_STREAK_PRICE: u128 = 1;

/// A token transfer attached to a call: token identifier, nonce and amount.
#[derive(Clone, Debug)]
pub struct Payment {
    pub token_id: Vec<u8>,
    pub nonce: u64,
    pub amount: u128,
}

/// The token that repairs a broken streak.
#[derive(Clone, Debug)]
pub struct RepairConfig {
    pub token_id: Vec<u8>,
    pub nonce: u64,
}

/// A payment buys a repair when it is the configured token and nonce, for the
/// repair price.
pub open spec fn pays_for_repair(config_token: Seq<u8>, config_nonce: u64, payment_token: Seq<u8>, payment_nonce: u64, amount: u128) -> bool {
    payment_token == config_token && payment_nonce == config_nonce && amount == REPAIR_STREAK_PRICE
}

/// The number of epochs skipped between the last claim and `epoch`.
pub open spec fn missed_epochs(info: AddressInfo, epoch: u64) -> int {
    epoch as int - info.last_epoch_claimed as int - 1
}

/// An account may repair at `epoch` when it has a streak and at least one
/// and at most `MAX_REPAIR_GAP` epochs were missed since its last claim.
pub open spec fn repairable(info: AddressInfo, epoch: u64) -> bool {
    info.current_streak > 0 && 0 < missed_epochs(info, epoch) <= MAX_REPAIR_GAP
}

/// Whether `a` and `b` hold the same bytes.
pub fn same_bytes(a: &Vec<u8>, b: &Vec<u8>) -> (r: bool)
    ensures
        r == (a@ == b@),
{
    if a.len() != b.len() {
        return false;
    }
    let mut i: usize = 0;
    while i < a.len()
        invariant
            a@.len() == b@.len(),
            0 <= i <= a@.len(),
            forall|j: int| 0 <= j < i ==> a@[j] == b@[j],
        decreases a@.len() - i,
    {
        if a[i] != b[i] {
            return false;
        }
        i = i + 1;
    }
    assert(a@ =~= b@);
    true
}

impl Payment {
    pub fn new(token_id: Vec<u8>, nonce: u64, amount: u128) -> (r: Payment)
        ensures
            r.token_id@ == token_id@,
            r.nonce == nonce,
            r.amount == amount,
    {
        Payment { token_id, nonce, amount }
    }
}

impl RepairConfig {
    pub fn new(token_id: Vec<u8>, nonce: u64) -> (r: RepairConfig)
        ensures
            r.token_id@ == token_id@,
            r.nonce == nonce,
    {
        RepairConfig { token_id, nonce }
    }

    /// Whether `payment` buys a repair under this configuration.
    pub fn accepts(&self, payment: &Payment) -> (r: bool)
        ensures
            r == pays_for_repair(self.token_id@, self.nonce, payment.token_id@, payment.nonce, payment.amount),
    {
        same_bytes(&payment.token_id, &self.token_id) && payment.nonce == self.nonce
            && payment.amount == REPAIR_STREAK_PRICE
    }
}

/// Whether an account with record `info` may repair its streak at `epoch`.
pub fn is_repairable(info: &AddressInfo, epoch: u64) -> (r: bool)
    ensures
        r == repairable(*info, epoch),
{
    info.current_streak > 0 && epoch > info.last_epoch_claimed && epoch - info.last_epoch_claimed - 1 > 0
        && epoch - info.last_epoch_claimed - 1 <= MAX_REPAIR_GAP
}

} // verus!
