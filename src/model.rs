use vstd::prelude::*;
use crate::address_info::{advanced, continues_streak, zero_info, AddressInfo};
use crate::error::ClaimError;
use crate::repair::{pays_for_repair, repairable};

verus! {

/// Who makes a call, from which shard, and in which epoch.
#[derive(Clone, Copy, Debug, PartialEq, Eq, Structural)]
pub struct Call {
    pub caller: u64,
    pub caller_shard: u32,
    pub epoch: u64,
}

impl Call {
    pub fn new(caller: u64, caller_shard: u32, epoch: u64) -> (r: Call)
        ensures
            r == (Call { caller, caller_shard, epoch }),
    {
        Call { caller, caller_shard, epoch }
    }
}

/// The whole durable state of the contract, as mathematical values.
pub struct ContractView {
    /// The account that deployed the contract and manages the admins.
    pub owner: u64,
    /// The shard that calls must come from.
    pub shard: u32,
    /// The record of every account that has one.
    pub infos: Map<u64, AddressInfo>,
    /// The admins, in the order they were added.
    pub admins: Seq<u64>,
    /// The token identifier and nonce that repair a streak.
    pub repair_token: Seq<u8>,
    pub repair_nonce: u64,
}

impl ContractView {
    /// The record of `a`, or all zeros if it has none.
    pub open spec fn info_of(self, a: u64) -> AddressInfo {
        if self.infos.contains_key(a) { self.infos[a] } else { zero_info() }
    }

    /// The state with the record of `a` set to `info`.
    pub open spec fn with_info(self, a: u64, info: AddressInfo) -> ContractView {
        ContractView { infos: self.infos.insert(a, info), ..self }
    }

    pub open spec fn same_shard(self, c: Call) -> bool {
        c.caller_shard == self.shard
    }

    pub open spec fn is_admin(self, a: u64) -> bool {
        self.admins.contains(a)
    }

    /// What a claim by `c` yields: the caller's new record, or the reason it
    /// is rejected.
    pub open spec fn claim_outcome(self, c: Call) -> Result<AddressInfo, ClaimError> {
        let first = !self.infos.contains_key(c.caller);
        let info = self.info_of(c.caller);
        if !self.same_shard(c) {
            Err(ClaimError::WrongOrigin)
        } else if !first && info.last_epoch_claimed == c.epoch {
            Err(ClaimError::AlreadyClaimed)
        } else if continues_streak(info, first, c.epoch) {
            if info.has_room() {
                Ok(advanced(info, c.epoch, (info.current_streak + 1) as u64))
            } else {
                Err(ClaimError::CounterOverflow)
            }
        } else if info.total_epochs_claimed < u64::MAX {
            Ok(advanced(info, c.epoch, 1))
        } else {
            Err(ClaimError::CounterOverflow)
        }
    }

    /// What a claim with repair by `c` yields, given the attached payment and
    /// whether the ledger lets the contract burn it.
    pub open spec fn repair_outcome(
        self,
        c: Call,
        token: Seq<u8>,
        nonce: u64,
        amount: u128,
        burn_allowed: bool,
    ) -> Result<AddressInfo, ClaimError> {
        let info = self.info_of(c.caller);
        if !self.same_shard(c) {
            Err(ClaimError::WrongOrigin)
        } else if !pays_for_repair(self.repair_token, self.repair_nonce, token, nonce, amount) {
            Err(ClaimError::BadPayment)
        } else if !self.infos.contains_key(c.caller) || !repairable(info, c.epoch) {
            Err(ClaimError::NotRepairable)
        } else if !burn_allowed {
            Err(ClaimError::BurnRejected)
        } else if !info.has_room() {
            Err(ClaimError::CounterOverflow)
        } else {
            Ok(advanced(info, c.epoch, (info.current_streak + 1) as u64))
        }
    }

    /// Whether `c` may perform an admin operation, or why not.
    pub open spec fn admin_check(self, c: Call) -> Result<(), ClaimError> {
        if !self.same_shard(c) {
            Err(ClaimError::WrongOrigin)
        } else if !self.is_admin(c.caller) {
            Err(ClaimError::NotAuthorized)
        } else {
            Ok(())
        }
    }

    /// Whether `c` may change the admin list, or why not.
    pub open spec fn owner_check(self, c: Call) -> Result<(), ClaimError> {
        if !self.same_shard(c) {
            Err(ClaimError::WrongOrigin)
        } else if c.caller != self.owner {
            Err(ClaimError::NotAuthorized)
        } else {
            Ok(())
        }
    }

    /// The state after a claim by `c`, whether or not it succeeds.
    pub open spec fn after_claim(self, c: Call) -> ContractView {
        match self.claim_outcome(c) {
            Ok(info) => self.with_info(c.caller, info),
            Err(_) => self,
        }
    }

    /// The state after an admin override of the record of `address` by `c`,
    /// whether or not it succeeds.
    pub open spec fn after_update(self, c: Call, address: u64, info: AddressInfo) -> ContractView {
        match self.admin_check(c) {
            Ok(_) => self.with_info(address, info),
            Err(_) => self,
        }
    }

    /// The state after a claim with repair by `c`, whether or not it succeeds.
    pub open spec fn after_repair(
        self,
        c: Call,
        token: Seq<u8>,
        nonce: u64,
        amount: u128,
        burn_allowed: bool,
    ) -> ContractView {
        match self.repair_outcome(c, token, nonce, amount, burn_allowed) {
            Ok(info) => self.with_info(c.caller, info),
            Err(_) => self,
        }
    }
}

} // verus!
