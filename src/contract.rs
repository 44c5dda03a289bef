use vstd::prelude::*;
use std::collections::HashMap;
use crate::address_info::AddressInfo;
use crate::admins::{with_admin, without_admin, AdminList};
use crate::error::ClaimError;
use crate::events::Event;
use crate::model::{Call, ContractView};
use crate::repair::{is_repairable, repairable, Payment, RepairConfig};
use crate::token::{validate_token_identifier, valid_token_identifier};

verus! {

broadcast use vstd::std_specs::hash::group_hash_axioms;

/// The claim-streak contract: account records, admins and repair policy.
pub struct OnChainClaim {
    owner: u64,
    shard: u32,
    infos: HashMap<u64, AddressInfo>,
    admins: AdminList,
    repair: RepairConfig,
}

impl View for OnChainClaim {
    type V = ContractView;

    closed spec fn view(&self) -> ContractView {
        ContractView {
            owner: self.owner,
            shard: self.shard,
            infos: self.infos@,
            admins: self.admins@,
            repair_token: self.repair.token_id@,
            repair_nonce: self.repair.nonce,
        }
    }
}

impl OnChainClaim {
    /// Every reachable state is well formed: the admin list holds no
    /// duplicates.
    pub open spec fn wf(&self) -> bool {
        self@.admins.no_duplicates()
    }

    /// Deploys a fresh contract owned by `owner` in `shard`, whose owner is
    /// its one admin and whose streaks are repaired with `repair_token`.
    /// Fails when `repair_token` is not a valid token identifier.
    pub fn new(owner: u64, shard: u32, repair_token: Vec<u8>, repair_nonce: u64) -> (r: Result<OnChainClaim, ClaimError>)
        ensures
            valid_token_identifier(repair_token@) <==> r is Ok,
            !valid_token_identifier(repair_token@) ==> r == Err::<OnChainClaim, ClaimError>(ClaimError::InvalidTokenId),
            r matches Ok(c) ==> c.wf() && c@ == (ContractView {
                owner,
                shard,
                infos: Map::empty(),
                admins: seq![owner],
                repair_token: repair_token@,
                repair_nonce,
            }),
    {
        if !validate_token_identifier(&repair_token) {
            return Err(ClaimError::InvalidTokenId);
        }
        let mut admins = AdminList::new();
        admins.add(owner);
        assert(admins@ =~= seq![owner]);
        Ok(OnChainClaim {
            owner,
            shard,
            infos: HashMap::new(),
            admins,
            repair: RepairConfig::new(repair_token, repair_nonce),
        })
    }

    fn stored_info(&self, a: u64) -> (r: Option<AddressInfo>)
        ensures
            r == (if self@.infos.contains_key(a) { Some(self@.infos[a]) } else { None::<AddressInfo> }),
    {
        match self.infos.get(&a) {
            Some(info) => Some(*info),
            None => None,
        }
    }

    fn store_info(&mut self, a: u64, info: AddressInfo)
        requires
            old(self).wf(),
        ensures
            final(self).wf(),
            final(self)@ == old(self)@.with_info(a, info),
    {
        self.infos.insert(a, info);
        assert(self@.infos =~= old(self)@.infos.insert(a, info));
    }

    /// Records a claim by the caller in the call's epoch.
    pub fn claim(&mut self, call: &Call) -> (r: Result<Event, ClaimError>)
        requires
            old(self).wf(),
        ensures
            final(self).wf(),
            final(self)@ == old(self)@.after_claim(*call),
            r == (match old(self)@.claim_outcome(*call) {
                Ok(info) => Ok(Event::NewClaim { address: call.caller, info }),
                Err(e) => Err(e),
            }),
    {
        if call.caller_shard != self.shard {
            return Err(ClaimError::WrongOrigin);
        }
        let stored = self.stored_info(call.caller);
        let info = match stored {
            Some(i) => i,
            None => AddressInfo::default(),
        };
        let first = stored.is_none();
        if !first && info.last_epoch_claimed == call.epoch {
            return Err(ClaimError::AlreadyClaimed);
        }
        let continues = first || (info.last_epoch_claimed < u64::MAX && call.epoch == info.last_epoch_claimed + 1);
        let next = if continues {
            if info.current_streak == u64::MAX || info.total_epochs_claimed == u64::MAX {
                return Err(ClaimError::CounterOverflow);
            }
            info.extended(call.epoch)
        } else {
            if info.total_epochs_claimed == u64::MAX {
                return Err(ClaimError::CounterOverflow);
            }
            info.restarted(call.epoch)
        };
        self.store_info(call.caller, next);
        Ok(Event::NewClaim { address: call.caller, info: next })
    }

    /// Records a claim by the caller that keeps its streak across missed
    /// epochs, paid for with `payment`. `burn_allowed` is the ledger's answer
    /// to whether the contract may burn the payment's token; on success the
    /// payment is to be burned.
    pub fn claim_and_repair(&mut self, call: &Call, payment: &Payment, burn_allowed: bool) -> (r: Result<Event, ClaimError>)
        requires
            old(self).wf(),
        ensures
            final(self).wf(),
            final(self)@ == old(self)@.after_repair(*call, payment.token_id@, payment.nonce, payment.amount, burn_allowed),
            r == (match old(self)@.repair_outcome(*call, payment.token_id@, payment.nonce, payment.amount, burn_allowed) {
                Ok(info) => Ok(Event::NewClaimAndRepair { address: call.caller, info }),
                Err(e) => Err(e),
            }),
    {
        if call.caller_shard != self.shard {
            return Err(ClaimError::WrongOrigin);
        }
        if !self.repair.accepts(payment) {
            return Err(ClaimError::BadPayment);
        }
        let info = match self.stored_info(call.caller) {
            Some(i) => i,
            None => {
                return Err(ClaimError::NotRepairable);
            },
        };
        if !is_repairable(&info, call.epoch) {
            return Err(ClaimError::NotRepairable);
        }
        if !burn_allowed {
            return Err(ClaimError::BurnRejected);
        }
        if info.current_streak == u64::MAX || info.total_epochs_claimed == u64::MAX {
            return Err(ClaimError::CounterOverflow);
        }
        let next = info.extended(call.epoch);
        self.store_info(call.caller, next);
        Ok(Event::NewClaimAndRepair { address: call.caller, info: next })
    }

    /// Overwrites the record of `address` with the given values. Admins
    /// only.
    pub fn update_state(
        &mut self,
        call: &Call,
        address: u64,
        current_streak: u64,
        last_epoch_claimed: u64,
        total_epochs_claimed: u64,
        best_streak: u64,
    ) -> (r: Result<Event, ClaimError>)
        requires
            old(self).wf(),
        ensures
            final(self).wf(),
            final(self)@ == old(self)@.after_update(
                *call,
                address,
                AddressInfo { current_streak, last_epoch_claimed, total_epochs_claimed, best_streak },
            ),
            ({
                let info = AddressInfo { current_streak, last_epoch_claimed, total_epochs_claimed, best_streak };
                match old(self)@.admin_check(*call) {
                    Ok(_) => r == Ok::<Event, ClaimError>(Event::NewUpdateState { address, info })
                        && final(self)@ == old(self)@.with_info(address, info),
                    Err(e) => r == Err::<Event, ClaimError>(e) && final(self)@ == old(self)@,
                }
            }),
    {
        if let Err(e) = self.check_admin(call) {
            return Err(e);
        }
        let info = AddressInfo::new(current_streak, last_epoch_claimed, total_epochs_claimed, best_streak);
        self.store_info(address, info);
        Ok(Event::NewUpdateState { address, info })
    }

    /// Replaces the token that repairs a streak. Admins only.
    pub fn set_repair_streak_payment(&mut self, call: &Call, token_id: Vec<u8>, nonce: u64) -> (r: Result<Event, ClaimError>)
        requires
            old(self).wf(),
        ensures
            final(self).wf(),
            match old(self)@.admin_check(*call) {
                Ok(_) => r == Ok::<Event, ClaimError>(Event::NewSetRepairPayment)
                    && final(self)@ == (ContractView { repair_token: token_id@, repair_nonce: nonce, ..old(self)@ }),
                Err(e) => r == Err::<Event, ClaimError>(e) && final(self)@ == old(self)@,
            },
    {
        if let Err(e) = self.check_admin(call) {
            return Err(e);
        }
        self.repair = RepairConfig::new(token_id, nonce);
        Ok(Event::NewSetRepairPayment)
    }

    /// Adds `address` to the admins, at the end if it is not there yet.
    /// Owner only.
    pub fn add_admin(&mut self, call: &Call, address: u64) -> (r: Result<(), ClaimError>)
        requires
            old(self).wf(),
        ensures
            final(self).wf(),
            r == old(self)@.owner_check(*call),
            r is Ok ==> final(self)@ == (ContractView { admins: with_admin(old(self)@.admins, address), ..old(self)@ }),
            r is Err ==> final(self)@ == old(self)@,
    {
        if let Err(e) = self.check_owner(call) {
            return Err(e);
        }
        self.admins.add(address);
        Ok(())
    }

    /// Removes `address` from the admins, keeping the others in order.
    /// Owner only.
    pub fn remove_admin(&mut self, call: &Call, address: u64) -> (r: Result<(), ClaimError>)
        requires
            old(self).wf(),
        ensures
            final(self).wf(),
            r == old(self)@.owner_check(*call),
            r is Ok ==> final(self)@ == (ContractView { admins: without_admin(old(self)@.admins, address), ..old(self)@ }),
            r is Err ==> final(self)@ == old(self)@,
    {
        if let Err(e) = self.check_owner(call) {
            return Err(e);
        }
        self.admins.remove(address);
        Ok(())
    }

    /// Whether `call` may perform an admin operation.
    pub fn check_admin(&self, call: &Call) -> (r: Result<(), ClaimError>)
        ensures
            r == self@.admin_check(*call),
    {
        if call.caller_shard != self.shard {
            Err(ClaimError::WrongOrigin)
        } else if !self.admins.contains(call.caller) {
            Err(ClaimError::NotAuthorized)
        } else {
            Ok(())
        }
    }

    /// Whether `call` may change the admin list.
    pub fn check_owner(&self, call: &Call) -> (r: Result<(), ClaimError>)
        ensures
            r == self@.owner_check(*call),
    {
        if call.caller_shard != self.shard {
            Err(ClaimError::WrongOrigin)
        } else if call.caller != self.owner {
            Err(ClaimError::NotAuthorized)
        } else {
            Ok(())
        }
    }

    /// The record of `address`; all zeros if it has never claimed.
    pub fn get_address_info(&self, address: u64) -> (r: AddressInfo)
        ensures
            r == self@.info_of(address),
    {
        match self.stored_info(address) {
            Some(info) => info,
            None => AddressInfo::default(),
        }
    }

    /// Whether a claim with repair by `address` at `epoch` would pass the
    /// eligibility check: it has a record with a streak, and missed a
    /// repairable number of epochs since its last claim.
    pub fn can_be_repaired(&self, address: u64, epoch: u64) -> (r: bool)
        ensures
            r == (self@.infos.contains_key(address) && repairable(self@.infos[address], epoch)),
    {
        match self.stored_info(address) {
            Some(info) => is_repairable(&info, epoch),
            None => false,
        }
    }

    /// The token that repairs a streak.
    pub fn repair_streak_payment(&self) -> (r: RepairConfig)
        ensures
            r.token_id@ == self@.repair_token,
            r.nonce == self@.repair_nonce,
    {
        let token_id = self.repair.token_id.clone();
        RepairConfig::new(token_id, self.repair.nonce)
    }

    pub fn is_admin(&self, address: u64) -> (r: bool)
        ensures
            r == self@.is_admin(address),
    {
        self.admins.contains(address)
    }

    /// The admins, in the order they were added.
    pub fn admins(&self) -> (r: Vec<u64>)
        ensures
            r@ == self@.admins,
    {
        self.admins.to_vec()
    }

    pub fn owner(&self) -> (r: u64)
        ensures
            r == self@.owner,
    {
        self.owner
    }

    pub fn shard(&self) -> (r: u32)
        ensures
            r == self@.shard,
    {
        self.shard
    }
}

} // verus!
