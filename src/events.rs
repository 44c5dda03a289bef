use vstd::prelude::*;
use crate::address_info::AddressInfo;

verus! {

/// The notification that a successful mutation hands to observers.
#[derive(Clone, Copy, Debug, PartialEq, Eq, Structural)]
pub enum Event {
    NewClaim { address: u64, info: AddressInfo },
    NewClaimAndRepair { address: u64, info: AddressInfo },
    NewUpdateState { address: u64, info: AddressInfo },
    NewSetRepairPayment,
}

/// A receiver of the contract's events, implemented by whoever observes them.
pub trait EventsModule {
    fn new_claim_event(&mut self, address: u64, info: &AddressInfo);

    fn new_claim_and_repair_event(&mut self, address: u64, info: &AddressInfo);

    fn new_update_state_event(&mut self, address: u64, info: &AddressInfo);

    fn new_set_repair_payment_event(&mut self);
}

/// Hands `event` to the matching method of `sink`.
pub fn emit<E: EventsModule>(sink: &mut E, event: &Event) {
    match event {
        Event::NewClaim { address, info } => sink.new_claim_event(*address, info),
        Event::NewClaimAndRepair { address, info } => sink.new_claim_and_repair_event(*address, info),
        Event::NewUpdateState { address, info } => sink.new_update_state_event(*address, info),
        Event::NewSetRepairPayment => sink.new_set_repair_payment_event(),
    }
}

} // verus!
