use vstd::prelude::*;

verus! {

/// Why an operation was rejected. A rejected operation changes nothing.
#[derive(Clone, Copy, Debug, PartialEq, Eq, Structural)]
pub enum ClaimError {
    /// The caller is not in the contract's shard.
    WrongOrigin,
    /// The caller lacks the admin or owner privilege the operation needs.
    NotAuthorized,
    /// The caller has already claimed in the current epoch.
    AlreadyClaimed,
    /// The repair payment is not the configured token and amount.
    BadPayment,
    /// The account's streak is not in a repairable state.
    NotRepairable,
    /// The ledger does not let the contract burn the repair token.
    BurnRejected,
    /// A counter of the account's record is at its largest value.
    CounterOverflow,
    /// The repair token given at deployment is not a valid token identifier.
    InvalidTokenId,
}

impl ClaimError {
    /// The reason text a caller sees.
    pub fn message(&self) -> (r: &'static str)
        ensures
            *self == ClaimError::WrongOrigin ==> r@ == "wrong shard"@,
            *self == ClaimError::NotAuthorized ==> r@ == "Endpoint can only be called by admins"@,
            *self == ClaimError::AlreadyClaimed ==> r@ == "epoch already claimed"@,
            *self == ClaimError::BadPayment ==> r@ == "Bad payment token/amount"@,
            *self == ClaimError::NotRepairable ==> r@ == "can't repair streak for current epoch"@,
            *self == ClaimError::BurnRejected ==> r@ == "action is not allowed"@,
            *self == ClaimError::CounterOverflow ==> r@ == "counter overflow"@,
            *self == ClaimError::InvalidTokenId ==> r@ == "Invalid token ID"@,
    {
        match self {
            ClaimError::WrongOrigin => "wrong shard",
            ClaimError::NotAuthorized => "Endpoint can only be called by admins",
            ClaimError::AlreadyClaimed => "epoch already claimed",
            ClaimError::BadPayment => "Bad payment token/amount",
            ClaimError::NotRepairable => "can't repair streak for current epoch",
            ClaimError::BurnRejected => "action is not allowed",
            ClaimError::CounterOverflow => "counter overflow",
            ClaimError::InvalidTokenId => "Invalid token ID",
        }
    }
}

} // verus!
