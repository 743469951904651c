use vstd::prelude::*;

verus! {

/// Every way an operation on the ledger can be rejected.
///
/// A rejected operation leaves the ledger unchanged; the caller may resubmit
/// with corrected inputs.
#[derive(Clone, Copy, Debug, PartialEq, Eq, Structural)]
pub enum ContractError {
    /// The caller is not the bounty's issuer.
    Unauthorized,
    /// The attached funds are not exactly one entry of the declared denom.
    InvalidFunds,
    /// The attached amount is below the declared quantity.
    InsufficientFunds,
    /// A success finalize was attempted on a bounty with no recipient.
    RecipientNotSet,
    /// The bounty is already closed, or its deadline has passed so that
    /// only the expire path may close it.
    BountyExpired,
    /// An expire was attempted before the bounty's deadline passed.
    NotYetExpired,
    /// The referenced bounty id is not in the ledger.
    NotFound,
}

impl ContractError {
    /// A short human-readable description of the error.
    pub fn message(&self) -> (r: &'static str)
        ensures
            *self == ContractError::Unauthorized ==> r@ == "Unauthorized"@,
            *self == ContractError::InvalidFunds ==> r@ == "Invalid funds"@,
            *self == ContractError::InsufficientFunds ==> r@ == "Insufficient funds"@,
            *self == ContractError::RecipientNotSet ==> r@ == "Recipient not set"@,
            *self == ContractError::BountyExpired ==> r@ == "Bounty already expired"@,
            *self == ContractError::NotYetExpired ==> r@ == "Not yet expired"@,
            *self == ContractError::NotFound ==> r@ == "Bounty not found"@,
    {
        match self {
            ContractError::Unauthorized => "Unauthorized",
            ContractError::InvalidFunds => "Invalid funds",
            ContractError::InsufficientFunds => "Insufficient funds",
            ContractError::RecipientNotSet => "Recipient not set",
            ContractError::BountyExpired => "Bounty already expired",
            ContractError::NotYetExpired => "Not yet expired",
            ContractError::NotFound => "Bounty not found",
        }
    }
}

} // verus!
