use vstd::prelude::*;

verus! {

/// The closed set of failures an operation can report.
///
/// Every precondition violation maps to exactly one of these kinds, so a
/// caller can branch on the kind instead of parsing text.
#[derive(Clone, Copy, Debug, PartialEq, Eq)]
pub enum ContractError {
    /// Creation was attempted with an expiry not strictly in the future.
    InvalidExpiry,
    /// The caller is not the current owner of an owner-gated operation.
    Unauthorized,
    /// Exercise was attempted at or after the expiry height.
    Expired,
    /// The funds attached to an exercise do not match the counter-offer.
    WrongCounterOffer,
    /// Burn was attempted before the expiry height.
    NotYetExpired,
    /// Burn was attempted with nonzero attached funds.
    NonEmptyFunds,
    /// An operation was attempted while no option record is stored.
    RecordNotFound,
}

impl ContractError {
    /// A short stable name for the error kind, for callers that report text.
    pub fn as_text(&self) -> (r: &'static str)
        ensures
            r@ == self.text_spec(),
    {
        match self {
            ContractError::InvalidExpiry => "invalid expiry",
            ContractError::Unauthorized => "unauthorized",
            ContractError::Expired => "expired",
            ContractError::WrongCounterOffer => "wrong counter offer",
            ContractError::NotYetExpired => "not yet expired",
            ContractError::NonEmptyFunds => "non-empty funds",
            ContractError::RecordNotFound => "record not found",
        }
    }

    pub open spec fn text_spec(&self) -> Seq<char> {
        match self {
            ContractError::InvalidExpiry => "invalid expiry"@,
            ContractError::Unauthorized => "unauthorized"@,
            ContractError::Expired => "expired"@,
            ContractError::WrongCounterOffer => "wrong counter offer"@,
            ContractError::NotYetExpired => "not yet expired"@,
            ContractError::NonEmptyFunds => "non-empty funds"@,
            ContractError::RecordNotFound => "record not found"@,
        }
    }
}

} // verus!
