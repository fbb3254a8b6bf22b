use vstd::prelude::*;

verus! {

/// The ways a request can be refused. Every error aborts the request with no
/// change to the stored state.
#[derive(Debug, Clone, Copy, PartialEq, Eq, Structural)]
pub enum ContractError {
    /// The caller fails the access or administrator check.
    Unauthorized,
    /// The referenced token id does not exist.
    TokenNotFound,
    /// Token content may not change once the contract is frozen.
    ContractFrozen,
    /// A mint or a reservation would exceed its ceiling.
    MaxTokenSupply,
    /// The reservation payment is missing, in the wrong denomination, or too small.
    Funds,
    /// A sweep found a zero balance.
    NoFunds,
    /// A supplied address was refused by the address validator.
    InvalidAddress,
    /// A token with the requested id already exists.
    Claimed,
}

} // verus!
