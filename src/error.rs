use vstd::prelude::*;

verus! {

/// Why an operation was refused.
#[derive(Debug, Clone, PartialEq, Eq)]
pub enum ContractError {
    /// A denomination given at creation lacks the `factory/` prefix.
    InvalidDenom { denom: String, message: String },
    /// The caller is not the manager, or not on the mint whitelist.
    Unauthorized,
    /// A burn was sent with no funds attached.
    InvalidFunds,
}

} // verus!
