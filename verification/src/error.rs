use vstd::prelude::*;

verus! {

/// The ways a contract call can fail.
#[derive(Clone, Copy, Debug, PartialEq, Eq, Structural)]
pub enum ContractError {
    /// A supplied address failed the host's address validation.
    InvalidAddress,
    /// The caller is not a member of the owner set.
    Unauthorized,
    /// The requested removal would leave the owner set empty.
    NoOwner,
}

} // verus!
