use vstd::prelude::*;

verus! {

/// Why an escrow operation was refused. A refused operation changes nothing.
#[derive(Clone, Copy, Debug, PartialEq, Eq, Structural)]
pub enum EscrowError {
    /// An account is not owned by the expected program.
    IncorrectOwnerProgram,
    /// The record or account acted on does not exist.
    UninitializedAccount,
    /// The record or account to be created already exists.
    InitializedAccount,
    /// An account's authority is not the party that acts on it.
    InvalidAuthority,
    /// The acting party did not sign.
    MissingRequiredSignature,
    /// The supplied record address or bump is not the derived one.
    InvalidSeeds,
    /// A requested quantity differs from the record or the custodied balance.
    AmountNotEqual,
    /// An offer asks for or sells nothing.
    ZeroAmount,
    /// A token account belongs to another asset.
    MintMismatch,
    /// A token account holds less than the amount to move.
    InsufficientFunds,
    /// A balance would exceed the largest `u64`.
    Overflow,
    /// A token account to be closed still holds tokens.
    NonZeroBalance,
}

} // verus!
