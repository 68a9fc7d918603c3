//! The shared error taxonomy: authentication, structural and semantic
//! failures of the three operations, plus the failures of the external
//! allocation, token-transfer and close primitives, which propagate to the
//! caller unchanged.
use vstd::prelude::*;

verus! {

/// One error per distinct failure condition. Every operation reports the
/// first condition that holds, in its fixed order of checks, and a failed
/// operation changes no account.
#[derive(Clone, Copy, Debug, PartialEq, Eq, Structural)]
pub enum EscrowError {
    /// The instruction discriminator byte names no operation, or a payload
    /// amount that must be positive is zero, or the payload is malformed.
    InvalidInstructionData,
    /// The account list does not have the operation's fixed arity.
    NotEnoughAccountKeys,
    /// The required authenticating party did not sign the call.
    MissingRequiredSignature,
    /// A supplied account does not equal the address derived for it.
    PdaMismatch,
    /// The derivation oracle produced no address for the given seeds.
    InvalidSeeds,
    /// A supplied account's content contradicts the call: the stored record
    /// is absent or malformed, the maker does not match, or a token account
    /// belongs to the wrong asset or the wrong authority.
    InvalidAccountData,
    /// Allocation failed: the target address is already occupied.
    AccountAlreadyInUse,
    /// A token account that a transfer or close touches is not initialized.
    UninitializedAccount,
    /// A token account is controlled by a different authority than the one
    /// that authorized the movement.
    OwnerMismatch,
    /// The declared decimal precision handed to a checked transfer does not
    /// match the asset's descriptor.
    MintDecimalsMismatch,
    /// A token account still holds a balance and so cannot be closed.
    NonEmptyTokenAccount,
    /// A balance is too small for the requested movement.
    InsufficientFunds,
    /// A balance would exceed the representable maximum.
    ArithmeticOverflow,
}

} // verus!
