//! The slice of ledger state an operation works on, as plain values. The
//! hosting ledger supplies account storage, lamport accounting and signature
//! verification; an operation here receives the accounts the caller supplied,
//! decides, and computes their exact post-state. The predicates in this
//! module state when the external allocation, token-transfer and close
//! primitives succeed, as the operations' contracts rely on them.
use vstd::prelude::*;
use crate::errors::EscrowError;
use crate::states::Pubkey;

verus! {

/// A fee-paying, possibly signing participant: the maker or the taker, or
/// any plain account that only sends or receives lamports.
#[derive(Clone, Copy, Debug)]
pub struct Wallet {
    /// The account's address.
    pub key: Pubkey,
    /// The account's lamport balance.
    pub lamports: u64,
    /// Whether this account authenticated the call with its signature.
    pub is_signer: bool,
}

/// A protocol-owned storage account: the escrow record's backing store.
#[derive(Clone, Debug)]
pub struct DataAccount {
    /// The account's address.
    pub key: Pubkey,
    /// The account's lamport balance; zero for a vacant address.
    pub lamports: u64,
    /// The protocol that owns the account's storage.
    pub owner: Pubkey,
    /// The stored bytes; empty for a vacant or closed account.
    pub data: Vec<u8>,
}

/// A holding account of the external token service: a balance of one asset
/// under one controlling authority.
#[derive(Clone, Copy, Debug)]
pub struct TokenAccount {
    /// The account's address.
    pub key: Pubkey,
    /// The asset this balance is of.
    pub mint: Pubkey,
    /// The authority that may move the balance.
    pub authority: Pubkey,
    /// The held quantity.
    pub amount: u64,
    /// The account's lamport balance.
    pub lamports: u64,
    /// Whether the token service has initialized this account. A vacant or
    /// closed account is uninitialized with zero balances.
    pub initialized: bool,
}

/// An asset's descriptor: its identity and declared decimal precision.
#[derive(Clone, Copy, Debug)]
pub struct Mint {
    /// The asset's identity.
    pub key: Pubkey,
    /// The asset's declared decimal precision.
    pub decimals: u8,
}

/// The address is unoccupied, so the allocation primitive may create an
/// account there; creation at an occupied address fails.
pub open spec fn data_account_vacant(a: DataAccount) -> bool {
    a.lamports == 0 && a.data@.len() == 0
}

/// The address is unoccupied by any token account.
pub open spec fn token_account_vacant(a: TokenAccount) -> bool {
    !a.initialized && a.lamports == 0 && a.amount == 0
}

/// The failure the external checked-transfer primitive reports, or None when
/// it succeeds: both ends must be initialized, the source must hold the named
/// asset, the declared precision must match the asset's descriptor, the
/// source's controlling authority must have signed, the balance must suffice
/// and the destination must not overflow. The destination is credited as
/// specified. Conditions are checked in this order and the first failure is
/// the one reported.
pub open spec fn transfer_checked_err(
    src: TokenAccount,
    dst: TokenAccount,
    authority: Pubkey,
    authority_signed: bool,
    mint: Mint,
    amount: u64,
    decimals: u8,
) -> Option<EscrowError> {
    if !src.initialized || !dst.initialized {
        Some(EscrowError::UninitializedAccount)
    } else if src.mint@ != mint.key@ {
        Some(EscrowError::InvalidAccountData)
    } else if decimals != mint.decimals {
        Some(EscrowError::MintDecimalsMismatch)
    } else if src.authority@ != authority@ {
        Some(EscrowError::OwnerMismatch)
    } else if !authority_signed {
        Some(EscrowError::MissingRequiredSignature)
    } else if amount > src.amount {
        Some(EscrowError::InsufficientFunds)
    } else if dst.amount + amount > u64::MAX {
        Some(EscrowError::ArithmeticOverflow)
    } else {
        None
    }
}

/// The failure the external close primitive reports on a token account, or
/// None when it succeeds: the account must be initialized and emptied, its
/// controlling authority must have signed, and the destination that takes
/// its lamports must not overflow. The address then becomes vacant.
pub open spec fn close_token_account_err(
    acc: TokenAccount,
    authority: Pubkey,
    authority_signed: bool,
    dest_lamports: u64,
) -> Option<EscrowError> {
    if !acc.initialized {
        Some(EscrowError::UninitializedAccount)
    } else if acc.authority@ != authority@ {
        Some(EscrowError::OwnerMismatch)
    } else if !authority_signed {
        Some(EscrowError::MissingRequiredSignature)
    } else if acc.amount != 0 {
        Some(EscrowError::NonEmptyTokenAccount)
    } else if dest_lamports + acc.lamports > u64::MAX {
        Some(EscrowError::ArithmeticOverflow)
    } else {
        None
    }
}

} // verus!
