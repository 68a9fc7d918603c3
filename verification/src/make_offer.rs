//! MakeOffer: opens an offer. Creates the escrow record and the vault at
//! their derived addresses, moves the maker's deposit into the vault, and
//! writes the record — one atomic step: on any failure no account changes.
use vstd::prelude::*;
use crate::PROGRAM_ID;
use crate::errors::EscrowError;
use crate::instructions::MakeOffer;
use crate::ledger::DataAccount;
use crate::ledger::Mint;
use crate::ledger::TokenAccount;
use crate::ledger::Wallet;
use crate::ledger::data_account_vacant;
use crate::ledger::token_account_vacant;
use crate::ledger::transfer_checked_err;
use crate::states::EscrowState;
use crate::states::Pubkey;
use crate::states::pubkey_eq;

verus! {

/// The record MakeOffer persists for this offer.
pub open spec fn offered_record(
    maker: Wallet,
    vault: TokenAccount,
    maker_token_account: TokenAccount,
    maker_token_mint: Mint,
    taker_token_mint: Pubkey,
    ix: MakeOffer,
) -> EscrowState {
    EscrowState {
        maker: maker.key,
        maker_token_mint: maker_token_mint.key,
        taker_token_mint: taker_token_mint,
        maker_amount: ix.deposit_amount,
        taker_amount: ix.receive_amount,
        vault: vault.key,
        maker_token_account: maker_token_account.key,
        bump: ix.escrow_bump,
    }
}

/// The vault as the token service initializes it in step 3 of MakeOffer:
/// a fresh holding account for asset A whose controlling authority is the
/// escrow record itself, never the maker.
pub open spec fn initialized_vault(
    vault: TokenAccount,
    escrow: DataAccount,
    maker_token_mint: Mint,
    vault_rent: u64,
) -> TokenAccount {
    TokenAccount {
        mint: maker_token_mint.key,
        authority: escrow.key,
        amount: 0,
        lamports: vault_rent,
        initialized: true,
        ..vault
    }
}

/// MakeOffer's outcome on the supplied pre-state: the first failing check in
/// the operation's fixed order, or Ok when every sub-operation succeeds.
/// `derived_escrow` is the derivation oracle's answer for the escrow seeds
/// (namespace, maker, bump); `derived_vault` its answer for the vault seeds
/// (namespace, escrow).
pub open spec fn make_offer_check(
    maker: Wallet,
    escrow: DataAccount,
    vault: TokenAccount,
    maker_token_account: TokenAccount,
    maker_token_mint: Mint,
    ix: MakeOffer,
    derived_escrow: Option<Pubkey>,
    derived_vault: Pubkey,
    escrow_rent: u64,
    vault_rent: u64,
) -> Result<(), EscrowError> {
    if !maker.is_signer {
        Err(EscrowError::MissingRequiredSignature)
    } else if ix.deposit_amount == 0 || ix.receive_amount == 0 {
        Err(EscrowError::InvalidInstructionData)
    } else if derived_escrow is None {
        Err(EscrowError::InvalidSeeds)
    } else if derived_escrow.unwrap()@ != escrow.key@ {
        Err(EscrowError::PdaMismatch)
    } else if !data_account_vacant(escrow) {
        Err(EscrowError::AccountAlreadyInUse)
    } else if maker.lamports < escrow_rent {
        Err(EscrowError::InsufficientFunds)
    } else if derived_vault@ != vault.key@ {
        Err(EscrowError::InvalidAccountData)
    } else if !token_account_vacant(vault) {
        Err(EscrowError::AccountAlreadyInUse)
    } else if maker.lamports - escrow_rent < vault_rent {
        Err(EscrowError::InsufficientFunds)
    } else {
        match transfer_checked_err(
            maker_token_account,
            initialized_vault(vault, escrow, maker_token_mint, vault_rent),
            maker.key,
            maker.is_signer,
            maker_token_mint,
            ix.deposit_amount,
            maker_token_mint.decimals,
        ) {
            Some(e) => Err(e),
            None => Ok(()),
        }
    }
}

/// Opens an offer: `deposit_amount` units of asset A against
/// `receive_amount` units of asset B. `escrow_rent` and `vault_rent` are the
/// trusted rent oracle's minimum funding for the record's and the token
/// account's storage, paid by the maker.
///
/// On success the maker has funded both new accounts and lost exactly the
/// deposit from its asset-A holding account; the vault holds exactly the
/// deposit under the escrow record's authority; and the record's byte image
/// stands at the verified escrow address. On any failure every account is
/// exactly as it was.
pub fn make_offer(
    maker: &mut Wallet,
    escrow: &mut DataAccount,
    vault: &mut TokenAccount,
    maker_token_account: &mut TokenAccount,
    maker_token_mint: &Mint,
    taker_token_mint: &Pubkey,
    ix: &MakeOffer,
    derived_escrow: Option<Pubkey>,
    derived_vault: &Pubkey,
    escrow_rent: u64,
    vault_rent: u64,
) -> (r: Result<(), EscrowError>)
    ensures
        r == make_offer_check(
            *old(maker),
            *old(escrow),
            *old(vault),
            *old(maker_token_account),
            *maker_token_mint,
            *ix,
            derived_escrow,
            *derived_vault,
            escrow_rent,
            vault_rent,
        ),
        r is Err ==> *final(maker) == *old(maker) && *final(escrow) == *old(escrow)
            && *final(vault) == *old(vault)
            && *final(maker_token_account) == *old(maker_token_account),
        r is Ok ==> *final(maker) == (Wallet {
            lamports: (old(maker).lamports - escrow_rent - vault_rent) as u64,
            ..*old(maker)
        }),
        r is Ok ==> final(escrow).key == old(escrow).key && final(escrow).lamports == escrow_rent
            && final(escrow).owner == PROGRAM_ID && final(escrow).data@ == offered_record(
            *old(maker),
            *old(vault),
            *old(maker_token_account),
            *maker_token_mint,
            *taker_token_mint,
            *ix,
        ).spec_serialize(),
        r is Ok ==> *final(vault) == (TokenAccount {
            mint: maker_token_mint.key,
            authority: old(escrow).key,
            amount: ix.deposit_amount,
            lamports: vault_rent,
            initialized: true,
            ..*old(vault)
        }),
        r is Ok ==> *final(maker_token_account) == (TokenAccount {
            amount: (old(maker_token_account).amount - ix.deposit_amount) as u64,
            ..*old(maker_token_account)
        }),
{
    if !maker.is_signer {
        return Err(EscrowError::MissingRequiredSignature);
    }
    if ix.deposit_amount == 0 || ix.receive_amount == 0 {
        return Err(EscrowError::InvalidInstructionData);
    }
    match EscrowState::validate_pda(derived_escrow, &escrow.key) {
        Ok(_) => {},
        Err(e) => {
            return Err(e);
        },
    }
    if !(escrow.lamports == 0 && escrow.data.len() == 0) {
        return Err(EscrowError::AccountAlreadyInUse);
    }
    if maker.lamports < escrow_rent {
        return Err(EscrowError::InsufficientFunds);
    }
    if !pubkey_eq(derived_vault, &vault.key) {
        return Err(EscrowError::InvalidAccountData);
    }
    if vault.initialized || vault.lamports != 0 || vault.amount != 0 {
        return Err(EscrowError::AccountAlreadyInUse);
    }
    if maker.lamports - escrow_rent < vault_rent {
        return Err(EscrowError::InsufficientFunds);
    }
    if !maker_token_account.initialized {
        return Err(EscrowError::UninitializedAccount);
    }
    if !pubkey_eq(&maker_token_account.mint, &maker_token_mint.key) {
        return Err(EscrowError::InvalidAccountData);
    }
    if !pubkey_eq(&maker_token_account.authority, &maker.key) {
        return Err(EscrowError::OwnerMismatch);
    }
    if maker_token_account.amount < ix.deposit_amount {
        return Err(EscrowError::InsufficientFunds);
    }
    // Every sub-operation is now known to succeed; commit the post-state as
    // one step, so that a failed call never leaves a partial write behind.
    let record = EscrowState {
        maker: maker.key,
        maker_token_mint: maker_token_mint.key,
        taker_token_mint: *taker_token_mint,
        maker_amount: ix.deposit_amount,
        taker_amount: ix.receive_amount,
        vault: vault.key,
        maker_token_account: maker_token_account.key,
        bump: ix.escrow_bump,
    };
    maker.lamports = maker.lamports - escrow_rent - vault_rent;
    escrow.lamports = escrow_rent;
    escrow.owner = PROGRAM_ID;
    escrow.data = record.serialize();
    vault.lamports = vault_rent;
    vault.mint = maker_token_mint.key;
    vault.authority = escrow.key;
    vault.amount = ix.deposit_amount;
    vault.initialized = true;
    maker_token_account.amount = maker_token_account.amount - ix.deposit_amount;
    Ok(())
}

} // verus!
