//! Refund: cancels an offer. Returns the vaulted deposit to the maker's own
//! asset-A holding account, closes the vault and retires the escrow record,
//! returning every rent-equivalent balance to the maker — one atomic step:
//! on any failure no account changes. No asset-B movement ever occurs here.
use vstd::prelude::*;
use crate::errors::EscrowError;
use crate::ledger::DataAccount;
use crate::ledger::Mint;
use crate::ledger::TokenAccount;
use crate::ledger::Wallet;
use crate::ledger::close_token_account_err;
use crate::ledger::transfer_checked_err;
use crate::states::ESCROW_STATE_LEN;
use crate::states::EscrowState;
use crate::states::Pubkey;
use crate::states::pubkey_eq;
use crate::states::rec_maker;
use crate::states::rec_maker_amount;
use crate::states::rec_vault;

verus! {

/// Refund's outcome on the supplied pre-state: the first failing check in
/// the operation's fixed order, or Ok when every sub-operation succeeds.
/// `derived_escrow` is the derivation oracle's answer for the escrow seeds
/// (namespace, stored maker, stored bump). As in TakeOffer, the vault's
/// movement and closing are authorized by the escrow record's own derived
/// signing proof, established by the verified address check: the `true`
/// below stands where that proof signs.
pub open spec fn refund_check(
    maker: Wallet,
    escrow: DataAccount,
    vault: TokenAccount,
    maker_token_account: TokenAccount,
    maker_token_mint: Mint,
    derived_escrow: Option<Pubkey>,
) -> Result<(), EscrowError> {
    let s = escrow.data@;
    if !maker.is_signer {
        Err(EscrowError::MissingRequiredSignature)
    } else if s.len() != ESCROW_STATE_LEN {
        Err(EscrowError::InvalidAccountData)
    } else if maker.key@ != rec_maker(s) {
        Err(EscrowError::InvalidAccountData)
    } else if derived_escrow is None {
        Err(EscrowError::InvalidSeeds)
    } else if derived_escrow.unwrap()@ != escrow.key@ {
        Err(EscrowError::PdaMismatch)
    } else if vault.key@ != rec_vault(s) {
        Err(EscrowError::PdaMismatch)
    } else {
        match transfer_checked_err(
            vault,
            maker_token_account,
            escrow.key,
            true,
            maker_token_mint,
            rec_maker_amount(s),
            maker_token_mint.decimals,
        ) {
            Some(e) => Err(e),
            None => {
                let vault_after_a = TokenAccount {
                    amount: (vault.amount - rec_maker_amount(s)) as u64,
                    ..vault
                };
                match close_token_account_err(vault_after_a, escrow.key, true, maker.lamports) {
                    Some(e) => Err(e),
                    None => {
                        if maker.lamports + vault.lamports + escrow.lamports > u64::MAX {
                            Err(EscrowError::ArithmeticOverflow)
                        } else {
                            Ok(())
                        }
                    },
                }
            },
        }
    }
}

/// Cancels an offer before fulfillment: the full reversal of MakeOffer's
/// custody step.
///
/// On success the maker's asset-A holding account has regained exactly the
/// stored `maker_amount`; vault and record are closed and their whole
/// lamport balances are the maker's again. As with settlement, cancellation
/// can happen at most once: a later call finds an emptied account and fails
/// before touching anything. On any failure every account is exactly as it
/// was.
pub fn refund(
    maker: &mut Wallet,
    escrow: &mut DataAccount,
    vault: &mut TokenAccount,
    maker_token_account: &mut TokenAccount,
    maker_token_mint: &Mint,
    derived_escrow: Option<Pubkey>,
) -> (r: Result<(), EscrowError>)
    ensures
        r == refund_check(
            *old(maker),
            *old(escrow),
            *old(vault),
            *old(maker_token_account),
            *maker_token_mint,
            derived_escrow,
        ),
        r is Err ==> *final(maker) == *old(maker) && *final(escrow) == *old(escrow)
            && *final(vault) == *old(vault)
            && *final(maker_token_account) == *old(maker_token_account),
        r is Ok ==> *final(maker_token_account) == (TokenAccount {
            amount: (old(maker_token_account).amount + rec_maker_amount(old(escrow).data@)) as u64,
            ..*old(maker_token_account)
        }),
        r is Ok ==> *final(maker) == (Wallet {
            lamports: (old(maker).lamports + old(vault).lamports + old(escrow).lamports) as u64,
            ..*old(maker)
        }),
        r is Ok ==> *final(vault) == (TokenAccount {
            amount: 0,
            lamports: 0,
            initialized: false,
            ..*old(vault)
        }),
        r is Ok ==> final(escrow).key == old(escrow).key && final(escrow).owner == old(
            escrow,
        ).owner && final(escrow).lamports == 0 && final(escrow).data@.len() == 0,
{
    if !maker.is_signer {
        return Err(EscrowError::MissingRequiredSignature);
    }
    let st: EscrowState = match EscrowState::deserialize(escrow.data.as_slice()) {
        Ok(st) => st,
        Err(e) => {
            return Err(e);
        },
    };
    if !pubkey_eq(&maker.key, &st.maker) {
        return Err(EscrowError::InvalidAccountData);
    }
    match EscrowState::validate_pda(derived_escrow, &escrow.key) {
        Ok(_) => {},
        Err(e) => {
            return Err(e);
        },
    }
    if !pubkey_eq(&vault.key, &st.vault) {
        return Err(EscrowError::PdaMismatch);
    }
    // Step 1, the deposit back to the maker: the checked-transfer
    // primitive's conditions, in its order, authorized by the escrow
    // record's derived signing proof.
    if !vault.initialized || !maker_token_account.initialized {
        return Err(EscrowError::UninitializedAccount);
    }
    if !pubkey_eq(&vault.mint, &maker_token_mint.key) {
        return Err(EscrowError::InvalidAccountData);
    }
    if !pubkey_eq(&vault.authority, &escrow.key) {
        return Err(EscrowError::OwnerMismatch);
    }
    if st.maker_amount > vault.amount {
        return Err(EscrowError::InsufficientFunds);
    }
    if maker_token_account.amount > u64::MAX - st.maker_amount {
        return Err(EscrowError::ArithmeticOverflow);
    }
    // Step 2, close the vault: rent back to the maker.
    if vault.amount - st.maker_amount != 0 {
        return Err(EscrowError::NonEmptyTokenAccount);
    }
    if maker.lamports > u64::MAX - vault.lamports {
        return Err(EscrowError::ArithmeticOverflow);
    }
    // Step 3, retire the record: its whole balance back to the maker.
    if maker.lamports + vault.lamports > u64::MAX - escrow.lamports {
        return Err(EscrowError::ArithmeticOverflow);
    }
    // Every sub-operation is now known to succeed; commit the post-state as
    // one step, so that a failed call never leaves a partial change behind.
    maker_token_account.amount = maker_token_account.amount + st.maker_amount;
    maker.lamports = maker.lamports + vault.lamports + escrow.lamports;
    vault.amount = 0;
    vault.lamports = 0;
    vault.initialized = false;
    escrow.lamports = 0;
    escrow.data = Vec::new();
    Ok(())
}

} // verus!
