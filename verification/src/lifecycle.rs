//! The record's lifecycle laws. A record is created only by MakeOffer and
//! destroyed exactly once, by TakeOffer or by Refund; these proof functions
//! state that the state MakeOffer leaves behind admits either settlement,
//! that cancellation restores the maker's pre-offer balance, and that a
//! settled or cancelled record can never be settled again.
use vstd::prelude::*;
use crate::errors::EscrowError;
use crate::instructions::MakeOffer;
use crate::ledger::DataAccount;
use crate::ledger::Mint;
use crate::ledger::TokenAccount;
use crate::ledger::Wallet;
use crate::make_offer::make_offer_check;
use crate::refund::refund_check;
use crate::states::ESCROW_STATE_LEN;
use crate::states::EscrowState;
use crate::states::Pubkey;
use crate::states::lemma_serialize_fields;
use crate::states::rec_maker_amount;
use crate::states::rec_taker_amount;
use crate::take_offer::take_offer_check;

verus! {

/// Every offer MakeOffer leaves behind can be fulfilled. If the escrow
/// account stores the record `st` as MakeOffer wrote it — the vault at the
/// stored address, holding exactly the stored deposit under the escrow's
/// authority — then TakeOffer succeeds for any taker that signs, supplies
/// the matching maker and mints, holds enough of asset B, and stays within
/// balance bounds; by `take_offer`'s contract the taker then gains the
/// stored `maker_amount` of asset A against the stored `taker_amount` of
/// asset B, the maker's destination gains that asset-B payment, and vault
/// and record are closed with their balances returned to the maker.
pub proof fn lemma_offer_then_take(
    st: EscrowState,
    taker: Wallet,
    escrow: DataAccount,
    vault: TokenAccount,
    maker: Wallet,
    maker_token_account: TokenAccount,
    taker_token_account: TokenAccount,
    maker_token_mint: Mint,
    taker_token_mint: Mint,
    derived_escrow: Option<Pubkey>,
)
    requires
        escrow.data@ == st.spec_serialize(),
        vault.key@ == st.vault@,
        vault.initialized,
        vault.mint@ == st.maker_token_mint@,
        vault.authority@ == escrow.key@,
        vault.amount == st.maker_amount,
        taker.is_signer,
        maker.key@ == st.maker@,
        derived_escrow matches Some(k) && k@ == escrow.key@,
        maker_token_mint.key@ == st.maker_token_mint@,
        taker_token_mint.key@ == st.taker_token_mint@,
        taker_token_account.initialized,
        taker_token_account.mint@ == taker_token_mint.key@,
        taker_token_account.authority@ == taker.key@,
        taker_token_account.amount >= st.taker_amount,
        taker_token_account.amount - st.taker_amount + st.maker_amount <= u64::MAX,
        maker_token_account.initialized,
        maker_token_account.amount + st.taker_amount <= u64::MAX,
        maker.lamports + vault.lamports + escrow.lamports <= u64::MAX,
    ensures
        take_offer_check(
            taker,
            escrow,
            vault,
            maker,
            maker_token_account,
            taker_token_account,
            maker_token_mint,
            taker_token_mint,
            derived_escrow,
        ) == Ok::<(), EscrowError>(()),
        rec_maker_amount(escrow.data@) == st.maker_amount,
        rec_taker_amount(escrow.data@) == st.taker_amount,
{
    lemma_serialize_fields(st);
}

/// Every offer MakeOffer leaves behind can be cancelled, and cancellation
/// reverses the deposit exactly. Under the same stored-record state, Refund
/// succeeds for the signing maker, and the maker's asset-A holding account —
/// left at `pre_offer_amount - st.maker_amount` by the deposit — returns to
/// exactly `pre_offer_amount` by `refund`'s contract. No asset-B account
/// appears in the operation at all.
pub proof fn lemma_offer_then_refund(
    st: EscrowState,
    maker: Wallet,
    escrow: DataAccount,
    vault: TokenAccount,
    maker_token_account: TokenAccount,
    maker_token_mint: Mint,
    derived_escrow: Option<Pubkey>,
    pre_offer_amount: u64,
)
    requires
        escrow.data@ == st.spec_serialize(),
        vault.key@ == st.vault@,
        vault.initialized,
        vault.mint@ == st.maker_token_mint@,
        vault.authority@ == escrow.key@,
        vault.amount == st.maker_amount,
        maker.is_signer,
        maker.key@ == st.maker@,
        derived_escrow matches Some(k) && k@ == escrow.key@,
        maker_token_mint.key@ == st.maker_token_mint@,
        maker_token_account.initialized,
        maker_token_account.amount == pre_offer_amount - st.maker_amount,
        pre_offer_amount >= st.maker_amount,
        maker.lamports + vault.lamports + escrow.lamports <= u64::MAX,
    ensures
        refund_check(
            maker,
            escrow,
            vault,
            maker_token_account,
            maker_token_mint,
            derived_escrow,
        ) == Ok::<(), EscrowError>(()),
        rec_maker_amount(escrow.data@) == st.maker_amount,
        maker_token_account.amount + rec_maker_amount(escrow.data@) == pre_offer_amount,
{
    lemma_serialize_fields(st);
}

/// One record per address: while a record is live at its derived address,
/// MakeOffer with the same (maker, bump) pair — or any call that reaches the
/// same occupied escrow account — fails at allocation, whatever it offers.
pub proof fn lemma_live_record_blocks_remake(
    maker: Wallet,
    escrow: DataAccount,
    vault: TokenAccount,
    maker_token_account: TokenAccount,
    maker_token_mint: Mint,
    ix: MakeOffer,
    derived_escrow: Option<Pubkey>,
    derived_vault: Pubkey,
    escrow_rent: u64,
    vault_rent: u64,
)
    requires
        escrow.data@.len() != 0,
        maker.is_signer,
        ix.deposit_amount > 0,
        ix.receive_amount > 0,
        derived_escrow matches Some(k) && k@ == escrow.key@,
    ensures
        make_offer_check(
            maker,
            escrow,
            vault,
            maker_token_account,
            maker_token_mint,
            ix,
            derived_escrow,
            derived_vault,
            escrow_rent,
            vault_rent,
        ) == Err::<(), EscrowError>(EscrowError::AccountAlreadyInUse),
{
}

/// Destruction is terminal: once TakeOffer or Refund has retired a record —
/// leaving its account emptied, as their contracts state — any further
/// TakeOffer or Refund on that account fails while reading the record, with
/// the malformed-account error, whoever signs and whatever else is supplied.
pub proof fn lemma_settled_record_rejected(
    taker: Wallet,
    maker: Wallet,
    escrow: DataAccount,
    vault: TokenAccount,
    maker_token_account: TokenAccount,
    taker_token_account: TokenAccount,
    maker_token_mint: Mint,
    taker_token_mint: Mint,
    derived_escrow: Option<Pubkey>,
)
    requires
        escrow.data@.len() != ESCROW_STATE_LEN,
        taker.is_signer,
        maker.is_signer,
    ensures
        take_offer_check(
            taker,
            escrow,
            vault,
            maker,
            maker_token_account,
            taker_token_account,
            maker_token_mint,
            taker_token_mint,
            derived_escrow,
        ) == Err::<(), EscrowError>(EscrowError::InvalidAccountData),
        refund_check(
            maker,
            escrow,
            vault,
            maker_token_account,
            maker_token_mint,
            derived_escrow,
        ) == Err::<(), EscrowError>(EscrowError::InvalidAccountData),
{
}

} // verus!
