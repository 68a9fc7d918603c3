use escrow::PROGRAM_ID;
use escrow::errors::EscrowError;
use escrow::instructions::MakeOffer;
use escrow::instructions::ProgramInstruction;
use escrow::instructions::Refund;
use escrow::instructions::TakeOffer;
use escrow::instructions::check_account_arity;
use escrow::ledger::DataAccount;
use escrow::ledger::Mint;
use escrow::ledger::TokenAccount;
use escrow::ledger::Wallet;
use escrow::make_offer::make_offer;
use escrow::refund::refund;
use escrow::states::ESCROW_STATE_LEN;
use escrow::states::EscrowState;
use escrow::take_offer::take_offer;

fn pk(b: u8) -> [u8; 32] {
    [b; 32]
}

fn sample_record() -> EscrowState {
    EscrowState {
        maker: pk(1),
        maker_token_mint: pk(5),
        taker_token_mint: pk(6),
        maker_amount: 100,
        taker_amount: 50,
        vault: pk(3),
        maker_token_account: pk(4),
        bump: 7,
    }
}

/// A consistent MakeOffer pre-state: maker 1, escrow 2, vault 3, maker's
/// asset-A account 4, asset A mint 5, asset B mint 6.
fn make_state() -> (Wallet, DataAccount, TokenAccount, TokenAccount, Mint) {
    let maker = Wallet { key: pk(1), lamports: 1_000, is_signer: true };
    let escrow = DataAccount { key: pk(2), lamports: 0, owner: pk(0), data: Vec::new() };
    let vault = TokenAccount {
        key: pk(3),
        mint: pk(0),
        authority: pk(0),
        amount: 0,
        lamports: 0,
        initialized: false,
    };
    let maker_token_account = TokenAccount {
        key: pk(4),
        mint: pk(5),
        authority: pk(1),
        amount: 250,
        lamports: 11,
        initialized: true,
    };
    let mint_a = Mint { key: pk(5), decimals: 6 };
    (maker, escrow, vault, maker_token_account, mint_a)
}

fn offer_ix() -> MakeOffer {
    MakeOffer { deposit_amount: 100, receive_amount: 50, escrow_bump: 7 }
}

#[test]
fn record_round_trip() {
    let st = sample_record();
    let bytes = st.serialize();
    assert_eq!(bytes.len(), ESCROW_STATE_LEN);
    assert_eq!(&bytes[0..32], &pk(1));
    assert_eq!(&bytes[32..64], &pk(5));
    assert_eq!(&bytes[64..96], &pk(6));
    assert_eq!(&bytes[96..104], &100u64.to_le_bytes());
    assert_eq!(&bytes[104..112], &50u64.to_le_bytes());
    assert_eq!(&bytes[112..144], &pk(3));
    assert_eq!(&bytes[144..176], &pk(4));
    assert_eq!(bytes[176], 7);
    let back = EscrowState::deserialize(bytes.as_slice()).unwrap();
    assert_eq!(back.maker, st.maker);
    assert_eq!(back.maker_token_mint, st.maker_token_mint);
    assert_eq!(back.taker_token_mint, st.taker_token_mint);
    assert_eq!(back.maker_amount, st.maker_amount);
    assert_eq!(back.taker_amount, st.taker_amount);
    assert_eq!(back.vault, st.vault);
    assert_eq!(back.maker_token_account, st.maker_token_account);
    assert_eq!(back.bump, st.bump);
}

#[test]
fn deserialize_rejects_wrong_length() {
    assert_eq!(
        EscrowState::deserialize(&[]),
        Err(EscrowError::InvalidAccountData)
    );
    assert_eq!(
        EscrowState::deserialize(&vec![0u8; ESCROW_STATE_LEN - 1]),
        Err(EscrowError::InvalidAccountData)
    );
    assert_eq!(
        EscrowState::deserialize(&vec![0u8; ESCROW_STATE_LEN + 1]),
        Err(EscrowError::InvalidAccountData)
    );
}

#[test]
fn instruction_selector() {
    assert_eq!(
        ProgramInstruction::try_from(&0),
        Ok(ProgramInstruction::MakeOffer)
    );
    assert_eq!(
        ProgramInstruction::try_from(&1),
        Ok(ProgramInstruction::TakeOffer)
    );
    assert_eq!(ProgramInstruction::try_from(&2), Ok(ProgramInstruction::Refund));
    assert_eq!(
        ProgramInstruction::try_from(&3),
        Err(EscrowError::InvalidInstructionData)
    );
    assert_eq!(
        ProgramInstruction::try_from(&255),
        Err(EscrowError::InvalidInstructionData)
    );
}

#[test]
fn account_arity() {
    assert_eq!(check_account_arity(&ProgramInstruction::MakeOffer, 9), Ok(()));
    assert_eq!(check_account_arity(&ProgramInstruction::TakeOffer, 9), Ok(()));
    assert_eq!(check_account_arity(&ProgramInstruction::Refund, 6), Ok(()));
    assert_eq!(
        check_account_arity(&ProgramInstruction::MakeOffer, 8),
        Err(EscrowError::NotEnoughAccountKeys)
    );
    assert_eq!(
        check_account_arity(&ProgramInstruction::Refund, 9),
        Err(EscrowError::NotEnoughAccountKeys)
    );
}

#[test]
fn payload_parsing() {
    let mut data = Vec::new();
    data.extend_from_slice(&100u64.to_le_bytes());
    data.extend_from_slice(&50u64.to_le_bytes());
    data.push(7);
    let p = MakeOffer::try_from_bytes(&data).unwrap();
    assert_eq!(p.deposit_amount, 100);
    assert_eq!(p.receive_amount, 50);
    assert_eq!(p.escrow_bump, 7);
    assert_eq!(
        MakeOffer::try_from_bytes(&data[..16]),
        Err(EscrowError::InvalidInstructionData)
    );
    let t = TakeOffer::try_from_bytes(&[9]).unwrap();
    assert_eq!(t.bump, 9);
    assert_eq!(
        TakeOffer::try_from_bytes(&[]),
        Err(EscrowError::InvalidInstructionData)
    );
    let r = Refund::try_from_bytes(&[9]).unwrap();
    assert_eq!(r.bump, 9);
    assert_eq!(
        Refund::try_from_bytes(&[1, 2]),
        Err(EscrowError::InvalidInstructionData)
    );
}

#[test]
fn validate_pda_checks() {
    assert_eq!(EscrowState::validate_pda(Some(pk(2)), &pk(2)), Ok(()));
    assert_eq!(
        EscrowState::validate_pda(Some(pk(9)), &pk(2)),
        Err(EscrowError::PdaMismatch)
    );
    assert_eq!(
        EscrowState::validate_pda(None, &pk(2)),
        Err(EscrowError::InvalidSeeds)
    );
}

#[test]
fn make_offer_opens_the_offer() {
    let (mut maker, mut escrow, mut vault, mut mta, mint_a) = make_state();
    let r = make_offer(
        &mut maker,
        &mut escrow,
        &mut vault,
        &mut mta,
        &mint_a,
        &pk(6),
        &offer_ix(),
        Some(pk(2)),
        &pk(3),
        30,
        20,
    );
    assert_eq!(r, Ok(()));
    // The vault holds exactly the deposit, for asset A, under the escrow
    // record's authority — never the maker's.
    assert_eq!(vault.amount, 100);
    assert_eq!(vault.mint, pk(5));
    assert_eq!(vault.authority, pk(2));
    assert!(vault.initialized);
    assert_eq!(vault.lamports, 20);
    // The maker's asset-A balance decreased by exactly the deposit, and the
    // maker funded both new accounts.
    assert_eq!(mta.amount, 150);
    assert_eq!(maker.lamports, 950);
    // The record stands at the verified address, byte for byte.
    assert_eq!(escrow.lamports, 30);
    assert_eq!(escrow.owner, PROGRAM_ID);
    assert_eq!(escrow.data, sample_record().serialize());
}

#[test]
fn make_offer_rejects_zero_amounts() {
    let (mut maker, mut escrow, mut vault, mut mta, mint_a) = make_state();
    let ix = MakeOffer { deposit_amount: 0, receive_amount: 50, escrow_bump: 7 };
    let r = make_offer(
        &mut maker,
        &mut escrow,
        &mut vault,
        &mut mta,
        &mint_a,
        &pk(6),
        &ix,
        Some(pk(2)),
        &pk(3),
        30,
        20,
    );
    assert_eq!(r, Err(EscrowError::InvalidInstructionData));
    let ix = MakeOffer { deposit_amount: 100, receive_amount: 0, escrow_bump: 7 };
    let r = make_offer(
        &mut maker,
        &mut escrow,
        &mut vault,
        &mut mta,
        &mint_a,
        &pk(6),
        &ix,
        Some(pk(2)),
        &pk(3),
        30,
        20,
    );
    assert_eq!(r, Err(EscrowError::InvalidInstructionData));
    // Zero ledger mutation: no account was created, no balance moved.
    assert_eq!(maker.lamports, 1_000);
    assert_eq!(escrow.data.len(), 0);
    assert_eq!(escrow.lamports, 0);
    assert!(!vault.initialized);
    assert_eq!(mta.amount, 250);
}

#[test]
fn make_offer_requires_signature() {
    let (mut maker, mut escrow, mut vault, mut mta, mint_a) = make_state();
    maker.is_signer = false;
    let r = make_offer(
        &mut maker,
        &mut escrow,
        &mut vault,
        &mut mta,
        &mint_a,
        &pk(6),
        &offer_ix(),
        Some(pk(2)),
        &pk(3),
        30,
        20,
    );
    assert_eq!(r, Err(EscrowError::MissingRequiredSignature));
    assert_eq!(maker.lamports, 1_000);
    assert_eq!(escrow.data.len(), 0);
    assert_eq!(mta.amount, 250);
}

#[test]
fn make_offer_rejects_address_mismatch() {
    let (mut maker, mut escrow, mut vault, mut mta, mint_a) = make_state();
    let r = make_offer(
        &mut maker,
        &mut escrow,
        &mut vault,
        &mut mta,
        &mint_a,
        &pk(6),
        &offer_ix(),
        Some(pk(9)),
        &pk(3),
        30,
        20,
    );
    assert_eq!(r, Err(EscrowError::PdaMismatch));
    let r = make_offer(
        &mut maker,
        &mut escrow,
        &mut vault,
        &mut mta,
        &mint_a,
        &pk(6),
        &offer_ix(),
        None,
        &pk(3),
        30,
        20,
    );
    assert_eq!(r, Err(EscrowError::InvalidSeeds));
    let r = make_offer(
        &mut maker,
        &mut escrow,
        &mut vault,
        &mut mta,
        &mint_a,
        &pk(6),
        &offer_ix(),
        Some(pk(2)),
        &pk(9),
        30,
        20,
    );
    assert_eq!(r, Err(EscrowError::InvalidAccountData));
    assert_eq!(maker.lamports, 1_000);
    assert_eq!(escrow.data.len(), 0);
    assert_eq!(mta.amount, 250);
    assert!(!vault.initialized);
}

#[test]
fn make_offer_rejects_occupied_escrow() {
    let (mut maker, mut escrow, mut vault, mut mta, mint_a) = make_state();
    escrow.lamports = 1;
    let r = make_offer(
        &mut maker,
        &mut escrow,
        &mut vault,
        &mut mta,
        &mint_a,
        &pk(6),
        &offer_ix(),
        Some(pk(2)),
        &pk(3),
        30,
        20,
    );
    assert_eq!(r, Err(EscrowError::AccountAlreadyInUse));
}

#[test]
fn make_offer_rejects_short_balances() {
    let (mut maker, mut escrow, mut vault, mut mta, mint_a) = make_state();
    maker.lamports = 29;
    let r = make_offer(
        &mut maker,
        &mut escrow,
        &mut vault,
        &mut mta,
        &mint_a,
        &pk(6),
        &offer_ix(),
        Some(pk(2)),
        &pk(3),
        30,
        20,
    );
    assert_eq!(r, Err(EscrowError::InsufficientFunds));
    let (mut maker, mut escrow, mut vault, mut mta, mint_a) = make_state();
    mta.amount = 99;
    let r = make_offer(
        &mut maker,
        &mut escrow,
        &mut vault,
        &mut mta,
        &mint_a,
        &pk(6),
        &offer_ix(),
        Some(pk(2)),
        &pk(3),
        30,
        20,
    );
    assert_eq!(r, Err(EscrowError::InsufficientFunds));
    assert_eq!(mta.amount, 99);
    assert_eq!(maker.lamports, 1_000);
}

#[test]
fn make_offer_rejects_wrong_token_account() {
    let (mut maker, mut escrow, mut vault, mut mta, mint_a) = make_state();
    mta.initialized = false;
    let r = make_offer(
        &mut maker,
        &mut escrow,
        &mut vault,
        &mut mta,
        &mint_a,
        &pk(6),
        &offer_ix(),
        Some(pk(2)),
        &pk(3),
        30,
        20,
    );
    assert_eq!(r, Err(EscrowError::UninitializedAccount));
    let (mut maker, mut escrow, mut vault, mut mta, mint_a) = make_state();
    mta.mint = pk(6);
    let r = make_offer(
        &mut maker,
        &mut escrow,
        &mut vault,
        &mut mta,
        &mint_a,
        &pk(6),
        &offer_ix(),
        Some(pk(2)),
        &pk(3),
        30,
        20,
    );
    assert_eq!(r, Err(EscrowError::InvalidAccountData));
    let (mut maker, mut escrow, mut vault, mut mta, mint_a) = make_state();
    mta.authority = pk(9);
    let r = make_offer(
        &mut maker,
        &mut escrow,
        &mut vault,
        &mut mta,
        &mint_a,
        &pk(6),
        &offer_ix(),
        Some(pk(2)),
        &pk(3),
        30,
        20,
    );
    assert_eq!(r, Err(EscrowError::OwnerMismatch));
}

/// Runs MakeOffer on the standard pre-state and hands back the post-state:
/// an open offer of 100 units of asset A against 50 units of asset B.
fn opened_offer() -> (Wallet, DataAccount, TokenAccount, TokenAccount, Mint) {
    let (mut maker, mut escrow, mut vault, mut mta, mint_a) = make_state();
    let r = make_offer(
        &mut maker,
        &mut escrow,
        &mut vault,
        &mut mta,
        &mint_a,
        &pk(6),
        &offer_ix(),
        Some(pk(2)),
        &pk(3),
        30,
        20,
    );
    assert_eq!(r, Ok(()));
    (maker, escrow, vault, mta, mint_a)
}

#[test]
fn make_offer_cannot_reuse_a_live_record() {
    let (mut maker, mut escrow, mut vault, mut mta, mint_a) = opened_offer();
    vault.initialized = false;
    vault.lamports = 0;
    vault.amount = 0;
    let r = make_offer(
        &mut maker,
        &mut escrow,
        &mut vault,
        &mut mta,
        &mint_a,
        &pk(6),
        &offer_ix(),
        Some(pk(2)),
        &pk(3),
        30,
        20,
    );
    assert_eq!(r, Err(EscrowError::AccountAlreadyInUse));
    assert_eq!(escrow.data, sample_record().serialize());
}

#[test]
fn take_offer_settles_the_offer() {
    let (mut maker, mut escrow, mut vault, mut mta, mint_a) = opened_offer();
    let mint_b = Mint { key: pk(6), decimals: 9 };
    let taker = Wallet { key: pk(8), lamports: 500, is_signer: true };
    let mut taker_acc = TokenAccount {
        key: pk(10),
        mint: pk(6),
        authority: pk(8),
        amount: 60,
        lamports: 13,
        initialized: true,
    };
    let r = take_offer(
        &taker,
        &mut escrow,
        &mut vault,
        &mut maker,
        &mut mta,
        &mut taker_acc,
        &mint_a,
        &mint_b,
        Some(pk(2)),
    );
    assert_eq!(r, Ok(()));
    // The taker paid 50 of asset B and gained the vaulted 100 of asset A.
    assert_eq!(taker_acc.amount, 110);
    // The maker's destination account gained the 50 of asset B.
    assert_eq!(mta.amount, 200);
    // Vault and record are closed; every rent balance is the maker's again.
    assert!(!vault.initialized);
    assert_eq!(vault.amount, 0);
    assert_eq!(vault.lamports, 0);
    assert_eq!(escrow.data.len(), 0);
    assert_eq!(escrow.lamports, 0);
    assert_eq!(maker.lamports, 1_000);
    // Settlement is terminal: the same record admits no second TakeOffer and
    // no Refund.
    let r = take_offer(
        &taker,
        &mut escrow,
        &mut vault,
        &mut maker,
        &mut mta,
        &mut taker_acc,
        &mint_a,
        &mint_b,
        Some(pk(2)),
    );
    assert_eq!(r, Err(EscrowError::InvalidAccountData));
    let r = refund(
        &mut maker,
        &mut escrow,
        &mut vault,
        &mut mta,
        &mint_a,
        Some(pk(2)),
    );
    assert_eq!(r, Err(EscrowError::InvalidAccountData));
}

#[test]
fn refund_reverses_the_offer() {
    let (mut maker, mut escrow, mut vault, mut mta, mint_a) = opened_offer();
    let r = refund(
        &mut maker,
        &mut escrow,
        &mut vault,
        &mut mta,
        &mint_a,
        Some(pk(2)),
    );
    assert_eq!(r, Ok(()));
    // The maker's asset-A balance and lamports are back at their pre-offer
    // values; no asset-B account was ever touched.
    assert_eq!(mta.amount, 250);
    assert_eq!(maker.lamports, 1_000);
    assert!(!vault.initialized);
    assert_eq!(vault.amount, 0);
    assert_eq!(vault.lamports, 0);
    assert_eq!(escrow.data.len(), 0);
    assert_eq!(escrow.lamports, 0);
    // Cancellation is terminal too.
    let r = refund(
        &mut maker,
        &mut escrow,
        &mut vault,
        &mut mta,
        &mint_a,
        Some(pk(2)),
    );
    assert_eq!(r, Err(EscrowError::InvalidAccountData));
}

#[test]
fn take_offer_requires_signature() {
    let (mut maker, mut escrow, mut vault, mut mta, mint_a) = opened_offer();
    let mint_b = Mint { key: pk(6), decimals: 9 };
    let taker = Wallet { key: pk(8), lamports: 500, is_signer: false };
    let mut taker_acc = TokenAccount {
        key: pk(10),
        mint: pk(6),
        authority: pk(8),
        amount: 60,
        lamports: 13,
        initialized: true,
    };
    let r = take_offer(
        &taker,
        &mut escrow,
        &mut vault,
        &mut maker,
        &mut mta,
        &mut taker_acc,
        &mint_a,
        &mint_b,
        Some(pk(2)),
    );
    assert_eq!(r, Err(EscrowError::MissingRequiredSignature));
    // Zero ledger mutation.
    assert_eq!(taker_acc.amount, 60);
    assert_eq!(mta.amount, 150);
    assert_eq!(vault.amount, 100);
    assert_eq!(escrow.data.len(), ESCROW_STATE_LEN);
}

#[test]
fn take_offer_rejects_address_mismatch() {
    let (mut maker, mut escrow, mut vault, mut mta, mint_a) = opened_offer();
    let mint_b = Mint { key: pk(6), decimals: 9 };
    let taker = Wallet { key: pk(8), lamports: 500, is_signer: true };
    let mut taker_acc = TokenAccount {
        key: pk(10),
        mint: pk(6),
        authority: pk(8),
        amount: 60,
        lamports: 13,
        initialized: true,
    };
    let r = take_offer(
        &taker,
        &mut escrow,
        &mut vault,
        &mut maker,
        &mut mta,
        &mut taker_acc,
        &mint_a,
        &mint_b,
        Some(pk(9)),
    );
    assert_eq!(r, Err(EscrowError::PdaMismatch));
    // A vault other than the one the record names is refused too.
    vault.key = pk(9);
    let r = take_offer(
        &taker,
        &mut escrow,
        &mut vault,
        &mut maker,
        &mut mta,
        &mut taker_acc,
        &mint_a,
        &mint_b,
        Some(pk(2)),
    );
    assert_eq!(r, Err(EscrowError::PdaMismatch));
    assert_eq!(taker_acc.amount, 60);
    assert_eq!(mta.amount, 150);
    assert_eq!(vault.amount, 100);
}

#[test]
fn take_offer_rejects_wrong_maker() {
    let (_, mut escrow, mut vault, mut mta, mint_a) = opened_offer();
    let mint_b = Mint { key: pk(6), decimals: 9 };
    let taker = Wallet { key: pk(8), lamports: 500, is_signer: true };
    let mut wrong_maker = Wallet { key: pk(9), lamports: 0, is_signer: false };
    let mut taker_acc = TokenAccount {
        key: pk(10),
        mint: pk(6),
        authority: pk(8),
        amount: 60,
        lamports: 13,
        initialized: true,
    };
    let r = take_offer(
        &taker,
        &mut escrow,
        &mut vault,
        &mut wrong_maker,
        &mut mta,
        &mut taker_acc,
        &mint_a,
        &mint_b,
        Some(pk(2)),
    );
    assert_eq!(r, Err(EscrowError::InvalidAccountData));
}

#[test]
fn take_offer_rejects_leftover_vault_balance() {
    let (mut maker, mut escrow, mut vault, mut mta, mint_a) = opened_offer();
    let mint_b = Mint { key: pk(6), decimals: 9 };
    let taker = Wallet { key: pk(8), lamports: 500, is_signer: true };
    let mut taker_acc = TokenAccount {
        key: pk(10),
        mint: pk(6),
        authority: pk(8),
        amount: 60,
        lamports: 13,
        initialized: true,
    };
    vault.amount = 150;
    let r = take_offer(
        &taker,
        &mut escrow,
        &mut vault,
        &mut maker,
        &mut mta,
        &mut taker_acc,
        &mint_a,
        &mint_b,
        Some(pk(2)),
    );
    assert_eq!(r, Err(EscrowError::NonEmptyTokenAccount));
    assert_eq!(vault.amount, 150);
    assert_eq!(taker_acc.amount, 60);
}

#[test]
fn take_offer_rejects_wrong_assets() {
    let (mut maker, mut escrow, mut vault, mut mta, mint_a) = opened_offer();
    let mint_b = Mint { key: pk(6), decimals: 9 };
    let taker = Wallet { key: pk(8), lamports: 500, is_signer: true };
    // A taker account holding some other asset than B cannot pay the offer.
    let mut taker_acc = TokenAccount {
        key: pk(10),
        mint: pk(12),
        authority: pk(8),
        amount: 60,
        lamports: 13,
        initialized: true,
    };
    let r = take_offer(
        &taker,
        &mut escrow,
        &mut vault,
        &mut maker,
        &mut mta,
        &mut taker_acc,
        &mint_a,
        &mint_b,
        Some(pk(2)),
    );
    assert_eq!(r, Err(EscrowError::InvalidAccountData));
    // A maker-side mint that is not the vault's asset is refused too.
    taker_acc.mint = pk(6);
    let wrong_mint = Mint { key: pk(12), decimals: 6 };
    let r = take_offer(
        &taker,
        &mut escrow,
        &mut vault,
        &mut maker,
        &mut mta,
        &mut taker_acc,
        &wrong_mint,
        &mint_b,
        Some(pk(2)),
    );
    assert_eq!(r, Err(EscrowError::InvalidAccountData));
    // Without a derivation result the record cannot be authenticated.
    let r = take_offer(
        &taker,
        &mut escrow,
        &mut vault,
        &mut maker,
        &mut mta,
        &mut taker_acc,
        &mint_a,
        &mint_b,
        None,
    );
    assert_eq!(r, Err(EscrowError::InvalidSeeds));
    assert_eq!(taker_acc.amount, 60);
    assert_eq!(mta.amount, 150);
    assert_eq!(vault.amount, 100);
    assert_eq!(escrow.data.len(), ESCROW_STATE_LEN);
}

#[test]
fn take_offer_rejects_short_taker_balance() {
    let (mut maker, mut escrow, mut vault, mut mta, mint_a) = opened_offer();
    let mint_b = Mint { key: pk(6), decimals: 9 };
    let taker = Wallet { key: pk(8), lamports: 500, is_signer: true };
    let mut taker_acc = TokenAccount {
        key: pk(10),
        mint: pk(6),
        authority: pk(8),
        amount: 49,
        lamports: 13,
        initialized: true,
    };
    let r = take_offer(
        &taker,
        &mut escrow,
        &mut vault,
        &mut maker,
        &mut mta,
        &mut taker_acc,
        &mint_a,
        &mint_b,
        Some(pk(2)),
    );
    assert_eq!(r, Err(EscrowError::InsufficientFunds));
    assert_eq!(taker_acc.amount, 49);
    assert_eq!(vault.amount, 100);
}

#[test]
fn take_offer_rejects_overflowing_destination() {
    let (mut maker, mut escrow, mut vault, mut mta, mint_a) = opened_offer();
    let mint_b = Mint { key: pk(6), decimals: 9 };
    let taker = Wallet { key: pk(8), lamports: 500, is_signer: true };
    let mut taker_acc = TokenAccount {
        key: pk(10),
        mint: pk(6),
        authority: pk(8),
        amount: 60,
        lamports: 13,
        initialized: true,
    };
    mta.amount = u64::MAX;
    let r = take_offer(
        &taker,
        &mut escrow,
        &mut vault,
        &mut maker,
        &mut mta,
        &mut taker_acc,
        &mint_a,
        &mint_b,
        Some(pk(2)),
    );
    assert_eq!(r, Err(EscrowError::ArithmeticOverflow));
    assert_eq!(mta.amount, u64::MAX);
    assert_eq!(taker_acc.amount, 60);
    assert_eq!(vault.amount, 100);
}

#[test]
fn refund_requires_signature_and_matching_maker() {
    let (mut maker, mut escrow, mut vault, mut mta, mint_a) = opened_offer();
    maker.is_signer = false;
    let r = refund(
        &mut maker,
        &mut escrow,
        &mut vault,
        &mut mta,
        &mint_a,
        Some(pk(2)),
    );
    assert_eq!(r, Err(EscrowError::MissingRequiredSignature));
    let mut stranger = Wallet { key: pk(9), lamports: 0, is_signer: true };
    let r = refund(
        &mut stranger,
        &mut escrow,
        &mut vault,
        &mut mta,
        &mint_a,
        Some(pk(2)),
    );
    assert_eq!(r, Err(EscrowError::InvalidAccountData));
    assert_eq!(mta.amount, 150);
    assert_eq!(vault.amount, 100);
    assert_eq!(escrow.data.len(), ESCROW_STATE_LEN);
}

#[test]
fn refund_rejects_address_mismatch() {
    let (mut maker, mut escrow, mut vault, mut mta, mint_a) = opened_offer();
    let r = refund(
        &mut maker,
        &mut escrow,
        &mut vault,
        &mut mta,
        &mint_a,
        Some(pk(9)),
    );
    assert_eq!(r, Err(EscrowError::PdaMismatch));
    vault.key = pk(9);
    let r = refund(
        &mut maker,
        &mut escrow,
        &mut vault,
        &mut mta,
        &mint_a,
        Some(pk(2)),
    );
    assert_eq!(r, Err(EscrowError::PdaMismatch));
    assert_eq!(mta.amount, 150);
    assert_eq!(vault.amount, 100);
}
