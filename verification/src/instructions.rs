//! Instruction selection and the fixed-layout payloads. A single leading
//! discriminator byte selects the operation; each payload is a fixed-size
//! little-endian structure, rejected whole if its length is wrong.
use vstd::prelude::*;
use vstd::bytes::spec_u64_from_le_bytes;
use vstd::bytes::u64_from_le_bytes;
use vstd::slice::slice_subrange;
use crate::errors::EscrowError;

verus! {

/// The operation a call's leading discriminator byte selects.
#[derive(Clone, Copy, Debug, PartialEq, Eq, Structural)]
pub enum ProgramInstruction {
    MakeOffer,
    TakeOffer,
    Refund,
}

impl ProgramInstruction {
    /// Selects the operation: 0 is MakeOffer, 1 is TakeOffer, 2 is Refund;
    /// every other byte is an invalid instruction.
    pub fn try_from(value: &u8) -> (r: Result<ProgramInstruction, EscrowError>)
        ensures
            *value == 0 ==> r == Ok::<ProgramInstruction, EscrowError>(
                ProgramInstruction::MakeOffer,
            ),
            *value == 1 ==> r == Ok::<ProgramInstruction, EscrowError>(
                ProgramInstruction::TakeOffer,
            ),
            *value == 2 ==> r == Ok::<ProgramInstruction, EscrowError>(ProgramInstruction::Refund),
            *value >= 3 ==> r == Err::<ProgramInstruction, EscrowError>(
                EscrowError::InvalidInstructionData,
            ),
    {
        match *value {
            0 => Ok(ProgramInstruction::MakeOffer),
            1 => Ok(ProgramInstruction::TakeOffer),
            2 => Ok(ProgramInstruction::Refund),
            _ => Err(EscrowError::InvalidInstructionData),
        }
    }

    /// The arity `accounts_required` returns.
    pub open spec fn spec_accounts_required(self) -> usize {
        match self {
            ProgramInstruction::MakeOffer => 9,
            ProgramInstruction::TakeOffer => 9,
            ProgramInstruction::Refund => 6,
        }
    }

    /// The fixed arity of the operation's account list. A call that supplies
    /// any other number of accounts fails before any other check.
    pub fn accounts_required(&self) -> (n: usize)
        ensures
            *self == ProgramInstruction::MakeOffer ==> n == 9,
            *self == ProgramInstruction::TakeOffer ==> n == 9,
            *self == ProgramInstruction::Refund ==> n == 6,
    {
        match *self {
            ProgramInstruction::MakeOffer => 9,
            ProgramInstruction::TakeOffer => 9,
            ProgramInstruction::Refund => 6,
        }
    }
}

/// Checks an operation's account-list arity: the exact fixed count is
/// required, anything else is a malformed account set.
pub fn check_account_arity(ix: &ProgramInstruction, supplied: usize) -> (r: Result<
    (),
    EscrowError,
>)
    ensures
        r is Ok <==> supplied == ix.spec_accounts_required(),
        r is Err ==> r == Err::<(), EscrowError>(EscrowError::NotEnoughAccountKeys),
{
    let required = ix.accounts_required();
    if supplied == required {
        Ok(())
    } else {
        Err(EscrowError::NotEnoughAccountKeys)
    }
}

/// MakeOffer's payload length: two 64-bit amounts and the bump byte.
pub const MAKE_OFFER_LEN: usize = 17;

/// MakeOffer's payload: what to deposit, what to ask, and the discriminator
/// byte under which the escrow record's address was derived.
#[derive(Clone, Copy, Debug, PartialEq, Eq)]
pub struct MakeOffer {
    /// Quantity of asset A the maker deposits; must be positive.
    pub deposit_amount: u64,
    /// Quantity of asset B the maker asks for; must be positive.
    pub receive_amount: u64,
    /// Discriminator byte of the escrow record's derived address.
    pub escrow_bump: u8,
}

impl MakeOffer {
    /// Decodes the payload: `deposit_amount` little-endian at offset 0,
    /// `receive_amount` at 8, `escrow_bump` at 16; any other length is
    /// malformed.
    pub fn try_from_bytes(data: &[u8]) -> (r: Result<MakeOffer, EscrowError>)
        ensures
            data@.len() != MAKE_OFFER_LEN ==> r == Err::<MakeOffer, EscrowError>(
                EscrowError::InvalidInstructionData,
            ),
            data@.len() == MAKE_OFFER_LEN ==> (r matches Ok(p) && p.deposit_amount
                == spec_u64_from_le_bytes(data@.subrange(0, 8)) && p.receive_amount
                == spec_u64_from_le_bytes(data@.subrange(8, 16)) && p.escrow_bump == data@[16]),
    {
        if data.len() != MAKE_OFFER_LEN {
            return Err(EscrowError::InvalidInstructionData);
        }
        Ok(
            MakeOffer {
                deposit_amount: u64_from_le_bytes(slice_subrange(data, 0, 8)),
                receive_amount: u64_from_le_bytes(slice_subrange(data, 8, 16)),
                escrow_bump: data[16],
            },
        )
    }
}

/// TakeOffer's payload length: the bump byte alone.
pub const TAKE_OFFER_LEN: usize = 1;

/// TakeOffer's payload. The operation itself re-reads the bump from the
/// stored record; the byte here only mirrors the fixed wire layout.
#[derive(Clone, Copy, Debug, PartialEq, Eq)]
pub struct TakeOffer {
    /// Discriminator byte of the escrow record's derived address.
    pub bump: u8,
}

impl TakeOffer {
    /// Decodes the payload: the bump byte at offset 0; any other length is
    /// malformed.
    pub fn try_from_bytes(data: &[u8]) -> (r: Result<TakeOffer, EscrowError>)
        ensures
            data@.len() != TAKE_OFFER_LEN ==> r == Err::<TakeOffer, EscrowError>(
                EscrowError::InvalidInstructionData,
            ),
            data@.len() == TAKE_OFFER_LEN ==> (r matches Ok(p) && p.bump == data@[0]),
    {
        if data.len() != TAKE_OFFER_LEN {
            return Err(EscrowError::InvalidInstructionData);
        }
        Ok(TakeOffer { bump: data[0] })
    }
}

/// Refund's payload length: the bump byte alone.
pub const REFUND_LEN: usize = 1;

/// Refund's payload. The operation itself re-reads the bump from the stored
/// record; the byte here only mirrors the fixed wire layout.
#[derive(Clone, Copy, Debug, PartialEq, Eq)]
pub struct Refund {
    /// Discriminator byte of the escrow record's derived address.
    pub bump: u8,
}

impl Refund {
    /// Decodes the payload: the bump byte at offset 0; any other length is
    /// malformed.
    pub fn try_from_bytes(data: &[u8]) -> (r: Result<Refund, EscrowError>)
        ensures
            data@.len() != REFUND_LEN ==> r == Err::<Refund, EscrowError>(
                EscrowError::InvalidInstructionData,
            ),
            data@.len() == REFUND_LEN ==> (r matches Ok(p) && p.bump == data@[0]),
    {
        if data.len() != REFUND_LEN {
            return Err(EscrowError::InvalidInstructionData);
        }
        Ok(Refund { bump: data[0] })
    }
}

} // verus!
