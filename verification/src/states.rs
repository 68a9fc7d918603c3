//! The escrow record: the persisted state describing one outstanding offer,
//! with its fixed-width little-endian byte layout. The layout is the only
//! durable format of the protocol; the record is written exactly once, by
//! MakeOffer, and read back by TakeOffer and Refund.
use vstd::prelude::*;
use vstd::bytes::lemma_auto_spec_u64_to_from_le_bytes;
use vstd::bytes::spec_u64_from_le_bytes;
use vstd::bytes::spec_u64_to_le_bytes;
use vstd::bytes::u64_from_le_bytes;
use vstd::bytes::u64_to_le_bytes;
use vstd::slice::slice_subrange;
use crate::errors::EscrowError;

verus! {

/// A 32-byte ledger identity.
pub type Pubkey = [u8; 32];

/// Exact byte length of a serialized record: five 32-byte identities, two
/// 64-bit amounts, one discriminator byte.
pub const ESCROW_STATE_LEN: usize = 177;

/// Seed namespace under which an escrow record's address is derived from
/// the maker's identity and the bump byte.
pub const ESCROW_SEED: &'static str = "escrow";

/// Seed namespace under which a vault's address is derived from the escrow
/// record's address.
pub const VAULT_SEED: &'static str = "vault";

/// One outstanding offer. All fields are fixed at creation and immutable for
/// the lifetime of the record.
#[derive(Clone, Copy, Debug, PartialEq, Eq)]
pub struct EscrowState {
    /// Identity of the offer's creator.
    pub maker: Pubkey,
    /// Identity of the asset the maker deposited (asset A).
    pub maker_token_mint: Pubkey,
    /// Identity of the asset the maker wants in return (asset B).
    pub taker_token_mint: Pubkey,
    /// Deposited quantity of asset A; always positive.
    pub maker_amount: u64,
    /// Requested quantity of asset B; always positive.
    pub taker_amount: u64,
    /// Identity of the custody account holding the deposit.
    pub vault: Pubkey,
    /// Identity of the maker's own asset-A holding account (audit trail).
    pub maker_token_account: Pubkey,
    /// Discriminator byte that, with the seed namespace and the maker,
    /// reproduces the record's own address.
    pub bump: u8,
}

impl EscrowState {
    /// The record's byte image: fields in declared order, amounts
    /// little-endian, at fixed offsets 0, 32, 64, 96, 104, 112, 144, 176.
    pub open spec fn spec_serialize(self) -> Seq<u8> {
        self.maker@ + self.maker_token_mint@ + self.taker_token_mint@ + spec_u64_to_le_bytes(
            self.maker_amount,
        ) + spec_u64_to_le_bytes(self.taker_amount) + self.vault@ + self.maker_token_account@
            + seq![self.bump]
    }

    /// Writes the record's byte image.
    pub fn serialize(&self) -> (out: Vec<u8>)
        ensures
            out@ == self.spec_serialize(),
            out@.len() == ESCROW_STATE_LEN,
    {
        let mut out: Vec<u8> = Vec::new();
        push_pubkey(&mut out, &self.maker);
        push_pubkey(&mut out, &self.maker_token_mint);
        push_pubkey(&mut out, &self.taker_token_mint);
        let mut a = u64_to_le_bytes(self.maker_amount);
        out.append(&mut a);
        let mut b = u64_to_le_bytes(self.taker_amount);
        out.append(&mut b);
        push_pubkey(&mut out, &self.vault);
        push_pubkey(&mut out, &self.maker_token_account);
        out.push(self.bump);
        proof {
            assert(out@ =~= self.spec_serialize());
            lemma_auto_spec_u64_to_from_le_bytes();
        }
        out
    }

    /// Reads a record back from its byte image. Returns the record whose
    /// image the input is; any input of the wrong length is rejected, so a
    /// closed (emptied) account can never be read as a live record.
    pub fn deserialize(data: &[u8]) -> (r: Result<EscrowState, EscrowError>)
        ensures
            data@.len() != ESCROW_STATE_LEN ==> r == Err::<EscrowState, EscrowError>(
                EscrowError::InvalidAccountData,
            ),
            data@.len() == ESCROW_STATE_LEN ==> (r matches Ok(st) && st.spec_serialize() == data@
                && spec_record_matches(st, data@)),
    {
        if data.len() != ESCROW_STATE_LEN {
            return Err(EscrowError::InvalidAccountData);
        }
        let st = EscrowState {
            maker: read_pubkey(data, 0),
            maker_token_mint: read_pubkey(data, 32),
            taker_token_mint: read_pubkey(data, 64),
            maker_amount: u64_from_le_bytes(slice_subrange(data, 96, 104)),
            taker_amount: u64_from_le_bytes(slice_subrange(data, 104, 112)),
            vault: read_pubkey(data, 112),
            maker_token_account: read_pubkey(data, 144),
            bump: data[176],
        };
        proof {
            lemma_auto_spec_u64_to_from_le_bytes();
            assert(spec_u64_to_le_bytes(st.maker_amount) == data@.subrange(96, 104));
            assert(spec_u64_to_le_bytes(st.taker_amount) == data@.subrange(104, 112));
            assert(st.spec_serialize() =~= data@);
        }
        Ok(st)
    }
}

/// What `EscrowState::validate_pda` returns: no derived address is a seed
/// failure, a derived address unequal to the presented account is an address
/// mismatch.
pub open spec fn spec_validate_pda(derived: Option<Pubkey>, pda: Pubkey) -> Result<
    (),
    EscrowError,
> {
    if derived is None {
        Err(EscrowError::InvalidSeeds)
    } else if derived.unwrap()@ != pda@ {
        Err(EscrowError::PdaMismatch)
    } else {
        Ok(())
    }
}

impl EscrowState {
    /// The verification form of deterministic address derivation: the
    /// derivation oracle's answer for the record's seeds (namespace, owner,
    /// bump) must equal the account actually presented; a mismatch is a hard
    /// authentication failure, never a warning. This is the sole
    /// authentication of the escrow account — no signature exists for it.
    pub fn validate_pda(derived: Option<Pubkey>, pda: &Pubkey) -> (r: Result<(), EscrowError>)
        ensures
            r == spec_validate_pda(derived, *pda),
    {
        match derived {
            None => Err(EscrowError::InvalidSeeds),
            Some(d) => {
                if pubkey_eq(&d, pda) {
                    Ok(())
                } else {
                    Err(EscrowError::PdaMismatch)
                }
            },
        }
    }
}

/// The field values stored at the record's fixed byte offsets. Used by the
/// operations' contracts to speak of the record a supplied account holds.
pub open spec fn rec_maker(s: Seq<u8>) -> Seq<u8> {
    s.subrange(0, 32)
}

pub open spec fn rec_maker_token_mint(s: Seq<u8>) -> Seq<u8> {
    s.subrange(32, 64)
}

pub open spec fn rec_taker_token_mint(s: Seq<u8>) -> Seq<u8> {
    s.subrange(64, 96)
}

pub open spec fn rec_maker_amount(s: Seq<u8>) -> u64 {
    spec_u64_from_le_bytes(s.subrange(96, 104))
}

pub open spec fn rec_taker_amount(s: Seq<u8>) -> u64 {
    spec_u64_from_le_bytes(s.subrange(104, 112))
}

pub open spec fn rec_vault(s: Seq<u8>) -> Seq<u8> {
    s.subrange(112, 144)
}

pub open spec fn rec_maker_token_account(s: Seq<u8>) -> Seq<u8> {
    s.subrange(144, 176)
}

pub open spec fn rec_bump(s: Seq<u8>) -> u8 {
    s[176]
}

/// The record whose stored fields stand at the image's fixed offsets, up to
/// the identity fields' byte content.
pub open spec fn spec_record_matches(st: EscrowState, s: Seq<u8>) -> bool {
    &&& st.maker@ == rec_maker(s)
    &&& st.maker_token_mint@ == rec_maker_token_mint(s)
    &&& st.taker_token_mint@ == rec_taker_token_mint(s)
    &&& st.maker_amount == rec_maker_amount(s)
    &&& st.taker_amount == rec_taker_amount(s)
    &&& st.vault@ == rec_vault(s)
    &&& st.maker_token_account@ == rec_maker_token_account(s)
    &&& st.bump == rec_bump(s)
}

/// The layout law: a record's byte image stores each field at its fixed
/// offset, so reading the image back yields exactly the record that was
/// written. With `deserialize`, this is the codec's round trip.
pub proof fn lemma_serialize_fields(st: EscrowState)
    ensures
        st.spec_serialize().len() == ESCROW_STATE_LEN,
        spec_record_matches(st, st.spec_serialize()),
{
    lemma_auto_spec_u64_to_from_le_bytes();
    let s = st.spec_serialize();
    assert(s.subrange(0, 32) =~= st.maker@);
    assert(s.subrange(32, 64) =~= st.maker_token_mint@);
    assert(s.subrange(64, 96) =~= st.taker_token_mint@);
    assert(s.subrange(96, 104) =~= spec_u64_to_le_bytes(st.maker_amount));
    assert(s.subrange(104, 112) =~= spec_u64_to_le_bytes(st.taker_amount));
    assert(s.subrange(112, 144) =~= st.vault@);
    assert(s.subrange(144, 176) =~= st.maker_token_account@);
}

/// Copies the 32 bytes at `off` into a fresh identity value.
pub fn read_pubkey(data: &[u8], off: usize) -> (k: Pubkey)
    requires
        off + 32 <= data@.len(),
    ensures
        k@ == data@.subrange(off as int, off as int + 32),
{
    let n: usize = data.len();
    let mut k: Pubkey = [0u8; 32];
    let mut i: usize = 0;
    while i < 32
        invariant
            0 <= i <= 32,
            off + 32 <= n == data@.len(),
            forall|j: int| 0 <= j < i ==> k@[j] == data@[off + j],
        decreases 32 - i,
    {
        k[i] = data[off + i];
        i = i + 1;
    }
    proof {
        assert(k@ =~= data@.subrange(off as int, off as int + 32));
    }
    k
}

/// Compares two 32-byte identities for byte equality.
pub fn pubkey_eq(a: &Pubkey, b: &Pubkey) -> (r: bool)
    ensures
        r == (a@ == b@),
{
    let mut i: usize = 0;
    while i < 32
        invariant
            0 <= i <= 32,
            forall|j: int| 0 <= j < i ==> a@[j] == b@[j],
        decreases 32 - i,
    {
        if a[i] != b[i] {
            return false;
        }
        i = i + 1;
    }
    proof {
        assert(a@ =~= b@);
    }
    true
}

/// Appends the 32 bytes of an identity.
fn push_pubkey(out: &mut Vec<u8>, k: &Pubkey)
    ensures
        final(out)@ == old(out)@ + k@,
{
    let mut i: usize = 0;
    proof {
        assert(out@ =~= out@ + k@.subrange(0, 0));
    }
    while i < 32
        invariant
            0 <= i <= 32,
            out@ =~= old(out)@ + k@.subrange(0, i as int),
        decreases 32 - i,
    {
        out.push(k[i]);
        proof {
            assert(out@ =~= old(out)@ + k@.subrange(0, i + 1));
        }
        i = i + 1;
    }
    proof {
        assert(k@.subrange(0, 32) =~= k@);
    }
}

} // verus!
