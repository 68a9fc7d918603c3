//! A two-party escrow exchange protocol over account-based ledger state.
//!
//! A maker deposits an amount of asset A into a custody vault and names an
//! amount of asset B wanted in return; a taker may fulfill the offer, or the
//! maker may cancel it and reclaim custody. Escrow and vault accounts are
//! authenticated by deterministic address derivation, re-verified on every
//! operation, and the vault's custody authority is the escrow record itself.
//!
//! The hosting ledger (account storage, signature verification, rent
//! accounting, the token service and the address-derivation hash) is outside
//! this crate; each operation here is the decision core: it validates its
//! inputs and computes the exact post-state of every account it touches, as
//! one atomic step that either fully applies or leaves every account as it
//! was.
use vstd::prelude::*;

pub mod errors;
pub mod instructions;
pub mod lifecycle;
pub mod ledger;
pub mod make_offer;
pub mod refund;
pub mod states;
pub mod take_offer;

verus! {

/// The protocol's own identity: the owner of every escrow record account and
/// the namespace of all derived addresses.
pub const PROGRAM_ID: [u8; 32] = [
    231, 204, 15, 61, 172, 94, 28, 99, 187, 195, 161, 60, 98, 74, 250, 238, 43, 109, 240, 214, 41,
    153, 131, 20, 165, 204, 158, 196, 10, 100, 36, 24,
];

} // verus!
