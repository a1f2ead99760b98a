//! The escrow's durable record and the plain-value model of the balance
//! holders it works with.
//!
//! Identities (the maker, a donor, an asset type, a derived authority) are
//! carried as opaque `u64` identifiers: the escrow logic only ever compares
//! them for equality. Balances are `u64` amounts of a single fungible asset.

use vstd::prelude::*;

verus! {

/// The durable escrow record, created once per (maker, asset) pair.
///
/// `target > 0` is assumed by callers, not enforced here: with a zero target
/// every donation is a zero-effect no-op and settlement fires immediately.
#[derive(Clone, Copy, PartialEq, Eq, Debug)]
pub struct Escrow {
    /// Identifier of the fungible-asset type this escrow accepts; immutable
    /// after creation.
    pub mint: u64,
    /// The total amount the escrow aims to collect; set once, never mutated.
    pub target: u64,
    /// Derivation parameter that, with the maker and the asset, re-derives the
    /// escrow's signing authority and storage address. Immutable.
    pub bump: u8,
}

/// A balance holder for one asset type, controlled by one authority.
///
/// The vault is such a holder whose controlling authority is the escrow's
/// derived identity; donor and maker holders are controlled by their owners.
#[derive(Clone, Copy, PartialEq, Eq, Debug)]
pub struct TokenAccount {
    /// The asset type this holder carries.
    pub mint: u64,
    /// The identity allowed to move funds out of this holder.
    pub authority: u64,
    /// The current balance.
    pub amount: u64,
}

/// The errors a donation can surface.
#[derive(Clone, Copy, PartialEq, Eq, Debug)]
pub enum EscrowError {
    /// The supplied accounts do not all belong to the escrow record's
    /// (maker, asset) pair.
    RecordMismatch,
    /// The donor's holder has less than the amount to be moved.
    InsufficientDonorBalance,
}

/// What a settlement check observed and did.
///
/// "Target not yet met" is a deliberate non-error outcome, distinct from a
/// genuine failure: the check never fails, it informs.
#[derive(Clone, Copy, PartialEq, Eq, Debug)]
pub enum SettleOutcome {
    /// The vault had reached the target; its whole balance, given here, was
    /// forwarded to the maker.
    Settled(u64),
    /// The vault is still below the target; nothing moved.
    NotYetMet,
}

} // verus!
