//! A target-capped escrow.
//!
//! A maker opens an escrow toward a fixed numeric goal for one asset type.
//! Donors contribute into a vault whose only controlling authority is the
//! escrow's own derived identity; each contribution is capped so the vault
//! never exceeds the target. Once the vault reaches the target, a settlement
//! check forwards the whole vault balance to the maker.
//!
//! This crate holds the escrow's accounting and release logic over a
//! plain-value model of the records and balance holders. The environment
//! that provisions storage, executes transfers and derives addresses is an
//! external collaborator: it applies the balance changes this logic decides.

pub mod state;
pub mod make;
pub mod donate;
pub mod laws;

use vstd::prelude::*;
use crate::make::{Make, MakeBumps};

verus! {

/// Creates an escrow record for a maker and an asset type, fixing the target
/// at `amount`. Delegates to [`Make::make`].
pub fn make(accounts: &mut Make, amount: u64, bumps: &MakeBumps)
    ensures
        final(accounts).escrow.mint == old(accounts).mint,
        final(accounts).escrow.target == amount,
        final(accounts).escrow.bump == bumps.escrow,
        final(accounts).maker == old(accounts).maker,
        final(accounts).mint == old(accounts).mint,
        final(accounts).maker_ata == old(accounts).maker_ata,
{
    accounts.make(amount, bumps)
}

} // verus!
