//! Creating an escrow: fixes the target and records the derivation parameter
//! needed to later reconstruct the escrow's signing identity.
//!
//! Storage-layer concerns stay with the environment: the record's address is
//! derived from the (maker, asset) pair, so a duplicate record for the same
//! pair is structurally impossible, and provisioning the maker's own balance
//! holder is idempotent. No funds move here.

use vstd::prelude::*;
use crate::state::{Escrow, TokenAccount};

verus! {

/// The derivation parameters the environment found for the new record.
#[derive(Clone, Copy, PartialEq, Eq, Debug)]
pub struct MakeBumps {
    /// The bump that makes the escrow record's derived address valid.
    pub escrow: u8,
}

/// The accounts a creation works on: the maker, the asset type, the maker's
/// own (possibly freshly provisioned) balance holder, and the new record.
#[derive(Clone, Copy, PartialEq, Eq, Debug)]
pub struct Make {
    /// The maker's identity.
    pub maker: u64,
    /// The asset type the escrow will accept.
    pub mint: u64,
    /// The maker's balance holder for that asset.
    pub maker_ata: TokenAccount,
    /// The freshly allocated escrow record, to be filled in.
    pub escrow: Escrow,
}

impl Make {
    /// Fills the new escrow record: binds it to the asset, fixes the target
    /// at `amount`, and stores the authority-derivation parameter.
    ///
    /// No balance changes; everything but the record is left untouched.
    pub fn make(&mut self, amount: u64, bumps: &MakeBumps)
        ensures
            final(self).escrow.mint == old(self).mint,
            final(self).escrow.target == amount,
            final(self).escrow.bump == bumps.escrow,
            final(self).maker == old(self).maker,
            final(self).mint == old(self).mint,
            final(self).maker_ata == old(self).maker_ata,
    {
        self.escrow.mint = self.mint;
        self.escrow.target = amount;
        self.escrow.bump = bumps.escrow;
    }
}

} // verus!
