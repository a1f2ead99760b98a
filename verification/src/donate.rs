//! Donating into the vault, and settling the vault to the maker.
//!
//! A donation moves `min(offered, target - vault)` from the donor's holder
//! into the vault, so the vault never exceeds the target; any excess offered
//! stays with the donor. A settlement check forwards the whole vault balance
//! to the maker once the vault has reached the target, and otherwise moves
//! nothing.

use vstd::prelude::*;
use crate::state::{Escrow, EscrowError, SettleOutcome, TokenAccount};

verus! {

/// How much of `offered` a donation moves into a vault holding `funded`
/// toward `target`: the offer, clamped to the remaining capacity.
pub open spec fn clamped_amount(target: int, funded: int, offered: int) -> int {
    if offered > target - funded {
        target - funded
    } else {
        offered
    }
}

/// The vault balance after a settlement check: drained when it had reached
/// the target, untouched otherwise.
pub open spec fn settled_vault(target: int, vault: int) -> int {
    if vault >= target {
        0
    } else {
        vault
    }
}

/// The maker balance after a settlement check on a vault holding `vault`.
pub open spec fn settled_maker(target: int, vault: int, maker: int) -> int {
    if vault >= target {
        maker + vault
    } else {
        maker
    }
}

/// What a settlement check transfers out of a vault holding `vault`.
pub open spec fn settle_transfer(target: int, vault: int) -> int {
    if vault >= target {
        vault
    } else {
        0
    }
}

/// The accounts a donation works on: the donor and maker identities, the
/// escrow record, the vault, and the donor's and maker's balance holders.
#[derive(Clone, Copy, PartialEq, Eq, Debug)]
pub struct Donate {
    /// The donor's identity; the donor authorizes the debit of their holder.
    pub donor: u64,
    /// The maker's identity the record's address is derived from.
    pub maker: u64,
    /// The escrow record located for the (maker, asset) pair.
    pub escrow: Escrow,
    /// The escrow's signing authority, re-derived by the environment from the
    /// record's bump, the maker and the asset; never stored as a secret.
    pub escrow_authority: u64,
    /// The vault: the balance holder controlled by the derived authority.
    pub escrow_ata: TokenAccount,
    /// The donor's balance holder for the escrow's asset.
    pub donor_ata: TokenAccount,
    /// The maker's balance holder for the escrow's asset.
    pub maker_ata: TokenAccount,
    /// The asset type supplied with the call.
    pub mint: u64,
}

impl Donate {
    /// The supplied accounts all belong together: every holder carries the
    /// escrow's asset, the record is bound to that asset, the donor and the
    /// maker control their own holders, and the vault is controlled by the
    /// escrow's derived authority — so no single party can move funds out of
    /// it directly.
    pub open spec fn consistent(self) -> bool {
        &&& self.escrow.mint == self.mint
        &&& self.escrow_ata.mint == self.mint
        &&& self.donor_ata.mint == self.mint
        &&& self.maker_ata.mint == self.mint
        &&& self.donor_ata.authority == self.donor
        &&& self.maker_ata.authority == self.maker
        &&& self.escrow_ata.authority == self.escrow_authority
    }

    /// Checks [`Self::consistent`] executably: whether the record and holders
    /// match the (maker, asset) pair supplied.
    pub fn validated(&self) -> (r: bool)
        ensures
            r == self.consistent(),
    {
        self.escrow.mint == self.mint
            && self.escrow_ata.mint == self.mint
            && self.donor_ata.mint == self.mint
            && self.maker_ata.mint == self.mint
            && self.donor_ata.authority == self.donor
            && self.maker_ata.authority == self.maker
            && self.escrow_ata.authority == self.escrow_authority
    }

    /// The amount a donation of `offered` would move, given this state.
    pub open spec fn transfer_for(self, offered: u64) -> int {
        clamped_amount(self.escrow.target as int, self.escrow_ata.amount as int, offered as int)
    }

    /// Donates: moves `min(amount, target - vault)` from the donor's holder
    /// into the vault, authorized by the donor, and returns the amount moved.
    ///
    /// When the vault already holds the target, the move is of zero and
    /// simply confirms the escrow is fully funded. The vault never exceeds
    /// the target, and a failed call changes nothing.
    pub fn donate(&mut self, amount: u64) -> (r: Result<u64, EscrowError>)
        requires
            old(self).escrow_ata.amount <= old(self).escrow.target,
        ensures
            !old(self).consistent() ==> r == Err::<u64, EscrowError>(EscrowError::RecordMismatch)
                && *final(self) == *old(self),
            old(self).consistent() && (old(self).donor_ata.amount as int) < old(self).transfer_for(amount)
                ==> r == Err::<u64, EscrowError>(EscrowError::InsufficientDonorBalance)
                    && *final(self) == *old(self),
            old(self).consistent() && (old(self).donor_ata.amount as int) >= old(self).transfer_for(amount)
                ==> {
                    &&& r == Ok::<u64, EscrowError>(old(self).transfer_for(amount) as u64)
                    &&& final(self).escrow_ata.amount ==
                        old(self).escrow_ata.amount + old(self).transfer_for(amount)
                    &&& final(self).donor_ata.amount ==
                        old(self).donor_ata.amount - old(self).transfer_for(amount)
                },
            final(self).escrow_ata.amount <= final(self).escrow.target,
            final(self).donor_ata.amount + final(self).escrow_ata.amount
                == old(self).donor_ata.amount + old(self).escrow_ata.amount,
            final(self).maker_ata.amount == old(self).maker_ata.amount,
            final(self).escrow == old(self).escrow,
            final(self).donor == old(self).donor,
            final(self).maker == old(self).maker,
            final(self).mint == old(self).mint,
            final(self).escrow_authority == old(self).escrow_authority,
            final(self).escrow_ata.mint == old(self).escrow_ata.mint,
            final(self).escrow_ata.authority == old(self).escrow_ata.authority,
            final(self).donor_ata.mint == old(self).donor_ata.mint,
            final(self).donor_ata.authority == old(self).donor_ata.authority,
            final(self).maker_ata == old(self).maker_ata,
    {
        if !self.validated() {
            return Err(EscrowError::RecordMismatch);
        }

        let total_donated = self.escrow_ata.amount;
        let remaining = self.escrow.target - total_donated;

        let amount_to_transfer = if amount > remaining {
            remaining
        } else {
            amount
        };

        if self.donor_ata.amount < amount_to_transfer {
            return Err(EscrowError::InsufficientDonorBalance);
        }

        self.donor_ata.amount = self.donor_ata.amount - amount_to_transfer;
        self.escrow_ata.amount = self.escrow_ata.amount + amount_to_transfer;

        Ok(amount_to_transfer)
    }

    /// Settles if due: when the vault has reached the target, forwards the
    /// entire vault balance to the maker, authorized by the escrow's derived
    /// authority, all-or-nothing; otherwise reports that the target is not
    /// yet met and moves nothing — a non-error outcome, never a failure.
    ///
    /// Never transfers more than the vault holds, and never transfers while
    /// the vault is below the target.
    pub fn check_donations(&mut self) -> (r: SettleOutcome)
        requires
            old(self).consistent(),
            old(self).maker_ata.amount + old(self).escrow_ata.amount <= u64::MAX,
        ensures
            final(self).escrow_ata.amount ==
                settled_vault(old(self).escrow.target as int, old(self).escrow_ata.amount as int),
            final(self).maker_ata.amount == settled_maker(
                old(self).escrow.target as int,
                old(self).escrow_ata.amount as int,
                old(self).maker_ata.amount as int,
            ),
            old(self).escrow_ata.amount >= old(self).escrow.target
                ==> r == SettleOutcome::Settled(old(self).escrow_ata.amount),
            old(self).escrow_ata.amount < old(self).escrow.target
                ==> r == SettleOutcome::NotYetMet && *final(self) == *old(self),
            final(self).maker_ata.amount + final(self).escrow_ata.amount
                == old(self).maker_ata.amount + old(self).escrow_ata.amount,
            final(self).donor_ata == old(self).donor_ata,
            final(self).escrow == old(self).escrow,
            final(self).donor == old(self).donor,
            final(self).maker == old(self).maker,
            final(self).mint == old(self).mint,
            final(self).escrow_authority == old(self).escrow_authority,
            final(self).escrow_ata.mint == old(self).escrow_ata.mint,
            final(self).escrow_ata.authority == old(self).escrow_ata.authority,
            final(self).maker_ata.mint == old(self).maker_ata.mint,
            final(self).maker_ata.authority == old(self).maker_ata.authority,
    {
        if self.escrow_ata.amount >= self.escrow.target {
            let settled = self.escrow_ata.amount;
            self.maker_ata.amount = self.maker_ata.amount + settled;
            self.escrow_ata.amount = 0;
            SettleOutcome::Settled(settled)
        } else {
            SettleOutcome::NotYetMet
        }
    }
}

} // verus!
