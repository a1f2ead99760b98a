//! The escrow's laws: what holds across whole sequences of donations and
//! repeated settlement checks, proved from the same spec functions the
//! operations' contracts are stated over.

use vstd::prelude::*;
use crate::donate::{clamped_amount, settle_transfer, settled_maker, settled_vault};

verus! {

/// The vault balance after a sequence of donations of the `offers` amounts,
/// starting from `funded`, each clamped to the capacity remaining then.
pub open spec fn vault_after(target: int, funded: int, offers: Seq<int>) -> int
    decreases offers.len(),
{
    if offers.len() == 0 {
        funded
    } else {
        let prev = vault_after(target, funded, offers.drop_last());
        prev + clamped_amount(target, prev, offers.last())
    }
}

/// The total debited from donors' holders over that same sequence.
pub open spec fn total_debited(target: int, funded: int, offers: Seq<int>) -> int
    decreases offers.len(),
{
    if offers.len() == 0 {
        0
    } else {
        let prev = vault_after(target, funded, offers.drop_last());
        total_debited(target, funded, offers.drop_last()) + clamped_amount(target, prev, offers.last())
    }
}

/// One donation keeps the vault within bounds: starting at or below the
/// target, the clamped credit lands at or below the target and never below
/// where it started.
pub proof fn lemma_cap_step(target: int, funded: int, offered: int)
    requires
        0 <= funded <= target,
        offered >= 0,
    ensures
        funded <= funded + clamped_amount(target, funded, offered) <= target,
{
}

/// Cap invariant: for every sequence of donations, after each one the vault
/// balance stays between zero and the target.
pub proof fn lemma_cap_invariant(target: int, funded: int, offers: Seq<int>)
    requires
        0 <= funded <= target,
        forall|i: int| 0 <= i < offers.len() ==> offers[i] >= 0,
    ensures
        forall|i: int| 0 <= i <= offers.len()
            ==> 0 <= #[trigger] vault_after(target, funded, offers.take(i)) <= target,
    decreases offers.len(),
{
    if offers.len() == 0 {
        assert(offers.take(0) =~= offers);
    } else {
        let head = offers.drop_last();
        lemma_cap_invariant(target, funded, head);
        assert forall|i: int| 0 <= i <= offers.len()
            implies 0 <= #[trigger] vault_after(target, funded, offers.take(i)) <= target by {
            if i < offers.len() {
                assert(offers.take(i) =~= head.take(i));
            } else {
                assert(offers.take(i) =~= offers);
                assert(head.take(head.len() as int) =~= head);
                lemma_cap_step(target, vault_after(target, funded, head), offers.last());
            }
        }
    }
}

/// Conservation: what all donors were debited over a sequence of donations is
/// exactly what the vault gained — with an empty vault to begin with, the
/// total debited equals the vault's balance before settlement.
pub proof fn lemma_conservation(target: int, funded: int, offers: Seq<int>)
    ensures
        funded + total_debited(target, funded, offers) == vault_after(target, funded, offers),
    decreases offers.len(),
{
    if offers.len() > 0 {
        lemma_conservation(target, funded, offers.drop_last());
    }
}

/// Idempotent settlement: right after one settlement check, a second check
/// transfers nothing and leaves both the vault and the maker as they were.
pub proof fn lemma_idempotent_settlement(target: int, vault: int, maker: int)
    requires
        0 <= vault,
    ensures
        settle_transfer(target, settled_vault(target, vault)) == 0,
        settled_vault(target, settled_vault(target, vault)) == settled_vault(target, vault),
        settled_maker(target, settled_vault(target, vault), settled_maker(target, vault, maker))
            == settled_maker(target, vault, maker),
{
}

/// No over-settlement: a settlement check never transfers more than the vault
/// holds at call time, and transfers nothing while the vault is below the
/// target.
pub proof fn lemma_no_over_settlement(target: int, vault: int)
    requires
        0 <= vault,
    ensures
        settle_transfer(target, vault) <= vault,
        vault < target ==> settle_transfer(target, vault) == 0,
{
}

} // verus!
