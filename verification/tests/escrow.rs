use escrow_donate::donate::Donate;
use escrow_donate::make::{Make, MakeBumps};
use escrow_donate::state::{Escrow, EscrowError, SettleOutcome, TokenAccount};

const MINT: u64 = 7;
const MAKER: u64 = 11;
const AUTHORITY: u64 = 99;

fn ctx(donor: u64, donor_amount: u64, vault_amount: u64, maker_amount: u64, target: u64) -> Donate {
    Donate {
        donor,
        maker: MAKER,
        escrow: Escrow { mint: MINT, target, bump: 254 },
        escrow_authority: AUTHORITY,
        escrow_ata: TokenAccount { mint: MINT, authority: AUTHORITY, amount: vault_amount },
        donor_ata: TokenAccount { mint: MINT, authority: donor, amount: donor_amount },
        maker_ata: TokenAccount { mint: MINT, authority: MAKER, amount: maker_amount },
        mint: MINT,
    }
}

#[test]
fn make_sets_record() {
    let mut accounts = Make {
        maker: MAKER,
        mint: MINT,
        maker_ata: TokenAccount { mint: MINT, authority: MAKER, amount: 5 },
        escrow: Escrow { mint: 0, target: 0, bump: 0 },
    };
    accounts.make(100, &MakeBumps { escrow: 254 });
    assert_eq!(accounts.escrow.mint, MINT);
    assert_eq!(accounts.escrow.target, 100);
    assert_eq!(accounts.escrow.bump, 254);
    assert_eq!(accounts.maker_ata.amount, 5);
}

#[test]
fn make_entry_point_delegates() {
    let mut accounts = Make {
        maker: MAKER,
        mint: MINT,
        maker_ata: TokenAccount { mint: MINT, authority: MAKER, amount: 0 },
        escrow: Escrow { mint: 0, target: 0, bump: 0 },
    };
    escrow_donate::make(&mut accounts, 42, &MakeBumps { escrow: 251 });
    assert_eq!(accounts.escrow.mint, MINT);
    assert_eq!(accounts.escrow.target, 42);
    assert_eq!(accounts.escrow.bump, 251);
}

#[test]
fn exact_fit() {
    let mut d = ctx(1, 100, 0, 0, 100);
    assert_eq!(d.donate(100), Ok(100));
    assert_eq!(d.escrow_ata.amount, 100);
    assert_eq!(d.donor_ata.amount, 0);
    assert_eq!(d.check_donations(), SettleOutcome::Settled(100));
    assert_eq!(d.maker_ata.amount, 100);
    assert_eq!(d.escrow_ata.amount, 0);
}

#[test]
fn overshoot_clamp() {
    let mut d = ctx(1, 150, 0, 0, 100);
    assert_eq!(d.donate(150), Ok(100));
    assert_eq!(d.escrow_ata.amount, 100);
    assert_eq!(d.donor_ata.amount, 50);
}

#[test]
fn multi_donor_accumulation() {
    let mut first = ctx(1, 40, 0, 0, 100);
    assert_eq!(first.donate(40), Ok(40));
    assert_eq!(first.escrow_ata.amount, 40);
    assert_eq!(first.donor_ata.amount, 0);

    let mut second = ctx(2, 70, first.escrow_ata.amount, 0, 100);
    assert_eq!(second.donate(70), Ok(60));
    assert_eq!(second.escrow_ata.amount, 100);
    assert_eq!(second.donor_ata.amount, 10);
}

#[test]
fn premature_settlement() {
    let mut d = ctx(1, 30, 0, 0, 100);
    assert_eq!(d.donate(30), Ok(30));
    assert_eq!(d.check_donations(), SettleOutcome::NotYetMet);
    assert_eq!(d.escrow_ata.amount, 30);
    assert_eq!(d.maker_ata.amount, 0);
}

#[test]
fn settlement_is_idempotent() {
    let mut d = ctx(1, 100, 0, 7, 100);
    assert_eq!(d.donate(100), Ok(100));
    assert_eq!(d.check_donations(), SettleOutcome::Settled(100));
    assert_eq!(d.maker_ata.amount, 107);
    assert_eq!(d.check_donations(), SettleOutcome::NotYetMet);
    assert_eq!(d.maker_ata.amount, 107);
    assert_eq!(d.escrow_ata.amount, 0);
}

#[test]
fn insufficient_donor_balance() {
    let mut d = ctx(1, 20, 0, 0, 100);
    let before = d;
    assert_eq!(d.donate(50), Err(EscrowError::InsufficientDonorBalance));
    assert_eq!(d, before);
}

#[test]
fn record_mismatch_rejected() {
    let mut d = ctx(1, 50, 0, 0, 100);
    d.escrow.mint = MINT + 1;
    let before = d;
    assert_eq!(d.donate(50), Err(EscrowError::RecordMismatch));
    assert_eq!(d, before);
}

#[test]
fn donation_after_target_met_moves_nothing() {
    let mut d = ctx(1, 25, 100, 0, 100);
    assert_eq!(d.donate(25), Ok(0));
    assert_eq!(d.escrow_ata.amount, 100);
    assert_eq!(d.donor_ata.amount, 25);
}

#[test]
fn cap_holds_after_every_donation() {
    let target: u64 = 100;
    let offers: [u64; 4] = [40, 0, 70, 30];
    let mut vault: u64 = 0;
    for (i, offer) in offers.iter().enumerate() {
        let mut d = ctx(i as u64, *offer, vault, 0, target);
        d.donate(*offer).unwrap();
        vault = d.escrow_ata.amount;
        assert!(vault <= target);
    }
    assert_eq!(vault, 100);
}

#[test]
fn debits_equal_vault_growth() {
    let target: u64 = 100;
    let offers: [u64; 3] = [40, 70, 10];
    let mut vault: u64 = 0;
    let mut debited: u64 = 0;
    for (i, offer) in offers.iter().enumerate() {
        let mut d = ctx(i as u64, *offer, vault, 0, target);
        let moved = d.donate(*offer).unwrap();
        debited += moved;
        vault = d.escrow_ata.amount;
    }
    assert_eq!(debited, vault);
    assert_eq!(vault, 100);
}

#[test]
fn zero_target_settles_immediately() {
    let mut d = ctx(1, 50, 0, 3, 0);
    assert_eq!(d.donate(50), Ok(0));
    assert_eq!(d.donor_ata.amount, 50);
    assert_eq!(d.check_donations(), SettleOutcome::Settled(0));
    assert_eq!(d.maker_ata.amount, 3);
    assert_eq!(d.escrow_ata.amount, 0);
}

#[test]
fn clamp_near_largest_amounts() {
    let target = u64::MAX;
    let mut d = ctx(1, u64::MAX, u64::MAX - 5, 0, target);
    assert_eq!(d.donate(10), Ok(5));
    assert_eq!(d.escrow_ata.amount, u64::MAX);
    assert_eq!(d.donor_ata.amount, u64::MAX - 5);
}

#[test]
fn validated_accepts_matching_accounts() {
    let d = ctx(1, 10, 0, 0, 100);
    assert!(d.validated());
    let mut wrong = d;
    wrong.donor_ata.authority = MAKER;
    assert!(!wrong.validated());
}
