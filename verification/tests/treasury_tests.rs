use tycoon_game::TreasurySnapshot;

#[test]
fn sim_01_treasury_invariant_deposit_escrow_release() {
    let mut snap = TreasurySnapshot {
        sum_of_balances: 1_000,
        escrow: 0,
        liabilities: 600,
        treasury: 400,
    };
    assert!(snap.invariant_holds());
    snap.assert_invariant();

    let lock = 200_u64;
    snap.sum_of_balances -= lock;
    snap.escrow += lock;
    assert!(snap.invariant_holds());
    snap.assert_invariant();

    snap.escrow -= lock;
    snap.sum_of_balances += lock;
    assert!(snap.invariant_holds());
    snap.assert_invariant();
}

#[test]
fn sim_02_treasury_invariant_after_partial_withdrawal() {
    let mut snap = TreasurySnapshot {
        sum_of_balances: 2_000,
        escrow: 500,
        liabilities: 1_000,
        treasury: 1_500,
    };
    assert!(snap.invariant_holds());
    snap.assert_invariant();

    let withdraw = 300_u64;
    snap.sum_of_balances -= withdraw;
    snap.treasury -= withdraw;
    assert!(snap.invariant_holds());
    snap.assert_invariant();
}

#[test]
fn sim_03_treasury_invariant_violated_when_liabilities_exceed_assets() {
    let snap = TreasurySnapshot {
        sum_of_balances: 500,
        escrow: 100,
        liabilities: 700,
        treasury: 0,
    };
    assert!(
        !snap.invariant_holds(),
        "SIM-03: invariant should be violated"
    );
}

#[test]
fn sim_04_sequential_sessions_preserve_treasury_invariant() {
    let mut snap = TreasurySnapshot {
        sum_of_balances: 10_000,
        escrow: 0,
        liabilities: 5_000,
        treasury: 5_000,
    };

    for _ in 0..3 {
        let stake = 500_u64;
        snap.sum_of_balances -= stake;
        snap.escrow += stake;
        assert!(snap.invariant_holds());
        snap.assert_invariant();

        snap.escrow -= stake;
        snap.sum_of_balances += stake;
        assert!(snap.invariant_holds());
        snap.assert_invariant();
    }
}

#[test]
fn sim_18_treasury_invariant_multiple_escrow_cycles_varying_stakes() {
    let stakes = [100_u64, 250, 500, 1_000, 2_500];
    let mut snap = TreasurySnapshot {
        sum_of_balances: 20_000,
        escrow: 0,
        liabilities: 8_000,
        treasury: 12_000,
    };
    assert!(snap.invariant_holds());
    snap.assert_invariant();

    for stake in stakes {
        snap.sum_of_balances -= stake;
        snap.escrow += stake;
        assert!(snap.invariant_holds());
        snap.assert_invariant();

        snap.escrow -= stake;
        snap.sum_of_balances += stake;
        assert!(snap.invariant_holds());
        snap.assert_invariant();
    }
}

#[test]
fn solvency_boundary_equal_assets_and_liabilities() {
    let snap = TreasurySnapshot { sum_of_balances: 400, escrow: 200, liabilities: 600, treasury: 0 };
    assert!(snap.invariant_holds());
    let over = TreasurySnapshot { liabilities: 601, ..snap };
    assert!(!over.invariant_holds());
}

#[test]
fn solvency_with_extreme_values_does_not_overflow() {
    let snap = TreasurySnapshot {
        sum_of_balances: u64::MAX,
        escrow: u64::MAX,
        liabilities: u64::MAX,
        treasury: u64::MAX,
    };
    assert!(snap.invariant_holds());
    let broke = TreasurySnapshot { sum_of_balances: 0, escrow: 0, liabilities: 1, treasury: 0 };
    assert!(!broke.invariant_holds());
}

#[test]
fn lock_then_release_restores_snapshot() {
    let start = TreasurySnapshot { sum_of_balances: 900, escrow: 100, liabilities: 800, treasury: 200 };
    let mut snap = start;
    snap.sum_of_balances -= 300;
    snap.escrow += 300;
    assert!(snap.invariant_holds());
    snap.escrow -= 300;
    snap.sum_of_balances += 300;
    assert_eq!(snap, start);
}

#[test]
fn withdrawal_keeps_solvency_only_within_surplus() {
    let snap = TreasurySnapshot { sum_of_balances: 2_000, escrow: 500, liabilities: 1_000, treasury: 1_500 };
    let within = TreasurySnapshot { sum_of_balances: 500, treasury: 0, ..snap };
    assert!(within.invariant_holds());
    let snap2 = TreasurySnapshot { sum_of_balances: 1_000, escrow: 0, liabilities: 900, treasury: 500 };
    let beyond = TreasurySnapshot { sum_of_balances: 800, treasury: 300, ..snap2 };
    assert!(snap2.invariant_holds());
    assert!(!beyond.invariant_holds());
}
