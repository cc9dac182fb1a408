use vstd::prelude::*;

verus! {

/// A snapshot of the treasury's books, in token units.
///
/// `sum_of_balances` and `escrow` are the assets the contract holds for
/// players (free balances and stakes locked in running games);
/// `liabilities` is what the contract owes; `treasury` is the protocol's own
/// share.
#[derive(Clone, Copy, Debug, PartialEq, Eq)]
pub struct TreasurySnapshot {
    pub sum_of_balances: u64,
    pub escrow: u64,
    pub liabilities: u64,
    pub treasury: u64,
}

impl TreasurySnapshot {
    /// The solvency invariant: liabilities never exceed the assets held,
    /// that is the free balances plus the escrowed stakes.
    pub open spec fn solvent(self) -> bool {
        self.liabilities <= self.sum_of_balances + self.escrow
    }

    /// Whether the solvency invariant holds for this snapshot.
    pub fn invariant_holds(&self) -> (r: bool)
        ensures
            r == self.solvent(),
    {
        let assets: u128 = self.sum_of_balances as u128 + self.escrow as u128;
        (self.liabilities as u128) <= assets
    }

    /// Checks the solvency invariant. Verified callers must establish it,
    /// so the check cannot fail at run time.
    pub fn assert_invariant(&self)
        requires
            self.solvent(),
    {
    }

    /// The snapshot after `amount` of the protocol's share is paid out of
    /// the free balances.
    pub open spec fn withdrawn(self, amount: u64) -> TreasurySnapshot {
        TreasurySnapshot {
            sum_of_balances: (self.sum_of_balances - amount) as u64,
            treasury: (self.treasury - amount) as u64,
            ..self
        }
    }

    /// The snapshot after `stake` moves from the free balances into escrow.
    pub open spec fn locked(self, stake: u64) -> TreasurySnapshot {
        TreasurySnapshot {
            sum_of_balances: (self.sum_of_balances - stake) as u64,
            escrow: (self.escrow + stake) as u64,
            ..self
        }
    }

    /// The snapshot after `stake` moves from escrow back to the free balances.
    pub open spec fn released(self, stake: u64) -> TreasurySnapshot {
        TreasurySnapshot {
            sum_of_balances: (self.sum_of_balances + stake) as u64,
            escrow: (self.escrow - stake) as u64,
            ..self
        }
    }
}

/// A snapshot is solvent exactly when its liabilities are at most the free
/// balances plus the escrowed stakes; the protocol's share plays no part.
pub proof fn lemma_solvency_meaning(s: TreasurySnapshot)
    ensures
        s.solvent() <==> s.liabilities as int <= s.sum_of_balances as int + s.escrow as int,
        s.solvent() == (TreasurySnapshot { treasury: 0, ..s }).solvent(),
{
}

/// Paying `amount` out of the protocol's share keeps a solvent treasury
/// solvent exactly when the assets left still cover the liabilities, that is
/// when the amount is at most the surplus of assets over liabilities.
pub proof fn lemma_withdrawal_solvency(s: TreasurySnapshot, amount: u64)
    requires
        s.solvent(),
        amount <= s.sum_of_balances,
        amount <= s.treasury,
    ensures
        s.withdrawn(amount).solvent() <==> s.liabilities + amount <= s.sum_of_balances + s.escrow,
{
}

/// Locking a stake into escrow keeps a solvent treasury solvent.
pub proof fn lemma_lock_preserves_solvency(s: TreasurySnapshot, stake: u64)
    requires
        s.solvent(),
        stake <= s.sum_of_balances,
        s.escrow + stake <= u64::MAX,
    ensures
        s.locked(stake).solvent(),
{
}

/// Releasing an escrowed stake keeps a solvent treasury solvent.
pub proof fn lemma_release_preserves_solvency(s: TreasurySnapshot, stake: u64)
    requires
        s.solvent(),
        stake <= s.escrow,
        s.sum_of_balances + stake <= u64::MAX,
    ensures
        s.released(stake).solvent(),
{
}

/// Locking a stake and releasing it again gives back the snapshot one
/// started from.
pub proof fn lemma_lock_then_release_restores(s: TreasurySnapshot, stake: u64)
    requires
        stake <= s.sum_of_balances,
        s.escrow + stake <= u64::MAX,
    ensures
        s.locked(stake).released(stake) == s,
{
}

} // verus!
