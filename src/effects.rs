use crate::identity::Identity;
use vstd::prelude::*;

verus! {

/// One of the two positions of the agreement.
#[derive(Clone, Copy, Debug, PartialEq, Eq, Structural)]
pub enum Side {
    Senior,
    Junior,
}

/// The four ledger accounts that the escrow authority holds for a contract.
#[derive(Clone, Copy, Debug, PartialEq, Eq, Structural)]
pub enum EscrowAccount {
    SeniorReserve,
    JuniorReserve,
    SeniorTranche,
    JuniorTranche,
}

impl Side {
    /// The escrow account that holds this side's reserve asset.
    pub open spec fn reserve_account(self) -> EscrowAccount {
        match self {
            Side::Senior => EscrowAccount::SeniorReserve,
            Side::Junior => EscrowAccount::JuniorReserve,
        }
    }

    /// The escrow account that holds this side's tranche claims.
    pub open spec fn tranche_account(self) -> EscrowAccount {
        match self {
            Side::Senior => EscrowAccount::SeniorTranche,
            Side::Junior => EscrowAccount::JuniorTranche,
        }
    }

    pub fn tranche(self) -> (r: EscrowAccount)
        ensures
            r == self.tranche_account(),
    {
        match self {
            Side::Senior => EscrowAccount::SeniorTranche,
            Side::Junior => EscrowAccount::JuniorTranche,
        }
    }

    pub fn reserve(self) -> (r: EscrowAccount)
        ensures
            r == self.reserve_account(),
    {
        match self {
            Side::Senior => EscrowAccount::SeniorReserve,
            Side::Junior => EscrowAccount::JuniorReserve,
        }
    }
}

/// A side effect on the ledger or on the tranche engine that an operation asks its caller
/// to perform, in order, as part of the same atomic transaction.
#[derive(Clone, Copy, Debug, PartialEq, Eq)]
pub enum Effect {
    /// Move `amount` of reserve from the depositor's own account into the escrow account `to`,
    /// authorized by the depositor.
    DepositIntoEscrow { to: EscrowAccount, amount: u64 },
    /// Move `amount` out of the escrow account `from` to `beneficiary`, authorized by the
    /// escrow authority.
    PayOut { from: EscrowAccount, beneficiary: Identity, amount: u64 },
    /// Deposit reserve quantities `[senior_quantity, junior_quantity]` into the tranche engine,
    /// drawn from `side`'s reserve escrow; the minted tranche claims land in the tranche escrows.
    EngineDeposit { side: Side, senior_quantity: u64, junior_quantity: u64 },
    /// Redeem tranche quantities `[senior_quantity, junior_quantity]` from the tranche escrows;
    /// the reserve paid out lands in `side`'s reserve escrow.
    EngineRedeem { side: Side, senior_quantity: u64, junior_quantity: u64 },
    /// Close the tranche engine configuration, returning its allocation to the caller.
    EngineClose,
    /// Close an escrow account; the ledger refuses this unless its balance is zero.
    CloseEscrow { account: EscrowAccount },
    /// Close the contract record itself, returning its storage allowance to the caller.
    CloseRecord,
}

impl Effect {
    /// Whether this effect forwards reserve of `side` into the tranche engine.
    pub open spec fn forwards(self, side: Side) -> bool {
        self matches Effect::EngineDeposit { side: s, .. } && s == side
    }
}

/// How many effects of `fx` forward reserve of `side` into the tranche engine.
pub open spec fn forward_count(fx: Seq<Effect>, side: Side) -> nat
    decreases fx.len(),
{
    if fx.len() == 0 {
        0
    } else {
        (if fx.last().forwards(side) { 1nat } else { 0nat }) + forward_count(fx.drop_last(), side)
    }
}

} // verus!
