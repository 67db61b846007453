use crate::effects::{Effect, EscrowAccount, Side};
use crate::errors::VyperOtcErrorCode;
use vstd::prelude::*;

verus! {

/// The balances of a contract's four escrow accounts, as the ledger reports them.
#[derive(Clone, Copy, Debug, PartialEq, Eq, Structural)]
pub struct EscrowBalances {
    pub senior_reserve: u64,
    pub junior_reserve: u64,
    pub senior_tranche: u64,
    pub junior_tranche: u64,
}

impl EscrowBalances {
    pub open spec fn balance(self, account: EscrowAccount) -> u64 {
        match account {
            EscrowAccount::SeniorReserve => self.senior_reserve,
            EscrowAccount::JuniorReserve => self.junior_reserve,
            EscrowAccount::SeniorTranche => self.senior_tranche,
            EscrowAccount::JuniorTranche => self.junior_tranche,
        }
    }

    pub open spec fn with_balance(self, account: EscrowAccount, v: u64) -> EscrowBalances {
        match account {
            EscrowAccount::SeniorReserve => EscrowBalances { senior_reserve: v, ..self },
            EscrowAccount::JuniorReserve => EscrowBalances { junior_reserve: v, ..self },
            EscrowAccount::SeniorTranche => EscrowBalances { senior_tranche: v, ..self },
            EscrowAccount::JuniorTranche => EscrowBalances { junior_tranche: v, ..self },
        }
    }

    /// All four escrow accounts are empty.
    pub open spec fn is_empty(self) -> bool {
        &&& self.senior_reserve == 0
        &&& self.junior_reserve == 0
        &&& self.senior_tranche == 0
        &&& self.junior_tranche == 0
    }

    /// `account` receives `amount`; a balance past `u64::MAX` is refused.
    pub open spec fn credited(self, account: EscrowAccount, amount: int) -> Result<
        EscrowBalances,
        VyperOtcErrorCode,
    > {
        if self.balance(account) + amount > u64::MAX {
            Err(VyperOtcErrorCode::MathError)
        } else {
            Ok(self.with_balance(account, (self.balance(account) + amount) as u64))
        }
    }

    /// `account` gives up `amount`; more than it holds is refused.
    pub open spec fn debited(self, account: EscrowAccount, amount: int) -> Result<
        EscrowBalances,
        VyperOtcErrorCode,
    > {
        if self.balance(account) < amount {
            Err(VyperOtcErrorCode::InsufficientFunds)
        } else {
            Ok(self.with_balance(account, (self.balance(account) - amount) as u64))
        }
    }

    /// The balances after the ledger and the tranche engine have carried out `e`.
    /// `proceeds` is what the tranche engine hands back for an engine deposit (the tranche
    /// claims it mints) or an engine redeem (the reserve it pays out); other effects ignore it.
    pub open spec fn after(self, e: Effect, proceeds: u64) -> Result<EscrowBalances, VyperOtcErrorCode> {
        match e {
            Effect::DepositIntoEscrow { to, amount } => self.credited(to, amount as int),
            Effect::PayOut { from, amount, .. } => self.debited(from, amount as int),
            Effect::EngineDeposit { side, senior_quantity, junior_quantity } => {
                match self.debited(side.reserve_account(), senior_quantity + junior_quantity) {
                    Ok(b) => b.credited(side.tranche_account(), proceeds as int),
                    Err(x) => Err(x),
                }
            },
            Effect::EngineRedeem { side, senior_quantity, junior_quantity } => {
                match self.debited(EscrowAccount::SeniorTranche, senior_quantity as int) {
                    Ok(b1) => match b1.debited(EscrowAccount::JuniorTranche, junior_quantity as int) {
                        Ok(b2) => b2.credited(side.reserve_account(), proceeds as int),
                        Err(x) => Err(x),
                    },
                    Err(x) => Err(x),
                }
            },
            Effect::EngineClose => Ok(self),
            Effect::CloseEscrow { account } => {
                if self.balance(account) == 0 {
                    Ok(self)
                } else {
                    Err(VyperOtcErrorCode::InsufficientFunds)
                }
            },
            Effect::CloseRecord => Ok(self),
        }
    }

    /// The balances after carrying out `fx` in order, the `i`-th effect with `proceeds[i]`.
    pub open spec fn after_all(self, fx: Seq<Effect>, proceeds: Seq<u64>) -> Result<
        EscrowBalances,
        VyperOtcErrorCode,
    >
        decreases fx.len(),
    {
        if fx.len() == 0 {
            Ok(self)
        } else {
            match self.after(fx[0], proceeds[0]) {
                Ok(b) => b.after_all(fx.skip(1), proceeds.skip(1)),
                Err(x) => Err(x),
            }
        }
    }

    pub fn balance_of(&self, account: EscrowAccount) -> (r: u64)
        ensures
            r == self.balance(account),
    {
        match account {
            EscrowAccount::SeniorReserve => self.senior_reserve,
            EscrowAccount::JuniorReserve => self.junior_reserve,
            EscrowAccount::SeniorTranche => self.senior_tranche,
            EscrowAccount::JuniorTranche => self.junior_tranche,
        }
    }

    pub fn all_zero(&self) -> (r: bool)
        ensures
            r == self.is_empty(),
    {
        self.senior_reserve == 0 && self.junior_reserve == 0 && self.senior_tranche == 0
            && self.junior_tranche == 0
    }

    fn set_balance(&mut self, account: EscrowAccount, v: u64)
        ensures
            *final(self) == old(self).with_balance(account, v),
    {
        match account {
            EscrowAccount::SeniorReserve => self.senior_reserve = v,
            EscrowAccount::JuniorReserve => self.junior_reserve = v,
            EscrowAccount::SeniorTranche => self.senior_tranche = v,
            EscrowAccount::JuniorTranche => self.junior_tranche = v,
        }
    }

    fn credit(&mut self, account: EscrowAccount, amount: u64) -> (r: Result<(), VyperOtcErrorCode>)
        ensures
            match old(self).credited(account, amount as int) {
                Ok(b) => r is Ok && *final(self) == b,
                Err(x) => r == Err::<(), VyperOtcErrorCode>(x) && *final(self) == *old(self),
            },
    {
        match self.balance_of(account).checked_add(amount) {
            Some(v) => {
                self.set_balance(account, v);
                Ok(())
            },
            None => Err(VyperOtcErrorCode::MathError),
        }
    }

    fn debit(&mut self, account: EscrowAccount, amount: u64) -> (r: Result<(), VyperOtcErrorCode>)
        ensures
            match old(self).debited(account, amount as int) {
                Ok(b) => r is Ok && *final(self) == b,
                Err(x) => r == Err::<(), VyperOtcErrorCode>(x) && *final(self) == *old(self),
            },
    {
        let held = self.balance_of(account);
        if held < amount {
            Err(VyperOtcErrorCode::InsufficientFunds)
        } else {
            self.set_balance(account, held - amount);
            Ok(())
        }
    }

    /// Carries out `e` on the balances, as `after` describes; on an error nothing changes.
    pub fn apply(&mut self, e: &Effect, proceeds: u64) -> (r: Result<(), VyperOtcErrorCode>)
        ensures
            match old(self).after(*e, proceeds) {
                Ok(b) => r is Ok && *final(self) == b,
                Err(x) => r == Err::<(), VyperOtcErrorCode>(x) && *final(self) == *old(self),
            },
    {
        let start = *self;
        let r = match *e {
            Effect::DepositIntoEscrow { to, amount } => self.credit(to, amount),
            Effect::PayOut { from, amount, .. } => self.debit(from, amount),
            Effect::EngineDeposit { side, senior_quantity, junior_quantity } => {
                match senior_quantity.checked_add(junior_quantity) {
                    Some(total) => match self.debit(side.reserve(), total) {
                        Ok(()) => self.credit(side.tranche(), proceeds),
                        Err(x) => Err(x),
                    },
                    None => Err(VyperOtcErrorCode::InsufficientFunds),
                }
            },
            Effect::EngineRedeem { side, senior_quantity, junior_quantity } => {
                match self.debit(EscrowAccount::SeniorTranche, senior_quantity) {
                    Ok(()) => match self.debit(EscrowAccount::JuniorTranche, junior_quantity) {
                        Ok(()) => self.credit(side.reserve(), proceeds),
                        Err(x) => Err(x),
                    },
                    Err(x) => Err(x),
                }
            },
            Effect::EngineClose => Ok(()),
            Effect::CloseEscrow { account } => {
                if self.balance_of(account) == 0 {
                    Ok(())
                } else {
                    Err(VyperOtcErrorCode::InsufficientFunds)
                }
            },
            Effect::CloseRecord => Ok(()),
        };
        if r.is_err() {
            *self = start;
        }
        r
    }
}

} // verus!
