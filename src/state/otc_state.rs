use crate::effects::Side;
use crate::identity::Identity;
use vstd::prelude::*;

verus! {

/// The persistent record of one agreement.
#[derive(Clone, Debug, PartialEq, Eq)]
pub struct OtcState {
    /// When the record was created.
    pub created: i64,
    /// The deposit window `[deposit_start, deposit_end]`.
    pub deposit_start: i64,
    pub deposit_end: i64,
    /// The earliest time at which settlement may run.
    pub settle_start: i64,
    /// Set once, by settlement.
    pub settle_executed: bool,
    /// What each side deposits; fixed at creation.
    pub senior_deposit_amount: u64,
    pub junior_deposit_amount: u64,
    /// Who receives each side's proceeds; each set at most once.
    pub senior_side_beneficiary: Option<Identity>,
    pub junior_side_beneficiary: Option<Identity>,
    /// The tranche engine configuration that this contract alone controls, and the engine.
    pub vyper_tranche_config: Identity,
    pub vyper_core: Identity,
    /// The four escrow accounts, all owned by `otc_authority`.
    pub otc_senior_reserve_token_account: Identity,
    pub otc_junior_reserve_token_account: Identity,
    pub otc_senior_tranche_token_account: Identity,
    pub otc_junior_tranche_token_account: Identity,
    /// The escrow authority, derived from `authority_seed` (the record's own identity),
    /// the domain tag and `authority_bump`.
    pub otc_authority: Identity,
    pub authority_seed: Identity,
    pub authority_bump: u8,
    /// Build stamp: major, minor and patch version.
    pub version: [u8; 3],
}

/// Where a contract stands in its lifecycle, derived from its fields and the time.
#[derive(Clone, Copy, Debug, PartialEq, Eq, Structural)]
pub enum ContractStatus {
    /// Neither side has deposited, and the deposit window is not over.
    Open,
    /// Exactly one side has deposited, and the deposit window is not over.
    HalfFunded,
    /// Both sides have deposited and the reserves sit in the tranche engine.
    FullyFunded,
    /// Settlement has run; the reserves are back in escrow, ready to be claimed.
    Settled,
    /// The deposit window closed before both sides deposited.
    Cancelled,
}

/// The domain tag that, with the record's identity and a bump byte, derives the escrow
/// authority: the bytes of `authority`.
pub open spec fn authority_tag() -> Seq<u8> {
    seq![97u8, 117, 116, 104, 111, 114, 105, 116, 121]
}

impl OtcState {
    /// The invariant of every reachable record.
    pub open spec fn wf(self) -> bool {
        &&& self.settle_start > self.deposit_end
        &&& self.settle_executed ==> self.is_fully_funded()
    }

    pub open spec fn is_fully_funded(self) -> bool {
        self.senior_side_beneficiary is Some && self.junior_side_beneficiary is Some
    }

    pub open spec fn beneficiary(self, side: Side) -> Option<Identity> {
        match side {
            Side::Senior => self.senior_side_beneficiary,
            Side::Junior => self.junior_side_beneficiary,
        }
    }

    pub open spec fn deposit_amount(self, side: Side) -> u64 {
        match side {
            Side::Senior => self.senior_deposit_amount,
            Side::Junior => self.junior_deposit_amount,
        }
    }

    /// The record with `who` recorded as `side`'s beneficiary.
    pub open spec fn with_beneficiary(self, side: Side, who: Identity) -> OtcState {
        match side {
            Side::Senior => OtcState { senior_side_beneficiary: Some(who), ..self },
            Side::Junior => OtcState { junior_side_beneficiary: Some(who), ..self },
        }
    }

    /// The side whose beneficiary is `who`; where both are, the junior side.
    pub open spec fn side_of(self, who: Identity) -> Option<Side> {
        if self.junior_side_beneficiary matches Some(j) && j@ == who@ {
            Some(Side::Junior)
        } else if self.senior_side_beneficiary matches Some(s) && s@ == who@ {
            Some(Side::Senior)
        } else {
            None
        }
    }

    pub open spec fn status_at(self, now: i64) -> ContractStatus {
        if self.settle_executed {
            ContractStatus::Settled
        } else if self.is_fully_funded() {
            ContractStatus::FullyFunded
        } else if now > self.deposit_end {
            ContractStatus::Cancelled
        } else if self.senior_side_beneficiary is Some || self.junior_side_beneficiary is Some {
            ContractStatus::HalfFunded
        } else {
            ContractStatus::Open
        }
    }

    pub fn is_well_formed(&self) -> (r: bool)
        ensures
            r == self.wf(),
    {
        self.settle_start > self.deposit_end && (!self.settle_executed
            || self.both_sides_taken())
    }

    pub fn both_sides_taken(&self) -> (r: bool)
        ensures
            r == self.is_fully_funded(),
    {
        self.senior_side_beneficiary.is_some() && self.junior_side_beneficiary.is_some()
    }

    pub fn side_taken(&self, side: Side) -> (r: bool)
        ensures
            r == self.beneficiary(side) is Some,
    {
        match side {
            Side::Senior => self.senior_side_beneficiary.is_some(),
            Side::Junior => self.junior_side_beneficiary.is_some(),
        }
    }

    pub fn deposit_amount_of(&self, side: Side) -> (r: u64)
        ensures
            r == self.deposit_amount(side),
    {
        match side {
            Side::Senior => self.senior_deposit_amount,
            Side::Junior => self.junior_deposit_amount,
        }
    }

    pub fn set_beneficiary(&mut self, side: Side, who: Identity)
        ensures
            *final(self) == old(self).with_beneficiary(side, who),
    {
        match side {
            Side::Senior => self.senior_side_beneficiary = Some(who),
            Side::Junior => self.junior_side_beneficiary = Some(who),
        }
    }

    /// The side whose beneficiary is `who`, if any.
    pub fn find_side(&self, who: &Identity) -> (r: Option<Side>)
        ensures
            r == self.side_of(*who),
    {
        if let Some(j) = &self.junior_side_beneficiary {
            if j == who {
                return Some(Side::Junior);
            }
        }
        if let Some(s) = &self.senior_side_beneficiary {
            if s == who {
                return Some(Side::Senior);
            }
        }
        None
    }

    pub fn status(&self, now: i64) -> (r: ContractStatus)
        ensures
            r == self.status_at(now),
    {
        if self.settle_executed {
            ContractStatus::Settled
        } else if self.both_sides_taken() {
            ContractStatus::FullyFunded
        } else if now > self.deposit_end {
            ContractStatus::Cancelled
        } else if self.senior_side_beneficiary.is_some() || self.junior_side_beneficiary.is_some() {
            ContractStatus::HalfFunded
        } else {
            ContractStatus::Open
        }
    }

    /// The seeds that derive the escrow authority: the record's identity, the domain tag
    /// and the bump byte.
    pub fn authority_seeds(&self) -> (r: Vec<Vec<u8>>)
        ensures
            r@.len() == 3,
            r@[0]@ == self.authority_seed@,
            r@[1]@ == authority_tag(),
            r@[2]@ == seq![self.authority_bump],
    {
        let tag: Vec<u8> = vec![97u8, 117, 116, 104, 111, 114, 105, 116, 121];
        let bump: Vec<u8> = vec![self.authority_bump];
        let mut seeds: Vec<Vec<u8>> = Vec::new();
        seeds.push(self.authority_seed.to_vec());
        seeds.push(tag);
        seeds.push(bump);
        seeds
    }
}

} // verus!
