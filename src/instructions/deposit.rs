use crate::effects::{Effect, Side};
use crate::errors::VyperOtcErrorCode;
use crate::escrow::EscrowBalances;
use crate::identity::Identity;
use crate::instructions::follows;
use crate::state::otc_state::OtcState;
use vstd::prelude::*;

verus! {

/// What a deposit observes: the time, the beneficiary named by the depositor, and the
/// escrow balances before the deposit.
#[derive(Clone, Copy, Debug)]
pub struct DepositContext {
    pub now: i64,
    pub beneficiary: Identity,
    pub escrow: EscrowBalances,
}

/// Which side the depositor takes.
#[derive(Clone, Copy, Debug, PartialEq, Eq, Structural)]
pub struct DepositInputData {
    pub is_senior_side: bool,
}

impl DepositInputData {
    pub open spec fn side_spec(self) -> Side {
        if self.is_senior_side {
            Side::Senior
        } else {
            Side::Junior
        }
    }

    #[verifier::when_used_as_spec(side_spec)]
    pub fn side(self) -> (r: Side)
        ensures
            r == self.side_spec(),
    {
        if self.is_senior_side {
            Side::Senior
        } else {
            Side::Junior
        }
    }
}

/// The reserve escrow of `side` after the depositor's transfer, as an integer.
pub open spec fn funded_reserve(s: OtcState, ctx: DepositContext, side: Side) -> int {
    ctx.escrow.balance(side.reserve_account()) + s.deposit_amount(side)
}

/// The reserve of `side` that forming the position forwards to the tranche engine: the
/// whole balance of its reserve escrow once the depositor's transfer has landed.
pub open spec fn forwarded_reserve(s: OtcState, ctx: DepositContext, depositing: Side, side: Side) -> u64 {
    if side == depositing {
        funded_reserve(s, ctx, side) as u64
    } else {
        ctx.escrow.balance(side.reserve_account())
    }
}

/// The outcome of a deposit: the side must be free and the window open; the side's fixed
/// amount moves into its reserve escrow and the beneficiary is recorded. When that makes
/// both sides taken, both reserve escrows are forwarded to the tranche engine, one leg each.
pub open spec fn deposit_outcome(s: OtcState, ctx: DepositContext, input: DepositInputData) -> Result<
    (OtcState, Seq<Effect>),
    VyperOtcErrorCode,
> {
    let side = input.side();
    if s.beneficiary(side) is Some {
        Err(VyperOtcErrorCode::SideAlreadyTaken)
    } else if ctx.now > s.deposit_end {
        Err(VyperOtcErrorCode::DepositClosed)
    } else if funded_reserve(s, ctx, side) > u64::MAX {
        Err(VyperOtcErrorCode::MathError)
    } else {
        let next = s.with_beneficiary(side, ctx.beneficiary);
        let pay_in = Effect::DepositIntoEscrow {
            to: side.reserve_account(),
            amount: s.deposit_amount(side),
        };
        if next.is_fully_funded() {
            let senior_leg = Effect::EngineDeposit {
                side: Side::Senior,
                senior_quantity: forwarded_reserve(s, ctx, side, Side::Senior),
                junior_quantity: 0,
            };
            let junior_leg = Effect::EngineDeposit {
                side: Side::Junior,
                senior_quantity: 0,
                junior_quantity: forwarded_reserve(s, ctx, side, Side::Junior),
            };
            Ok((next, seq![pay_in, senior_leg, junior_leg]))
        } else {
            Ok((next, seq![pay_in]))
        }
    }
}

/// Takes one side of the agreement for `ctx.beneficiary`.
pub fn handler(state: &mut OtcState, ctx: &DepositContext, input_data: DepositInputData) -> (r:
    Result<Vec<Effect>, VyperOtcErrorCode>)
    requires
        old(state).wf(),
    ensures
        follows(deposit_outcome(*old(state), *ctx, input_data), *old(state), *final(state), r),
        final(state).wf(),
        final(state).deposit_end == old(state).deposit_end,
        final(state).settle_start == old(state).settle_start,
        old(state).beneficiary(input_data.side()) is Some ==> r == Err::<Vec<Effect>, VyperOtcErrorCode>(
            VyperOtcErrorCode::SideAlreadyTaken,
        ),
{
    let side = input_data.side();
    if state.side_taken(side) {
        return Err(VyperOtcErrorCode::SideAlreadyTaken);
    }
    if ctx.now > state.deposit_end {
        return Err(VyperOtcErrorCode::DepositClosed);
    }
    let amount = state.deposit_amount_of(side);
    let funded = match ctx.escrow.balance_of(side.reserve()).checked_add(amount) {
        Some(v) => v,
        None => return Err(VyperOtcErrorCode::MathError),
    };
    state.set_beneficiary(side, ctx.beneficiary);
    let mut fx: Vec<Effect> = Vec::new();
    fx.push(Effect::DepositIntoEscrow { to: side.reserve(), amount });
    if state.both_sides_taken() {
        let (senior_quantity, junior_quantity) = match side {
            Side::Senior => (funded, ctx.escrow.junior_reserve),
            Side::Junior => (ctx.escrow.senior_reserve, funded),
        };
        fx.push(Effect::EngineDeposit { side: Side::Senior, senior_quantity, junior_quantity: 0 });
        fx.push(Effect::EngineDeposit { side: Side::Junior, senior_quantity: 0, junior_quantity });
    }
    proof {
        let expected = deposit_outcome(*old(state), *ctx, input_data);
        assert(expected matches Ok((s2, e2)) && fx@ =~= e2);
    }
    Ok(fx)
}

} // verus!
