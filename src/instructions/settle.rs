use crate::effects::{Effect, Side};
use crate::errors::VyperOtcErrorCode;
use crate::escrow::EscrowBalances;
use crate::instructions::follows;
use crate::state::otc_state::OtcState;
use vstd::prelude::*;

verus! {

/// What settlement observes: the time and the escrow balances.
#[derive(Clone, Copy, Debug)]
pub struct RedeemContext {
    pub now: i64,
    pub escrow: EscrowBalances,
}

/// The outcome of settlement: from the settlement time on, once, on a fully funded
/// contract, both tranche escrows are redeemed in full, each leg's reserve landing in its
/// side's reserve escrow, and the record is marked settled.
pub open spec fn settle_outcome(s: OtcState, ctx: RedeemContext) -> Result<
    (OtcState, Seq<Effect>),
    VyperOtcErrorCode,
> {
    if ctx.now < s.settle_start {
        Err(VyperOtcErrorCode::OtcClosed)
    } else if s.settle_executed {
        Err(VyperOtcErrorCode::SettleAlreadyExecuted)
    } else if !s.is_fully_funded() {
        Err(VyperOtcErrorCode::InvalidConfiguration)
    } else {
        Ok(
            (
                OtcState { settle_executed: true, ..s },
                seq![
                    Effect::EngineRedeem {
                        side: Side::Senior,
                        senior_quantity: ctx.escrow.senior_tranche,
                        junior_quantity: 0,
                    },
                    Effect::EngineRedeem {
                        side: Side::Junior,
                        senior_quantity: 0,
                        junior_quantity: ctx.escrow.junior_tranche,
                    },
                ],
            ),
        )
    }
}

/// Turns both sides' tranche claims back into reserve.
pub fn handler(state: &mut OtcState, ctx: &RedeemContext) -> (r: Result<Vec<Effect>, VyperOtcErrorCode>)
    requires
        old(state).wf(),
    ensures
        follows(settle_outcome(*old(state), *ctx), *old(state), *final(state), r),
        final(state).wf(),
        final(state).deposit_end == old(state).deposit_end,
        final(state).settle_start == old(state).settle_start,
{
    if ctx.now < state.settle_start {
        return Err(VyperOtcErrorCode::OtcClosed);
    }
    if state.settle_executed {
        return Err(VyperOtcErrorCode::SettleAlreadyExecuted);
    }
    if !state.both_sides_taken() {
        return Err(VyperOtcErrorCode::InvalidConfiguration);
    }
    let mut fx: Vec<Effect> = Vec::new();
    fx.push(
        Effect::EngineRedeem {
            side: Side::Senior,
            senior_quantity: ctx.escrow.senior_tranche,
            junior_quantity: 0,
        },
    );
    fx.push(
        Effect::EngineRedeem {
            side: Side::Junior,
            senior_quantity: 0,
            junior_quantity: ctx.escrow.junior_tranche,
        },
    );
    state.settle_executed = true;
    proof {
        let expected = settle_outcome(*old(state), *ctx);
        assert(expected matches Ok((s2, e2)) && fx@ =~= e2);
    }
    Ok(fx)
}

} // verus!
