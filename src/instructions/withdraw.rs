use crate::effects::Effect;
use crate::errors::VyperOtcErrorCode;
use crate::escrow::EscrowBalances;
use crate::identity::Identity;
use crate::instructions::reports;
use crate::state::otc_state::OtcState;
use vstd::prelude::*;

verus! {

/// What a withdrawal observes: the time, the beneficiary asking, and the escrow balances.
#[derive(Clone, Copy, Debug)]
pub struct WithdrawContext {
    pub now: i64,
    pub beneficiary: Identity,
    pub escrow: EscrowBalances,
}

/// The outcome of a withdrawal: once both sides are taken the position can only be unwound
/// by settlement; otherwise, after the deposit window, the beneficiary of a taken side gets
/// the whole balance of that side's reserve escrow back.
pub open spec fn withdraw_outcome(s: OtcState, ctx: WithdrawContext) -> Result<Seq<Effect>, VyperOtcErrorCode> {
    if s.is_fully_funded() {
        Err(VyperOtcErrorCode::BothPositionsTaken)
    } else if ctx.now <= s.deposit_end {
        Err(VyperOtcErrorCode::DepositOpen)
    } else {
        match s.side_of(ctx.beneficiary) {
            Some(side) => Ok(
                seq![
                    Effect::PayOut {
                        from: side.reserve_account(),
                        beneficiary: ctx.beneficiary,
                        amount: ctx.escrow.balance(side.reserve_account()),
                    },
                ],
            ),
            None => Err(VyperOtcErrorCode::BeneficiaryNotFound),
        }
    }
}

/// Walks back a side whose counterparty never came.
pub fn handler(state: &OtcState, ctx: &WithdrawContext) -> (r: Result<Vec<Effect>, VyperOtcErrorCode>)
    ensures
        reports(withdraw_outcome(*state, *ctx), r),
        state.is_fully_funded() ==> r == Err::<Vec<Effect>, VyperOtcErrorCode>(
            VyperOtcErrorCode::BothPositionsTaken,
        ),
{
    if state.both_sides_taken() {
        return Err(VyperOtcErrorCode::BothPositionsTaken);
    }
    if ctx.now <= state.deposit_end {
        return Err(VyperOtcErrorCode::DepositOpen);
    }
    match state.find_side(&ctx.beneficiary) {
        Some(side) => {
            let mut fx: Vec<Effect> = Vec::new();
            fx.push(
                Effect::PayOut {
                    from: side.reserve(),
                    beneficiary: ctx.beneficiary,
                    amount: ctx.escrow.balance_of(side.reserve()),
                },
            );
            proof {
                assert(fx@ =~= withdraw_outcome(*state, *ctx)->Ok_0);
            }
            Ok(fx)
        },
        None => Err(VyperOtcErrorCode::BeneficiaryNotFound),
    }
}

} // verus!
