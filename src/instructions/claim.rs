use crate::effects::Effect;
use crate::errors::VyperOtcErrorCode;
use crate::escrow::EscrowBalances;
use crate::identity::Identity;
use crate::instructions::reports;
use crate::state::otc_state::OtcState;
use vstd::prelude::*;

verus! {

/// What a claim observes: the beneficiary asking, and the escrow balances.
#[derive(Clone, Copy, Debug)]
pub struct ClaimContext {
    pub beneficiary: Identity,
    pub escrow: EscrowBalances,
}

/// The outcome of a claim: after settlement, the beneficiary of a side gets the whole
/// current balance of that side's reserve escrow.
pub open spec fn claim_outcome(s: OtcState, ctx: ClaimContext) -> Result<Seq<Effect>, VyperOtcErrorCode> {
    if !s.settle_executed {
        Err(VyperOtcErrorCode::SettleNotExecutedYet)
    } else {
        match s.side_of(ctx.beneficiary) {
            Some(side) => Ok(
                seq![
                    Effect::PayOut {
                        from: side.reserve_account(),
                        beneficiary: ctx.beneficiary,
                        amount: ctx.escrow.balance(side.reserve_account()),
                    },
                ],
            ),
            None => Err(VyperOtcErrorCode::BeneficiaryNotFound),
        }
    }
}

/// Pays a side's settled proceeds to its beneficiary.
pub fn handler(state: &OtcState, ctx: &ClaimContext) -> (r: Result<Vec<Effect>, VyperOtcErrorCode>)
    ensures
        reports(claim_outcome(*state, *ctx), r),
        !state.settle_executed ==> r == Err::<Vec<Effect>, VyperOtcErrorCode>(
            VyperOtcErrorCode::SettleNotExecutedYet,
        ),
{
    if !state.settle_executed {
        return Err(VyperOtcErrorCode::SettleNotExecutedYet);
    }
    match state.find_side(&ctx.beneficiary) {
        Some(side) => {
            let mut fx: Vec<Effect> = Vec::new();
            fx.push(
                Effect::PayOut {
                    from: side.reserve(),
                    beneficiary: ctx.beneficiary,
                    amount: ctx.escrow.balance_of(side.reserve()),
                },
            );
            proof {
                assert(fx@ =~= claim_outcome(*state, *ctx)->Ok_0);
            }
            Ok(fx)
        },
        None => Err(VyperOtcErrorCode::BeneficiaryNotFound),
    }
}

} // verus!
