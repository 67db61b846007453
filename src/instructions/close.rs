use crate::effects::{Effect, EscrowAccount};
use crate::errors::VyperOtcErrorCode;
use crate::escrow::EscrowBalances;
use crate::identity::Identity;
use crate::state::otc_state::OtcState;
use vstd::prelude::*;

verus! {

/// What teardown observes: the time, who asks (and receives what is returned), and the
/// escrow balances.
#[derive(Clone, Copy, Debug)]
pub struct CloseContext {
    pub now: i64,
    pub signer: Identity,
    pub escrow: EscrowBalances,
}

/// The notification that a contract was torn down.
#[derive(Clone, Copy, Debug)]
pub struct ContractClosed {
    pub otc_state: Identity,
    pub signer: Identity,
}

/// Teardown: close the tranche engine configuration, the four escrow accounts, then the
/// record itself.
pub open spec fn teardown() -> Seq<Effect> {
    seq![
        Effect::EngineClose,
        Effect::CloseEscrow { account: EscrowAccount::SeniorReserve },
        Effect::CloseEscrow { account: EscrowAccount::JuniorReserve },
        Effect::CloseEscrow { account: EscrowAccount::SeniorTranche },
        Effect::CloseEscrow { account: EscrowAccount::JuniorTranche },
        Effect::CloseRecord,
    ]
}

/// Tears the contract down, consuming its record: after the deposit window, and only when
/// all four escrow accounts are empty.
pub fn handler(state: OtcState, ctx: &CloseContext) -> (r: Result<
    (Vec<Effect>, ContractClosed),
    VyperOtcErrorCode,
>)
    ensures
        r is Ok <==> ctx.now > state.deposit_end && ctx.escrow.is_empty(),
        ctx.now <= state.deposit_end ==> (r matches Err(e) && e == VyperOtcErrorCode::DepositOpen),
        ctx.now > state.deposit_end && !ctx.escrow.is_empty() ==> (r matches Err(e) && e
            == VyperOtcErrorCode::InsufficientFunds),
        r matches Ok((fx, ev)) ==> fx@ == teardown() && ev == (ContractClosed {
            otc_state: state.authority_seed,
            signer: ctx.signer,
        }),
{
    if ctx.now <= state.deposit_end {
        return Err(VyperOtcErrorCode::DepositOpen);
    }
    if !ctx.escrow.all_zero() {
        return Err(VyperOtcErrorCode::InsufficientFunds);
    }
    let mut fx: Vec<Effect> = Vec::new();
    fx.push(Effect::EngineClose);
    fx.push(Effect::CloseEscrow { account: EscrowAccount::SeniorReserve });
    fx.push(Effect::CloseEscrow { account: EscrowAccount::JuniorReserve });
    fx.push(Effect::CloseEscrow { account: EscrowAccount::SeniorTranche });
    fx.push(Effect::CloseEscrow { account: EscrowAccount::JuniorTranche });
    fx.push(Effect::CloseRecord);
    proof {
        assert(fx@ =~= teardown());
    }
    Ok((fx, ContractClosed { otc_state: state.authority_seed, signer: ctx.signer }))
}

} // verus!
