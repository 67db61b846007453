//! The lifecycle of a bilateral structured-product agreement: two counterparties, senior
//! and junior, each deposit reserve into escrow; once both have, the reserves go into a
//! tranche engine; after settlement each side claims its proceeds, and the escrow is torn
//! down. Each operation checks its guards against the contract record and what it observes,
//! and answers with the new record and the ledger and engine effects to carry out, all or
//! nothing.

pub mod effects;
pub mod errors;
pub mod escrow;
pub mod identity;
pub mod instructions;
pub mod laws;
pub mod state;

use crate::effects::Effect;
use crate::errors::VyperOtcErrorCode;
use crate::instructions::claim::{claim_outcome, ClaimContext};
use crate::instructions::close::{teardown, CloseContext, ContractClosed};
use crate::instructions::deposit::{deposit_outcome, DepositContext, DepositInputData};
use crate::instructions::initialize::{
    created_state, creation_allowed, creation_event, InitializeContext, InitializeEvent,
    InitializeInputData,
};
use crate::instructions::settle::{settle_outcome, RedeemContext};
use crate::instructions::withdraw::{withdraw_outcome, WithdrawContext};
use crate::instructions::{follows, reports};
use crate::state::otc_state::OtcState;
use vstd::prelude::*;

verus! {

/// Creates a contract.
pub fn initialize(ctx: &InitializeContext, input_data: InitializeInputData) -> (r: Result<
    (OtcState, InitializeEvent),
    VyperOtcErrorCode,
>)
    ensures
        r is Ok <==> creation_allowed(*ctx, input_data),
        r matches Err(e) ==> e == VyperOtcErrorCode::InitializationError,
        r matches Ok((s, ev)) ==> s == created_state(*ctx, input_data) && ev == creation_event(
            *ctx,
            input_data,
        ) && s.wf() && s.settle_start > s.deposit_end,
{
    instructions::initialize::handler(ctx, input_data)
}

/// Takes one side of a contract.
pub fn deposit(state: &mut OtcState, ctx: &DepositContext, input_data: DepositInputData) -> (r:
    Result<Vec<Effect>, VyperOtcErrorCode>)
    requires
        old(state).wf(),
    ensures
        follows(deposit_outcome(*old(state), *ctx, input_data), *old(state), *final(state), r),
        final(state).wf(),
        final(state).deposit_end == old(state).deposit_end,
        final(state).settle_start == old(state).settle_start,
{
    instructions::deposit::handler(state, ctx, input_data)
}

/// Walks back a side whose counterparty never came.
pub fn withdraw(state: &OtcState, ctx: &WithdrawContext) -> (r: Result<Vec<Effect>, VyperOtcErrorCode>)
    ensures
        reports(withdraw_outcome(*state, *ctx), r),
        state.is_fully_funded() ==> r == Err::<Vec<Effect>, VyperOtcErrorCode>(
            VyperOtcErrorCode::BothPositionsTaken,
        ),
{
    instructions::withdraw::handler(state, ctx)
}

/// Settles a fully funded contract.
pub fn settle(state: &mut OtcState, ctx: &RedeemContext) -> (r: Result<Vec<Effect>, VyperOtcErrorCode>)
    requires
        old(state).wf(),
    ensures
        follows(settle_outcome(*old(state), *ctx), *old(state), *final(state), r),
        final(state).wf(),
        final(state).deposit_end == old(state).deposit_end,
        final(state).settle_start == old(state).settle_start,
{
    instructions::settle::handler(state, ctx)
}

/// Pays a side's settled proceeds to its beneficiary.
pub fn claim(state: &OtcState, ctx: &ClaimContext) -> (r: Result<Vec<Effect>, VyperOtcErrorCode>)
    ensures
        reports(claim_outcome(*state, *ctx), r),
        !state.settle_executed ==> r == Err::<Vec<Effect>, VyperOtcErrorCode>(
            VyperOtcErrorCode::SettleNotExecutedYet,
        ),
{
    instructions::claim::handler(state, ctx)
}

/// Tears a contract down, consuming its record.
pub fn close(state: OtcState, ctx: &CloseContext) -> (r: Result<
    (Vec<Effect>, ContractClosed),
    VyperOtcErrorCode,
>)
    ensures
        r is Ok <==> ctx.now > state.deposit_end && ctx.escrow.is_empty(),
        ctx.now <= state.deposit_end ==> (r matches Err(e) && e == VyperOtcErrorCode::DepositOpen),
        ctx.now > state.deposit_end && !ctx.escrow.is_empty() ==> (r matches Err(e) && e
            == VyperOtcErrorCode::InsufficientFunds),
        r matches Ok((fx, ev)) ==> fx@ == teardown() && ev == (ContractClosed {
            otc_state: state.authority_seed,
            signer: ctx.signer,
        }),
{
    instructions::close::handler(state, ctx)
}

} // verus!
