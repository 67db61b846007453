use crate::errors::VyperOtcErrorCode;
use crate::identity::Identity;
use crate::state::otc_state::OtcState;
use vstd::prelude::*;

verus! {

/// What creation observes: the identities of the new record, of its escrow authority and of
/// the four freshly created escrow accounts; the tranche engine configuration with its owner
/// and whether it lets only that owner deposit and redeem; the time; the build stamp.
#[derive(Clone, Copy, Debug)]
pub struct InitializeContext {
    pub otc_state: Identity,
    pub otc_authority: Identity,
    pub authority_bump: u8,
    pub otc_senior_reserve_token_account: Identity,
    pub otc_junior_reserve_token_account: Identity,
    pub otc_senior_tranche_token_account: Identity,
    pub otc_junior_tranche_token_account: Identity,
    pub vyper_tranche_config: Identity,
    pub tranche_config_owner: Identity,
    pub deposits_owner_restricted: bool,
    pub redeems_owner_restricted: bool,
    pub vyper_core: Identity,
    pub now: i64,
    pub version: [u8; 3],
}

/// The terms of the agreement.
#[derive(Clone, Copy, Debug, PartialEq, Eq, Structural)]
pub struct InitializeInputData {
    pub senior_deposit_amount: u64,
    pub junior_deposit_amount: u64,
    pub deposit_start: i64,
    pub deposit_expiration: i64,
    pub settle_available_from: i64,
}

/// The notification that a contract was created.
#[derive(Clone, Copy, Debug)]
pub struct InitializeEvent {
    pub otc_state: Identity,
    pub senior_deposit_amount: u64,
    pub junior_deposit_amount: u64,
    pub deposit_expiration: i64,
    pub settle_available_from: i64,
}

/// Creation's guards: the escrow authority owns the tranche engine configuration, which
/// lets only its owner deposit and redeem, and settlement starts after the deposit window.
pub open spec fn creation_allowed(ctx: InitializeContext, input: InitializeInputData) -> bool {
    &&& ctx.tranche_config_owner@ == ctx.otc_authority@
    &&& ctx.deposits_owner_restricted
    &&& ctx.redeems_owner_restricted
    &&& input.settle_available_from > input.deposit_expiration
}

/// The record that creation writes: no side taken, not settled.
pub open spec fn created_state(ctx: InitializeContext, input: InitializeInputData) -> OtcState {
    OtcState {
        created: ctx.now,
        deposit_start: input.deposit_start,
        deposit_end: input.deposit_expiration,
        settle_start: input.settle_available_from,
        settle_executed: false,
        senior_deposit_amount: input.senior_deposit_amount,
        junior_deposit_amount: input.junior_deposit_amount,
        senior_side_beneficiary: None,
        junior_side_beneficiary: None,
        vyper_tranche_config: ctx.vyper_tranche_config,
        vyper_core: ctx.vyper_core,
        otc_senior_reserve_token_account: ctx.otc_senior_reserve_token_account,
        otc_junior_reserve_token_account: ctx.otc_junior_reserve_token_account,
        otc_senior_tranche_token_account: ctx.otc_senior_tranche_token_account,
        otc_junior_tranche_token_account: ctx.otc_junior_tranche_token_account,
        otc_authority: ctx.otc_authority,
        authority_seed: ctx.otc_state,
        authority_bump: ctx.authority_bump,
        version: ctx.version,
    }
}

pub open spec fn creation_event(ctx: InitializeContext, input: InitializeInputData) -> InitializeEvent {
    InitializeEvent {
        otc_state: ctx.otc_state,
        senior_deposit_amount: input.senior_deposit_amount,
        junior_deposit_amount: input.junior_deposit_amount,
        deposit_expiration: input.deposit_expiration,
        settle_available_from: input.settle_available_from,
    }
}

/// Creates the record of a new agreement, with its creation notification.
pub fn handler(ctx: &InitializeContext, input_data: InitializeInputData) -> (r: Result<
    (OtcState, InitializeEvent),
    VyperOtcErrorCode,
>)
    ensures
        r is Ok <==> creation_allowed(*ctx, input_data),
        r matches Err(e) ==> e == VyperOtcErrorCode::InitializationError,
        r matches Ok((s, ev)) ==> s == created_state(*ctx, input_data) && ev == creation_event(
            *ctx,
            input_data,
        ) && s.wf() && s.settle_start > s.deposit_end,
{
    if ctx.tranche_config_owner != ctx.otc_authority {
        return Err(VyperOtcErrorCode::InitializationError);
    }
    if !(ctx.deposits_owner_restricted && ctx.redeems_owner_restricted) {
        return Err(VyperOtcErrorCode::InitializationError);
    }
    if input_data.settle_available_from <= input_data.deposit_expiration {
        return Err(VyperOtcErrorCode::InitializationError);
    }
    let state = OtcState {
        created: ctx.now,
        deposit_start: input_data.deposit_start,
        deposit_end: input_data.deposit_expiration,
        settle_start: input_data.settle_available_from,
        settle_executed: false,
        senior_deposit_amount: input_data.senior_deposit_amount,
        junior_deposit_amount: input_data.junior_deposit_amount,
        senior_side_beneficiary: None,
        junior_side_beneficiary: None,
        vyper_tranche_config: ctx.vyper_tranche_config,
        vyper_core: ctx.vyper_core,
        otc_senior_reserve_token_account: ctx.otc_senior_reserve_token_account,
        otc_junior_reserve_token_account: ctx.otc_junior_reserve_token_account,
        otc_senior_tranche_token_account: ctx.otc_senior_tranche_token_account,
        otc_junior_tranche_token_account: ctx.otc_junior_tranche_token_account,
        otc_authority: ctx.otc_authority,
        authority_seed: ctx.otc_state,
        authority_bump: ctx.authority_bump,
        version: ctx.version,
    };
    let event = InitializeEvent {
        otc_state: ctx.otc_state,
        senior_deposit_amount: input_data.senior_deposit_amount,
        junior_deposit_amount: input_data.junior_deposit_amount,
        deposit_expiration: input_data.deposit_expiration,
        settle_available_from: input_data.settle_available_from,
    };
    Ok((state, event))
}

} // verus!
