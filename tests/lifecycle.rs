use vyper_otc::effects::{Effect, EscrowAccount, Side};
use vyper_otc::errors::VyperOtcErrorCode;
use vyper_otc::escrow::EscrowBalances;
use vyper_otc::identity::Identity;
use vyper_otc::instructions::claim::ClaimContext;
use vyper_otc::instructions::close::CloseContext;
use vyper_otc::instructions::deposit::{DepositContext, DepositInputData};
use vyper_otc::instructions::initialize::{InitializeContext, InitializeInputData};
use vyper_otc::instructions::settle::RedeemContext;
use vyper_otc::instructions::withdraw::WithdrawContext;
use vyper_otc::state::otc_state::{ContractStatus, OtcState};
use vyper_otc::{claim, close, deposit, initialize, settle, withdraw};

fn id(n: u8) -> Identity {
    Identity::new([n; 32])
}

const RECORD: u8 = 1;
const AUTHORITY: u8 = 2;
const SENIOR: u8 = 10;
const JUNIOR: u8 = 11;
const STRANGER: u8 = 12;
const CALLER: u8 = 13;

fn init_ctx() -> InitializeContext {
    InitializeContext {
        otc_state: id(RECORD),
        otc_authority: id(AUTHORITY),
        authority_bump: 254,
        otc_senior_reserve_token_account: id(3),
        otc_junior_reserve_token_account: id(4),
        otc_senior_tranche_token_account: id(5),
        otc_junior_tranche_token_account: id(6),
        vyper_tranche_config: id(7),
        tranche_config_owner: id(AUTHORITY),
        deposits_owner_restricted: true,
        redeems_owner_restricted: true,
        vyper_core: id(8),
        now: 0,
        version: [0, 1, 0],
    }
}

fn terms() -> InitializeInputData {
    InitializeInputData {
        senior_deposit_amount: 1000,
        junior_deposit_amount: 1000,
        deposit_start: 0,
        deposit_expiration: 10,
        settle_available_from: 20,
    }
}

fn empty() -> EscrowBalances {
    EscrowBalances { senior_reserve: 0, junior_reserve: 0, senior_tranche: 0, junior_tranche: 0 }
}

fn created() -> OtcState {
    initialize(&init_ctx(), terms()).unwrap().0
}

fn senior() -> DepositInputData {
    DepositInputData { is_senior_side: true }
}

fn junior() -> DepositInputData {
    DepositInputData { is_senior_side: false }
}

/// Carries out effects on the escrow balances, with the given engine proceeds in order.
fn carry_out(bal: &mut EscrowBalances, fx: &[Effect], proceeds: &[u64]) {
    assert_eq!(fx.len(), proceeds.len());
    for (e, p) in fx.iter().zip(proceeds.iter()) {
        bal.apply(e, *p).unwrap();
    }
}

fn fully_funded() -> (OtcState, EscrowBalances) {
    let mut st = created();
    let mut bal = empty();
    let fx = deposit(&mut st, &DepositContext { now: 1, beneficiary: id(SENIOR), escrow: bal }, senior()).unwrap();
    carry_out(&mut bal, &fx, &[0]);
    let fx = deposit(&mut st, &DepositContext { now: 2, beneficiary: id(JUNIOR), escrow: bal }, junior()).unwrap();
    carry_out(&mut bal, &fx, &[0, 1000, 1000]);
    (st, bal)
}

#[test]
fn scenario_full_lifecycle() {
    let (mut st, _ev) = initialize(&init_ctx(), terms()).unwrap();
    let mut bal = empty();
    assert_eq!(st.status(0), ContractStatus::Open);

    let fx = deposit(&mut st, &DepositContext { now: 1, beneficiary: id(SENIOR), escrow: bal }, senior()).unwrap();
    assert_eq!(fx, vec![Effect::DepositIntoEscrow { to: EscrowAccount::SeniorReserve, amount: 1000 }]);
    carry_out(&mut bal, &fx, &[0]);
    assert_eq!(bal.senior_reserve, 1000);
    assert_eq!(st.status(1), ContractStatus::HalfFunded);

    let fx = deposit(&mut st, &DepositContext { now: 2, beneficiary: id(JUNIOR), escrow: bal }, junior()).unwrap();
    assert_eq!(
        fx,
        vec![
            Effect::DepositIntoEscrow { to: EscrowAccount::JuniorReserve, amount: 1000 },
            Effect::EngineDeposit { side: Side::Senior, senior_quantity: 1000, junior_quantity: 0 },
            Effect::EngineDeposit { side: Side::Junior, senior_quantity: 0, junior_quantity: 1000 },
        ]
    );
    carry_out(&mut bal, &fx, &[0, 1000, 1000]);
    assert_eq!(bal.senior_reserve, 0);
    assert_eq!(bal.junior_reserve, 0);
    assert!(bal.senior_tranche > 0);
    assert!(bal.junior_tranche > 0);
    assert_eq!(st.status(2), ContractStatus::FullyFunded);

    let fx = settle(&mut st, &RedeemContext { now: 25, escrow: bal }).unwrap();
    assert_eq!(
        fx,
        vec![
            Effect::EngineRedeem { side: Side::Senior, senior_quantity: 1000, junior_quantity: 0 },
            Effect::EngineRedeem { side: Side::Junior, senior_quantity: 0, junior_quantity: 1000 },
        ]
    );
    carry_out(&mut bal, &fx, &[1200, 800]);
    assert_eq!(bal.senior_tranche, 0);
    assert_eq!(bal.junior_tranche, 0);
    assert_eq!(bal.senior_reserve, 1200);
    assert_eq!(bal.junior_reserve, 800);
    assert!(st.settle_executed);
    assert_eq!(st.status(25), ContractStatus::Settled);

    let fx = claim(&st, &ClaimContext { beneficiary: id(SENIOR), escrow: bal }).unwrap();
    assert_eq!(
        fx,
        vec![Effect::PayOut { from: EscrowAccount::SeniorReserve, beneficiary: id(SENIOR), amount: 1200 }]
    );
    carry_out(&mut bal, &fx, &[0]);
    let fx = claim(&st, &ClaimContext { beneficiary: id(JUNIOR), escrow: bal }).unwrap();
    assert_eq!(
        fx,
        vec![Effect::PayOut { from: EscrowAccount::JuniorReserve, beneficiary: id(JUNIOR), amount: 800 }]
    );
    carry_out(&mut bal, &fx, &[0]);
    assert!(bal.all_zero());

    let (fx, ev) = close(st, &CloseContext { now: 26, signer: id(CALLER), escrow: bal }).unwrap();
    assert_eq!(fx.len(), 6);
    assert_eq!(fx[0], Effect::EngineClose);
    assert_eq!(fx[5], Effect::CloseRecord);
    carry_out(&mut bal, &fx, &[0; 6]);
    assert_eq!(ev.otc_state, id(RECORD));
    assert_eq!(ev.signer, id(CALLER));
}

#[test]
fn scenario_withdraw_when_counterparty_never_came() {
    let mut st = created();
    let mut bal = empty();
    let fx = deposit(&mut st, &DepositContext { now: 1, beneficiary: id(SENIOR), escrow: bal }, senior()).unwrap();
    carry_out(&mut bal, &fx, &[0]);
    assert_eq!(st.status(15), ContractStatus::Cancelled);

    let fx = withdraw(&st, &WithdrawContext { now: 15, beneficiary: id(SENIOR), escrow: bal }).unwrap();
    assert_eq!(
        fx,
        vec![Effect::PayOut { from: EscrowAccount::SeniorReserve, beneficiary: id(SENIOR), amount: 1000 }]
    );
    carry_out(&mut bal, &fx, &[0]);
    assert!(bal.all_zero());

    let r = close(st, &CloseContext { now: 16, signer: id(CALLER), escrow: bal });
    assert!(r.is_ok());
}

#[test]
fn scenario_second_deposit_on_taken_side() {
    let mut st = created();
    deposit(&mut st, &DepositContext { now: 1, beneficiary: id(SENIOR), escrow: empty() }, senior()).unwrap();
    let before = st.clone();
    let bal = EscrowBalances { senior_reserve: 1000, ..empty() };
    let r = deposit(&mut st, &DepositContext { now: 2, beneficiary: id(STRANGER), escrow: bal }, senior());
    assert_eq!(r, Err(VyperOtcErrorCode::SideAlreadyTaken));
    assert_eq!(st, before);
    assert_eq!(st.senior_side_beneficiary, Some(id(SENIOR)));
}

#[test]
fn second_deposit_on_taken_side_after_window() {
    let mut st = created();
    deposit(&mut st, &DepositContext { now: 1, beneficiary: id(SENIOR), escrow: empty() }, senior()).unwrap();
    let r = deposit(&mut st, &DepositContext { now: 50, beneficiary: id(STRANGER), escrow: empty() }, senior());
    assert_eq!(r, Err(VyperOtcErrorCode::SideAlreadyTaken));
}

#[test]
fn initialize_records_terms() {
    let (st, ev) = initialize(&init_ctx(), terms()).unwrap();
    assert_eq!(st.created, 0);
    assert_eq!(st.deposit_start, 0);
    assert_eq!(st.deposit_end, 10);
    assert_eq!(st.settle_start, 20);
    assert!(!st.settle_executed);
    assert_eq!(st.senior_side_beneficiary, None);
    assert_eq!(st.junior_side_beneficiary, None);
    assert_eq!(st.otc_authority, id(AUTHORITY));
    assert_eq!(st.authority_seed, id(RECORD));
    assert_eq!(st.version, [0, 1, 0]);
    assert!(st.is_well_formed());
    assert_eq!(ev.otc_state, id(RECORD));
    assert_eq!(ev.deposit_expiration, 10);
    assert_eq!(ev.settle_available_from, 20);
}

#[test]
fn initialize_refuses_settlement_inside_window() {
    let t = InitializeInputData { settle_available_from: 10, ..terms() };
    assert_eq!(initialize(&init_ctx(), t).unwrap_err(), VyperOtcErrorCode::InitializationError);
    let t = InitializeInputData { settle_available_from: 5, ..terms() };
    assert_eq!(initialize(&init_ctx(), t).unwrap_err(), VyperOtcErrorCode::InitializationError);
}

#[test]
fn initialize_refuses_foreign_engine_owner() {
    let ctx = InitializeContext { tranche_config_owner: id(STRANGER), ..init_ctx() };
    assert_eq!(initialize(&ctx, terms()).unwrap_err(), VyperOtcErrorCode::InitializationError);
}

#[test]
fn initialize_refuses_unrestricted_engine() {
    let ctx = InitializeContext { deposits_owner_restricted: false, ..init_ctx() };
    assert_eq!(initialize(&ctx, terms()).unwrap_err(), VyperOtcErrorCode::InitializationError);
    let ctx = InitializeContext { redeems_owner_restricted: false, ..init_ctx() };
    assert_eq!(initialize(&ctx, terms()).unwrap_err(), VyperOtcErrorCode::InitializationError);
}

#[test]
fn deposit_at_window_end_is_accepted() {
    let mut st = created();
    let r = deposit(&mut st, &DepositContext { now: 10, beneficiary: id(SENIOR), escrow: empty() }, senior());
    assert!(r.is_ok());
}

#[test]
fn deposit_after_window_is_closed() {
    let mut st = created();
    let before = st.clone();
    let r = deposit(&mut st, &DepositContext { now: 11, beneficiary: id(SENIOR), escrow: empty() }, senior());
    assert_eq!(r, Err(VyperOtcErrorCode::DepositClosed));
    assert_eq!(st, before);
}

#[test]
fn deposit_overflowing_reserve_is_math_error() {
    let mut st = created();
    let bal = EscrowBalances { junior_reserve: u64::MAX - 999, ..empty() };
    let r = deposit(&mut st, &DepositContext { now: 1, beneficiary: id(JUNIOR), escrow: bal }, junior());
    assert_eq!(r, Err(VyperOtcErrorCode::MathError));
    assert_eq!(st.junior_side_beneficiary, None);
}

#[test]
fn formation_forwards_whole_reserve_balances() {
    let mut st = created();
    deposit(&mut st, &DepositContext { now: 1, beneficiary: id(JUNIOR), escrow: empty() }, junior()).unwrap();
    let bal = EscrowBalances { senior_reserve: 5, junior_reserve: 1003, ..empty() };
    let fx = deposit(&mut st, &DepositContext { now: 3, beneficiary: id(SENIOR), escrow: bal }, senior()).unwrap();
    assert_eq!(
        fx,
        vec![
            Effect::DepositIntoEscrow { to: EscrowAccount::SeniorReserve, amount: 1000 },
            Effect::EngineDeposit { side: Side::Senior, senior_quantity: 1005, junior_quantity: 0 },
            Effect::EngineDeposit { side: Side::Junior, senior_quantity: 0, junior_quantity: 1003 },
        ]
    );
    let mut after = bal;
    carry_out(&mut after, &fx, &[0, 7, 9]);
    assert_eq!(after, EscrowBalances { senior_reserve: 0, junior_reserve: 0, senior_tranche: 7, junior_tranche: 9 });
}

#[test]
fn deposits_after_formation_fail_on_both_sides() {
    let (mut st, bal) = fully_funded();
    for input in [senior(), junior()] {
        let r = deposit(&mut st, &DepositContext { now: 3, beneficiary: id(STRANGER), escrow: bal }, input);
        assert_eq!(r, Err(VyperOtcErrorCode::SideAlreadyTaken));
    }
}

#[test]
fn withdraw_after_formation_is_refused_at_any_time() {
    let (st, bal) = fully_funded();
    for now in [3, 10, 11, 30] {
        for who in [SENIOR, JUNIOR, STRANGER] {
            let r = withdraw(&st, &WithdrawContext { now, beneficiary: id(who), escrow: bal });
            assert_eq!(r, Err(VyperOtcErrorCode::BothPositionsTaken));
        }
    }
}

#[test]
fn withdraw_inside_window_is_refused() {
    let mut st = created();
    deposit(&mut st, &DepositContext { now: 1, beneficiary: id(SENIOR), escrow: empty() }, senior()).unwrap();
    let bal = EscrowBalances { senior_reserve: 1000, ..empty() };
    let r = withdraw(&st, &WithdrawContext { now: 10, beneficiary: id(SENIOR), escrow: bal });
    assert_eq!(r, Err(VyperOtcErrorCode::DepositOpen));
}

#[test]
fn withdraw_by_stranger_is_not_found() {
    let mut st = created();
    deposit(&mut st, &DepositContext { now: 1, beneficiary: id(SENIOR), escrow: empty() }, senior()).unwrap();
    let bal = EscrowBalances { senior_reserve: 1000, ..empty() };
    let r = withdraw(&st, &WithdrawContext { now: 11, beneficiary: id(STRANGER), escrow: bal });
    assert_eq!(r, Err(VyperOtcErrorCode::BeneficiaryNotFound));
}

#[test]
fn withdraw_junior_side() {
    let mut st = created();
    deposit(&mut st, &DepositContext { now: 1, beneficiary: id(JUNIOR), escrow: empty() }, junior()).unwrap();
    let bal = EscrowBalances { junior_reserve: 1000, ..empty() };
    let fx = withdraw(&st, &WithdrawContext { now: 11, beneficiary: id(JUNIOR), escrow: bal }).unwrap();
    assert_eq!(
        fx,
        vec![Effect::PayOut { from: EscrowAccount::JuniorReserve, beneficiary: id(JUNIOR), amount: 1000 }]
    );
}

#[test]
fn claim_before_settle_fails_for_anyone() {
    let (st, bal) = fully_funded();
    for who in [SENIOR, JUNIOR, STRANGER] {
        let r = claim(&st, &ClaimContext { beneficiary: id(who), escrow: bal });
        assert_eq!(r, Err(VyperOtcErrorCode::SettleNotExecutedYet));
    }
    let fresh = created();
    let r = claim(&fresh, &ClaimContext { beneficiary: id(SENIOR), escrow: empty() });
    assert_eq!(r, Err(VyperOtcErrorCode::SettleNotExecutedYet));
}

#[test]
fn claim_by_stranger_is_not_found() {
    let (mut st, bal) = fully_funded();
    settle(&mut st, &RedeemContext { now: 20, escrow: bal }).unwrap();
    let r = claim(&st, &ClaimContext { beneficiary: id(STRANGER), escrow: bal });
    assert_eq!(r, Err(VyperOtcErrorCode::BeneficiaryNotFound));
}

#[test]
fn claim_after_drain_pays_nothing() {
    let (mut st, _) = fully_funded();
    settle(&mut st, &RedeemContext { now: 20, escrow: empty() }).unwrap();
    let fx = claim(&st, &ClaimContext { beneficiary: id(SENIOR), escrow: empty() }).unwrap();
    assert_eq!(
        fx,
        vec![Effect::PayOut { from: EscrowAccount::SeniorReserve, beneficiary: id(SENIOR), amount: 0 }]
    );
}

#[test]
fn settle_before_settlement_time_is_closed() {
    let (mut st, bal) = fully_funded();
    let before = st.clone();
    let r = settle(&mut st, &RedeemContext { now: 19, escrow: bal });
    assert_eq!(r, Err(VyperOtcErrorCode::OtcClosed));
    assert_eq!(st, before);
}

#[test]
fn settle_twice_is_refused() {
    let (mut st, bal) = fully_funded();
    settle(&mut st, &RedeemContext { now: 20, escrow: bal }).unwrap();
    let r = settle(&mut st, &RedeemContext { now: 21, escrow: bal });
    assert_eq!(r, Err(VyperOtcErrorCode::SettleAlreadyExecuted));
    assert!(st.settle_executed);
}

#[test]
fn settle_half_funded_is_invalid() {
    let mut st = created();
    deposit(&mut st, &DepositContext { now: 1, beneficiary: id(SENIOR), escrow: empty() }, senior()).unwrap();
    let bal = EscrowBalances { senior_reserve: 1000, ..empty() };
    let r = settle(&mut st, &RedeemContext { now: 25, escrow: bal });
    assert_eq!(r, Err(VyperOtcErrorCode::InvalidConfiguration));
    assert!(!st.settle_executed);
}

#[test]
fn close_inside_window_is_refused() {
    let r = close(created(), &CloseContext { now: 10, signer: id(CALLER), escrow: empty() });
    assert_eq!(r.unwrap_err(), VyperOtcErrorCode::DepositOpen);
}

#[test]
fn close_with_any_balance_left_is_refused() {
    let cases = [
        EscrowBalances { senior_reserve: 1, ..empty() },
        EscrowBalances { junior_reserve: 1, ..empty() },
        EscrowBalances { senior_tranche: 1, ..empty() },
        EscrowBalances { junior_tranche: 1, ..empty() },
    ];
    for bal in cases {
        let r = close(created(), &CloseContext { now: 30, signer: id(CALLER), escrow: bal });
        assert_eq!(r.unwrap_err(), VyperOtcErrorCode::InsufficientFunds);
    }
}

#[test]
fn close_of_untouched_contract_after_window() {
    let (fx, ev) = close(created(), &CloseContext { now: 11, signer: id(CALLER), escrow: empty() }).unwrap();
    assert_eq!(
        fx,
        vec![
            Effect::EngineClose,
            Effect::CloseEscrow { account: EscrowAccount::SeniorReserve },
            Effect::CloseEscrow { account: EscrowAccount::JuniorReserve },
            Effect::CloseEscrow { account: EscrowAccount::SeniorTranche },
            Effect::CloseEscrow { account: EscrowAccount::JuniorTranche },
            Effect::CloseRecord,
        ]
    );
    assert_eq!(ev.signer, id(CALLER));
}

#[test]
fn window_order_survives_operations() {
    let (mut st, bal) = fully_funded();
    assert!(st.settle_start > st.deposit_end);
    settle(&mut st, &RedeemContext { now: 20, escrow: bal }).unwrap();
    assert!(st.settle_start > st.deposit_end);
    assert!(st.is_well_formed());
}

#[test]
fn same_beneficiary_on_both_sides_resolves_to_junior() {
    let (st, _) = {
        let mut st = created();
        deposit(&mut st, &DepositContext { now: 1, beneficiary: id(SENIOR), escrow: empty() }, senior()).unwrap();
        deposit(&mut st, &DepositContext { now: 1, beneficiary: id(SENIOR), escrow: empty() }, junior()).unwrap();
        (st, ())
    };
    assert_eq!(st.find_side(&id(SENIOR)), Some(Side::Junior));
    assert_eq!(st.find_side(&id(STRANGER)), None);
}
