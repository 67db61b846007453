use crate::effects::{forward_count, Effect, Side};
use crate::errors::VyperOtcErrorCode;
use crate::escrow::EscrowBalances;
use crate::instructions::claim::{claim_outcome, ClaimContext};
use crate::instructions::deposit::{deposit_outcome, DepositContext, DepositInputData};
use crate::instructions::initialize::{created_state, creation_allowed, InitializeContext, InitializeInputData};
use crate::instructions::settle::{settle_outcome, RedeemContext};
use crate::instructions::withdraw::{withdraw_outcome, WithdrawContext};
use crate::state::otc_state::OtcState;
use vstd::prelude::*;

verus! {

/// One operation on a live contract, with what it observes.
#[derive(Clone, Copy, Debug)]
pub enum Request {
    Deposit(DepositContext, DepositInputData),
    Withdraw(WithdrawContext),
    Settle(RedeemContext),
    Claim(ClaimContext),
}

/// The outcome of one request on the record `s`.
pub open spec fn step(s: OtcState, req: Request) -> Result<(OtcState, Seq<Effect>), VyperOtcErrorCode> {
    match req {
        Request::Deposit(ctx, input) => deposit_outcome(s, ctx, input),
        Request::Withdraw(ctx) => match withdraw_outcome(s, ctx) {
            Ok(fx) => Ok((s, fx)),
            Err(e) => Err(e),
        },
        Request::Settle(ctx) => settle_outcome(s, ctx),
        Request::Claim(ctx) => match claim_outcome(s, ctx) {
            Ok(fx) => Ok((s, fx)),
            Err(e) => Err(e),
        },
    }
}

/// The record after `reqs`, one after another, with every effect that they caused; a
/// request that fails changes nothing and causes nothing.
pub open spec fn run(s: OtcState, reqs: Seq<Request>) -> (OtcState, Seq<Effect>)
    decreases reqs.len(),
{
    if reqs.len() == 0 {
        (s, seq![])
    } else {
        let before = run(s, reqs.drop_last());
        match step(before.0, reqs.last()) {
            Ok((next, fx)) => (next, before.1 + fx),
            Err(_) => before,
        }
    }
}

proof fn lemma_step_keeps_invariant(s: OtcState, req: Request)
    requires
        s.wf(),
    ensures
        step(s, req) matches Ok((next, _)) ==> {
            &&& next.wf()
            &&& next.deposit_end == s.deposit_end
            &&& next.settle_start == s.settle_start
            &&& s.is_fully_funded() ==> next.is_fully_funded()
        },
{
}

proof fn lemma_run_keeps_invariant(s: OtcState, reqs: Seq<Request>)
    requires
        s.wf(),
    ensures
        run(s, reqs).0.wf(),
        run(s, reqs).0.deposit_end == s.deposit_end,
        run(s, reqs).0.settle_start == s.settle_start,
        s.is_fully_funded() ==> run(s, reqs).0.is_fully_funded(),
    decreases reqs.len(),
{
    if reqs.len() > 0 {
        lemma_run_keeps_invariant(s, reqs.drop_last());
        lemma_step_keeps_invariant(run(s, reqs.drop_last()).0, reqs.last());
    }
}

/// From creation on, whatever operations follow, settlement stays strictly after the end
/// of the deposit window.
pub proof fn lemma_settlement_after_deposit_window(
    ctx: InitializeContext,
    input: InitializeInputData,
    reqs: Seq<Request>,
)
    requires
        creation_allowed(ctx, input),
    ensures
        run(created_state(ctx, input), reqs).0.settle_start > run(
            created_state(ctx, input),
            reqs,
        ).0.deposit_end,
{
    lemma_run_keeps_invariant(created_state(ctx, input), reqs);
}

/// Once a deposit has taken a side, a second deposit on that side fails with
/// `SideAlreadyTaken`, and the side's beneficiary is still the first one.
pub proof fn lemma_side_taken_once(
    s: OtcState,
    first: DepositContext,
    second: DepositContext,
    input: DepositInputData,
)
    requires
        s.wf(),
        deposit_outcome(s, first, input) is Ok,
    ensures
        deposit_outcome(s, first, input) matches Ok((s1, _)) && {
            &&& deposit_outcome(s1, second, input) == Err::<(OtcState, Seq<Effect>), VyperOtcErrorCode>(
                VyperOtcErrorCode::SideAlreadyTaken,
            )
            &&& s1.beneficiary(input.side()) == Some(first.beneficiary)
        },
{
}


proof fn lemma_forward_count_concat(a: Seq<Effect>, b: Seq<Effect>, side: Side)
    ensures
        forward_count(a + b, side) == forward_count(a, side) + forward_count(b, side),
    decreases b.len(),
{
    if b.len() == 0 {
        assert(a + b =~= a);
    } else {
        assert((a + b).drop_last() =~= a + b.drop_last());
        assert((a + b).last() == b.last());
        lemma_forward_count_concat(a, b.drop_last(), side);
    }
}

proof fn lemma_step_forwards(s: OtcState, req: Request, side: Side)
    requires
        s.wf(),
    ensures
        step(s, req) matches Ok((next, fx)) ==> forward_count(fx, side) == (if !s.is_fully_funded()
            && next.is_fully_funded() {
            1nat
        } else {
            0nat
        }),
{
    reveal_with_fuel(forward_count, 4);
    if let Ok((next, fx)) = step(s, req) {
        match req {
            Request::Deposit(..) => {
                if next.is_fully_funded() {
                    assert(fx.drop_last().drop_last() =~= seq![fx[0]]);
                    assert(fx.drop_last().drop_last().drop_last() =~= Seq::<Effect>::empty());
                } else {
                    assert(fx.drop_last() =~= Seq::<Effect>::empty());
                }
            },
            Request::Settle(..) => {
                assert(fx.drop_last().drop_last() =~= Seq::<Effect>::empty());
            },
            _ => {
                assert(fx.drop_last() =~= Seq::<Effect>::empty());
            },
        }
    }
}

/// Over any run of operations on a well-formed contract, the reserve of each side is
/// forwarded to the tranche engine exactly once if the run takes the contract to fully
/// funded, and never otherwise.
pub proof fn lemma_reserves_forwarded_once(s: OtcState, reqs: Seq<Request>, side: Side)
    requires
        s.wf(),
    ensures
        forward_count(run(s, reqs).1, side) == (if !s.is_fully_funded() && run(
            s,
            reqs,
        ).0.is_fully_funded() {
            1nat
        } else {
            0nat
        }),
    decreases reqs.len(),
{
    if reqs.len() > 0 {
        let before = run(s, reqs.drop_last());
        lemma_reserves_forwarded_once(s, reqs.drop_last(), side);
        lemma_run_keeps_invariant(s, reqs.drop_last());
        lemma_step_keeps_invariant(before.0, reqs.last());
        lemma_step_forwards(before.0, reqs.last(), side);
        if let Ok((next, fx)) = step(before.0, reqs.last()) {
            lemma_forward_count_concat(before.1, fx, side);
        }
    }
}

/// The deposit that makes a contract fully funded forwards each side's reserve escrow to
/// the tranche engine, in one leg per side, and leaves both reserve escrows empty, whatever
/// tranche claims the engine mints for them.
pub proof fn lemma_formation_empties_reserves(
    s: OtcState,
    ctx: DepositContext,
    input: DepositInputData,
    minted_senior: u64,
    minted_junior: u64,
)
    requires
        s.wf(),
        !s.is_fully_funded(),
        deposit_outcome(s, ctx, input) matches Ok((next, _)) && next.is_fully_funded(),
        ctx.escrow.senior_tranche + minted_senior <= u64::MAX,
        ctx.escrow.junior_tranche + minted_junior <= u64::MAX,
    ensures
        deposit_outcome(s, ctx, input) matches Ok((_, fx)) && {
            &&& forward_count(fx, Side::Senior) == 1
            &&& forward_count(fx, Side::Junior) == 1
            &&& ctx.escrow.after_all(fx, seq![0u64, minted_senior, minted_junior]) matches Ok(b) && {
                &&& b.senior_reserve == 0
                &&& b.junior_reserve == 0
                &&& b.senior_tranche == ctx.escrow.senior_tranche + minted_senior
                &&& b.junior_tranche == ctx.escrow.junior_tranche + minted_junior
            }
        },
{
    lemma_step_forwards(s, Request::Deposit(ctx, input), Side::Senior);
    lemma_step_forwards(s, Request::Deposit(ctx, input), Side::Junior);
    let fx = deposit_outcome(s, ctx, input)->Ok_0.1;
    let proceeds = seq![0u64, minted_senior, minted_junior];
    let b1 = ctx.escrow.after(fx[0], proceeds[0])->Ok_0;
    let b2 = b1.after(fx[1], proceeds[1])->Ok_0;
    let b3 = b2.after(fx[2], proceeds[2])->Ok_0;
    assert(fx.skip(1).skip(1).skip(1) =~= Seq::<Effect>::empty());
    assert(proceeds.skip(1) =~= seq![minted_senior, minted_junior]);
    assert(proceeds.skip(1).skip(1) =~= seq![minted_junior]);
    assert(fx.skip(1)[0] == fx[1]);
    assert(fx.skip(1).skip(1)[0] == fx[2]);
    assert(b3.after_all(fx.skip(1).skip(1).skip(1), proceeds.skip(1).skip(1).skip(1)) == Ok::<
        EscrowBalances,
        VyperOtcErrorCode,
    >(b3));
    assert(b2.after_all(fx.skip(1).skip(1), proceeds.skip(1).skip(1)) == Ok::<
        EscrowBalances,
        VyperOtcErrorCode,
    >(b3));
    assert(b1.after_all(fx.skip(1), proceeds.skip(1)) == Ok::<EscrowBalances, VyperOtcErrorCode>(
        b3,
    ));
}

/// A fully funded contract that is not settled yet accepts no operation but settlement:
/// its reserves stay in the tranche engine until then.
pub proof fn lemma_formed_awaits_settlement(s: OtcState, req: Request)
    requires
        s.wf(),
        s.is_fully_funded(),
        !s.settle_executed,
    ensures
        step(s, req) is Ok ==> req is Settle,
{
}

} // verus!
