pub mod claim;
pub mod close;
pub mod deposit;
pub mod initialize;
pub mod settle;
pub mod withdraw;

use crate::effects::Effect;
use crate::errors::VyperOtcErrorCode;
use crate::state::otc_state::OtcState;
use vstd::prelude::*;

verus! {

/// What an operation that updates the record owes to `outcome`: on success, exactly its
/// effects and its new record; on failure, its error, with the record left as it was.
pub open spec fn follows(
    outcome: Result<(OtcState, Seq<Effect>), VyperOtcErrorCode>,
    before: OtcState,
    after: OtcState,
    r: Result<Vec<Effect>, VyperOtcErrorCode>,
) -> bool {
    match outcome {
        Ok((s, fx)) => r matches Ok(v) && v@ == fx && after == s,
        Err(e) => r == Err::<Vec<Effect>, VyperOtcErrorCode>(e) && after == before,
    }
}

/// What an operation that only reads the record owes to `outcome`.
pub open spec fn reports(
    outcome: Result<Seq<Effect>, VyperOtcErrorCode>,
    r: Result<Vec<Effect>, VyperOtcErrorCode>,
) -> bool {
    match outcome {
        Ok(fx) => r matches Ok(v) && v@ == fx,
        Err(e) => r == Err::<Vec<Effect>, VyperOtcErrorCode>(e),
    }
}

} // verus!
