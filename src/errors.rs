use vstd::prelude::*;

verus! {

/// Every way an operation on a contract can fail.
#[derive(Clone, Copy, Debug, PartialEq, Eq, Structural)]
pub enum VyperOtcErrorCode {
    GenericError,
    InitializationError,
    SideAlreadyTaken,
    DepositOpen,
    DepositClosed,
    BothPositionsTaken,
    OtcClosed,
    BeneficiaryNotFound,
    SettleNotExecutedYet,
    SettleAlreadyExecuted,
    InvalidConfiguration,
    InvalidInput,
    InsufficientFunds,
    BeneficiaryMismatch,
    MathError,
}

impl VyperOtcErrorCode {
    /// The human-readable text of the error.
    pub open spec fn text(self) -> Seq<char> {
        match self {
            VyperOtcErrorCode::GenericError => "generic error"@,
            VyperOtcErrorCode::InitializationError => "initialization error"@,
            VyperOtcErrorCode::SideAlreadyTaken => "side already taken"@,
            VyperOtcErrorCode::DepositOpen => "deposit is open"@,
            VyperOtcErrorCode::DepositClosed => "deposit is closed"@,
            VyperOtcErrorCode::BothPositionsTaken => "both positions taken"@,
            VyperOtcErrorCode::OtcClosed => "otc is closed"@,
            VyperOtcErrorCode::BeneficiaryNotFound => "beneficiary not found"@,
            VyperOtcErrorCode::SettleNotExecutedYet => "settle not executed yet"@,
            VyperOtcErrorCode::SettleAlreadyExecuted => "settle already executed"@,
            VyperOtcErrorCode::InvalidConfiguration => "invalid configuration"@,
            VyperOtcErrorCode::InvalidInput => "invalid input"@,
            VyperOtcErrorCode::InsufficientFunds => "insufficient funds"@,
            VyperOtcErrorCode::BeneficiaryMismatch => "beneficiary mismatch"@,
            VyperOtcErrorCode::MathError => "math error"@,
        }
    }

    pub fn message(&self) -> (r: &'static str)
        ensures
            r@ == self.text(),
    {
        match self {
            VyperOtcErrorCode::GenericError => "generic error",
            VyperOtcErrorCode::InitializationError => "initialization error",
            VyperOtcErrorCode::SideAlreadyTaken => "side already taken",
            VyperOtcErrorCode::DepositOpen => "deposit is open",
            VyperOtcErrorCode::DepositClosed => "deposit is closed",
            VyperOtcErrorCode::BothPositionsTaken => "both positions taken",
            VyperOtcErrorCode::OtcClosed => "otc is closed",
            VyperOtcErrorCode::BeneficiaryNotFound => "beneficiary not found",
            VyperOtcErrorCode::SettleNotExecutedYet => "settle not executed yet",
            VyperOtcErrorCode::SettleAlreadyExecuted => "settle already executed",
            VyperOtcErrorCode::InvalidConfiguration => "invalid configuration",
            VyperOtcErrorCode::InvalidInput => "invalid input",
            VyperOtcErrorCode::InsufficientFunds => "insufficient funds",
            VyperOtcErrorCode::BeneficiaryMismatch => "beneficiary mismatch",
            VyperOtcErrorCode::MathError => "math error",
        }
    }
}

} // verus!
