use vstd::prelude::*;

verus! {

/// Every way a vault operation can be refused.
#[derive(Clone, Copy, Debug, PartialEq, Eq, Structural)]
pub enum VaultError {
    InvalidAmount,
    InvalidPeriods,
    InvalidInterval,
    Unauthorized,
    SwapNotDue,
    DcaPlanComplete,
    InsufficientBalance,
    InvalidSliceAmount,
    ArithmeticOverflow,
    InvalidJupiterAccounts,
}

impl VaultError {
    /// The text shown to a caller for each refusal.
    pub open spec fn spec_message(self) -> Seq<char> {
        match self {
            VaultError::InvalidAmount => "Amount must be greater than zero."@,
            VaultError::InvalidPeriods => "Periods must be greater than zero."@,
            VaultError::InvalidInterval => "Interval must be greater than zero."@,
            VaultError::Unauthorized => "Unauthorized access to vault."@,
            VaultError::SwapNotDue => "Swap is not due yet."@,
            VaultError::DcaPlanComplete => "DCA plan is already complete."@,
            VaultError::InsufficientBalance => "Insufficient balance in vault."@,
            VaultError::InvalidSliceAmount => "Invalid slice amount for swap."@,
            VaultError::ArithmeticOverflow => "Arithmetic overflow occurred."@,
            VaultError::InvalidJupiterAccounts => "Invalid Jupiter accounts provided."@,
        }
    }

    pub fn message(&self) -> (text: &'static str)
        ensures
            text@ == self.spec_message(),
    {
        match self {
            VaultError::InvalidAmount => "Amount must be greater than zero.",
            VaultError::InvalidPeriods => "Periods must be greater than zero.",
            VaultError::InvalidInterval => "Interval must be greater than zero.",
            VaultError::Unauthorized => "Unauthorized access to vault.",
            VaultError::SwapNotDue => "Swap is not due yet.",
            VaultError::DcaPlanComplete => "DCA plan is already complete.",
            VaultError::InsufficientBalance => "Insufficient balance in vault.",
            VaultError::InvalidSliceAmount => "Invalid slice amount for swap.",
            VaultError::ArithmeticOverflow => "Arithmetic overflow occurred.",
            VaultError::InvalidJupiterAccounts => "Invalid Jupiter accounts provided.",
        }
    }
}

} // verus!
