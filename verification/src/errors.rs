//! The reasons an operation is refused.

use vstd::prelude::*;

verus! {

/// Why an operation was refused. Every refusal leaves all records as they were.
#[derive(Clone, Copy, Debug, PartialEq, Eq, Structural)]
pub enum ErrorCode {
    /// The commission rate is above ten thousand basis points.
    InvalidCommissionRate,
    /// The amount is zero.
    InvalidAmount,
    /// The pool identifier is empty or longer than thirty-two bytes.
    InvalidPoolId,
    /// The reference identifier is empty or longer than thirty-two bytes.
    InvalidRefId,
    /// The pool has been deactivated.
    PoolInactive,
    /// The affiliate has been removed.
    AffiliateInactive,
    /// A product or a sum does not fit in sixty-four bits.
    ArithmeticOverflow,
    /// The commission on the sale rounds down to zero.
    CommissionTooSmall,
    /// The escrow holds less than the amount to be paid out.
    InsufficientEscrowBalance,
    /// The caller is not the merchant who owns the pool.
    Unauthorized,
    /// The affiliate belongs to another pool.
    InvalidAffiliate,
}

impl ErrorCode {
    /// The text shown for each refusal.
    pub open spec fn message_text(self) -> Seq<char> {
        match self {
            ErrorCode::InvalidCommissionRate => "Invalid commission rate (must be <= 10000 basis points)"@,
            ErrorCode::InvalidAmount => "Amount must be greater than 0"@,
            ErrorCode::InvalidPoolId => "Pool ID must be between 1-32 characters"@,
            ErrorCode::InvalidRefId => "Reference ID must be between 1-32 characters"@,
            ErrorCode::PoolInactive => "Pool is not active"@,
            ErrorCode::AffiliateInactive => "Affiliate is not active"@,
            ErrorCode::ArithmeticOverflow => "Arithmetic overflow occurred"@,
            ErrorCode::CommissionTooSmall => "Calculated commission is too small"@,
            ErrorCode::InsufficientEscrowBalance => "Insufficient balance in escrow"@,
            ErrorCode::Unauthorized => "Unauthorized: Only merchant can perform this action"@,
            ErrorCode::InvalidAffiliate => "Invalid affiliate account"@,
        }
    }

    /// The text shown for this refusal.
    pub fn message(&self) -> (text: &'static str)
        ensures
            text@ == self.message_text(),
    {
        match self {
            ErrorCode::InvalidCommissionRate => "Invalid commission rate (must be <= 10000 basis points)",
            ErrorCode::InvalidAmount => "Amount must be greater than 0",
            ErrorCode::InvalidPoolId => "Pool ID must be between 1-32 characters",
            ErrorCode::InvalidRefId => "Reference ID must be between 1-32 characters",
            ErrorCode::PoolInactive => "Pool is not active",
            ErrorCode::AffiliateInactive => "Affiliate is not active",
            ErrorCode::ArithmeticOverflow => "Arithmetic overflow occurred",
            ErrorCode::CommissionTooSmall => "Calculated commission is too small",
            ErrorCode::InsufficientEscrowBalance => "Insufficient balance in escrow",
            ErrorCode::Unauthorized => "Unauthorized: Only merchant can perform this action",
            ErrorCode::InvalidAffiliate => "Invalid affiliate account",
        }
    }
}

} // verus!
