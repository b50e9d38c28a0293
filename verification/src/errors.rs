use vstd::prelude::*;

verus! {

/// Typed failures of the vault's operations.
#[derive(Copy, Clone, Debug, PartialEq, Eq, Structural)]
pub enum VaultError {
    /// A computed payout is not positive, a repayment exceeds the debt, a
    /// part of a request is asked for where only whole requests are
    /// redeemed, or a rate lies outside `[0, SCALAR_7]`.
    InvalidAmount,
    /// A borrow would leave less than the required reserve on hand.
    InsufficientVaultBalance,
    /// The owner already has a redemption request.
    RedemptionInProgress,
    /// The redemption's unlock time has not been reached.
    RedemptionLocked,
    /// The caller is not one of the strategies registered at construction.
    UnauthorizedStrategy,
    /// An amount that a caller hands in, and that must be positive, is zero
    /// or negative.
    ZeroAmount,
    /// More shares were asked for than the request holds.
    InsufficientShares,
    /// The principal's shares are still under the share lock.
    SharesLocked,
    /// The owner has no redemption request.
    RequestNotFound,
    /// The acting principal did not authorize the call.
    Unauthorized,
}

impl VaultError {
    /// The numeric code under which the host reports this error.
    pub open spec fn spec_code(self) -> u32 {
        match self {
            VaultError::InvalidAmount => 4041,
            VaultError::InsufficientVaultBalance => 4042,
            VaultError::RedemptionInProgress => 4043,
            VaultError::RedemptionLocked => 4044,
            VaultError::UnauthorizedStrategy => 4045,
            VaultError::ZeroAmount => 4046,
            VaultError::InsufficientShares => 4047,
            VaultError::SharesLocked => 4048,
            VaultError::RequestNotFound => 4049,
            VaultError::Unauthorized => 4050,
        }
    }

    /// The numeric code under which the host reports this error.
    pub fn code(&self) -> (c: u32)
        ensures
            c == self.spec_code(),
    {
        match self {
            VaultError::InvalidAmount => 4041,
            VaultError::InsufficientVaultBalance => 4042,
            VaultError::RedemptionInProgress => 4043,
            VaultError::RedemptionLocked => 4044,
            VaultError::UnauthorizedStrategy => 4045,
            VaultError::ZeroAmount => 4046,
            VaultError::InsufficientShares => 4047,
            VaultError::SharesLocked => 4048,
            VaultError::RequestNotFound => 4049,
            VaultError::Unauthorized => 4050,
        }
    }
}

/// Distinct errors carry distinct codes.
pub proof fn lemma_codes_distinct(a: VaultError, b: VaultError)
    ensures
        a.spec_code() == b.spec_code() <==> a == b,
{
}

} // verus!
