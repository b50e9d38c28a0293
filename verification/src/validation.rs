use crate::errors::VaultError;
use crate::fixed_point::fits_i128;
use crate::math::{calculate_min_liquidity, min_liquidity, SCALAR_7};
use crate::storage::{
    get_min_liquidity_rate, get_total_tokens, has_redemption_request, is_strategy, Storage,
};
use soroban_sdk::Env;
use vstd::prelude::*;

verus! {

/// What is left to lend once the reserve on `total_tokens` is set aside.
pub open spec fn available_liquidity(
    vault_balance: int,
    total_tokens: int,
    min_liquidity_rate: int,
) -> int {
    vault_balance - min_liquidity(total_tokens, min_liquidity_rate)
}

/// Whether taking `requested_amount` out of `vault_balance` keeps the
/// reserve: the balance exceeds the reserve, and the amount is within what
/// is left above it.
pub open spec fn liquidity_suffices(
    requested_amount: int,
    vault_balance: int,
    total_tokens: int,
    min_liquidity_rate: int,
) -> bool {
    let available = available_liquidity(vault_balance, total_tokens, min_liquidity_rate);
    available > 0 && requested_amount <= available
}

/// An amount handed in by a caller must be positive.
pub fn require_positive_amount(amount: i128) -> (r: Result<(), VaultError>)
    ensures
        amount > 0 ==> r == Ok::<(), VaultError>(()),
        amount <= 0 ==> r == Err::<(), VaultError>(VaultError::ZeroAmount),
{
    if amount <= 0 {
        Err(VaultError::ZeroAmount)
    } else {
        Ok(())
    }
}

/// The strategy must be one of those registered at construction.
pub fn require_authorized_strategy(e: &Storage, strategy: u64) -> (r: Result<(), VaultError>)
    ensures
        e@.is_strategy(strategy) ==> r == Ok::<(), VaultError>(()),
        !e@.is_strategy(strategy) ==> r == Err::<(), VaultError>(
            VaultError::UnauthorizedStrategy,
        ),
{
    if !is_strategy(e, strategy) {
        Err(VaultError::UnauthorizedStrategy)
    } else {
        Ok(())
    }
}

/// Taking `requested_amount` out of `vault_balance` must leave the reserve
/// in place.
pub fn require_sufficient_liquidity(
    env: &Env,
    e: &Storage,
    requested_amount: i128,
    vault_balance: i128,
) -> (r: Result<(), VaultError>)
    requires
        fits_i128(min_liquidity(e@.total_tokens as int, e@.min_liquidity_rate as int)),
    ensures
        liquidity_suffices(
            requested_amount as int,
            vault_balance as int,
            e@.total_tokens as int,
            e@.min_liquidity_rate as int,
        ) ==> r == Ok::<(), VaultError>(()),
        !liquidity_suffices(
            requested_amount as int,
            vault_balance as int,
            e@.total_tokens as int,
            e@.min_liquidity_rate as int,
        ) ==> r == Err::<(), VaultError>(VaultError::InsufficientVaultBalance),
{
    let total_tokens: i128 = get_total_tokens(e);
    let min_liquidity_rate: i128 = get_min_liquidity_rate(e);
    let required_liquidity: i128 = calculate_min_liquidity(env, total_tokens, min_liquidity_rate);
    if vault_balance <= required_liquidity {
        return Err(VaultError::InsufficientVaultBalance);
    }
    match vault_balance.checked_sub(required_liquidity) {
        Some(available_liquidity) => {
            if requested_amount > available_liquidity {
                Err(VaultError::InsufficientVaultBalance)
            } else {
                Ok(())
            }
        },
        None => Ok(()),
    }
}

/// The user must not have a redemption request already.
pub fn require_no_pending_redemption(e: &Storage, user: u64) -> (r: Result<(), VaultError>)
    ensures
        !e@.redemptions.contains_key(user) ==> r == Ok::<(), VaultError>(()),
        e@.redemptions.contains_key(user) ==> r == Err::<(), VaultError>(
            VaultError::RedemptionInProgress,
        ),
{
    if has_redemption_request(e, user) {
        Err(VaultError::RedemptionInProgress)
    } else {
        Ok(())
    }
}

/// A rate must lie in `[0, SCALAR_7]`.
pub fn validate_rate(rate: i128) -> (r: Result<(), VaultError>)
    ensures
        0 <= rate <= SCALAR_7 ==> r == Ok::<(), VaultError>(()),
        !(0 <= rate <= SCALAR_7) ==> r == Err::<(), VaultError>(VaultError::InvalidAmount),
{
    if rate < 0 || rate > SCALAR_7 {
        Err(VaultError::InvalidAmount)
    } else {
        Ok(())
    }
}

/// A redemption can be carried out from its unlock time on.
pub fn require_redemption_unlocked(unlock_time: u64, now: u64) -> (r: Result<(), VaultError>)
    ensures
        now >= unlock_time ==> r == Ok::<(), VaultError>(()),
        now < unlock_time ==> r == Err::<(), VaultError>(VaultError::RedemptionLocked),
{
    if now < unlock_time {
        Err(VaultError::RedemptionLocked)
    } else {
        Ok(())
    }
}

/// No more can be redeemed than the request holds.
pub fn require_shares_within_request(shares: i128, requested: i128) -> (r: Result<
    (),
    VaultError,
>)
    ensures
        shares <= requested ==> r == Ok::<(), VaultError>(()),
        shares > requested ==> r == Err::<(), VaultError>(VaultError::InsufficientShares),
{
    if shares > requested {
        Err(VaultError::InsufficientShares)
    } else {
        Ok(())
    }
}

/// No more can be repaid than is owed.
pub fn require_valid_repayment(amount: i128, borrowed: i128) -> (r: Result<(), VaultError>)
    ensures
        amount <= borrowed ==> r == Ok::<(), VaultError>(()),
        amount > borrowed ==> r == Err::<(), VaultError>(VaultError::InvalidAmount),
{
    if amount > borrowed {
        Err(VaultError::InvalidAmount)
    } else {
        Ok(())
    }
}

/// A computed payout must be positive.
pub fn require_positive_result(amount: i128) -> (r: Result<(), VaultError>)
    ensures
        amount > 0 ==> r == Ok::<(), VaultError>(()),
        amount <= 0 ==> r == Err::<(), VaultError>(VaultError::InvalidAmount),
{
    if amount <= 0 {
        Err(VaultError::InvalidAmount)
    } else {
        Ok(())
    }
}

} // verus!
