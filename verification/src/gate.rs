use crate::effects::{one_effect, Account, Effect, Receipt, VaultEvent};
use crate::errors::VaultError;
use crate::fixed_point::fits_i128;
use crate::math::{value_of_shares, Converter};
use crate::storage::{
    get_last_deposit_time, get_lock_policy, get_lock_time, get_total_shares, get_total_tokens,
    LockPolicy, Storage, StorageView,
};
use soroban_sdk::Env;
use vstd::prelude::*;

verus! {

/// Whether the shares of a principal are locked at `now`, given the time of
/// its last deposit. Without a deposit record the deposit lock counts the
/// principal as locked and the transfer lock as unlocked.
pub open spec fn locked_at(
    policy: LockPolicy,
    last_deposit: Option<u64>,
    lock_time: u64,
    now: u64,
) -> bool {
    match policy {
        LockPolicy::Disabled => false,
        LockPolicy::DepositLock => match last_deposit {
            Some(t) => now < t + lock_time,
            None => true,
        },
        LockPolicy::TransferLock => match last_deposit {
            Some(t) => now < t + lock_time,
            None => false,
        },
    }
}

/// How long the shares of a principal stay locked from `now` on, in
/// seconds: 0 where they are not locked, `u64::MAX` where no deposit record
/// exists under the deposit lock, so that no end is known.
pub open spec fn lock_remaining(
    policy: LockPolicy,
    last_deposit: Option<u64>,
    lock_time: u64,
    now: u64,
) -> int {
    if !locked_at(policy, last_deposit, lock_time, now) {
        0
    } else {
        match last_deposit {
            Some(t) => if t + lock_time - now > u64::MAX {
                u64::MAX as int
            } else {
                t + lock_time - now
            },
            None => u64::MAX as int,
        }
    }
}

impl StorageView {
    /// Whether the shares of `user` are locked at `now`.
    pub open spec fn is_locked(self, user: u64, now: u64) -> bool {
        locked_at(self.lock_policy, self.last_deposit(user), self.lock_time, now)
    }

    /// Whether the share lock keeps `user` from redeeming at `now`: only
    /// the deposit lock does.
    pub open spec fn redemption_blocked(self, user: u64, now: u64) -> bool {
        self.lock_policy == LockPolicy::DepositLock && self.is_locked(user, now)
    }
}

/// Whether a deposit made at `deposited` is still under a lock of
/// `lock_time` seconds at `now`.
fn within_lock(deposited: u64, lock_time: u64, now: u64) -> (r: bool)
    ensures
        r == (now < deposited + lock_time),
{
    if now < deposited {
        true
    } else {
        now - deposited < lock_time
    }
}

/// Whether the shares of `user` are locked at `now`.
pub fn is_locked(e: &Storage, user: u64, now: u64) -> (r: bool)
    ensures
        r == e@.is_locked(user, now),
{
    let lock_time: u64 = get_lock_time(e);
    match get_lock_policy(e) {
        LockPolicy::Disabled => false,
        LockPolicy::DepositLock => match get_last_deposit_time(e, user) {
            Some(t) => within_lock(t, lock_time, now),
            None => true,
        },
        LockPolicy::TransferLock => match get_last_deposit_time(e, user) {
            Some(t) => within_lock(t, lock_time, now),
            None => false,
        },
    }
}

/// How many seconds the shares of `user` stay locked from `now` on.
pub fn lock_duration(e: &Storage, user: u64, now: u64) -> (r: u64)
    ensures
        r == lock_remaining(e@.lock_policy, e@.last_deposit(user), e@.lock_time, now),
        r > 0 <==> e@.is_locked(user, now),
{
    if !is_locked(e, user, now) {
        return 0;
    }
    let lock_time: u64 = get_lock_time(e);
    match get_last_deposit_time(e, user) {
        Some(t) => {
            if now <= t {
                let ahead: u64 = t - now;
                if ahead > u64::MAX - lock_time {
                    u64::MAX
                } else {
                    ahead + lock_time
                }
            } else {
                lock_time - (now - t)
            }
        },
        None => u64::MAX,
    }
}

/// The shares of `user` must not be locked.
pub fn require_unlocked(e: &Storage, user: u64, now: u64) -> (r: Result<(), VaultError>)
    ensures
        !e@.is_locked(user, now) ==> r == Ok::<(), VaultError>(()),
        e@.is_locked(user, now) ==> r == Err::<(), VaultError>(VaultError::SharesLocked),
{
    if is_locked(e, user, now) {
        Err(VaultError::SharesLocked)
    } else {
        Ok(())
    }
}

/// The share lock must not keep `user` from redeeming.
pub fn require_redeemable(e: &Storage, user: u64, now: u64) -> (r: Result<(), VaultError>)
    ensures
        !e@.redemption_blocked(user, now) ==> r == Ok::<(), VaultError>(()),
        e@.redemption_blocked(user, now) ==> r == Err::<(), VaultError>(VaultError::SharesLocked),
{
    match get_lock_policy(e) {
        LockPolicy::DepositLock => require_unlocked(e, user, now),
        _ => Ok(()),
    }
}

/// What the share lock decides on a share transfer. It fails with
/// `SharesLocked` exactly when the shares of `from` are locked at `now`.
/// Otherwise it returns the amount and asks for it to be moved from `from`
/// to `to`.
pub open spec fn transfer_result(
    pre: StorageView,
    from: u64,
    to: u64,
    amount: i128,
    now: u64,
    r: Result<Receipt, VaultError>,
) -> bool {
    &&& r is Err <==> pre.is_locked(from, now)
    &&& r is Err ==> r->Err_0 == VaultError::SharesLocked
    &&& r is Ok ==> r->Ok_0.reports(
        amount as int,
        seq![
            Effect::TransferShares {
                from: Account::Principal(from),
                to: Account::Principal(to),
                amount: amount,
            },
        ],
        VaultEvent::ShareTransfer { from: from, to: to, amount: amount },
    )
}

/// Lets `amount` shares pass from `from` to `to`, unless the shares of
/// `from` are locked. The share token then makes the transfer.
pub fn transfer(e: &Storage, from: u64, to: u64, amount: i128, now: u64) -> (r: Result<
    Receipt,
    VaultError,
>)
    ensures
        transfer_result(e@, from, to, amount, now, r),
{
    match require_unlocked(e, from, now) {
        Err(err) => {
            return Err(err);
        },
        Ok(_) => {},
    }
    Ok(
        Receipt {
            amount,
            effects: one_effect(
                Effect::TransferShares {
                    from: Account::Principal(from),
                    to: Account::Principal(to),
                    amount,
                },
            ),
            event: VaultEvent::ShareTransfer { from, to, amount },
        },
    )
}

/// The most shares that `owner`, holding `share_balance` of them, can
/// redeem at `now`: none while the share lock keeps it from redeeming.
pub fn max_redeem(e: &Storage, owner: u64, share_balance: i128, now: u64) -> (r: i128)
    ensures
        r == if e@.redemption_blocked(owner, now) {
            0
        } else {
            share_balance
        },
{
    match require_redeemable(e, owner, now) {
        Err(_) => 0,
        Ok(_) => share_balance,
    }
}

/// The most tokens that `owner`, holding `share_balance` shares, can
/// withdraw at `now`: the value of what it can redeem.
pub fn max_withdraw(env: &Env, e: &Storage, owner: u64, share_balance: i128, now: u64) -> (r: i128)
    requires
        fits_i128(
            value_of_shares(e@.total_shares as int, e@.total_tokens as int, share_balance as int),
        ),
    ensures
        r == if e@.redemption_blocked(owner, now) {
            0
        } else {
            value_of_shares(e@.total_shares as int, e@.total_tokens as int, share_balance as int)
        },
{
    let shares: i128 = max_redeem(e, owner, share_balance, now);
    if shares == 0 {
        assert(0 * (e@.total_tokens as int) == 0);
        if get_total_shares(e) != 0 {
            assert(0int / (e@.total_shares as int) == 0) by (nonlinear_arith)
                requires
                    e@.total_shares as int != 0,
            ;
            assert(0int / (-(e@.total_shares as int)) == 0) by (nonlinear_arith)
                requires
                    e@.total_shares as int != 0,
            ;
        }
        return 0;
    }
    let converter = Converter::new(env, get_total_shares(e), get_total_tokens(e));
    converter.redemption_value(shares)
}

/// Under the transfer lock a principal that never deposited is not locked
/// and has no lock left to run; under the deposit lock it is locked.
pub proof fn lemma_lock_default_polarity(lock_time: u64, now: u64)
    ensures
        !locked_at(LockPolicy::TransferLock, None, lock_time, now),
        lock_remaining(LockPolicy::TransferLock, None, lock_time, now) == 0,
        locked_at(LockPolicy::DepositLock, None, lock_time, now),
{
}

/// A deposit locks the receiver's shares for exactly the lock time.
pub proof fn lemma_lock_runs_for_lock_time(
    policy: LockPolicy,
    deposited: u64,
    lock_time: u64,
    now: u64,
)
    requires
        policy != LockPolicy::Disabled,
    ensures
        locked_at(policy, Some(deposited), lock_time, now) <==> now < deposited + lock_time,
{
}

} // verus!
