use crate::effects::{one_effect, three_effects, two_effects, Account, Effect, Receipt, VaultEvent};
use crate::errors::VaultError;
use crate::fixed_point::fits_i128;
use crate::math::{
    calculate_penalty, penalty_at, penalty_computable, shares_for_tokens, tokens_for_shares,
    value_of_shares, Converter,
};
use crate::storage::{
    get_lock_policy, get_lock_time, get_partial_redemption, get_penalty_rate,
    get_redemption_request, get_total_shares, get_total_tokens, remove_redemption_request,
    set_last_deposit_time, set_redemption_request, set_total_shares, set_total_tokens,
    LockPolicy, RedemptionRequest, Storage, StorageView,
};
use crate::validation::{
    require_no_pending_redemption, require_positive_amount, require_positive_result,
    require_redemption_unlocked, require_shares_within_request,
};
use soroban_sdk::Env;
use vstd::prelude::*;

verus! {

/// The store after `tokens` came in for `shares` new shares credited to
/// `receiver` at `now`: both totals grow, and where a share lock is in force
/// the receiver's deposit time is stamped.
pub open spec fn after_issue(
    pre: StorageView,
    tokens: int,
    shares: int,
    receiver: u64,
    now: u64,
) -> StorageView {
    StorageView {
        total_shares: (pre.total_shares + shares) as i128,
        total_tokens: (pre.total_tokens + tokens) as i128,
        last_deposit_time: if pre.lock_policy == LockPolicy::Disabled {
            pre.last_deposit_time
        } else {
            pre.last_deposit_time.insert(receiver, now)
        },
        ..pre
    }
}

/// Whether issuing `shares` for `tokens` keeps both totals within `i128`.
pub open spec fn issue_fits(pre: StorageView, tokens: int, shares: int) -> bool {
    &&& fits_i128(shares)
    &&& fits_i128(tokens)
    &&& fits_i128(pre.total_shares + shares)
    &&& fits_i128(pre.total_tokens + tokens)
}

/// The shares a deposit of `tokens` mints in `pre`.
pub open spec fn deposit_shares(pre: StorageView, tokens: int) -> int {
    shares_for_tokens(pre.total_shares as int, pre.total_tokens as int, tokens)
}

/// The tokens that minting `shares` costs in `pre`.
pub open spec fn mint_tokens(pre: StorageView, shares: int) -> int {
    tokens_for_shares(pre.total_shares as int, pre.total_tokens as int, shares)
}

/// The tokens that redeeming `shares` pays in `pre`.
pub open spec fn redeem_tokens(pre: StorageView, shares: int) -> int {
    value_of_shares(pre.total_shares as int, pre.total_tokens as int, shares)
}

/// Books the issue of `shares` for `tokens` to `receiver`.
fn issue(e: &mut Storage, tokens: i128, shares: i128, receiver: u64, now: u64)
    requires
        issue_fits(old(e)@, tokens as int, shares as int),
    ensures
        final(e)@ == after_issue(old(e)@, tokens as int, shares as int, receiver, now),
{
    let total_shares: i128 = get_total_shares(e);
    let total_tokens: i128 = get_total_tokens(e);
    set_total_shares(e, &(total_shares + shares));
    set_total_tokens(e, &(total_tokens + tokens));
    match get_lock_policy(e) {
        LockPolicy::Disabled => {},
        _ => {
            set_last_deposit_time(e, receiver, now);
        },
    }
}

/// Whether a deposit of `tokens` in `pre` stays within `i128`.
pub open spec fn deposit_fits(pre: StorageView, tokens: i128) -> bool {
    tokens > 0 ==> issue_fits(pre, tokens as int, deposit_shares(pre, tokens as int))
}

/// What a deposit does. It fails with `ZeroAmount`, and changes nothing,
/// exactly when `tokens` is not positive. Otherwise it books the tokens and
/// the shares they buy, returns the shares, and asks for the tokens to be
/// taken from `payer` and the shares to be minted to `receiver`.
pub open spec fn deposit_result(
    pre: StorageView,
    post: StorageView,
    tokens: i128,
    receiver: u64,
    payer: u64,
    now: u64,
    r: Result<Receipt, VaultError>,
) -> bool {
    &&& tokens <= 0 ==> r is Err && r->Err_0 == VaultError::ZeroAmount
    &&& tokens > 0 ==> r is Ok
    &&& r is Err ==> post == pre
    &&& r is Ok ==> {
        let shares = deposit_shares(pre, tokens as int);
        &&& post == after_issue(pre, tokens as int, shares, receiver, now)
        &&& r->Ok_0.reports(
            shares,
            seq![
                Effect::TransferTokens {
                    from: Account::Principal(payer),
                    to: Account::Vault,
                    amount: tokens,
                },
                Effect::MintShares { receiver: receiver, amount: shares as i128 },
            ],
            VaultEvent::Deposit { receiver: receiver, tokens: tokens, shares: shares as i128 },
        )
    }
}

/// Deposits `tokens` paid by `payer` and mints the shares they buy to
/// `receiver`.
pub fn deposit(
    env: &Env,
    e: &mut Storage,
    tokens: i128,
    receiver: u64,
    payer: u64,
    now: u64,
) -> (r: Result<Receipt, VaultError>)
    requires
        deposit_fits(old(e)@, tokens),
    ensures
        deposit_result(old(e)@, final(e)@, tokens, receiver, payer, now, r),
        old(e)@.wf() ==> final(e)@.wf(),
{
    match require_positive_amount(tokens) {
        Err(err) => {
            return Err(err);
        },
        Ok(_) => {},
    }
    let total_shares: i128 = get_total_shares(e);
    let total_tokens: i128 = get_total_tokens(e);
    let converter = Converter::new(env, total_shares, total_tokens);
    let shares: i128 = converter.shares_from_tokens(tokens);
    issue(e, tokens, shares, receiver, now);
    Ok(
        Receipt {
            amount: shares,
            effects: two_effects(
                Effect::TransferTokens {
                    from: Account::Principal(payer),
                    to: Account::Vault,
                    amount: tokens,
                },
                Effect::MintShares { receiver: receiver, amount: shares },
            ),
            event: VaultEvent::Deposit { receiver, tokens, shares },
        },
    )
}

/// Whether minting `shares` in `pre` stays within `i128`.
pub open spec fn mint_fits(pre: StorageView, shares: i128) -> bool {
    shares > 0 ==> issue_fits(pre, mint_tokens(pre, shares as int), shares as int)
}

/// What a mint does. It fails with `ZeroAmount`, and changes nothing,
/// exactly when `shares` is not positive. Otherwise it books the shares and
/// the tokens they cost, returns the tokens, and asks for the tokens to be
/// taken from `payer` and the shares to be minted to `receiver`.
pub open spec fn mint_result(
    pre: StorageView,
    post: StorageView,
    shares: i128,
    receiver: u64,
    payer: u64,
    now: u64,
    r: Result<Receipt, VaultError>,
) -> bool {
    &&& shares <= 0 ==> r is Err && r->Err_0 == VaultError::ZeroAmount
    &&& shares > 0 ==> r is Ok
    &&& r is Err ==> post == pre
    &&& r is Ok ==> {
        let tokens = mint_tokens(pre, shares as int);
        &&& post == after_issue(pre, tokens, shares as int, receiver, now)
        &&& r->Ok_0.reports(
            tokens,
            seq![
                Effect::TransferTokens {
                    from: Account::Principal(payer),
                    to: Account::Vault,
                    amount: tokens as i128,
                },
                Effect::MintShares { receiver: receiver, amount: shares },
            ],
            VaultEvent::Mint { receiver: receiver, shares: shares, tokens: tokens as i128 },
        )
    }
}

/// Mints exactly `shares` to `receiver` against the tokens they cost, paid
/// by `payer`.
pub fn mint(
    env: &Env,
    e: &mut Storage,
    shares: i128,
    receiver: u64,
    payer: u64,
    now: u64,
) -> (r: Result<Receipt, VaultError>)
    requires
        mint_fits(old(e)@, shares),
    ensures
        mint_result(old(e)@, final(e)@, shares, receiver, payer, now, r),
        old(e)@.wf() ==> final(e)@.wf(),
{
    match require_positive_amount(shares) {
        Err(err) => {
            return Err(err);
        },
        Ok(_) => {},
    }
    let total_shares: i128 = get_total_shares(e);
    let total_tokens: i128 = get_total_tokens(e);
    let converter = Converter::new(env, total_shares, total_tokens);
    let tokens: i128 = converter.tokens_from_shares(shares);
    issue(e, tokens, shares, receiver, now);
    Ok(
        Receipt {
            amount: tokens,
            effects: two_effects(
                Effect::TransferTokens {
                    from: Account::Principal(payer),
                    to: Account::Vault,
                    amount: tokens,
                },
                Effect::MintShares { receiver: receiver, amount: shares },
            ),
            event: VaultEvent::Mint { receiver, shares, tokens },
        },
    )
}

/// Why a redemption request for `shares` by `owner` is refused in `pre`, if
/// it is.
pub open spec fn request_redeem_error(pre: StorageView, shares: int, owner: u64) -> Option<
    VaultError,
> {
    if shares <= 0 {
        Some(VaultError::ZeroAmount)
    } else if pre.redemptions.contains_key(owner) {
        Some(VaultError::RedemptionInProgress)
    } else {
        None
    }
}

/// Whether the unlock time of a request made at `now` fits in `u64`.
pub open spec fn request_redeem_fits(pre: StorageView, now: u64) -> bool {
    now + pre.lock_time <= u64::MAX
}

/// What a redemption request does. It fails, and changes nothing, exactly
/// when `request_redeem_error` names an error, and then with that error.
/// Otherwise it stores the request, unlocking one lock time after `now`,
/// returns the shares, and asks for them to be moved from `owner` into the
/// vault's custody.
pub open spec fn request_redeem_result(
    pre: StorageView,
    post: StorageView,
    shares: i128,
    owner: u64,
    now: u64,
    r: Result<Receipt, VaultError>,
) -> bool {
    &&& r is Err <==> request_redeem_error(pre, shares as int, owner) is Some
    &&& r is Err ==> Some(r->Err_0) == request_redeem_error(pre, shares as int, owner) && post
        == pre
    &&& r is Ok ==> {
        let unlock_time = (now + pre.lock_time) as u64;
        &&& post == (StorageView {
            redemptions: pre.redemptions.insert(
                owner,
                RedemptionRequest { shares: shares, unlock_time: unlock_time },
            ),
            ..pre
        })
        &&& r->Ok_0.reports(
            shares as int,
            seq![
                Effect::TransferShares {
                    from: Account::Principal(owner),
                    to: Account::Vault,
                    amount: shares,
                },
            ],
            VaultEvent::RequestRedeem { owner: owner, shares: shares, unlock_time: unlock_time },
        )
    }
}

/// Queues the redemption of `shares` of `owner`: the shares move into the
/// vault's custody and can be redeemed once the lock time has passed.
pub fn request_redeem(e: &mut Storage, shares: i128, owner: u64, now: u64) -> (r: Result<
    Receipt,
    VaultError,
>)
    requires
        request_redeem_fits(old(e)@, now),
    ensures
        request_redeem_result(old(e)@, final(e)@, shares, owner, now, r),
        old(e)@.wf() ==> final(e)@.wf(),
{
    match require_positive_amount(shares) {
        Err(err) => {
            return Err(err);
        },
        Ok(_) => {},
    }
    match require_no_pending_redemption(e, owner) {
        Err(err) => {
            return Err(err);
        },
        Ok(_) => {},
    }
    let lock_time: u64 = get_lock_time(e);
    let unlock_time: u64 = now + lock_time;
    let request = RedemptionRequest { shares, unlock_time };
    set_redemption_request(e, owner, &request);
    Ok(
        Receipt {
            amount: shares,
            effects: one_effect(
                Effect::TransferShares {
                    from: Account::Principal(owner),
                    to: Account::Vault,
                    amount: shares,
                },
            ),
            event: VaultEvent::RequestRedeem { owner, shares, unlock_time },
        },
    )
}

/// The number of shares a redemption is for: the whole request where the
/// caller names none.
pub open spec fn redeem_amount(request: RedemptionRequest, shares: Option<i128>) -> i128 {
    match shares {
        Some(s) => s,
        None => request.shares,
    }
}

/// Why the redemption of `shares` from the request of `owner` is refused in
/// `pre` at `now`, if it is: there is no request; it is still locked; more
/// is asked for than it holds; the amount is not positive; or it is a part
/// of the request where only whole requests are redeemed.
pub open spec fn redeem_error(pre: StorageView, shares: Option<i128>, owner: u64, now: u64)
    -> Option<VaultError> {
    if !pre.redemptions.contains_key(owner) {
        Some(VaultError::RequestNotFound)
    } else if now < pre.redemptions[owner].unlock_time {
        Some(VaultError::RedemptionLocked)
    } else if redeem_amount(pre.redemptions[owner], shares) > pre.redemptions[owner].shares {
        Some(VaultError::InsufficientShares)
    } else if redeem_amount(pre.redemptions[owner], shares) <= 0 {
        Some(VaultError::ZeroAmount)
    } else if redeem_amount(pre.redemptions[owner], shares) < pre.redemptions[owner].shares
        && !pre.partial_redemption {
        Some(VaultError::InvalidAmount)
    } else {
        None
    }
}

/// Whether taking `amount` shares out of `pre` at their value stays within
/// `i128`.
pub open spec fn withdrawal_fits(pre: StorageView, amount: int) -> bool {
    &&& fits_i128(redeem_tokens(pre, amount))
    &&& fits_i128(pre.total_shares - amount)
    &&& fits_i128(pre.total_tokens - redeem_tokens(pre, amount))
}

/// Whether the redemption of `shares` from the request of `owner` stays
/// within `i128`, where it is not refused.
pub open spec fn redeem_fits(pre: StorageView, shares: Option<i128>, owner: u64, now: u64) -> bool {
    redeem_error(pre, shares, owner, now) is None ==> withdrawal_fits(
        pre,
        redeem_amount(pre.redemptions[owner], shares) as int,
    )
}

/// The store after `amount` shares of the request of `owner` were redeemed
/// for `tokens`: both totals shrink, and the request is deleted where it is
/// used up, else left with what remains.
pub open spec fn after_redeem(pre: StorageView, owner: u64, amount: int, tokens: int)
    -> StorageView {
    StorageView {
        total_shares: (pre.total_shares - amount) as i128,
        total_tokens: (pre.total_tokens - tokens) as i128,
        redemptions: if amount == pre.redemptions[owner].shares {
            pre.redemptions.remove(owner)
        } else {
            pre.redemptions.insert(
                owner,
                RedemptionRequest {
                    shares: (pre.redemptions[owner].shares - amount) as i128,
                    unlock_time: pre.redemptions[owner].unlock_time,
                },
            )
        },
        ..pre
    }
}

/// The value movements of a redemption: the shares are burnt, the tokens
/// paid to `receiver`, and what remains of the request goes back to `owner`.
pub open spec fn redeem_effects(
    pre: StorageView,
    owner: u64,
    receiver: u64,
    amount: int,
    tokens: int,
) -> Seq<Effect> {
    let burn = Effect::BurnShares { amount: amount as i128 };
    let pay = Effect::TransferTokens {
        from: Account::Vault,
        to: Account::Principal(receiver),
        amount: tokens as i128,
    };
    if amount == pre.redemptions[owner].shares {
        seq![burn, pay]
    } else {
        seq![
            burn,
            pay,
            Effect::TransferShares {
                from: Account::Vault,
                to: Account::Principal(owner),
                amount: (pre.redemptions[owner].shares - amount) as i128,
            },
        ]
    }
}

/// What a redemption does. It fails, and changes nothing, exactly when
/// `redeem_error` names an error, and then with that error. Otherwise it
/// takes the shares and their value off the totals, deletes or shrinks the
/// request, returns the tokens paid, and asks for the movements of
/// `redeem_effects`.
pub open spec fn redeem_result(
    pre: StorageView,
    post: StorageView,
    shares: Option<i128>,
    receiver: u64,
    owner: u64,
    now: u64,
    r: Result<Receipt, VaultError>,
) -> bool {
    &&& r is Err <==> redeem_error(pre, shares, owner, now) is Some
    &&& r is Err ==> Some(r->Err_0) == redeem_error(pre, shares, owner, now) && post == pre
    &&& r is Ok ==> {
        let amount = redeem_amount(pre.redemptions[owner], shares) as int;
        let tokens = redeem_tokens(pre, amount);
        &&& post == after_redeem(pre, owner, amount, tokens)
        &&& r->Ok_0.reports(
            tokens,
            redeem_effects(pre, owner, receiver, amount, tokens),
            VaultEvent::Redeem {
                owner: owner,
                receiver: receiver,
                shares: amount as i128,
                tokens: tokens as i128,
            },
        )
    }
}

/// Carries out the redemption that `owner` has requested, for `shares` of it
/// or for all of it, and pays `receiver`.
pub fn redeem(
    env: &Env,
    e: &mut Storage,
    shares: Option<i128>,
    receiver: u64,
    owner: u64,
    now: u64,
) -> (r: Result<Receipt, VaultError>)
    requires
        redeem_fits(old(e)@, shares, owner, now),
    ensures
        redeem_result(old(e)@, final(e)@, shares, receiver, owner, now, r),
        old(e)@.wf() ==> final(e)@.wf(),
{
    let request = match get_redemption_request(e, owner) {
        Some(q) => q,
        None => {
            return Err(VaultError::RequestNotFound);
        },
    };
    match require_redemption_unlocked(request.unlock_time, now) {
        Err(err) => {
            return Err(err);
        },
        Ok(_) => {},
    }
    let amount: i128 = match shares {
        Some(s) => s,
        None => request.shares,
    };
    match require_shares_within_request(amount, request.shares) {
        Err(err) => {
            return Err(err);
        },
        Ok(_) => {},
    }
    match require_positive_amount(amount) {
        Err(err) => {
            return Err(err);
        },
        Ok(_) => {},
    }
    if amount < request.shares && !get_partial_redemption(e) {
        return Err(VaultError::InvalidAmount);
    }
    let total_shares: i128 = get_total_shares(e);
    let total_tokens: i128 = get_total_tokens(e);
    let converter = Converter::new(env, total_shares, total_tokens);
    let tokens: i128 = converter.redemption_value(amount);
    set_total_shares(e, &(total_shares - amount));
    set_total_tokens(e, &(total_tokens - tokens));
    let burn = Effect::BurnShares { amount };
    let pay = Effect::TransferTokens {
        from: Account::Vault,
        to: Account::Principal(receiver),
        amount: tokens,
    };
    let effects = if amount == request.shares {
        remove_redemption_request(e, owner);
        two_effects(burn, pay)
    } else {
        let remaining_shares: i128 = request.shares - amount;
        let updated_request = RedemptionRequest {
            shares: remaining_shares,
            unlock_time: request.unlock_time,
        };
        set_redemption_request(e, owner, &updated_request);
        three_effects(
            burn,
            pay,
            Effect::TransferShares {
                from: Account::Vault,
                to: Account::Principal(owner),
                amount: remaining_shares,
            },
        )
    };
    Ok(
        Receipt {
            amount: tokens,
            effects,
            event: VaultEvent::Redeem { owner, receiver, shares: amount, tokens },
        },
    )
}

/// The value of the request of `owner` in `pre`.
pub open spec fn emergency_value(pre: StorageView, owner: u64) -> int {
    redeem_tokens(pre, pre.redemptions[owner].shares as int)
}

/// The penalty that an emergency redemption of the request of `owner` pays
/// at `now`.
pub open spec fn emergency_penalty(pre: StorageView, owner: u64, now: u64) -> int {
    penalty_at(
        emergency_value(pre, owner),
        pre.redemptions[owner].unlock_time as int,
        pre.lock_time as int,
        pre.penalty_rate as int,
        now as int,
    )
}

/// What an emergency redemption of the request of `owner` pays out at
/// `now`: its value less the penalty.
pub open spec fn emergency_payout(pre: StorageView, owner: u64, now: u64) -> int {
    emergency_value(pre, owner) - emergency_penalty(pre, owner, now)
}

/// Whether the emergency redemption of the request of `owner` at `now` can
/// be computed within `i128`.
pub open spec fn emergency_fits(pre: StorageView, owner: u64, now: u64) -> bool {
    &&& fits_i128(emergency_value(pre, owner))
    &&& penalty_computable(
        emergency_value(pre, owner),
        pre.redemptions[owner].unlock_time as int,
        pre.lock_time as int,
        pre.penalty_rate as int,
        now as int,
    )
    &&& fits_i128(emergency_payout(pre, owner, now))
    &&& fits_i128(pre.total_shares - pre.redemptions[owner].shares)
    &&& fits_i128(pre.total_tokens - emergency_payout(pre, owner, now))
}

/// Why the emergency redemption of the request of `owner` is refused in
/// `pre` at `now`, if it is.
pub open spec fn emergency_redeem_error(pre: StorageView, owner: u64, now: u64) -> Option<
    VaultError,
> {
    if !pre.redemptions.contains_key(owner) {
        Some(VaultError::RequestNotFound)
    } else if emergency_payout(pre, owner, now) <= 0 {
        Some(VaultError::InvalidAmount)
    } else {
        None
    }
}

/// Whether the emergency redemption of the request of `owner`, if it has
/// one, can be computed within `i128` at `now`.
pub open spec fn emergency_redeem_fits(pre: StorageView, owner: u64, now: u64) -> bool {
    pre.redemptions.contains_key(owner) ==> emergency_fits(pre, owner, now)
}

/// What an emergency redemption does. It fails, and changes nothing,
/// exactly when `emergency_redeem_error` names an error, and then with that
/// error. Otherwise it takes all the requested shares off the share total
/// but only the payout off the token total, so that the penalty stays in
/// the vault; it deletes the request, returns the payout, and asks for the
/// shares to be burnt and the payout to be paid to `receiver`.
pub open spec fn emergency_redeem_result(
    pre: StorageView,
    post: StorageView,
    owner: u64,
    receiver: u64,
    now: u64,
    r: Result<Receipt, VaultError>,
) -> bool {
    &&& r is Err <==> emergency_redeem_error(pre, owner, now) is Some
    &&& r is Err ==> Some(r->Err_0) == emergency_redeem_error(pre, owner, now) && post == pre
    &&& r is Ok ==> {
        let shares = pre.redemptions[owner].shares;
        let payout = emergency_payout(pre, owner, now);
        let penalty = emergency_penalty(pre, owner, now);
        &&& post == (StorageView {
            total_shares: (pre.total_shares - shares) as i128,
            total_tokens: (pre.total_tokens - payout) as i128,
            redemptions: pre.redemptions.remove(owner),
            ..pre
        })
        &&& r->Ok_0.reports(
            payout,
            seq![
                Effect::BurnShares { amount: shares },
                Effect::TransferTokens {
                    from: Account::Vault,
                    to: Account::Principal(receiver),
                    amount: payout as i128,
                },
            ],
            VaultEvent::EmergencyRedeem {
                owner: owner,
                shares: shares,
                tokens: payout as i128,
                penalty: penalty as i128,
            },
        )
    }
}

/// Redeems the whole request of `owner` at once, before or after its unlock
/// time, and pays `receiver` its value less the penalty. The penalty stays
/// in the vault.
pub fn emergency_redeem(env: &Env, e: &mut Storage, owner: u64, receiver: u64, now: u64) -> (r:
    Result<Receipt, VaultError>)
    requires
        emergency_redeem_fits(old(e)@, owner, now),
    ensures
        emergency_redeem_result(old(e)@, final(e)@, owner, receiver, now, r),
        old(e)@.wf() ==> final(e)@.wf(),
{
    let request = match get_redemption_request(e, owner) {
        Some(q) => q,
        None => {
            return Err(VaultError::RequestNotFound);
        },
    };
    let total_shares: i128 = get_total_shares(e);
    let total_tokens: i128 = get_total_tokens(e);
    let converter = Converter::new(env, total_shares, total_tokens);
    let current_tokens: i128 = converter.redemption_value(request.shares);
    let lock_time: u64 = get_lock_time(e);
    let penalty_rate: i128 = get_penalty_rate(e);
    let penalty_amount: i128 = calculate_penalty(
        env,
        current_tokens,
        request.unlock_time,
        lock_time,
        penalty_rate,
        now,
    );
    let withdrawal_amount: i128 = current_tokens - penalty_amount;
    match require_positive_result(withdrawal_amount) {
        Err(err) => {
            return Err(err);
        },
        Ok(_) => {},
    }
    set_total_shares(e, &(total_shares - request.shares));
    set_total_tokens(e, &(total_tokens - withdrawal_amount));
    remove_redemption_request(e, owner);
    Ok(
        Receipt {
            amount: withdrawal_amount,
            effects: two_effects(
                Effect::BurnShares { amount: request.shares },
                Effect::TransferTokens {
                    from: Account::Vault,
                    to: Account::Principal(receiver),
                    amount: withdrawal_amount,
                },
            ),
            event: VaultEvent::EmergencyRedeem {
                owner,
                shares: request.shares,
                tokens: withdrawal_amount,
                penalty: penalty_amount,
            },
        },
    )
}

/// What a cancellation does. It fails with `RequestNotFound`, and changes
/// nothing, exactly when `owner` has no request. Otherwise it deletes the
/// request, touches neither total, returns the shares, and asks for them to
/// be handed back to `owner`.
pub open spec fn cancel_redeem_result(
    pre: StorageView,
    post: StorageView,
    owner: u64,
    r: Result<Receipt, VaultError>,
) -> bool {
    &&& r is Err <==> !pre.redemptions.contains_key(owner)
    &&& r is Err ==> r->Err_0 == VaultError::RequestNotFound && post == pre
    &&& r is Ok ==> {
        let shares = pre.redemptions[owner].shares;
        &&& post == (StorageView { redemptions: pre.redemptions.remove(owner), ..pre })
        &&& r->Ok_0.reports(
            shares as int,
            seq![
                Effect::TransferShares {
                    from: Account::Vault,
                    to: Account::Principal(owner),
                    amount: shares,
                },
            ],
            VaultEvent::CancelRedeem { owner: owner, shares: shares },
        )
    }
}

/// Withdraws the request of `owner` and hands the shares in custody back.
pub fn cancel_redeem(e: &mut Storage, owner: u64) -> (r: Result<Receipt, VaultError>)
    ensures
        cancel_redeem_result(old(e)@, final(e)@, owner, r),
        old(e)@.wf() ==> final(e)@.wf(),
{
    let request = match get_redemption_request(e, owner) {
        Some(q) => q,
        None => {
            return Err(VaultError::RequestNotFound);
        },
    };
    remove_redemption_request(e, owner);
    Ok(
        Receipt {
            amount: request.shares,
            effects: one_effect(
                Effect::TransferShares {
                    from: Account::Vault,
                    to: Account::Principal(owner),
                    amount: request.shares,
                },
            ),
            event: VaultEvent::CancelRedeem { owner, shares: request.shares },
        },
    )
}

} // verus!
