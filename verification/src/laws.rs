use crate::effects::Receipt;
use crate::errors::VaultError;
use crate::fixed_point::fits_i128;
use crate::math::{
    lemma_conversions_bounded, lemma_deposit_not_profitable, lemma_par_converts_exactly,
    lemma_penalty_bounded, lemma_penalty_nonnegative, lemma_price_never_falls, min_liquidity,
    penalty_computable, price_not_lower,
};
use crate::storage::StorageView;
use crate::strategy::{
    borrow_error, borrow_result, repay_result, transfer_from_result, transfer_to_result,
};
use crate::vault::{
    after_issue, after_redeem, cancel_redeem_result, deposit_fits, deposit_result, deposit_shares,
    emergency_fits, emergency_payout, emergency_penalty, emergency_redeem_result,
    emergency_value, issue_fits, mint_result, mint_tokens, redeem_result, redeem_tokens,
    request_redeem_result, withdrawal_fits,
};
use vstd::prelude::*;

verus! {

/// A deposit into a vault whose shares stand at one to one, followed by
/// the request for and the redemption of all the shares it bought, with
/// nothing else in between, pays back exactly what was deposited and
/// leaves both totals where they were.
pub proof fn lemma_cycle_returns_deposit(
    pre: StorageView,
    deposited: StorageView,
    requested: StorageView,
    redeemed: StorageView,
    tokens: i128,
    owner: u64,
    payer: u64,
    receiver: u64,
    deposit_time: u64,
    request_time: u64,
    redeem_time: u64,
    deposit: Result<Receipt, VaultError>,
    request: Result<Receipt, VaultError>,
    redemption: Result<Receipt, VaultError>,
)
    requires
        pre.total_shares >= 0,
        pre.total_shares == pre.total_tokens,
        deposit_fits(pre, tokens),
        deposit_result(pre, deposited, tokens, owner, payer, deposit_time, deposit),
        deposit is Ok,
        request_redeem_result(
            deposited,
            requested,
            deposit->Ok_0.amount,
            owner,
            request_time,
            request,
        ),
        request is Ok,
        redeem_result(requested, redeemed, None, receiver, owner, redeem_time, redemption),
        redemption is Ok,
    ensures
        deposit->Ok_0.amount == tokens,
        redemption->Ok_0.amount == tokens,
        redeemed.total_shares == pre.total_shares,
        redeemed.total_tokens == pre.total_tokens,
        !redeemed.redemptions.contains_key(owner),
{
    lemma_par_converts_exactly(pre.total_shares as int, tokens as int);
    lemma_par_converts_exactly(pre.total_shares + tokens, tokens as int);
}

/// At any ratio, a deposit followed by the request for and the redemption
/// of all the shares it bought, with nothing else in between, pays back no
/// more than what was deposited.
pub proof fn lemma_cycle_never_gains(
    pre: StorageView,
    deposited: StorageView,
    requested: StorageView,
    redeemed: StorageView,
    tokens: i128,
    owner: u64,
    payer: u64,
    receiver: u64,
    deposit_time: u64,
    request_time: u64,
    redeem_time: u64,
    deposit: Result<Receipt, VaultError>,
    request: Result<Receipt, VaultError>,
    redemption: Result<Receipt, VaultError>,
)
    requires
        pre.total_shares > 0,
        pre.total_tokens > 0,
        deposit_fits(pre, tokens),
        deposit_result(pre, deposited, tokens, owner, payer, deposit_time, deposit),
        deposit is Ok,
        request_redeem_result(
            deposited,
            requested,
            deposit->Ok_0.amount,
            owner,
            request_time,
            request,
        ),
        request is Ok,
        redeem_result(requested, redeemed, None, receiver, owner, redeem_time, redemption),
        redemption is Ok,
    ensures
        redemption->Ok_0.amount <= tokens,
{
    lemma_deposit_not_profitable(pre.total_shares as int, pre.total_tokens as int, tokens as int);
}

/// A vault whose shares stand at one to one stays there through deposits,
/// mints and redemptions: each of them moves both totals by the same
/// amount.
pub proof fn lemma_par_is_kept(pre: StorageView, amount: int, receiver: u64, now: u64, owner: u64)
    requires
        amount > 0,
        pre.total_shares >= 0,
        pre.total_shares == pre.total_tokens,
    ensures
        deposit_shares(pre, amount) == amount,
        mint_tokens(pre, amount) == amount,
        pre.total_shares > 0 ==> redeem_tokens(pre, amount) == amount,
        issue_fits(pre, amount, amount) ==> after_issue(
            pre,
            amount,
            amount,
            receiver,
            now,
        ).total_shares == after_issue(pre, amount, amount, receiver, now).total_tokens,
        withdrawal_fits(pre, amount) && pre.total_shares > 0 ==> after_redeem(
            pre,
            owner,
            amount,
            amount,
        ).total_shares == after_redeem(pre, owner, amount, amount).total_tokens,
{
    lemma_par_converts_exactly(pre.total_shares as int, amount);
}

/// A registered strategy that asks for a positive amount is refused
/// exactly when the amount exceeds what the vault holds above its reserve,
/// and then with `InsufficientVaultBalance`; at the boundary, where the
/// amount equals what is available, it is served.
pub proof fn lemma_liquidity_guard(pre: StorageView, strategy: u64, amount: int, vault_balance: int)
    requires
        amount > 0,
        pre.is_strategy(strategy),
    ensures
        amount > vault_balance - min_liquidity(
            pre.total_tokens as int,
            pre.min_liquidity_rate as int,
        ) ==> borrow_error(pre, strategy, amount, vault_balance) == Some(
            VaultError::InsufficientVaultBalance,
        ),
        amount <= vault_balance - min_liquidity(
            pre.total_tokens as int,
            pre.min_liquidity_rate as int,
        ) ==> borrow_error(pre, strategy, amount, vault_balance) is None,
{
}

/// Borrowing and repaying leave the token total as it is, whether they
/// succeed or fail.
pub proof fn lemma_lending_keeps_total(
    pre: StorageView,
    post: StorageView,
    strategy: u64,
    amount: i128,
    vault_balance: i128,
    r: Result<Receipt, VaultError>,
)
    requires
        borrow_result(pre, post, strategy, amount, vault_balance, r) || repay_result(
            pre,
            post,
            strategy,
            amount,
            r,
        ),
    ensures
        post.total_tokens == pre.total_tokens,
        post.total_shares == pre.total_shares,
{
}

/// A transfer to a strategy that succeeds takes exactly the amount off the
/// token total, and a transfer from a strategy adds exactly the amount to
/// it.
pub proof fn lemma_settlement_moves_total(
    pre: StorageView,
    post: StorageView,
    strategy: u64,
    amount: i128,
    r: Result<Receipt, VaultError>,
)
    requires
        r is Ok,
    ensures
        transfer_to_result(pre, post, strategy, amount, r) ==> post.total_tokens
            == pre.total_tokens - amount,
        transfer_from_result(pre, post, strategy, amount, r) ==> post.total_tokens
            == pre.total_tokens + amount,
{
}

/// An emergency redemption can be computed, and pays between nothing and
/// the full value, whenever the request is worth a representable,
/// non-negative amount, the lock lasts, and no more than a full lock is
/// left to run. The penalty and the payout add up to the value.
pub proof fn lemma_emergency_redeem_bounded(pre: StorageView, owner: u64, now: u64)
    requires
        pre.wf(),
        pre.redemptions.contains_key(owner),
        0 <= emergency_value(pre, owner),
        fits_i128(emergency_value(pre, owner)),
        pre.lock_time > 0,
        pre.redemptions[owner].unlock_time - now <= pre.lock_time,
        fits_i128(pre.total_shares - pre.redemptions[owner].shares),
        fits_i128(pre.total_tokens - emergency_payout(pre, owner, now)),
    ensures
        emergency_fits(pre, owner, now),
        0 <= emergency_penalty(pre, owner, now) <= emergency_value(pre, owner),
        0 <= emergency_payout(pre, owner, now) <= emergency_value(pre, owner),
        emergency_payout(pre, owner, now) + emergency_penalty(pre, owner, now) == emergency_value(
            pre,
            owner,
        ),
{
    lemma_penalty_bounded(
        emergency_value(pre, owner),
        pre.redemptions[owner].unlock_time as int,
        pre.lock_time as int,
        pre.penalty_rate as int,
        now as int,
    );
    assert(penalty_computable(
        emergency_value(pre, owner),
        pre.redemptions[owner].unlock_time as int,
        pre.lock_time as int,
        pre.penalty_rate as int,
        now as int,
    ));
}

/// Whether `post` has the configuration of `pre`, and books for every
/// strategy that `pre` has books for.
pub open spec fn same_configuration(pre: StorageView, post: StorageView) -> bool {
    &&& post.token == pre.token
    &&& post.share_token == pre.share_token
    &&& post.lock_time == pre.lock_time
    &&& post.penalty_rate == pre.penalty_rate
    &&& post.min_liquidity_rate == pre.min_liquidity_rate
    &&& post.lock_policy == pre.lock_policy
    &&& post.partial_redemption == pre.partial_redemption
    &&& post.strategies == pre.strategies
    &&& forall|s: u64| #[trigger]
        pre.strategy_data.contains_key(s) ==> post.strategy_data.contains_key(s)
}

/// No operation changes the configuration or closes the books of a
/// strategy.
pub proof fn lemma_configuration_is_kept(
    pre: StorageView,
    post: StorageView,
    amount: i128,
    part: Option<i128>,
    first: u64,
    second: u64,
    now: u64,
    vault_balance: i128,
    r: Result<Receipt, VaultError>,
)
    requires
        deposit_result(pre, post, amount, first, second, now, r) || mint_result(
            pre,
            post,
            amount,
            first,
            second,
            now,
            r,
        ) || request_redeem_result(pre, post, amount, first, now, r) || redeem_result(
            pre,
            post,
            part,
            first,
            second,
            now,
            r,
        ) || emergency_redeem_result(pre, post, first, second, now, r) || cancel_redeem_result(
            pre,
            post,
            first,
            r,
        ) || borrow_result(pre, post, first, amount, vault_balance, r) || repay_result(
            pre,
            post,
            first,
            amount,
            r,
        ) || transfer_to_result(pre, post, first, amount, r) || transfer_from_result(
            pre,
            post,
            first,
            amount,
            r,
        ),
    ensures
        same_configuration(pre, post),
{
}

/// From totals that are not negative, issuing shares for a deposit or a
/// mint leaves neither total negative, and so does a redemption of shares
/// within the supply.
pub proof fn lemma_totals_stay_nonnegative(
    pre: StorageView,
    amount: int,
    receiver: u64,
    owner: u64,
    now: u64,
)
    requires
        pre.total_shares >= 0,
        pre.total_tokens >= 0,
        amount > 0,
    ensures
        issue_fits(pre, amount, deposit_shares(pre, amount)) ==> {
            let post = after_issue(pre, amount, deposit_shares(pre, amount), receiver, now);
            post.total_shares >= pre.total_shares && post.total_tokens >= pre.total_tokens
        },
        issue_fits(pre, mint_tokens(pre, amount), amount) ==> {
            let post = after_issue(pre, mint_tokens(pre, amount), amount, receiver, now);
            post.total_shares >= pre.total_shares && post.total_tokens >= pre.total_tokens
        },
        amount <= pre.total_shares ==> {
            let post = after_redeem(pre, owner, amount, redeem_tokens(pre, amount));
            &&& 0 <= redeem_tokens(pre, amount) <= pre.total_tokens
            &&& post.total_shares >= 0
            &&& post.total_tokens >= 0
        },
{
    lemma_conversions_bounded(pre.total_shares as int, pre.total_tokens as int, amount);
}

/// An emergency redemption never lowers the price of a share for those
/// who stay: what it holds back accrues to them.
pub proof fn lemma_emergency_redeem_never_lowers_price(pre: StorageView, owner: u64, now: u64)
    requires
        pre.wf(),
        pre.total_shares > 0,
        pre.total_tokens > 0,
        pre.redemptions.contains_key(owner),
        now < pre.redemptions[owner].unlock_time ==> pre.lock_time > 0,
    ensures
        emergency_penalty(pre, owner, now) >= 0,
        price_not_lower(
            pre.total_shares as int,
            pre.total_tokens as int,
            pre.total_shares - pre.redemptions[owner].shares,
            pre.total_tokens - emergency_payout(pre, owner, now),
        ),
{
    let shares = pre.redemptions[owner].shares as int;
    lemma_conversions_bounded(pre.total_shares as int, pre.total_tokens as int, shares);
    if now < pre.redemptions[owner].unlock_time {
        lemma_penalty_nonnegative(
            emergency_value(pre, owner),
            pre.redemptions[owner].unlock_time as int,
            pre.lock_time as int,
            pre.penalty_rate as int,
            now as int,
        );
    }
    lemma_price_never_falls(
        pre.total_shares as int,
        pre.total_tokens as int,
        shares,
        emergency_payout(pre, owner, now),
    );
}

} // verus!
