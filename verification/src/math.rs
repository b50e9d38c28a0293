use crate::fixed_point::{
    ceil_div, fits_i128, fixed_mul_ceil, fixed_mul_floor, floor_div, lemma_floor_div_monotone,
    lemma_floor_le_ceil,
};
use soroban_sdk::Env;
use vstd::prelude::*;

verus! {

/// Fixed-point scale of rates: seven decimal places.
pub const SCALAR_7: i128 = 10_000_000;

/// Shares minted for a deposit of `tokens` at the ratio
/// `total_shares : total_tokens`; one to one while the vault is empty.
pub open spec fn shares_for_tokens(total_shares: int, total_tokens: int, tokens: int) -> int {
    if total_shares == 0 || total_tokens == 0 {
        tokens
    } else {
        floor_div(tokens * total_shares, total_tokens)
    }
}

/// Tokens owed for minting exactly `shares`; one to one while the vault is
/// empty, rounded up otherwise.
pub open spec fn tokens_for_shares(total_shares: int, total_tokens: int, shares: int) -> int {
    if total_shares == 0 || total_tokens == 0 {
        shares
    } else {
        ceil_div(shares * total_tokens, total_shares)
    }
}

/// Tokens paid out for redeeming `shares`, rounded down; nothing while no
/// shares exist.
pub open spec fn value_of_shares(total_shares: int, total_tokens: int, shares: int) -> int {
    if total_shares == 0 {
        0
    } else {
        floor_div(shares * total_tokens, total_shares)
    }
}

/// The penalty rate in force at `now`: the configured rate scaled by the
/// fraction of the lock that is still to run.
pub open spec fn penalty_rate_at(
    unlock_time: int,
    lock_time: int,
    penalty_rate: int,
    now: int,
) -> int {
    floor_div(penalty_rate * (unlock_time - now), lock_time)
}

/// The early-exit penalty on `token_value` at `now`: nothing once
/// `unlock_time` is reached, else the rate in force applied to the value.
pub open spec fn penalty_at(
    token_value: int,
    unlock_time: int,
    lock_time: int,
    penalty_rate: int,
    now: int,
) -> int {
    if now >= unlock_time {
        0
    } else {
        floor_div(
            token_value * penalty_rate_at(unlock_time, lock_time, penalty_rate, now),
            SCALAR_7 as int,
        )
    }
}

/// Whether the penalty at `now` can be computed in `i128`: either the lock
/// has run out, or the lock duration is positive and both the rate in force
/// and the penalty are representable.
pub open spec fn penalty_computable(
    token_value: int,
    unlock_time: int,
    lock_time: int,
    penalty_rate: int,
    now: int,
) -> bool {
    now < unlock_time ==> {
        &&& lock_time > 0
        &&& fits_i128(penalty_rate_at(unlock_time, lock_time, penalty_rate, now))
        &&& fits_i128(penalty_at(token_value, unlock_time, lock_time, penalty_rate, now))
    }
}

/// The reserve that must stay on hand: the rate applied to the total,
/// rounded up.
pub open spec fn min_liquidity(total_tokens: int, min_liquidity_rate: int) -> int {
    ceil_div(total_tokens * min_liquidity_rate, SCALAR_7 as int)
}

/// Converts between shares and tokens at a fixed ratio.
pub struct Converter<'a> {
    env: &'a Env,
    total_shares: i128,
    total_tokens: i128,
}

impl<'a> Converter<'a> {
    /// The share supply this converter was made with.
    pub closed spec fn total_shares(&self) -> int {
        self.total_shares as int
    }

    /// The token total this converter was made with.
    pub closed spec fn total_tokens(&self) -> int {
        self.total_tokens as int
    }

    /// A converter at the ratio of `total_shares` to `total_tokens`.
    pub fn new(env: &'a Env, total_shares: i128, total_tokens: i128) -> (c: Self)
        ensures
            c.total_shares() == total_shares,
            c.total_tokens() == total_tokens,
    {
        Self { env, total_shares, total_tokens }
    }

    /// Shares to mint for a deposit of `tokens`.
    pub fn shares_from_tokens(&self, tokens: i128) -> (shares: i128)
        requires
            fits_i128(shares_for_tokens(self.total_shares(), self.total_tokens(), tokens as int)),
        ensures
            shares == shares_for_tokens(self.total_shares(), self.total_tokens(), tokens as int),
    {
        if self.total_shares == 0 || self.total_tokens == 0 {
            tokens
        } else {
            fixed_mul_floor(self.env, tokens, self.total_shares, self.total_tokens)
        }
    }

    /// Tokens required to mint exactly `shares`.
    pub fn tokens_from_shares(&self, shares: i128) -> (tokens: i128)
        requires
            fits_i128(tokens_for_shares(self.total_shares(), self.total_tokens(), shares as int)),
        ensures
            tokens == tokens_for_shares(self.total_shares(), self.total_tokens(), shares as int),
    {
        if self.total_shares == 0 || self.total_tokens == 0 {
            shares
        } else {
            fixed_mul_ceil(self.env, shares, self.total_tokens, self.total_shares)
        }
    }

    /// Tokens to pay out for redeeming `shares`.
    pub fn redemption_value(&self, shares: i128) -> (tokens: i128)
        requires
            fits_i128(value_of_shares(self.total_shares(), self.total_tokens(), shares as int)),
        ensures
            tokens == value_of_shares(self.total_shares(), self.total_tokens(), shares as int),
    {
        if self.total_shares == 0 {
            0
        } else {
            fixed_mul_floor(self.env, shares, self.total_tokens, self.total_shares)
        }
    }
}

/// The penalty on an emergency redemption worth `token_value` at time `now`.
pub fn calculate_penalty(
    env: &Env,
    token_value: i128,
    unlock_time: u64,
    lock_time: u64,
    penalty_rate: i128,
    now: u64,
) -> (penalty: i128)
    requires
        penalty_computable(
            token_value as int,
            unlock_time as int,
            lock_time as int,
            penalty_rate as int,
            now as int,
        ),
    ensures
        penalty == penalty_at(
            token_value as int,
            unlock_time as int,
            lock_time as int,
            penalty_rate as int,
            now as int,
        ),
{
    if now >= unlock_time {
        0
    } else {
        let time_remaining: u64 = unlock_time - now;
        let current_penalty_rate: i128 = fixed_mul_floor(
            env,
            penalty_rate,
            time_remaining as i128,
            lock_time as i128,
        );
        fixed_mul_floor(env, token_value, current_penalty_rate, SCALAR_7)
    }
}

/// The least amount of tokens that must stay in the vault.
pub fn calculate_min_liquidity(env: &Env, total_tokens: i128, min_liquidity_rate: i128) -> (reserve:
    i128)
    requires
        fits_i128(min_liquidity(total_tokens as int, min_liquidity_rate as int)),
    ensures
        reserve == min_liquidity(total_tokens as int, min_liquidity_rate as int),
{
    if total_tokens == 0 {
        assert(0 * (min_liquidity_rate as int) == 0);
        0
    } else {
        fixed_mul_ceil(env, total_tokens, min_liquidity_rate, SCALAR_7)
    }
}

/// While the vault holds no shares, deposits and mints convert one to one.
pub proof fn lemma_bootstrap_one_to_one(total_tokens: int, amount: int)
    ensures
        shares_for_tokens(0, total_tokens, amount) == amount,
        tokens_for_shares(0, total_tokens, amount) == amount,
{
}

/// Minting a number of shares never costs less than redeeming the same
/// number pays out, at any ratio with a non-zero share supply.
pub proof fn lemma_mint_cost_covers_redemption(total_shares: int, total_tokens: int, shares: int)
    requires
        total_shares != 0,
        total_tokens != 0,
    ensures
        tokens_for_shares(total_shares, total_tokens, shares) >= value_of_shares(
            total_shares,
            total_tokens,
            shares,
        ),
{
    lemma_floor_le_ceil(shares * total_tokens, total_shares);
}

/// The penalty is never negative for a non-negative value and rate.
pub proof fn lemma_penalty_nonnegative(
    token_value: int,
    unlock_time: int,
    lock_time: int,
    penalty_rate: int,
    now: int,
)
    requires
        token_value >= 0,
        penalty_rate >= 0,
        lock_time > 0,
    ensures
        penalty_at(token_value, unlock_time, lock_time, penalty_rate, now) >= 0,
{
    if now < unlock_time {
        let rem = unlock_time - now;
        assert(penalty_rate * rem >= 0) by (nonlinear_arith)
            requires
                penalty_rate >= 0,
                rem >= 0,
        ;
        lemma_floor_div_monotone(0, penalty_rate * rem, lock_time);
        let rate = penalty_rate_at(unlock_time, lock_time, penalty_rate, now);
        assert(rate >= 0);
        assert(token_value * rate >= 0) by (nonlinear_arith)
            requires
                token_value >= 0,
                rate >= 0,
        ;
        lemma_floor_div_monotone(0, token_value * rate, SCALAR_7 as int);
    }
}

/// The penalty does not grow as time passes.
pub proof fn lemma_penalty_non_increasing(
    token_value: int,
    unlock_time: int,
    lock_time: int,
    penalty_rate: int,
    earlier: int,
    later: int,
)
    requires
        token_value >= 0,
        penalty_rate >= 0,
        lock_time > 0,
        earlier <= later,
    ensures
        penalty_at(token_value, unlock_time, lock_time, penalty_rate, later) <= penalty_at(
            token_value,
            unlock_time,
            lock_time,
            penalty_rate,
            earlier,
        ),
{
    lemma_penalty_nonnegative(token_value, unlock_time, lock_time, penalty_rate, earlier);
    if later < unlock_time {
        let rem_e = unlock_time - earlier;
        let rem_l = unlock_time - later;
        assert(penalty_rate * rem_l <= penalty_rate * rem_e) by (nonlinear_arith)
            requires
                penalty_rate >= 0,
                rem_l <= rem_e,
        ;
        lemma_floor_div_monotone(penalty_rate * rem_l, penalty_rate * rem_e, lock_time);
        let rate_e = penalty_rate_at(unlock_time, lock_time, penalty_rate, earlier);
        let rate_l = penalty_rate_at(unlock_time, lock_time, penalty_rate, later);
        assert(token_value * rate_l <= token_value * rate_e) by (nonlinear_arith)
            requires
                token_value >= 0,
                rate_l <= rate_e,
        ;
        lemma_floor_div_monotone(token_value * rate_l, token_value * rate_e, SCALAR_7 as int);
    }
}

/// The penalty is exactly 0 from the unlock time on.
pub proof fn lemma_penalty_zero_at_unlock(
    token_value: int,
    unlock_time: int,
    lock_time: int,
    penalty_rate: int,
    now: int,
)
    requires
        now >= unlock_time,
    ensures
        penalty_at(token_value, unlock_time, lock_time, penalty_rate, now) == 0,
{
}

/// At the time of the request, a full lock before the unlock time, the
/// penalty is the configured rate applied to the value.
pub proof fn lemma_penalty_full_at_request(
    token_value: int,
    unlock_time: int,
    lock_time: int,
    penalty_rate: int,
)
    requires
        lock_time > 0,
    ensures
        penalty_at(token_value, unlock_time, lock_time, penalty_rate, unlock_time - lock_time)
            == floor_div(token_value * penalty_rate, SCALAR_7 as int),
{
    vstd::arithmetic::div_mod::lemma_div_multiples_vanish(penalty_rate, lock_time);
    assert(penalty_rate * lock_time == lock_time * penalty_rate) by (nonlinear_arith);
    assert(unlock_time - (unlock_time - lock_time) == lock_time);
    assert(penalty_rate_at(unlock_time, lock_time, penalty_rate, unlock_time - lock_time)
        == penalty_rate);
}

/// The reserve is never understated: scaled back up it covers the rate
/// applied to the total.
pub proof fn lemma_min_liquidity_covers(total_tokens: int, min_liquidity_rate: int)
    ensures
        min_liquidity(total_tokens, min_liquidity_rate) * SCALAR_7 >= total_tokens
            * min_liquidity_rate,
{
    let n = total_tokens * min_liquidity_rate;
    let d = SCALAR_7 as int;
    vstd::arithmetic::div_mod::lemma_fundamental_div_mod(-n, d);
    vstd::arithmetic::div_mod::lemma_mod_bound(-n, d);
}

/// With a rate in `[0, SCALAR_7]` the reserve lies between 0 and the total,
/// whatever the total's sign, and so is representable.
pub proof fn lemma_min_liquidity_bounds(total_tokens: int, min_liquidity_rate: int)
    requires
        0 <= min_liquidity_rate <= SCALAR_7,
    ensures
        total_tokens >= 0 ==> 0 <= min_liquidity(total_tokens, min_liquidity_rate)
            <= total_tokens,
        total_tokens <= 0 ==> total_tokens <= min_liquidity(total_tokens, min_liquidity_rate)
            <= 0,
        fits_i128(total_tokens) ==> fits_i128(min_liquidity(total_tokens, min_liquidity_rate)),
{
    let d = SCALAR_7 as int;
    let n = total_tokens * min_liquidity_rate;
    if total_tokens >= 0 {
        assert(0 <= n <= total_tokens * d) by (nonlinear_arith)
            requires
                n == total_tokens * min_liquidity_rate,
                total_tokens >= 0,
                0 <= min_liquidity_rate <= d,
        ;
        lemma_floor_div_monotone(-(total_tokens * d), -n, d);
        lemma_floor_div_monotone(-n, 0, d);
        vstd::arithmetic::div_mod::lemma_div_multiples_vanish(-total_tokens, d);
        assert(-(total_tokens * d) == d * (-total_tokens)) by (nonlinear_arith);
    } else {
        assert(total_tokens * d <= n <= 0) by (nonlinear_arith)
            requires
                n == total_tokens * min_liquidity_rate,
                total_tokens <= 0,
                0 <= min_liquidity_rate <= d,
        ;
        lemma_floor_div_monotone(-n, -(total_tokens * d), d);
        lemma_floor_div_monotone(0, -n, d);
        vstd::arithmetic::div_mod::lemma_div_multiples_vanish(-total_tokens, d);
        assert(-(total_tokens * d) == d * (-total_tokens)) by (nonlinear_arith);
    }
}

/// As long as no more than a full lock is left to run, the rate in force
/// lies between 0 and the configured rate, and the penalty between 0 and
/// the value it is taken from.
pub proof fn lemma_penalty_bounded(
    token_value: int,
    unlock_time: int,
    lock_time: int,
    penalty_rate: int,
    now: int,
)
    requires
        token_value >= 0,
        0 <= penalty_rate <= SCALAR_7,
        lock_time > 0,
        unlock_time - now <= lock_time,
    ensures
        now < unlock_time ==> 0 <= penalty_rate_at(unlock_time, lock_time, penalty_rate, now)
            <= penalty_rate,
        0 <= penalty_at(token_value, unlock_time, lock_time, penalty_rate, now) <= token_value,
{
    lemma_penalty_nonnegative(token_value, unlock_time, lock_time, penalty_rate, now);
    if now < unlock_time {
        let d = SCALAR_7 as int;
        let rem = unlock_time - now;
        assert(0 <= penalty_rate * rem <= penalty_rate * lock_time) by (nonlinear_arith)
            requires
                penalty_rate >= 0,
                0 <= rem <= lock_time,
        ;
        lemma_floor_div_monotone(0, penalty_rate * rem, lock_time);
        lemma_floor_div_monotone(penalty_rate * rem, penalty_rate * lock_time, lock_time);
        vstd::arithmetic::div_mod::lemma_div_multiples_vanish(penalty_rate, lock_time);
        assert(penalty_rate * lock_time == lock_time * penalty_rate) by (nonlinear_arith);
        let rate = penalty_rate_at(unlock_time, lock_time, penalty_rate, now);
        assert(0 <= rate <= penalty_rate);
        assert(token_value * rate <= token_value * d) by (nonlinear_arith)
            requires
                token_value >= 0,
                rate <= d,
        ;
        lemma_floor_div_monotone(token_value * rate, token_value * d, d);
        vstd::arithmetic::div_mod::lemma_div_multiples_vanish(token_value, d);
        assert(token_value * d == d * token_value) by (nonlinear_arith);
    }
}

/// At a ratio of one to one, shares and tokens convert exactly in both
/// directions.
pub proof fn lemma_par_converts_exactly(total: int, amount: int)
    requires
        total >= 0,
    ensures
        shares_for_tokens(total, total, amount) == amount,
        tokens_for_shares(total, total, amount) == amount,
        total > 0 ==> value_of_shares(total, total, amount) == amount,
{
    if total > 0 {
        vstd::arithmetic::div_mod::lemma_div_multiples_vanish(amount, total);
        vstd::arithmetic::div_mod::lemma_div_multiples_vanish(-amount, total);
        assert(amount * total == total * amount) by (nonlinear_arith);
        assert(-(amount * total) == total * (-amount)) by (nonlinear_arith);
    }
}

/// Shares bought with a deposit are never worth more than the deposit,
/// measured at the ratio that the deposit leaves behind.
pub proof fn lemma_deposit_not_profitable(total_shares: int, total_tokens: int, tokens: int)
    requires
        total_shares > 0,
        total_tokens > 0,
        tokens > 0,
    ensures
        shares_for_tokens(total_shares, total_tokens, tokens) >= 0,
        value_of_shares(
            total_shares + shares_for_tokens(total_shares, total_tokens, tokens),
            total_tokens + tokens,
            shares_for_tokens(total_shares, total_tokens, tokens),
        ) <= tokens,
{
    let s = shares_for_tokens(total_shares, total_tokens, tokens);
    assert(tokens * total_shares >= 0) by (nonlinear_arith)
        requires
            tokens > 0,
            total_shares > 0,
    ;
    lemma_floor_div_monotone(0, tokens * total_shares, total_tokens);
    assert(s >= 0);
    vstd::arithmetic::div_mod::lemma_fundamental_div_mod(tokens * total_shares, total_tokens);
    vstd::arithmetic::div_mod::lemma_mod_bound(tokens * total_shares, total_tokens);
    assert(total_tokens * s <= tokens * total_shares);
    let n = total_shares + s;
    assert(s * (total_tokens + tokens) <= n * tokens) by (nonlinear_arith)
        requires
            total_tokens * s <= tokens * total_shares,
            n == total_shares + s,
    ;
    lemma_floor_div_monotone(s * (total_tokens + tokens), n * tokens, n);
    vstd::arithmetic::div_mod::lemma_div_multiples_vanish(tokens, n);
}

/// At non-negative totals a non-negative amount converts to a
/// non-negative amount, and shares within the supply are worth no more
/// than the whole total.
pub proof fn lemma_conversions_bounded(total_shares: int, total_tokens: int, amount: int)
    requires
        total_shares >= 0,
        total_tokens >= 0,
        amount >= 0,
    ensures
        shares_for_tokens(total_shares, total_tokens, amount) >= 0,
        tokens_for_shares(total_shares, total_tokens, amount) >= 0,
        value_of_shares(total_shares, total_tokens, amount) >= 0,
        amount <= total_shares ==> value_of_shares(total_shares, total_tokens, amount)
            <= total_tokens,
{
    if total_shares > 0 {
        let n = amount * total_tokens;
        assert(0 <= n) by (nonlinear_arith)
            requires
                n == amount * total_tokens,
                amount >= 0,
                total_tokens >= 0,
        ;
        lemma_floor_div_monotone(0, n, total_shares);
        lemma_floor_div_monotone(-n, 0, total_shares);
        if amount <= total_shares {
            assert(n <= total_shares * total_tokens) by (nonlinear_arith)
                requires
                    n == amount * total_tokens,
                    amount <= total_shares,
                    total_tokens >= 0,
            ;
            lemma_floor_div_monotone(n, total_shares * total_tokens, total_shares);
            vstd::arithmetic::div_mod::lemma_div_multiples_vanish(total_tokens, total_shares);
        }
        if total_tokens > 0 {
            let m = amount * total_shares;
            assert(0 <= m) by (nonlinear_arith)
                requires
                    m == amount * total_shares,
                    amount >= 0,
                    total_shares >= 0,
            ;
            lemma_floor_div_monotone(0, m, total_tokens);
        }
    }
}

/// Whether the ratio of `tokens_after` to `shares_after` is at least that
/// of `tokens_before` to `shares_before`, for positive numbers of shares:
/// the price of a share has not fallen.
pub open spec fn price_not_lower(
    shares_before: int,
    tokens_before: int,
    shares_after: int,
    tokens_after: int,
) -> bool {
    tokens_after * shares_before >= tokens_before * shares_after
}

/// Rounding always favours those who stay. At positive totals, neither a
/// deposit, nor a mint, nor a redemption at value, nor a redemption that
/// pays less than the value, lowers the price of a share.
pub proof fn lemma_price_never_falls(total_shares: int, total_tokens: int, amount: int, payout: int)
    requires
        total_shares > 0,
        total_tokens > 0,
        payout <= value_of_shares(total_shares, total_tokens, amount),
    ensures
        price_not_lower(
            total_shares,
            total_tokens,
            total_shares + shares_for_tokens(total_shares, total_tokens, amount),
            total_tokens + amount,
        ),
        price_not_lower(
            total_shares,
            total_tokens,
            total_shares + amount,
            total_tokens + tokens_for_shares(total_shares, total_tokens, amount),
        ),
        price_not_lower(
            total_shares,
            total_tokens,
            total_shares - amount,
            total_tokens - value_of_shares(total_shares, total_tokens, amount),
        ),
        price_not_lower(total_shares, total_tokens, total_shares - amount, total_tokens - payout),
{
    let s = shares_for_tokens(total_shares, total_tokens, amount);
    let k = tokens_for_shares(total_shares, total_tokens, amount);
    let v = value_of_shares(total_shares, total_tokens, amount);
    crate::fixed_point::lemma_floor_div_is_floor(amount * total_shares, total_tokens);
    crate::fixed_point::lemma_ceil_div_is_ceil(amount * total_tokens, total_shares);
    crate::fixed_point::lemma_floor_div_is_floor(amount * total_tokens, total_shares);
    assert(s * total_tokens <= amount * total_shares);
    assert(k * total_shares >= amount * total_tokens);
    assert(v * total_shares <= amount * total_tokens);
    assert((total_tokens + amount) * total_shares >= total_tokens * (total_shares + s))
        by (nonlinear_arith)
        requires
            s * total_tokens <= amount * total_shares,
    ;
    assert((total_tokens + k) * total_shares >= total_tokens * (total_shares + amount))
        by (nonlinear_arith)
        requires
            k * total_shares >= amount * total_tokens,
    ;
    assert((total_tokens - v) * total_shares >= total_tokens * (total_shares - amount))
        by (nonlinear_arith)
        requires
            v * total_shares <= amount * total_tokens,
    ;
    assert((total_tokens - payout) * total_shares >= total_tokens * (total_shares - amount))
        by (nonlinear_arith)
        requires
            v * total_shares <= amount * total_tokens,
            payout <= v,
            total_shares > 0,
    ;
}

} // verus!
