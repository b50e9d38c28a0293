use crate::auth::Auth;
use crate::effects::Receipt;
use crate::errors::VaultError;
use crate::gate::{lock_remaining, transfer_result};
use crate::fixed_point::fits_i128;
use crate::math::{value_of_shares, SCALAR_7};
use crate::storage::{
    get_lock_time, get_redemption_request, get_share_token, get_strategy_data,
    get_strategy_net_impact, get_token, get_total_shares, get_total_tokens, set_lock_policy,
    set_lock_time, set_min_liquidity_rate, set_partial_redemption, set_penalty_rate,
    set_share_token, set_strategies, set_strategy_data, set_token, LockPolicy,
    RedemptionRequest, Storage, StorageView, StrategyData,
};
use crate::strategy::{
    borrow_fits, borrow_result, repay_result, transfer_from_fits, transfer_from_result,
    transfer_to_fits, transfer_to_result,
};
use crate::validation::validate_rate;
use crate::vault::{
    cancel_redeem_result, deposit_fits, deposit_result, emergency_redeem_fits,
    emergency_redeem_result, mint_fits, mint_result, redeem_fits, redeem_result,
    request_redeem_fits, request_redeem_result,
};
use soroban_sdk::Env;
use vstd::prelude::*;

verus! {

/// The outcome of a call that is turned away with `err` before it does
/// anything: it fails with that error and changes nothing.
pub open spec fn refused(
    pre: StorageView,
    post: StorageView,
    r: Result<Receipt, VaultError>,
    err: VaultError,
) -> bool {
    r is Err && r->Err_0 == err && post == pre
}

/// The outcome of a call that the acting principal did not authorize.
pub open spec fn denied(pre: StorageView, post: StorageView, r: Result<Receipt, VaultError>)
    -> bool {
    refused(pre, post, r, VaultError::Unauthorized)
}

/// The books opened for every registered strategy at construction.
pub open spec fn opening_books(strategies: Seq<u64>) -> Map<u64, StrategyData> {
    Map::new(
        |s: u64| strategies.contains(s),
        |s: u64| StrategyData { borrowed: 0, net_impact: 0 },
    )
}

/// The records of a vault that has just been constructed: the
/// configuration as given, no shares, no tokens, no requests, no deposit
/// records, and empty books for every strategy.
pub open spec fn initial_state(
    token: u64,
    share_token: u64,
    strategies: Seq<u64>,
    lock_time: u64,
    penalty_rate: i128,
    min_liquidity_rate: i128,
    lock_policy: LockPolicy,
    partial_redemption: bool,
) -> StorageView {
    StorageView {
        token: token,
        share_token: share_token,
        lock_time: lock_time,
        penalty_rate: penalty_rate,
        min_liquidity_rate: min_liquidity_rate,
        lock_policy: lock_policy,
        partial_redemption: partial_redemption,
        total_shares: 0,
        total_tokens: 0,
        strategies: strategies,
        strategy_data: opening_books(strategies),
        redemptions: Map::empty(),
        last_deposit_time: Map::empty(),
    }
}

/// The vault: its records, behind the entry points that callers reach.
pub struct VaultContract {
    storage: Storage,
}

/// The entry points of a vault. Every operation that moves value names the
/// principal that must have authorized it, and checks that first.
pub trait Vault: Sized {
    /// The records of the vault.
    spec fn state(&self) -> StorageView;

    /// The identifier of the underlying asset.
    fn token(&self) -> (r: u64)
        ensures
            r == self.state().token,
    ;

    /// The identifier of the share token.
    fn share_token(&self) -> (r: u64)
        ensures
            r == self.state().share_token,
    ;

    /// The number of shares in existence, those in custody included.
    fn total_shares(&self) -> (r: i128)
        ensures
            r == self.state().total_shares,
    ;

    /// The tokens under management, those lent to strategies included.
    fn total_assets(&self) -> (r: i128)
        ensures
            r == self.state().total_tokens,
    ;

    /// The books of `strategy`, if it is registered.
    fn get_strategy(&self, strategy: u64) -> (r: Option<StrategyData>)
        ensures
            r == self.state().strategy(strategy),
    ;

    /// Deposits `tokens`, paid and authorized by `payer`, and mints the
    /// shares they buy to `receiver`.
    fn deposit(
        &mut self,
        env: &Env,
        auth: &Auth,
        tokens: i128,
        receiver: u64,
        payer: u64,
        now: u64,
    ) -> (r: Result<Receipt, VaultError>)
        requires
            old(self).state().wf(),
            auth.authorizes(payer) ==> deposit_fits(old(self).state(), tokens),
        ensures
            !auth.authorizes(payer) ==> denied(old(self).state(), final(self).state(), r),
            auth.authorizes(payer) ==> deposit_result(
                old(self).state(),
                final(self).state(),
                tokens,
                receiver,
                payer,
                now,
                r,
            ),
            final(self).state().wf(),
    ;

    /// Mints exactly `shares` to `receiver` against the tokens they cost,
    /// paid and authorized by `payer`.
    fn mint(
        &mut self,
        env: &Env,
        auth: &Auth,
        shares: i128,
        receiver: u64,
        payer: u64,
        now: u64,
    ) -> (r: Result<Receipt, VaultError>)
        requires
            old(self).state().wf(),
            auth.authorizes(payer) ==> mint_fits(old(self).state(), shares),
        ensures
            !auth.authorizes(payer) ==> denied(old(self).state(), final(self).state(), r),
            auth.authorizes(payer) ==> mint_result(
                old(self).state(),
                final(self).state(),
                shares,
                receiver,
                payer,
                now,
                r,
            ),
            final(self).state().wf(),
    ;

    /// Queues the redemption of `shares` of `owner`, who must have
    /// authorized it.
    fn request_redeem(&mut self, auth: &Auth, shares: i128, owner: u64, now: u64) -> (r: Result<
        Receipt,
        VaultError,
    >)
        requires
            old(self).state().wf(),
            auth.authorizes(owner) ==> request_redeem_fits(old(self).state(), now),
        ensures
            !auth.authorizes(owner) ==> denied(old(self).state(), final(self).state(), r),
            auth.authorizes(owner) ==> request_redeem_result(
                old(self).state(),
                final(self).state(),
                shares,
                owner,
                now,
                r,
            ),
            final(self).state().wf(),
    ;

    /// Carries out the redemption that `owner` has requested and
    /// authorized, for `shares` of it or for all of it, and pays
    /// `receiver`. Under the deposit lock it is refused with `SharesLocked`
    /// while the shares of `owner` are locked.
    fn redeem(
        &mut self,
        env: &Env,
        auth: &Auth,
        shares: Option<i128>,
        receiver: u64,
        owner: u64,
        now: u64,
    ) -> (r: Result<Receipt, VaultError>)
        requires
            old(self).state().wf(),
            auth.authorizes(owner) && !old(self).state().redemption_blocked(owner, now)
                ==> redeem_fits(old(self).state(), shares, owner, now),
        ensures
            !auth.authorizes(owner) ==> denied(old(self).state(), final(self).state(), r),
            auth.authorizes(owner) && old(self).state().redemption_blocked(owner, now) ==> refused(
                old(self).state(),
                final(self).state(),
                r,
                VaultError::SharesLocked,
            ),
            auth.authorizes(owner) && !old(self).state().redemption_blocked(owner, now)
                ==> redeem_result(
                old(self).state(),
                final(self).state(),
                shares,
                receiver,
                owner,
                now,
                r,
            ),
            final(self).state().wf(),
    ;

    /// Redeems the whole request of `owner` at once, with its
    /// authorization, and pays `receiver` its value less the penalty.
    fn emergency_redeem(&mut self, env: &Env, auth: &Auth, receiver: u64, owner: u64, now: u64)
        -> (r: Result<Receipt, VaultError>)
        requires
            old(self).state().wf(),
            auth.authorizes(owner) ==> emergency_redeem_fits(old(self).state(), owner, now),
        ensures
            !auth.authorizes(owner) ==> denied(old(self).state(), final(self).state(), r),
            auth.authorizes(owner) ==> emergency_redeem_result(
                old(self).state(),
                final(self).state(),
                owner,
                receiver,
                now,
                r,
            ),
            final(self).state().wf(),
    ;

    /// Withdraws the request of `owner`, with its authorization, and hands
    /// the shares in custody back.
    fn cancel_redeem(&mut self, auth: &Auth, owner: u64) -> (r: Result<Receipt, VaultError>)
        requires
            old(self).state().wf(),
        ensures
            !auth.authorizes(owner) ==> denied(old(self).state(), final(self).state(), r),
            auth.authorizes(owner) ==> cancel_redeem_result(
                old(self).state(),
                final(self).state(),
                owner,
                r,
            ),
            final(self).state().wf(),
    ;

    /// Lends `amount` tokens to `strategy`, which must have authorized the
    /// call, as long as the reserve stays on hand. `vault_balance` is what
    /// the vault holds of the asset itself.
    fn borrow(
        &mut self,
        env: &Env,
        auth: &Auth,
        strategy: u64,
        amount: i128,
        vault_balance: i128,
    ) -> (r: Result<Receipt, VaultError>)
        requires
            old(self).state().wf(),
            auth.authorizes(strategy) ==> borrow_fits(
                old(self).state(),
                strategy,
                amount,
                vault_balance,
            ),
        ensures
            !auth.authorizes(strategy) ==> denied(old(self).state(), final(self).state(), r),
            auth.authorizes(strategy) ==> borrow_result(
                old(self).state(),
                final(self).state(),
                strategy,
                amount,
                vault_balance,
                r,
            ),
            final(self).state().total_tokens == old(self).state().total_tokens,
            final(self).state().total_shares == old(self).state().total_shares,
            final(self).state().wf(),
    ;

    /// Takes back `amount` of what `strategy` has borrowed, with its
    /// authorization.
    fn repay(&mut self, auth: &Auth, strategy: u64, amount: i128) -> (r: Result<
        Receipt,
        VaultError,
    >)
        requires
            old(self).state().wf(),
        ensures
            !auth.authorizes(strategy) ==> denied(old(self).state(), final(self).state(), r),
            auth.authorizes(strategy) ==> repay_result(
                old(self).state(),
                final(self).state(),
                strategy,
                amount,
                r,
            ),
            final(self).state().total_tokens == old(self).state().total_tokens,
            final(self).state().total_shares == old(self).state().total_shares,
            final(self).state().wf(),
    ;

    /// Hands `amount` tokens over to `strategy` for good, with its
    /// authorization.
    fn transfer_to(&mut self, auth: &Auth, strategy: u64, amount: i128) -> (r: Result<
        Receipt,
        VaultError,
    >)
        requires
            old(self).state().wf(),
            auth.authorizes(strategy) ==> transfer_to_fits(old(self).state(), strategy, amount),
        ensures
            !auth.authorizes(strategy) ==> denied(old(self).state(), final(self).state(), r),
            auth.authorizes(strategy) ==> transfer_to_result(
                old(self).state(),
                final(self).state(),
                strategy,
                amount,
                r,
            ),
            final(self).state().total_shares == old(self).state().total_shares,
            final(self).state().wf(),
    ;

    /// Takes `amount` tokens in from `strategy` for good, with its
    /// authorization.
    fn transfer_from(&mut self, auth: &Auth, strategy: u64, amount: i128) -> (r: Result<
        Receipt,
        VaultError,
    >)
        requires
            old(self).state().wf(),
            auth.authorizes(strategy) ==> transfer_from_fits(old(self).state(), strategy, amount),
        ensures
            !auth.authorizes(strategy) ==> denied(old(self).state(), final(self).state(), r),
            auth.authorizes(strategy) ==> transfer_from_result(
                old(self).state(),
                final(self).state(),
                strategy,
                amount,
                r,
            ),
            final(self).state().total_shares == old(self).state().total_shares,
            final(self).state().wf(),
    ;
}

impl VaultContract {
    /// Sets up a vault for `token` with `share_token` as its share token.
    /// Both rates must lie in `[0, SCALAR_7]`; otherwise construction fails
    /// with `InvalidAmount`.
    pub fn __constructor(
        token: u64,
        share_token: u64,
        strategies: Vec<u64>,
        lock_time: u64,
        penalty_rate: i128,
        min_liquidity_rate: i128,
        lock_policy: LockPolicy,
        partial_redemption: bool,
    ) -> (r: Result<VaultContract, VaultError>)
        ensures
            r is Ok <==> 0 <= penalty_rate <= SCALAR_7 && 0 <= min_liquidity_rate <= SCALAR_7,
            r is Err ==> r->Err_0 == VaultError::InvalidAmount,
            r is Ok ==> r->Ok_0.state() == initial_state(
                token,
                share_token,
                strategies@,
                lock_time,
                penalty_rate,
                min_liquidity_rate,
                lock_policy,
                partial_redemption,
            ) && r->Ok_0.state().wf(),
    {
        match validate_rate(penalty_rate) {
            Err(err) => {
                return Err(err);
            },
            Ok(_) => {},
        }
        match validate_rate(min_liquidity_rate) {
            Err(err) => {
                return Err(err);
            },
            Ok(_) => {},
        }
        let mut e = Storage::new();
        set_token(&mut e, &token);
        set_share_token(&mut e, &share_token);
        set_lock_time(&mut e, &lock_time);
        set_penalty_rate(&mut e, &penalty_rate);
        set_min_liquidity_rate(&mut e, &min_liquidity_rate);
        set_lock_policy(&mut e, lock_policy);
        set_partial_redemption(&mut e, partial_redemption);
        set_strategies(&mut e, &strategies);
        let ghost target = initial_state(
            token,
            share_token,
            strategies@,
            lock_time,
            penalty_rate,
            min_liquidity_rate,
            lock_policy,
            partial_redemption,
        );
        assert(e@.strategy_data =~= opening_books(strategies@.take(0)));
        let mut i: usize = 0;
        while i < strategies.len()
            invariant
                i <= strategies.len(),
                e@ == (StorageView {
                    strategy_data: opening_books(strategies@.take(i as int)),
                    ..target
                }),
            decreases strategies.len() - i,
        {
            let initial_data = StrategyData { borrowed: 0, net_impact: 0 };
            set_strategy_data(&mut e, strategies[i], &initial_data);
            proof {
                let before = strategies@.take(i as int);
                let after = strategies@.take(i + 1);
                assert(after == before.push(strategies@[i as int]));
                assert forall|s: u64| after.contains(s) <==> before.contains(s) || s
                    == strategies@[i as int] by {
                    if after.contains(s) {
                        let j = choose|j: int| 0 <= j < after.len() && after[j] == s;
                        if j < i {
                            assert(before[j] == s);
                        }
                    }
                    if before.contains(s) {
                        let j = choose|j: int| 0 <= j < before.len() && before[j] == s;
                        assert(after[j] == s);
                    }
                    if s == strategies@[i as int] {
                        assert(after[i as int] == s);
                    }
                }
                assert(e@.strategy_data =~= opening_books(after));
            }
            i += 1;
        }
        assert(strategies@.take(strategies.len() as int) == strategies@);
        Ok(VaultContract { storage: e })
    }

    /// A vault over records that a vault has written before.
    pub fn from_storage(storage: Storage) -> (v: VaultContract)
        requires
            storage@.wf(),
        ensures
            v.state() == storage@,
            v.state().wf(),
    {
        VaultContract { storage }
    }

    /// The records themselves, for reading.
    pub fn storage(&self) -> (e: &Storage)
        ensures
            e@ == self.state(),
    {
        &self.storage
    }

    /// The tokens under management; the same as `total_assets`.
    pub fn total_tokens(&self) -> (r: i128)
        ensures
            r == self.state().total_tokens,
    {
        get_total_tokens(&self.storage)
    }

    /// The lock duration in seconds.
    pub fn lock_time(&self) -> (r: u64)
        ensures
            r == self.state().lock_time,
    {
        get_lock_time(&self.storage)
    }

    /// The net impact booked for `strategy`; 0 where none is.
    pub fn net_impact(&self, strategy: u64) -> (r: i128)
        ensures
            r == self.state().net_impact(strategy),
    {
        get_strategy_net_impact(&self.storage, strategy)
    }

    /// The redemption request of `owner`, if it has one.
    pub fn redemption_request(&self, owner: u64) -> (r: Option<RedemptionRequest>)
        ensures
            r == self.state().redemption(owner),
    {
        get_redemption_request(&self.storage, owner)
    }

    /// Whether the shares of `user` are locked at `now`.
    pub fn is_locked(&self, user: u64, now: u64) -> (r: bool)
        ensures
            r == self.state().is_locked(user, now),
    {
        crate::gate::is_locked(&self.storage, user, now)
    }

    /// How many seconds the shares of `user` stay locked from `now` on.
    pub fn lock_duration(&self, user: u64, now: u64) -> (r: u64)
        ensures
            r == lock_remaining(
                self.state().lock_policy,
                self.state().last_deposit(user),
                self.state().lock_time,
                now,
            ),
            r > 0 <==> self.state().is_locked(user, now),
    {
        crate::gate::lock_duration(&self.storage, user, now)
    }

    /// The most shares that `owner`, holding `share_balance` of them, can
    /// redeem at `now`.
    pub fn max_redeem(&self, owner: u64, share_balance: i128, now: u64) -> (r: i128)
        ensures
            r == if self.state().redemption_blocked(owner, now) {
                0
            } else {
                share_balance
            },
    {
        crate::gate::max_redeem(&self.storage, owner, share_balance, now)
    }

    /// The most tokens that `owner`, holding `share_balance` shares, can
    /// withdraw at `now`.
    pub fn max_withdraw(&self, env: &Env, owner: u64, share_balance: i128, now: u64) -> (r: i128)
        requires
            fits_i128(
                value_of_shares(
                    self.state().total_shares as int,
                    self.state().total_tokens as int,
                    share_balance as int,
                ),
            ),
        ensures
            r == if self.state().redemption_blocked(owner, now) {
                0
            } else {
                value_of_shares(
                    self.state().total_shares as int,
                    self.state().total_tokens as int,
                    share_balance as int,
                )
            },
    {
        crate::gate::max_withdraw(env, &self.storage, owner, share_balance, now)
    }

    /// Lets `amount` shares pass from `from`, who must have authorized it,
    /// to `to`, unless the shares of `from` are locked.
    pub fn transfer_shares(&self, auth: &Auth, from: u64, to: u64, amount: i128, now: u64) -> (r:
        Result<Receipt, VaultError>)
        ensures
            !auth.authorizes(from) ==> r is Err && r->Err_0 == VaultError::Unauthorized,
            auth.authorizes(from) ==> transfer_result(self.state(), from, to, amount, now, r),
    {
        match auth.require_auth(from) {
            Err(err) => {
                return Err(err);
            },
            Ok(_) => {},
        }
        crate::gate::transfer(&self.storage, from, to, amount, now)
    }

    /// Lets `amount` shares pass from `from` to `to` at the request of
    /// `spender`, who must have authorized it, unless the shares of `from`
    /// are locked. Whether `spender` has the allowance is for the share
    /// token to say.
    pub fn transfer_shares_from(
        &self,
        auth: &Auth,
        spender: u64,
        from: u64,
        to: u64,
        amount: i128,
        now: u64,
    ) -> (r: Result<Receipt, VaultError>)
        ensures
            !auth.authorizes(spender) ==> r is Err && r->Err_0 == VaultError::Unauthorized,
            auth.authorizes(spender) ==> transfer_result(self.state(), from, to, amount, now, r),
    {
        match auth.require_auth(spender) {
            Err(err) => {
                return Err(err);
            },
            Ok(_) => {},
        }
        crate::gate::transfer(&self.storage, from, to, amount, now)
    }
}

impl Vault for VaultContract {
    closed spec fn state(&self) -> StorageView {
        self.storage@
    }

    fn token(&self) -> (r: u64) {
        get_token(&self.storage)
    }

    fn share_token(&self) -> (r: u64) {
        get_share_token(&self.storage)
    }

    fn total_shares(&self) -> (r: i128) {
        get_total_shares(&self.storage)
    }

    fn total_assets(&self) -> (r: i128) {
        get_total_tokens(&self.storage)
    }

    fn get_strategy(&self, strategy: u64) -> (r: Option<StrategyData>) {
        get_strategy_data(&self.storage, strategy)
    }

    fn deposit(
        &mut self,
        env: &Env,
        auth: &Auth,
        tokens: i128,
        receiver: u64,
        payer: u64,
        now: u64,
    ) -> (r: Result<Receipt, VaultError>) {
        match auth.require_auth(payer) {
            Err(err) => {
                return Err(err);
            },
            Ok(_) => {},
        }
        crate::vault::deposit(env, &mut self.storage, tokens, receiver, payer, now)
    }

    fn mint(
        &mut self,
        env: &Env,
        auth: &Auth,
        shares: i128,
        receiver: u64,
        payer: u64,
        now: u64,
    ) -> (r: Result<Receipt, VaultError>) {
        match auth.require_auth(payer) {
            Err(err) => {
                return Err(err);
            },
            Ok(_) => {},
        }
        crate::vault::mint(env, &mut self.storage, shares, receiver, payer, now)
    }

    fn request_redeem(&mut self, auth: &Auth, shares: i128, owner: u64, now: u64) -> (r: Result<
        Receipt,
        VaultError,
    >) {
        match auth.require_auth(owner) {
            Err(err) => {
                return Err(err);
            },
            Ok(_) => {},
        }
        crate::vault::request_redeem(&mut self.storage, shares, owner, now)
    }

    fn redeem(
        &mut self,
        env: &Env,
        auth: &Auth,
        shares: Option<i128>,
        receiver: u64,
        owner: u64,
        now: u64,
    ) -> (r: Result<Receipt, VaultError>) {
        match auth.require_auth(owner) {
            Err(err) => {
                return Err(err);
            },
            Ok(_) => {},
        }
        match crate::gate::require_redeemable(&self.storage, owner, now) {
            Err(err) => {
                return Err(err);
            },
            Ok(_) => {},
        }
        crate::vault::redeem(env, &mut self.storage, shares, receiver, owner, now)
    }

    fn emergency_redeem(&mut self, env: &Env, auth: &Auth, receiver: u64, owner: u64, now: u64)
        -> (r: Result<Receipt, VaultError>) {
        match auth.require_auth(owner) {
            Err(err) => {
                return Err(err);
            },
            Ok(_) => {},
        }
        crate::vault::emergency_redeem(env, &mut self.storage, owner, receiver, now)
    }

    fn cancel_redeem(&mut self, auth: &Auth, owner: u64) -> (r: Result<Receipt, VaultError>) {
        match auth.require_auth(owner) {
            Err(err) => {
                return Err(err);
            },
            Ok(_) => {},
        }
        crate::vault::cancel_redeem(&mut self.storage, owner)
    }

    fn borrow(
        &mut self,
        env: &Env,
        auth: &Auth,
        strategy: u64,
        amount: i128,
        vault_balance: i128,
    ) -> (r: Result<Receipt, VaultError>) {
        match auth.require_auth(strategy) {
            Err(err) => {
                return Err(err);
            },
            Ok(_) => {},
        }
        crate::strategy::borrow(env, &mut self.storage, strategy, amount, vault_balance)
    }

    fn repay(&mut self, auth: &Auth, strategy: u64, amount: i128) -> (r: Result<
        Receipt,
        VaultError,
    >) {
        match auth.require_auth(strategy) {
            Err(err) => {
                return Err(err);
            },
            Ok(_) => {},
        }
        crate::strategy::repay(&mut self.storage, strategy, amount)
    }

    fn transfer_to(&mut self, auth: &Auth, strategy: u64, amount: i128) -> (r: Result<
        Receipt,
        VaultError,
    >) {
        match auth.require_auth(strategy) {
            Err(err) => {
                return Err(err);
            },
            Ok(_) => {},
        }
        crate::strategy::transfer_to(&mut self.storage, strategy, amount)
    }

    fn transfer_from(&mut self, auth: &Auth, strategy: u64, amount: i128) -> (r: Result<
        Receipt,
        VaultError,
    >) {
        match auth.require_auth(strategy) {
            Err(err) => {
                return Err(err);
            },
            Ok(_) => {},
        }
        crate::strategy::transfer_from(&mut self.storage, strategy, amount)
    }
}

} // verus!
