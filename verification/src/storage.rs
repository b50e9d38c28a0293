use crate::math::SCALAR_7;
use std::collections::HashMap;
use vstd::prelude::*;

verus! {

broadcast use vstd::std_specs::hash::group_hash_axioms;

/// A queued redemption: the shares held in custody and the time from which
/// they can be redeemed without penalty.
#[derive(Copy, Clone, Debug, PartialEq, Eq, Structural)]
pub struct RedemptionRequest {
    pub shares: i128,
    pub unlock_time: u64,
}

/// The books kept for one strategy: what it owes back, and the signed sum of
/// the profit and loss it has settled.
#[derive(Copy, Clone, Debug, PartialEq, Eq, Structural)]
pub struct StrategyData {
    pub borrowed: i128,
    pub net_impact: i128,
}

/// Which share movements the lock after a deposit blocks.
#[derive(Copy, Clone, Debug, PartialEq, Eq, Structural)]
pub enum LockPolicy {
    /// Shares are never locked.
    Disabled,
    /// Every share movement is blocked, redemption included; a principal
    /// without a deposit record counts as locked.
    DepositLock,
    /// Only transfers between principals are blocked; a principal without a
    /// deposit record counts as unlocked.
    TransferLock,
}

/// The records of the store, by key.
#[derive(Copy, Clone, Debug, PartialEq, Eq, Structural)]
pub enum StorageKey {
    Token,
    ShareToken,
    LockTime,
    PenaltyRate,
    MinLiquidityRate,
    TotalShares,
    TotalTokens,
    Strategies,
    Strategy(u64),
    Redemption(u64),
    LastDepositTime(u64),
}

/// The vault's persistent records.
pub struct Storage {
    token: u64,
    share_token: u64,
    lock_time: u64,
    penalty_rate: i128,
    min_liquidity_rate: i128,
    lock_policy: LockPolicy,
    partial_redemption: bool,
    total_shares: i128,
    total_tokens: i128,
    strategies: Vec<u64>,
    strategy_data: HashMap<u64, StrategyData>,
    redemptions: HashMap<u64, RedemptionRequest>,
    last_deposit_time: HashMap<u64, u64>,
}

/// The records as mathematical values.
pub ghost struct StorageView {
    pub token: u64,
    pub share_token: u64,
    pub lock_time: u64,
    pub penalty_rate: i128,
    pub min_liquidity_rate: i128,
    pub lock_policy: LockPolicy,
    pub partial_redemption: bool,
    pub total_shares: i128,
    pub total_tokens: i128,
    pub strategies: Seq<u64>,
    pub strategy_data: Map<u64, StrategyData>,
    pub redemptions: Map<u64, RedemptionRequest>,
    pub last_deposit_time: Map<u64, u64>,
}

impl StorageView {
    /// The store before anything was written to it.
    pub open spec fn empty() -> StorageView {
        StorageView {
            token: 0,
            share_token: 0,
            lock_time: 0,
            penalty_rate: 0,
            min_liquidity_rate: 0,
            lock_policy: LockPolicy::Disabled,
            partial_redemption: false,
            total_shares: 0,
            total_tokens: 0,
            strategies: Seq::empty(),
            strategy_data: Map::empty(),
            redemptions: Map::empty(),
            last_deposit_time: Map::empty(),
        }
    }

    /// The store's invariant: both rates lie in `[0, SCALAR_7]`, every
    /// request holds a positive number of shares, no strategy owes a
    /// negative amount, and books are kept for every registered strategy.
    pub open spec fn wf(self) -> bool {
        &&& 0 <= self.penalty_rate <= SCALAR_7
        &&& 0 <= self.min_liquidity_rate <= SCALAR_7
        &&& forall|o: u64| #[trigger]
            self.redemptions.contains_key(o) ==> self.redemptions[o].shares > 0
        &&& forall|s: u64| #[trigger]
            self.strategy_data.contains_key(s) ==> self.strategy_data[s].borrowed >= 0
        &&& forall|i: int|
            0 <= i < self.strategies.len() ==> self.strategy_data.contains_key(
                #[trigger] self.strategies[i],
            )
    }

    /// Whether a record is stored under `key`. The scalar records always
    /// are.
    pub open spec fn has(self, key: StorageKey) -> bool {
        match key {
            StorageKey::Strategy(s) => self.strategy_data.contains_key(s),
            StorageKey::Redemption(o) => self.redemptions.contains_key(o),
            StorageKey::LastDepositTime(u) => self.last_deposit_time.contains_key(u),
            _ => true,
        }
    }

    /// Whether `strategy` is one of the registered strategies.
    pub open spec fn is_strategy(self, strategy: u64) -> bool {
        self.strategies.contains(strategy)
    }

    /// The net impact booked for `strategy`; 0 where none is.
    pub open spec fn net_impact(self, strategy: u64) -> i128 {
        if self.strategy_data.contains_key(strategy) {
            self.strategy_data[strategy].net_impact
        } else {
            0
        }
    }

    /// The redemption request of `owner`, if there is one.
    pub open spec fn redemption(self, owner: u64) -> Option<RedemptionRequest> {
        if self.redemptions.contains_key(owner) {
            Some(self.redemptions[owner])
        } else {
            None
        }
    }

    /// The books of `strategy`, if any are kept.
    pub open spec fn strategy(self, strategy: u64) -> Option<StrategyData> {
        if self.strategy_data.contains_key(strategy) {
            Some(self.strategy_data[strategy])
        } else {
            None
        }
    }

    /// The time of the last deposit credited to `user`, if there was one.
    pub open spec fn last_deposit(self, user: u64) -> Option<u64> {
        if self.last_deposit_time.contains_key(user) {
            Some(self.last_deposit_time[user])
        } else {
            None
        }
    }
}

impl View for Storage {
    type V = StorageView;

    closed spec fn view(&self) -> StorageView {
        StorageView {
            token: self.token,
            share_token: self.share_token,
            lock_time: self.lock_time,
            penalty_rate: self.penalty_rate,
            min_liquidity_rate: self.min_liquidity_rate,
            lock_policy: self.lock_policy,
            partial_redemption: self.partial_redemption,
            total_shares: self.total_shares,
            total_tokens: self.total_tokens,
            strategies: self.strategies@,
            strategy_data: self.strategy_data@,
            redemptions: self.redemptions@,
            last_deposit_time: self.last_deposit_time@,
        }
    }
}

impl Storage {
    /// A store that holds nothing yet.
    pub fn new() -> (e: Storage)
        ensures
            e@ == StorageView::empty(),
    {
        Storage {
            token: 0,
            share_token: 0,
            lock_time: 0,
            penalty_rate: 0,
            min_liquidity_rate: 0,
            lock_policy: LockPolicy::Disabled,
            partial_redemption: false,
            total_shares: 0,
            total_tokens: 0,
            strategies: Vec::new(),
            strategy_data: HashMap::new(),
            redemptions: HashMap::new(),
            last_deposit_time: HashMap::new(),
        }
    }
}

/// Whether a record is stored under `key`.
pub fn has(e: &Storage, key: StorageKey) -> (r: bool)
    ensures
        r == e@.has(key),
{
    match key {
        StorageKey::Strategy(s) => e.strategy_data.contains_key(&s),
        StorageKey::Redemption(o) => e.redemptions.contains_key(&o),
        StorageKey::LastDepositTime(u) => e.last_deposit_time.contains_key(&u),
        _ => true,
    }
}

/// The identifier of the underlying asset.
pub fn get_token(e: &Storage) -> (r: u64)
    ensures
        r == e@.token,
{
    e.token
}

/// Stores the identifier of the underlying asset.
pub fn set_token(e: &mut Storage, token: &u64)
    ensures
        final(e)@ == (StorageView { token: *token, ..old(e)@ }),
{
    e.token = *token;
}

/// The identifier of the share token.
pub fn get_share_token(e: &Storage) -> (r: u64)
    ensures
        r == e@.share_token,
{
    e.share_token
}

/// Stores the identifier of the share token.
pub fn set_share_token(e: &mut Storage, share_token: &u64)
    ensures
        final(e)@ == (StorageView { share_token: *share_token, ..old(e)@ }),
{
    e.share_token = *share_token;
}

/// The lock duration in seconds.
pub fn get_lock_time(e: &Storage) -> (r: u64)
    ensures
        r == e@.lock_time,
{
    e.lock_time
}

/// Stores the lock duration.
pub fn set_lock_time(e: &mut Storage, lock_time: &u64)
    ensures
        final(e)@ == (StorageView { lock_time: *lock_time, ..old(e)@ }),
{
    e.lock_time = *lock_time;
}

/// The penalty rate, as a fraction of `SCALAR_7`.
pub fn get_penalty_rate(e: &Storage) -> (r: i128)
    ensures
        r == e@.penalty_rate,
{
    e.penalty_rate
}

/// Stores the penalty rate.
pub fn set_penalty_rate(e: &mut Storage, penalty_rate: &i128)
    ensures
        final(e)@ == (StorageView { penalty_rate: *penalty_rate, ..old(e)@ }),
{
    e.penalty_rate = *penalty_rate;
}

/// The minimum-liquidity rate, as a fraction of `SCALAR_7`.
pub fn get_min_liquidity_rate(e: &Storage) -> (r: i128)
    ensures
        r == e@.min_liquidity_rate,
{
    e.min_liquidity_rate
}

/// Stores the minimum-liquidity rate.
pub fn set_min_liquidity_rate(e: &mut Storage, min_liquidity_rate: &i128)
    ensures
        final(e)@ == (StorageView { min_liquidity_rate: *min_liquidity_rate, ..old(e)@ }),
{
    e.min_liquidity_rate = *min_liquidity_rate;
}

/// The share lock in force.
pub fn get_lock_policy(e: &Storage) -> (r: LockPolicy)
    ensures
        r == e@.lock_policy,
{
    e.lock_policy
}

/// Stores the share lock in force.
pub fn set_lock_policy(e: &mut Storage, lock_policy: LockPolicy)
    ensures
        final(e)@ == (StorageView { lock_policy: lock_policy, ..old(e)@ }),
{
    e.lock_policy = lock_policy;
}

/// Whether a part of a request can be redeemed.
pub fn get_partial_redemption(e: &Storage) -> (r: bool)
    ensures
        r == e@.partial_redemption,
{
    e.partial_redemption
}

/// Stores whether a part of a request can be redeemed.
pub fn set_partial_redemption(e: &mut Storage, partial_redemption: bool)
    ensures
        final(e)@ == (StorageView { partial_redemption: partial_redemption, ..old(e)@ }),
{
    e.partial_redemption = partial_redemption;
}

/// The number of shares in existence.
pub fn get_total_shares(e: &Storage) -> (r: i128)
    ensures
        r == e@.total_shares,
{
    e.total_shares
}

/// Stores the number of shares in existence.
pub fn set_total_shares(e: &mut Storage, total_shares: &i128)
    ensures
        final(e)@ == (StorageView { total_shares: *total_shares, ..old(e)@ }),
{
    e.total_shares = *total_shares;
}

/// The tokens under management.
pub fn get_total_tokens(e: &Storage) -> (r: i128)
    ensures
        r == e@.total_tokens,
{
    e.total_tokens
}

/// Stores the tokens under management.
pub fn set_total_tokens(e: &mut Storage, total_tokens: &i128)
    ensures
        final(e)@ == (StorageView { total_tokens: *total_tokens, ..old(e)@ }),
{
    e.total_tokens = *total_tokens;
}

/// The registered strategies, in the order in which they were given.
pub fn get_strategies(e: &Storage) -> (r: Vec<u64>)
    ensures
        r@ == e@.strategies,
{
    copy_ids(&e.strategies)
}

/// Stores the registered strategies.
pub fn set_strategies(e: &mut Storage, strategies: &Vec<u64>)
    ensures
        final(e)@ == (StorageView { strategies: strategies@, ..old(e)@ }),
{
    e.strategies = copy_ids(strategies);
}

/// A copy of a list of identifiers.
fn copy_ids(ids: &Vec<u64>) -> (r: Vec<u64>)
    ensures
        r@ == ids@,
{
    let mut out: Vec<u64> = Vec::new();
    let mut i: usize = 0;
    while i < ids.len()
        invariant
            i <= ids.len(),
            out@ == ids@.take(i as int),
        decreases ids.len() - i,
    {
        out.push(ids[i]);
        assert(ids@.take(i + 1) == ids@.take(i as int).push(ids@[i as int]));
        i += 1;
    }
    assert(ids@.take(ids.len() as int) == ids@);
    out
}

/// Whether `strategy` is one of the registered strategies.
pub fn is_strategy(e: &Storage, strategy: u64) -> (r: bool)
    ensures
        r == e@.is_strategy(strategy),
{
    let mut i: usize = 0;
    while i < e.strategies.len()
        invariant
            i <= e.strategies.len(),
            forall|j: int| 0 <= j < i ==> e.strategies@[j] != strategy,
        decreases e.strategies.len() - i,
    {
        if e.strategies[i] == strategy {
            return true;
        }
        i += 1;
    }
    false
}

/// The books of `strategy`, if any are kept.
pub fn get_strategy_data(e: &Storage, strategy: u64) -> (r: Option<StrategyData>)
    ensures
        r == e@.strategy(strategy),
{
    match e.strategy_data.get(&strategy) {
        Some(d) => Some(*d),
        None => None,
    }
}

/// Stores the books of `strategy`.
pub fn set_strategy_data(e: &mut Storage, strategy: u64, data: &StrategyData)
    ensures
        final(e)@ == (StorageView {
            strategy_data: old(e)@.strategy_data.insert(strategy, *data),
            ..old(e)@
        }),
{
    e.strategy_data.insert(strategy, *data);
}

/// The net impact booked for `strategy`; 0 where no books are kept.
pub fn get_strategy_net_impact(e: &Storage, strategy: u64) -> (r: i128)
    ensures
        r == e@.net_impact(strategy),
{
    match e.strategy_data.get(&strategy) {
        Some(d) => d.net_impact,
        None => 0,
    }
}

/// Books `net_impact` for `strategy`, leaving what it has borrowed as it is
/// (0 where no books were kept).
pub fn set_strategy_net_impact(e: &mut Storage, strategy: u64, net_impact: i128)
    ensures
        final(e)@ == (StorageView {
            strategy_data: old(e)@.strategy_data.insert(
                strategy,
                StrategyData {
                    borrowed: match old(e)@.strategy(strategy) {
                        Some(d) => d.borrowed,
                        None => 0,
                    },
                    net_impact: net_impact,
                },
            ),
            ..old(e)@
        }),
{
    let borrowed: i128 = match e.strategy_data.get(&strategy) {
        Some(d) => d.borrowed,
        None => 0,
    };
    e.strategy_data.insert(strategy, StrategyData { borrowed, net_impact });
}

/// Whether `owner` has a redemption request.
pub fn has_redemption_request(e: &Storage, owner: u64) -> (r: bool)
    ensures
        r == e@.redemptions.contains_key(owner),
{
    e.redemptions.contains_key(&owner)
}

/// The redemption request of `owner`, if there is one.
pub fn get_redemption_request(e: &Storage, owner: u64) -> (r: Option<RedemptionRequest>)
    ensures
        r == e@.redemption(owner),
{
    match e.redemptions.get(&owner) {
        Some(q) => Some(*q),
        None => None,
    }
}

/// Stores the redemption request of `owner`, in place of any it had.
pub fn set_redemption_request(e: &mut Storage, owner: u64, request: &RedemptionRequest)
    ensures
        final(e)@ == (StorageView {
            redemptions: old(e)@.redemptions.insert(owner, *request),
            ..old(e)@
        }),
{
    e.redemptions.insert(owner, *request);
}

/// Deletes the redemption request of `owner`, if there is one.
pub fn remove_redemption_request(e: &mut Storage, owner: u64)
    ensures
        final(e)@ == (StorageView {
            redemptions: old(e)@.redemptions.remove(owner),
            ..old(e)@
        }),
{
    e.redemptions.remove(&owner);
}

/// The time of the last deposit credited to `user`, if there was one.
pub fn get_last_deposit_time(e: &Storage, user: u64) -> (r: Option<u64>)
    ensures
        r == e@.last_deposit(user),
{
    match e.last_deposit_time.get(&user) {
        Some(t) => Some(*t),
        None => None,
    }
}

/// Stores the time of the last deposit credited to `user`.
pub fn set_last_deposit_time(e: &mut Storage, user: u64, timestamp: u64)
    ensures
        final(e)@ == (StorageView {
            last_deposit_time: old(e)@.last_deposit_time.insert(user, timestamp),
            ..old(e)@
        }),
{
    e.last_deposit_time.insert(user, timestamp);
}

} // verus!
