use soroban_sdk::Env;
use std::cell::RefCell;
use std::collections::HashMap;
use std::rc::Rc;
use vault::auth::Auth;
use vault::contract::{Vault, VaultContract};
use vault::effects::{Account, Effect, Receipt};
use vault::errors::VaultError;
use vault::storage::{LockPolicy, StrategyData};

// Constants
pub const SCALAR_7: i128 = 10_000_000;

// Default configuration values
pub const DEFAULT_LOCK_TIME: u64 = 300; // 5 minutes
pub const DEFAULT_PENALTY_RATE: i128 = SCALAR_7 / 10; // 10%
pub const DEFAULT_MIN_LIQUIDITY_RATE: i128 = SCALAR_7 / 5; // 20%

// Identifiers of the fixed parties
const VAULT_ADDRESS: u64 = 0;
const TOKEN_ADDRESS: u64 = 1;
const SHARE_TOKEN_ADDRESS: u64 = 2;
const ADMIN_ADDRESS: u64 = 3;

/// The vault together with everything around it that a call touches: the
/// two token ledgers and the clock.
struct World {
    env: Env,
    contract: VaultContract,
    tokens: HashMap<u64, i128>,
    shares: HashMap<u64, i128>,
    now: u64,
    next_address: u64,
}

fn holder(account: Account) -> u64 {
    match account {
        Account::Vault => VAULT_ADDRESS,
        Account::Principal(p) => p,
    }
}

fn credit(ledger: &mut HashMap<u64, i128>, account: u64, amount: i128) {
    let balance = ledger.get(&account).copied().unwrap_or(0);
    ledger.insert(account, balance + amount);
}

impl World {
    /// Carries out the value movements of a receipt on the two ledgers.
    fn settle(&mut self, receipt: &Receipt) {
        for effect in receipt.effects.iter() {
            match *effect {
                Effect::TransferTokens { from, to, amount } => {
                    credit(&mut self.tokens, holder(from), -amount);
                    credit(&mut self.tokens, holder(to), amount);
                }
                Effect::TransferShares { from, to, amount } => {
                    credit(&mut self.shares, holder(from), -amount);
                    credit(&mut self.shares, holder(to), amount);
                }
                Effect::MintShares { receiver, amount } => {
                    credit(&mut self.shares, receiver, amount);
                }
                Effect::BurnShares { amount } => {
                    credit(&mut self.shares, VAULT_ADDRESS, -amount);
                }
            }
        }
    }

    /// Settles a successful call and hands back what it returns.
    fn conclude(&mut self, outcome: Result<Receipt, VaultError>) -> Result<i128, VaultError> {
        match outcome {
            Ok(receipt) => {
                self.settle(&receipt);
                Ok(receipt.amount)
            }
            Err(err) => Err(err),
        }
    }
}

/// Fails the way the host reports a contract error.
fn expect_ok(outcome: Result<i128, VaultError>) -> i128 {
    match outcome {
        Ok(amount) => amount,
        Err(err) => panic!("Error(Contract, #{})", err.code()),
    }
}

/// The vault as its callers see it. Every call is authorized by the
/// principal that has to authorize it.
#[allow(dead_code)]
pub struct VaultClient {
    world: Rc<RefCell<World>>,
    pub address: u64,
}

#[allow(dead_code)]
impl VaultClient {
    pub fn try_deposit(&self, tokens: &i128, receiver: &u64, payer: &u64) -> Result<i128, VaultError> {
        let mut guard = self.world.borrow_mut();
        let w = &mut *guard;
        let r = w.contract.deposit(&w.env, &Auth::of(*payer), *tokens, *receiver, *payer, w.now);
        w.conclude(r)
    }

    pub fn deposit(&self, tokens: &i128, receiver: &u64, payer: &u64) -> i128 {
        expect_ok(self.try_deposit(tokens, receiver, payer))
    }

    pub fn try_mint(&self, shares: &i128, receiver: &u64, payer: &u64) -> Result<i128, VaultError> {
        let mut guard = self.world.borrow_mut();
        let w = &mut *guard;
        let r = w.contract.mint(&w.env, &Auth::of(*payer), *shares, *receiver, *payer, w.now);
        w.conclude(r)
    }

    pub fn mint(&self, shares: &i128, receiver: &u64, payer: &u64) -> i128 {
        expect_ok(self.try_mint(shares, receiver, payer))
    }

    pub fn try_request_redeem(&self, shares: &i128, owner: &u64) -> Result<i128, VaultError> {
        let mut guard = self.world.borrow_mut();
        let w = &mut *guard;
        let r = w.contract.request_redeem(&Auth::of(*owner), *shares, *owner, w.now);
        w.conclude(r)
    }

    pub fn request_redeem(&self, shares: &i128, owner: &u64) {
        expect_ok(self.try_request_redeem(shares, owner));
    }

    pub fn try_redeem_shares(
        &self,
        shares: Option<i128>,
        receiver: &u64,
        owner: &u64,
    ) -> Result<i128, VaultError> {
        let mut guard = self.world.borrow_mut();
        let w = &mut *guard;
        let r = w.contract.redeem(&w.env, &Auth::of(*owner), shares, *receiver, *owner, w.now);
        w.conclude(r)
    }

    /// Redeems the whole request of `owner`.
    pub fn redeem(&self, receiver: &u64, owner: &u64) -> i128 {
        expect_ok(self.try_redeem_shares(None, receiver, owner))
    }

    /// Redeems `shares` of the request of `owner`.
    pub fn redeem_shares(&self, shares: &i128, receiver: &u64, owner: &u64) -> i128 {
        expect_ok(self.try_redeem_shares(Some(*shares), receiver, owner))
    }

    pub fn try_emergency_redeem(&self, receiver: &u64, owner: &u64) -> Result<i128, VaultError> {
        let mut guard = self.world.borrow_mut();
        let w = &mut *guard;
        let r = w.contract.emergency_redeem(&w.env, &Auth::of(*owner), *receiver, *owner, w.now);
        w.conclude(r)
    }

    pub fn emergency_redeem(&self, receiver: &u64, owner: &u64) -> i128 {
        expect_ok(self.try_emergency_redeem(receiver, owner))
    }

    pub fn try_cancel_redeem(&self, owner: &u64) -> Result<i128, VaultError> {
        let mut guard = self.world.borrow_mut();
        let w = &mut *guard;
        let r = w.contract.cancel_redeem(&Auth::of(*owner), *owner);
        w.conclude(r)
    }

    pub fn cancel_redeem(&self, owner: &u64) {
        expect_ok(self.try_cancel_redeem(owner));
    }

    pub fn try_borrow(&self, strategy: &u64, amount: &i128) -> Result<i128, VaultError> {
        let mut guard = self.world.borrow_mut();
        let w = &mut *guard;
        let vault_balance = w.tokens.get(&VAULT_ADDRESS).copied().unwrap_or(0);
        let r = w.contract.borrow(&w.env, &Auth::of(*strategy), *strategy, *amount, vault_balance);
        w.conclude(r)
    }

    pub fn borrow(&self, strategy: &u64, amount: &i128) {
        expect_ok(self.try_borrow(strategy, amount));
    }

    pub fn try_repay(&self, strategy: &u64, amount: &i128) -> Result<i128, VaultError> {
        let mut guard = self.world.borrow_mut();
        let w = &mut *guard;
        let r = w.contract.repay(&Auth::of(*strategy), *strategy, *amount);
        w.conclude(r)
    }

    pub fn repay(&self, strategy: &u64, amount: &i128) {
        expect_ok(self.try_repay(strategy, amount));
    }

    pub fn try_transfer_to(&self, strategy: &u64, amount: &i128) -> Result<i128, VaultError> {
        let mut guard = self.world.borrow_mut();
        let w = &mut *guard;
        let r = w.contract.transfer_to(&Auth::of(*strategy), *strategy, *amount);
        w.conclude(r)
    }

    pub fn transfer_to(&self, strategy: &u64, amount: &i128) {
        expect_ok(self.try_transfer_to(strategy, amount));
    }

    pub fn try_transfer_from(&self, strategy: &u64, amount: &i128) -> Result<i128, VaultError> {
        let mut guard = self.world.borrow_mut();
        let w = &mut *guard;
        let r = w.contract.transfer_from(&Auth::of(*strategy), *strategy, *amount);
        w.conclude(r)
    }

    pub fn transfer_from(&self, strategy: &u64, amount: &i128) {
        expect_ok(self.try_transfer_from(strategy, amount));
    }

    /// A transfer of shares between principals, by their owner.
    pub fn try_transfer(&self, from: &u64, to: &u64, amount: &i128) -> Result<i128, VaultError> {
        let mut guard = self.world.borrow_mut();
        let w = &mut *guard;
        let r = w.contract.transfer_shares(&Auth::of(*from), *from, *to, *amount, w.now);
        w.conclude(r)
    }

    pub fn transfer(&self, from: &u64, to: &u64, amount: &i128) {
        expect_ok(self.try_transfer(from, to, amount));
    }

    /// A transfer of shares between principals, by a spender.
    pub fn share_transfer_from(&self, spender: &u64, from: &u64, to: &u64, amount: &i128) {
        let mut guard = self.world.borrow_mut();
        let w = &mut *guard;
        let r = w.contract.transfer_shares_from(
            &Auth::of(*spender),
            *spender,
            *from,
            *to,
            *amount,
            w.now,
        );
        expect_ok(w.conclude(r));
    }

    pub fn token(&self) -> u64 {
        self.world.borrow().contract.token()
    }

    pub fn share_token(&self) -> u64 {
        self.world.borrow().contract.share_token()
    }

    pub fn total_shares(&self) -> i128 {
        self.world.borrow().contract.total_shares()
    }

    pub fn total_assets(&self) -> i128 {
        self.world.borrow().contract.total_assets()
    }

    pub fn total_tokens(&self) -> i128 {
        self.world.borrow().contract.total_tokens()
    }

    pub fn get_strategy(&self, strategy: &u64) -> StrategyData {
        self.world.borrow().contract.get_strategy(*strategy).unwrap()
    }

    pub fn net_impact(&self, strategy: &u64) -> i128 {
        self.world.borrow().contract.net_impact(*strategy)
    }

    pub fn lock_time(&self) -> u64 {
        self.world.borrow().contract.lock_time()
    }

    pub fn is_locked(&self, user: &u64) -> bool {
        let w = self.world.borrow();
        w.contract.is_locked(*user, w.now)
    }

    pub fn lock_duration(&self, user: &u64) -> u64 {
        let w = self.world.borrow();
        w.contract.lock_duration(*user, w.now)
    }

    pub fn max_redeem(&self, user: &u64) -> i128 {
        let w = self.world.borrow();
        let balance = w.shares.get(user).copied().unwrap_or(0);
        w.contract.max_redeem(*user, balance, w.now)
    }

    pub fn max_withdraw(&self, user: &u64) -> i128 {
        let w = self.world.borrow();
        let balance = w.shares.get(user).copied().unwrap_or(0);
        w.contract.max_withdraw(&w.env, *user, balance, w.now)
    }
}

/// One of the two token ledgers, for reading.
#[allow(dead_code)]
pub struct TokenClient {
    world: Rc<RefCell<World>>,
    shares: bool,
}

#[allow(dead_code)]
impl TokenClient {
    pub fn balance(&self, account: &u64) -> i128 {
        let w = self.world.borrow();
        let ledger = if self.shares { &w.shares } else { &w.tokens };
        ledger.get(account).copied().unwrap_or(0)
    }
}

/// A list of principals.
#[allow(dead_code)]
pub struct Addresses(Vec<u64>);

#[allow(dead_code)]
impl Addresses {
    pub fn get(&self, index: u32) -> Option<u64> {
        self.0.get(index as usize).copied()
    }

    pub fn len(&self) -> u32 {
        self.0.len() as u32
    }

    pub fn iter(&self) -> std::vec::IntoIter<u64> {
        self.0.clone().into_iter()
    }
}

/// Test environment with all necessary components
#[allow(dead_code)]
pub struct TestEnv {
    world: Rc<RefCell<World>>,
    pub token: u64,
    pub vault: VaultClient,
    pub admin: u64,
    pub users: Addresses,
    pub strategies: Addresses,
}

/// Configuration for vault setup
pub struct VaultConfig {
    pub lock_time: u64,
    pub penalty_rate: i128,
    pub min_liquidity_rate: i128,
    pub num_users: u32,
    pub num_strategies: u32,
    pub lock_policy: LockPolicy,
    pub partial_redemption: bool,
}

impl Default for VaultConfig {
    fn default() -> Self {
        Self {
            lock_time: DEFAULT_LOCK_TIME,
            penalty_rate: DEFAULT_PENALTY_RATE,
            min_liquidity_rate: DEFAULT_MIN_LIQUIDITY_RATE,
            num_users: 2,
            num_strategies: 1,
            lock_policy: LockPolicy::Disabled,
            partial_redemption: false,
        }
    }
}

/// Creates a complete test environment with vault, token, users, and strategies
#[allow(dead_code)]
pub fn setup_vault_with_config(config: VaultConfig) -> TestEnv {
    let env = Env::default();
    let mut tokens: HashMap<u64, i128> = HashMap::new();

    // Create users and fund them with 10k tokens each
    let mut users = Vec::new();
    for i in 0..config.num_users {
        let user = 100 + i as u64;
        credit(&mut tokens, user, 10_000 * SCALAR_7);
        users.push(user);
    }

    // Create strategies
    let mut strategies = Vec::new();
    for i in 0..config.num_strategies {
        strategies.push(200 + i as u64);
    }

    // Deploy vault
    let contract = VaultContract::__constructor(
        TOKEN_ADDRESS,
        SHARE_TOKEN_ADDRESS,
        strategies.clone(),
        config.lock_time,
        config.penalty_rate,
        config.min_liquidity_rate,
        config.lock_policy,
        config.partial_redemption,
    )
    .unwrap();

    let world = Rc::new(RefCell::new(World {
        env,
        contract,
        tokens,
        shares: HashMap::new(),
        now: 0,
        next_address: 1000,
    }));

    TestEnv {
        world: world.clone(),
        token: TOKEN_ADDRESS,
        vault: VaultClient { world, address: VAULT_ADDRESS },
        admin: ADMIN_ADDRESS,
        users: Addresses(users),
        strategies: Addresses(strategies),
    }
}

/// Creates a basic test environment with default configuration
#[allow(dead_code)]
pub fn setup_vault() -> TestEnv {
    setup_vault_with_config(VaultConfig::default())
}

/// Helper functions for TestEnv
#[allow(dead_code)]
impl TestEnv {
    /// Get token client for the underlying token
    pub fn token_client(&self) -> TokenClient {
        TokenClient { world: self.world.clone(), shares: false }
    }

    /// Get token client for the share token
    pub fn share_token_client(&self) -> TokenClient {
        TokenClient { world: self.world.clone(), shares: true }
    }

    /// A principal that nobody has seen before
    pub fn generate_address(&self) -> u64 {
        let mut w = self.world.borrow_mut();
        let address = w.next_address;
        w.next_address += 1;
        address
    }

    /// Mint tokens to any address (user or strategy)
    pub fn mint_tokens(&self, to: &u64, amount: i128) {
        credit(&mut self.world.borrow_mut().tokens, *to, amount);
    }

    /// Fund a user with tokens (alias for mint_tokens)
    pub fn fund_user(&self, user: &u64, amount: i128) {
        self.mint_tokens(user, amount);
    }

    /// Create a new funded user
    pub fn create_funded_user(&self, amount: i128) -> u64 {
        let user = self.generate_address();
        self.mint_tokens(&user, amount);
        user
    }

    /// Get user's token balance
    pub fn token_balance(&self, user: &u64) -> i128 {
        self.token_client().balance(user)
    }

    /// Get user's share balance
    pub fn share_balance(&self, user: &u64) -> i128 {
        self.share_token_client().balance(user)
    }

    /// Get vault's token balance
    pub fn vault_balance(&self) -> i128 {
        self.token_client().balance(&self.vault.address)
    }

    /// The current time
    pub fn timestamp(&self) -> u64 {
        self.world.borrow().now
    }

    /// Advance time by seconds
    pub fn advance_time(&self, seconds: u64) {
        self.world.borrow_mut().now += seconds;
    }

    /// Advance time past lock period
    pub fn advance_past_lock(&self) {
        self.advance_time(DEFAULT_LOCK_TIME + 1);
    }

    /// Advance time to exact unlock time
    pub fn advance_to_unlock(&self) {
        self.advance_time(DEFAULT_LOCK_TIME);
    }
}

/// Creates a minimal setup for unit-style tests
#[allow(dead_code)]
pub fn setup_simple() -> (u64, TestEnv) {
    let test_env = setup_vault_with_config(VaultConfig {
        num_users: 1,
        num_strategies: 0,
        ..Default::default()
    });

    let user = test_env.users.get(0).unwrap();
    (user, test_env)
}

/// Asserts two values are approximately equal (within 0.01%)
#[allow(dead_code)]
pub fn assert_approx_eq(actual: i128, expected: i128, msg: &str) {
    let tolerance = expected.abs() / 10000; // 0.01%
    let diff = (actual - expected).abs();
    assert!(
        diff <= tolerance,
        "{}: expected {} ± {}, got {} (diff: {})",
        msg,
        expected,
        tolerance,
        actual,
        diff
    );
}

/// Asserts actual value is within a range
#[allow(dead_code)]
pub fn assert_in_range(actual: i128, min: i128, max: i128, msg: &str) {
    assert!(
        actual >= min && actual <= max,
        "{}: expected value in range [{}, {}], got {}",
        msg,
        min,
        max,
        actual
    );
}

const LOCK_TIME: u64 = 300;

fn setup_test(lock_policy: LockPolicy) -> (TestEnv, u64, u64) {
    let test_env = setup_vault_with_config(VaultConfig {
        lock_time: LOCK_TIME,
        penalty_rate: 0,
        min_liquidity_rate: 0,
        num_users: 1,
        num_strategies: 1,
        lock_policy,
        partial_redemption: true,
    });
    let user = test_env.users.get(0).unwrap();
    let strategy = test_env.strategies.get(0).unwrap();

    // Fund user
    test_env.mint_tokens(&user, 90_000 * SCALAR_7);

    (test_env, user, strategy)
}

// ==================== Lock Mechanism Tests ====================

#[test]
fn test_deposit_sets_lock() {
    let (test_env, user, _) = setup_test(LockPolicy::DepositLock);
    let vault = &test_env.vault;

    vault.deposit(&(1000 * SCALAR_7), &user, &user);

    assert!(vault.is_locked(&user));
    assert_eq!(vault.max_redeem(&user), 0);
}

#[test]
fn test_mint_sets_lock() {
    let (test_env, user, _) = setup_test(LockPolicy::DepositLock);
    let vault = &test_env.vault;

    vault.mint(&(1000 * SCALAR_7), &user, &user);

    assert!(vault.is_locked(&user));
}

#[test]
fn test_max_withdraw_returns_zero_when_locked() {
    let (test_env, user, _) = setup_test(LockPolicy::DepositLock);
    let vault = &test_env.vault;

    vault.deposit(&(1000 * SCALAR_7), &user, &user);

    assert_eq!(vault.max_withdraw(&user), 0);
}

#[test]
fn test_lock_time_returns_configured_value() {
    let (test_env, _, _) = setup_test(LockPolicy::DepositLock);
    let vault = &test_env.vault;

    assert_eq!(vault.lock_time(), LOCK_TIME);
}

#[test]
fn test_unlock_after_lock_time() {
    let (test_env, user, _) = setup_test(LockPolicy::DepositLock);
    let vault = &test_env.vault;

    vault.deposit(&(1000 * SCALAR_7), &user, &user);

    // Advance past lock time
    test_env.advance_time(LOCK_TIME + 1);

    assert!(!vault.is_locked(&user));
    assert!(vault.max_redeem(&user) > 0);
}

#[test]
fn test_new_deposit_resets_lock() {
    let (test_env, user, _) = setup_test(LockPolicy::DepositLock);
    let vault = &test_env.vault;

    vault.deposit(&(1000 * SCALAR_7), &user, &user);

    // Advance halfway
    test_env.advance_time(LOCK_TIME / 2);
    assert!(vault.is_locked(&user));

    // New deposit resets lock
    vault.deposit(&(500 * SCALAR_7), &user, &user);

    // Advance another half - still locked due to reset
    test_env.advance_time(LOCK_TIME / 2);
    assert!(vault.is_locked(&user));

    // Advance past new lock
    test_env.advance_time(LOCK_TIME / 2 + 1);
    assert!(!vault.is_locked(&user));
}

#[test]
#[should_panic(expected = "Error(Contract, #4048)")] // SharesLocked
fn test_redeem_while_locked_fails() {
    let (test_env, user, _) = setup_test(LockPolicy::DepositLock);
    let vault = &test_env.vault;

    vault.deposit(&(1000 * SCALAR_7), &user, &user);
    vault.redeem_shares(&(500 * SCALAR_7), &user, &user);
}

#[test]
#[should_panic(expected = "Error(Contract, #4048)")] // SharesLocked
fn test_withdraw_while_locked_fails() {
    let (test_env, user, _) = setup_test(LockPolicy::DepositLock);
    let vault = &test_env.vault;

    vault.deposit(&(1000 * SCALAR_7), &user, &user);
    vault.request_redeem(&(500 * SCALAR_7), &user);
    test_env.advance_time(LOCK_TIME - 1);
    vault.redeem(&user, &user);
}

// ==================== Transfer Exploit Prevention ====================

#[test]
fn test_user_without_deposit_history_is_not_locked() {
    let (test_env, _user, _) = setup_test(LockPolicy::TransferLock);
    let vault = &test_env.vault;
    let recipient = test_env.generate_address();

    // User who never deposited is NOT locked (received shares via transfer)
    assert!(!vault.is_locked(&recipient));
    assert_eq!(vault.lock_duration(&recipient), 0);
}

#[test]
fn test_user_without_deposit_history_is_locked_under_deposit_lock() {
    let (test_env, _user, _) = setup_test(LockPolicy::DepositLock);
    let vault = &test_env.vault;
    let recipient = test_env.generate_address();

    assert!(vault.is_locked(&recipient));
    assert_eq!(vault.lock_duration(&recipient), u64::MAX);
    test_env.advance_time(10 * LOCK_TIME);
    assert!(vault.is_locked(&recipient));
    assert_eq!(vault.max_redeem(&recipient), 0);
}

#[test]
#[should_panic(expected = "Error(Contract, #4048)")] // SharesLocked
fn test_transfer_while_locked_fails() {
    let (test_env, user, _) = setup_test(LockPolicy::TransferLock);
    let vault = &test_env.vault;
    let recipient = test_env.generate_address();

    vault.deposit(&(1000 * SCALAR_7), &user, &user);
    assert!(vault.is_locked(&user));

    // Transfer should fail while locked
    vault.transfer(&user, &recipient, &(500 * SCALAR_7));
}

#[test]
fn test_transfer_after_unlock_succeeds() {
    let (test_env, user, _) = setup_test(LockPolicy::TransferLock);
    let vault = &test_env.vault;
    let recipient = test_env.generate_address();

    vault.deposit(&(1000 * SCALAR_7), &user, &user);

    // Wait for lock to expire
    test_env.advance_time(LOCK_TIME + 1);
    assert!(!vault.is_locked(&user));

    // Transfer should succeed
    vault.transfer(&user, &recipient, &(500 * SCALAR_7));
    assert_eq!(test_env.share_balance(&user), 500 * SCALAR_7);
    assert_eq!(test_env.share_balance(&recipient), 500 * SCALAR_7);

    // Recipient can immediately redeem (no deposit history = not locked)
    assert!(!vault.is_locked(&recipient));
    assert!(vault.max_redeem(&recipient) > 0);
}

#[test]
#[should_panic(expected = "Error(Contract, #4048)")] // SharesLocked
fn test_transfer_from_while_locked_fails() {
    let (test_env, user, _) = setup_test(LockPolicy::TransferLock);
    let vault = &test_env.vault;
    let spender = test_env.generate_address();
    let recipient = test_env.generate_address();

    vault.deposit(&(1000 * SCALAR_7), &user, &user);

    // transfer_from should fail while owner is locked
    vault.share_transfer_from(&spender, &user, &recipient, &(500 * SCALAR_7));
}

#[test]
fn test_transfer_from_after_unlock_succeeds() {
    let (test_env, user, _) = setup_test(LockPolicy::TransferLock);
    let vault = &test_env.vault;
    let spender = test_env.generate_address();
    let recipient = test_env.generate_address();

    vault.deposit(&(1000 * SCALAR_7), &user, &user);

    // Wait for lock to expire
    test_env.advance_time(LOCK_TIME + 1);

    // transfer_from should succeed
    vault.share_transfer_from(&spender, &user, &recipient, &(500 * SCALAR_7));

    // Recipient can immediately redeem
    assert!(!vault.is_locked(&recipient));
    assert!(vault.max_redeem(&recipient) > 0);
}

#[test]
fn test_transfer_lock_does_not_block_redemption() {
    let (test_env, user, _) = setup_test(LockPolicy::TransferLock);
    let vault = &test_env.vault;

    vault.deposit(&(1000 * SCALAR_7), &user, &user);
    assert!(vault.is_locked(&user));
    assert_eq!(vault.lock_duration(&user), LOCK_TIME);
    assert_eq!(vault.max_redeem(&user), 1000 * SCALAR_7);
    assert_eq!(vault.max_withdraw(&user), 1000 * SCALAR_7);

    // The request unlocks together with the share lock; at that moment the
    // deposit lock would let go as well
    vault.request_redeem(&(1000 * SCALAR_7), &user);
    test_env.advance_time(LOCK_TIME);
    assert_eq!(vault.lock_duration(&user), 0);
    assert_eq!(vault.redeem(&user, &user), 1000 * SCALAR_7);
}

#[test]
fn test_lock_duration_counts_down() {
    let (test_env, user, _) = setup_test(LockPolicy::DepositLock);
    let vault = &test_env.vault;

    test_env.advance_time(1000);
    vault.deposit(&(1000 * SCALAR_7), &user, &user);
    assert_eq!(vault.lock_duration(&user), 300);
    test_env.advance_time(1);
    assert_eq!(vault.lock_duration(&user), 299);
    test_env.advance_time(298);
    assert_eq!(vault.lock_duration(&user), 1);
    assert!(vault.is_locked(&user));
    test_env.advance_time(1);
    assert_eq!(vault.lock_duration(&user), 0);
    assert!(!vault.is_locked(&user));
}

#[test]
fn test_no_lock_without_policy() {
    let (test_env, user, _) = setup_test(LockPolicy::Disabled);
    let vault = &test_env.vault;
    let recipient = test_env.generate_address();

    vault.deposit(&(1000 * SCALAR_7), &user, &user);
    assert!(!vault.is_locked(&user));
    assert_eq!(vault.lock_duration(&user), 0);
    vault.transfer(&user, &recipient, &(1 * SCALAR_7));
    assert_eq!(test_env.share_balance(&recipient), 1 * SCALAR_7);
}

// ==================== Strategy Tests ====================

#[test]
fn test_strategy_withdraw_decreases_assets() {
    let (test_env, user, strategy) = setup_test(LockPolicy::TransferLock);
    let vault = &test_env.vault;

    vault.deposit(&(10_000 * SCALAR_7), &user, &user);
    let initial_assets = vault.total_assets();

    // Strategy withdraws
    vault.transfer_to(&strategy, &(2000 * SCALAR_7));

    assert_eq!(vault.total_assets(), initial_assets - 2000 * SCALAR_7);
    assert_eq!(vault.net_impact(&strategy), -(2000 * SCALAR_7));
}

#[test]
fn test_strategy_deposit_increases_assets() {
    let (test_env, user, strategy) = setup_test(LockPolicy::TransferLock);
    let vault = &test_env.vault;

    vault.deposit(&(10_000 * SCALAR_7), &user, &user);

    // Fund strategy and deposit back with profit
    test_env.mint_tokens(&strategy, 3000 * SCALAR_7);
    vault.transfer_from(&strategy, &(3000 * SCALAR_7));

    assert_eq!(vault.total_assets(), 13_000 * SCALAR_7);
    assert_eq!(vault.net_impact(&strategy), 3000 * SCALAR_7);
}

#[test]
#[should_panic(expected = "Error(Contract, #4045)")] // UnauthorizedStrategy
fn test_test_unauthorized_strategy_fails() {
    let (test_env, user, _) = setup_test(LockPolicy::TransferLock);
    let vault = &test_env.vault;
    let fake_strategy = test_env.generate_address();

    vault.deposit(&(10_000 * SCALAR_7), &user, &user);
    vault.transfer_to(&fake_strategy, &(1000 * SCALAR_7));
}

#[test]
#[should_panic(expected = "Error(Contract, #4046)")] // ZeroAmount
fn test_zero_strategy_withdraw_fails() {
    let (test_env, user, strategy) = setup_test(LockPolicy::TransferLock);
    let vault = &test_env.vault;

    vault.deposit(&(10_000 * SCALAR_7), &user, &user);
    vault.transfer_to(&strategy, &0);
}

#[test]
#[should_panic(expected = "Error(Contract, #4046)")] // ZeroAmount
fn test_zero_strategy_deposit_fails() {
    let (test_env, user, strategy) = setup_test(LockPolicy::TransferLock);
    let vault = &test_env.vault;

    vault.deposit(&(10_000 * SCALAR_7), &user, &user);
    test_env.mint_tokens(&strategy, 1000 * SCALAR_7);
    vault.transfer_from(&strategy, &0);
}

#[test]
#[should_panic(expected = "Error(Contract, #4045)")] // UnauthorizedStrategy
fn test_unauthorized_strategy_deposit_fails() {
    let (test_env, user, _) = setup_test(LockPolicy::TransferLock);
    let vault = &test_env.vault;
    let fake_strategy = test_env.generate_address();

    vault.deposit(&(10_000 * SCALAR_7), &user, &user);
    test_env.mint_tokens(&fake_strategy, 1000 * SCALAR_7);
    vault.transfer_from(&fake_strategy, &(1000 * SCALAR_7));
}
