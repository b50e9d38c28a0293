use soroban_sdk::Env;
use vault::math::{calculate_min_liquidity, calculate_penalty, Converter, SCALAR_7};

#[test]
fn test_converter_first_deposit() {
    let env = Env::default();

    // When vault is empty (0 shares, 0 tokens)
    let converter = Converter::new(&env, 0, 0);

    // First deposit should get 1:1 ratio
    assert_eq!(converter.shares_from_tokens(1000 * SCALAR_7), 1000 * SCALAR_7);
    assert_eq!(converter.shares_from_tokens(1), 1); // Even 1 stroop
    assert_eq!(converter.shares_from_tokens(999_999 * SCALAR_7), 999_999 * SCALAR_7);

    // Reverse calculation should also be 1:1
    assert_eq!(converter.tokens_from_shares(1000 * SCALAR_7), 1000 * SCALAR_7);
    assert_eq!(converter.tokens_from_shares(1), 1);
}

#[test]
fn test_converter_share_price_appreciation() {
    let env = Env::default();

    // Vault has 1000 shares and 1200 tokens (20% appreciation)
    // Share price = 1.2 tokens per share
    let converter = Converter::new(&env, 1000 * SCALAR_7, 1200 * SCALAR_7);

    // Depositing 600 tokens should give 500 shares (600 / 1.2)
    assert_eq!(converter.shares_from_tokens(600 * SCALAR_7), 500 * SCALAR_7);

    // To mint 100 shares, need 120 tokens (100 * 1.2)
    assert_eq!(converter.tokens_from_shares(100 * SCALAR_7), 120 * SCALAR_7);

    // Redeeming 500 shares should give 600 tokens
    assert_eq!(converter.redemption_value(500 * SCALAR_7), 600 * SCALAR_7);
}

#[test]
fn test_converter_share_price_depreciation() {
    let env = Env::default();

    // Vault has 1000 shares and 800 tokens (20% loss)
    // Share price = 0.8 tokens per share
    let converter = Converter::new(&env, 1000 * SCALAR_7, 800 * SCALAR_7);

    // Depositing 400 tokens should give 500 shares (400 / 0.8)
    assert_eq!(converter.shares_from_tokens(400 * SCALAR_7), 500 * SCALAR_7);

    // To mint 100 shares, need 80 tokens (100 * 0.8)
    assert_eq!(converter.tokens_from_shares(100 * SCALAR_7), 80 * SCALAR_7);

    // Redeeming 500 shares should give 400 tokens
    assert_eq!(converter.redemption_value(500 * SCALAR_7), 400 * SCALAR_7);
}

#[test]
fn test_converter_tokens_from_shares_exact() {
    let env = Env::default();

    // Test various share prices
    let test_cases = vec![
        (1000 * SCALAR_7, 1000 * SCALAR_7), // 1:1 ratio
        (1000 * SCALAR_7, 2000 * SCALAR_7), // 2:1 ratio
        (1000 * SCALAR_7, 500 * SCALAR_7),  // 0.5:1 ratio
        (1000 * SCALAR_7, 1500 * SCALAR_7), // 1.5:1 ratio
    ];

    for (total_shares, total_tokens) in test_cases {
        let converter = Converter::new(&env, total_shares, total_tokens);

        // Test that tokens_from_shares is inverse of shares_from_tokens
        let shares = 100 * SCALAR_7;
        let tokens_needed = converter.tokens_from_shares(shares);

        // If we deposit tokens_needed, we should get at least the shares we wanted
        let converter2 = Converter::new(&env, total_shares, total_tokens);
        let shares_received = converter2.shares_from_tokens(tokens_needed);

        assert!(
            shares_received >= shares,
            "Should receive at least requested shares. Got {} wanted {}",
            shares_received,
            shares
        );
    }
}

#[test]
fn test_converter_rounding_behavior() {
    let env = Env::default();

    // Test with prime numbers to force rounding
    let converter = Converter::new(&env, 1000 * SCALAR_7, 1337 * SCALAR_7);

    // shares_from_tokens uses floor (favorable to vault)
    // Depositing 100 tokens when share price is 1.337
    let shares = converter.shares_from_tokens(100 * SCALAR_7);
    // Should get less than 100 shares due to appreciation
    assert_eq!(shares, 747943156); // ~74.79 shares with 7 decimals

    // tokens_from_shares uses ceil (favorable to vault)
    // Minting exactly 100 shares when share price is 1.337
    let tokens = converter.tokens_from_shares(100 * SCALAR_7);
    assert_eq!(tokens, 1337000000); // Need 133.7 tokens

    // redemption_value uses floor (favorable to vault)
    // Redeeming 100 shares when share price is 1.337
    let redemption = converter.redemption_value(100 * SCALAR_7);
    assert_eq!(redemption, 1337000000); // Get 133.7 tokens

    // Verify rounding direction by checking small amounts
    let one_share_redemption = converter.redemption_value(1);
    let one_share_cost = converter.tokens_from_shares(1);
    // Cost to mint should be >= redemption value (vault favorable)
    assert!(one_share_cost >= one_share_redemption);
}

#[test]
fn test_converter_edge_cases() {
    let env = Env::default();

    // Test with 1 stroop
    let converter = Converter::new(&env, SCALAR_7, SCALAR_7);
    assert_eq!(converter.shares_from_tokens(1), 1);
    assert_eq!(converter.tokens_from_shares(1), 1);
    assert_eq!(converter.redemption_value(1), 1);

    // Test with very large numbers
    let large_amount = i128::MAX / 100; // Avoid overflow
    let converter = Converter::new(&env, large_amount, large_amount);
    assert_eq!(converter.shares_from_tokens(SCALAR_7), SCALAR_7);

    // Test redemption when total_shares is 0 (should return 0)
    let converter = Converter::new(&env, 0, 1000 * SCALAR_7);
    assert_eq!(converter.redemption_value(100 * SCALAR_7), 0);
}

#[test]
fn test_penalty_calculation_linear_decay() {
    let env = Env::default();
    let lock_time = 300; // 5 minutes
    let penalty_rate = SCALAR_7 / 10; // 10% max penalty
    let token_value = 1000 * SCALAR_7;

    let unlock_time = 1000 + lock_time;

    // At start (full penalty)
    let penalty = calculate_penalty(&env, token_value, unlock_time, lock_time, penalty_rate, 1000);
    assert_eq!(penalty, 100 * SCALAR_7); // 10% of 1000

    // Halfway through (half penalty)
    let penalty =
        calculate_penalty(&env, token_value, unlock_time, lock_time, penalty_rate, 1000 + 150);
    assert_eq!(penalty, 50 * SCALAR_7); // 5% of 1000

    // 90% through (10% penalty remaining)
    let penalty =
        calculate_penalty(&env, token_value, unlock_time, lock_time, penalty_rate, 1000 + 270);
    assert_eq!(penalty, 10 * SCALAR_7); // 1% of 1000
}

#[test]
fn test_penalty_calculation_edge_cases() {
    let env = Env::default();

    // Test no penalty after unlock time
    let penalty = calculate_penalty(&env, 1000 * SCALAR_7, 999, 300, SCALAR_7 / 10, 1000);
    assert_eq!(penalty, 0);

    // Test 100% penalty rate
    let penalty = calculate_penalty(&env, 1000 * SCALAR_7, 1300, 300, SCALAR_7, 1000);
    assert_eq!(penalty, 1000 * SCALAR_7); // All tokens as penalty

    // Test 0% penalty rate
    let penalty = calculate_penalty(&env, 1000 * SCALAR_7, 1300, 300, 0, 1000);
    assert_eq!(penalty, 0);

    // Test with 1 stroop value
    let penalty = calculate_penalty(&env, 1, 1300, 300, SCALAR_7 / 2, 1000);
    assert_eq!(penalty, 0); // Rounds down to 0

    // Test at exact unlock time
    let penalty = calculate_penalty(&env, 1000 * SCALAR_7, 1300, 300, SCALAR_7 / 10, 1300);
    assert_eq!(penalty, 0); // No penalty at exact unlock time
}

#[test]
fn test_min_liquidity_calculation() {
    let env = Env::default();

    // Test with 20% minimum liquidity
    let min_liquidity_rate = SCALAR_7 / 5; // 20%

    // Normal case
    let min_liq = calculate_min_liquidity(&env, 1000 * SCALAR_7, min_liquidity_rate);
    assert_eq!(min_liq, 200 * SCALAR_7); // 20% of 1000

    // Test with 0 total tokens
    let min_liq = calculate_min_liquidity(&env, 0, min_liquidity_rate);
    assert_eq!(min_liq, 0);

    // Test with 100% minimum liquidity
    let min_liq = calculate_min_liquidity(&env, 1000 * SCALAR_7, SCALAR_7);
    assert_eq!(min_liq, 1000 * SCALAR_7);

    // Test with 0% minimum liquidity
    let min_liq = calculate_min_liquidity(&env, 1000 * SCALAR_7, 0);
    assert_eq!(min_liq, 0);

    // Test rounding up (favorable to safety)
    // If we have 1000 tokens and want 33.33...% minimum
    let min_liquidity_rate = SCALAR_7 / 3; // ~33.33%
    let min_liq = calculate_min_liquidity(&env, 1000 * SCALAR_7, min_liquidity_rate);
    // Should round up to ensure minimum is maintained
    assert!(min_liq >= 333 * SCALAR_7);

    // Test with small amounts
    let min_liq = calculate_min_liquidity(&env, 10, SCALAR_7 / 2); // 50% of 10 stroops
    assert_eq!(min_liq, 5);
}

#[test]
fn floor_and_ceiling_differ_by_one_on_a_remainder() {
    let env = Env::default();
    // 3 shares back 10 tokens: one share is worth 3 1/3 tokens.
    let converter = Converter::new(&env, 3, 10);
    assert_eq!(converter.redemption_value(1), 3);
    assert_eq!(converter.tokens_from_shares(1), 4);
    assert_eq!(converter.shares_from_tokens(10), 3);
    assert_eq!(converter.shares_from_tokens(9), 2);
    // An exact quotient is the same in both directions.
    assert_eq!(converter.redemption_value(3), 10);
    assert_eq!(converter.tokens_from_shares(3), 10);
}

#[test]
fn rounding_follows_the_sign() {
    let env = Env::default();
    // -7 * 1 / 2 is -3.5: down to -4, up to -3.
    let converter = Converter::new(&env, 2, 1);
    assert_eq!(converter.redemption_value(-7), -4);
    assert_eq!(converter.tokens_from_shares(-7), -3);
    // A negative divisor: 7 * 1 / -2 is -3.5 as well.
    let converter = Converter::new(&env, -2, 1);
    assert_eq!(converter.redemption_value(7), -4);
    assert_eq!(converter.tokens_from_shares(7), -3);
    // Both negative: -7 * 1 / -2 is 3.5.
    assert_eq!(converter.redemption_value(-7), 3);
    assert_eq!(converter.tokens_from_shares(-7), 4);
}

#[test]
fn products_beyond_128_bits_are_exact() {
    let env = Env::default();
    let large = i128::MAX / 3;
    let converter = Converter::new(&env, large, large);
    assert_eq!(converter.shares_from_tokens(large), large);
    assert_eq!(converter.tokens_from_shares(large - 1), large - 1);
    assert_eq!(converter.redemption_value(i128::MAX), i128::MAX);
    // (large * 2) * large / (large * 2 + 1) rounds down to large - 1 and up to large.
    let converter = Converter::new(&env, large * 2 + 1, large * 2);
    assert_eq!(converter.redemption_value(large), large - 1);
    assert_eq!(converter.tokens_from_shares(large), large);
}

#[test]
fn mint_cost_covers_redemption_on_samples() {
    let env = Env::default();
    let ratios: Vec<(i128, i128)> = vec![(1, 1), (3, 10), (10, 3), (7, 1_000_003), (1_000_003, 7)];
    for (total_shares, total_tokens) in ratios {
        let converter = Converter::new(&env, total_shares, total_tokens);
        for shares in 1..50i128 {
            assert!(converter.tokens_from_shares(shares) >= converter.redemption_value(shares));
        }
    }
}

#[test]
fn penalty_never_grows_with_time() {
    let env = Env::default();
    let mut last = i128::MAX;
    for now in 1000..=1310u64 {
        let p = calculate_penalty(&env, 12_345_678, 1300, 300, SCALAR_7 / 7, now);
        assert!(p <= last);
        assert!(p >= 0);
        last = p;
    }
    assert_eq!(last, 0);
    // At the moment of the request the full rate applies: floor(12345678 * 1428571 / 10^7).
    assert_eq!(calculate_penalty(&env, 12_345_678, 1300, 300, SCALAR_7 / 7, 1000), 1_763_667);
}

#[test]
fn penalty_with_no_lock_is_zero_once_unlocked() {
    let env = Env::default();
    assert_eq!(calculate_penalty(&env, 1000 * SCALAR_7, 500, 0, SCALAR_7, 500), 0);
    assert_eq!(calculate_penalty(&env, 1000 * SCALAR_7, 500, 0, SCALAR_7, 501), 0);
}

#[test]
fn min_liquidity_rounds_up() {
    let env = Env::default();
    // 1 token at 1/3: 0.333..., up to 1.
    assert_eq!(calculate_min_liquidity(&env, 1, SCALAR_7 / 3), 1);
    // 1000 * 10^7 at 3333333 / 10^7 = 3333333000 exactly.
    assert_eq!(calculate_min_liquidity(&env, 1000 * SCALAR_7, SCALAR_7 / 3), 3_333_333_000);
    // 10^7 + 1 at 50%: 5000000.5, up to 5000001.
    assert_eq!(calculate_min_liquidity(&env, SCALAR_7 + 1, SCALAR_7 / 2), 5_000_001);
}
