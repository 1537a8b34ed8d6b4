use paymaster::config::initialize;
use paymaster::config::ConfigStore;
use paymaster::config::Initialize;
use paymaster::config::PaymasterConfig;
use paymaster::fees::compute_native_total;
use paymaster::fees::compute_token_total;
use paymaster::pay::sol_pay;
use paymaster::pay::usdt_pay;
use paymaster::pay::verify_authority;
use paymaster::pay::SolPay;
use paymaster::pay::UsdtPay;
use paymaster::types::PaymasterError;
use paymaster::types::Pubkey;

fn key(n: u64) -> Pubkey {
    Pubkey::new(n, 0, 0, 0)
}

fn config_with(service_fee_rate: u64, supported_tokens: Vec<Pubkey>) -> PaymasterConfig {
    PaymasterConfig {
        authority: key(1),
        service_fee_rate,
        supported_tokens,
        bump: 254,
    }
}

fn initialized_store(service_fee_rate: u64, supported_tokens: Vec<Pubkey>) -> ConfigStore {
    let mut store = ConfigStore::new();
    let ctx = Initialize {
        authority: key(1),
        bump: 254,
    };
    let r = initialize(&mut store, &ctx, service_fee_rate, supported_tokens);
    assert_eq!(r, Ok(()));
    store
}

#[test]
fn native_total_matches_formula() {
    // 1% of 1_000_000 is 10_000; the total is the base plus the markup.
    assert_eq!(compute_native_total(1_000_000, 100), Ok(1_010_000));
}

#[test]
fn native_total_rounds_down() {
    // 9_999 * 1 / 10000 rounds down to 0.
    assert_eq!(compute_native_total(9_999, 1), Ok(9_999));
    // 50_000 * 3 / 10000 is exactly 15.
    assert_eq!(compute_native_total(50_000, 3), Ok(50_015));
}

#[test]
fn native_total_degenerate_inputs() {
    assert_eq!(compute_native_total(0, 100), Ok(0));
    assert_eq!(compute_native_total(1_000, 0), Ok(1_000));
}

#[test]
fn native_total_overflow_in_multiplication() {
    assert_eq!(
        compute_native_total(u64::MAX, 2),
        Err(PaymasterError::ArithmeticOverflow)
    );
}

#[test]
fn native_total_overflow_in_addition() {
    // u64::MAX * 1 still fits, but adding the markup back does not.
    assert_eq!(
        compute_native_total(u64::MAX, 1),
        Err(PaymasterError::ArithmeticOverflow)
    );
}

#[test]
fn token_total_matches_formula() {
    // floor(1_010_000 * 1_000_000 / 10000) * 10^6 = 101_000_000 * 10^6.
    let config = config_with(100, vec![key(7)]);
    assert_eq!(
        compute_token_total(&config, &key(7), 1_000_000, 1_000_000),
        Ok(101_000_000_000_000)
    );
}

#[test]
fn token_total_rounds_at_rate_division_only() {
    // floor(1 * 15000 / 10000) * 10^6 = 1_000_000; scaling first would
    // have given 1_500_000.
    let config = config_with(0, vec![key(7)]);
    assert_eq!(
        compute_token_total(&config, &key(7), 1, 15_000),
        Ok(1_000_000)
    );
}

#[test]
fn token_total_unsupported_token() {
    let config = config_with(100, vec![key(7)]);
    assert_eq!(
        compute_token_total(&config, &key(8), 1_000_000, 1_000_000),
        Err(PaymasterError::UnsupportedToken)
    );
}

#[test]
fn token_total_overflow_at_rate_multiplication() {
    let config = config_with(0, vec![key(7)]);
    assert_eq!(
        compute_token_total(&config, &key(7), 1_000_000, u64::MAX),
        Err(PaymasterError::ArithmeticOverflow)
    );
}

#[test]
fn token_total_overflow_at_scaling() {
    // 1 * 2*10^17 / 10000 = 2*10^13, and scaling by 10^6 leaves u64.
    let config = config_with(0, vec![key(7)]);
    assert_eq!(
        compute_token_total(&config, &key(7), 1, 200_000_000_000_000_000),
        Err(PaymasterError::ArithmeticOverflow)
    );
}

#[test]
fn initialize_records_config() {
    let store = initialized_store(100, vec![key(7), key(9)]);
    let config = store.config.expect("config should exist");
    assert_eq!(config.authority, key(1));
    assert_eq!(config.service_fee_rate, 100);
    assert_eq!(config.supported_tokens, vec![key(7), key(9)]);
    assert_eq!(config.bump, 254);
}

#[test]
fn initialize_twice_fails() {
    let mut store = initialized_store(100, vec![key(7)]);
    let second = Initialize {
        authority: key(2),
        bump: 253,
    };
    let r = initialize(&mut store, &second, 500, vec![key(8)]);
    assert_eq!(r, Err(PaymasterError::AlreadyInitialized));
    // The first configuration is still the one in the store.
    let config = store.config.expect("config should exist");
    assert_eq!(config.authority, key(1));
    assert_eq!(config.service_fee_rate, 100);
    assert_eq!(config.supported_tokens, vec![key(7)]);
}

#[test]
fn initialize_rejects_over_capacity() {
    let mut store = ConfigStore::new();
    let ctx = Initialize {
        authority: key(1),
        bump: 254,
    };
    let eleven: Vec<Pubkey> = (0..11).map(key).collect();
    let r = initialize(&mut store, &ctx, 100, eleven);
    assert_eq!(r, Err(PaymasterError::CapacityExceeded));
    assert!(store.config.is_none());
}

#[test]
fn initialize_accepts_full_capacity() {
    let ten: Vec<Pubkey> = (0..10).map(key).collect();
    let store = initialized_store(100, ten);
    assert_eq!(store.config.expect("config should exist").supported_tokens.len(), 10);
}

#[test]
fn sol_pay_exact_balance_succeeds() {
    let store = initialized_store(100, vec![]);
    let mut ctx = SolPay {
        user_lamports: 1_010_000,
        paymaster_recv_lamports: 5,
        authority: key(1),
    };
    assert_eq!(sol_pay(&store, &mut ctx, 1_000_000), Ok(()));
    assert_eq!(ctx.user_lamports, 0);
    assert_eq!(ctx.paymaster_recv_lamports, 1_010_005);
}

#[test]
fn sol_pay_one_unit_short_fails() {
    let store = initialized_store(100, vec![]);
    let mut ctx = SolPay {
        user_lamports: 1_009_999,
        paymaster_recv_lamports: 5,
        authority: key(1),
    };
    assert_eq!(
        sol_pay(&store, &mut ctx, 1_000_000),
        Err(PaymasterError::InsufficientFunds)
    );
    assert_eq!(ctx.user_lamports, 1_009_999);
    assert_eq!(ctx.paymaster_recv_lamports, 5);
}

#[test]
fn sol_pay_wrong_authority_fails() {
    let store = initialized_store(100, vec![]);
    let mut ctx = SolPay {
        user_lamports: u64::MAX / 2,
        paymaster_recv_lamports: 0,
        authority: key(2),
    };
    assert_eq!(
        sol_pay(&store, &mut ctx, 1_000_000),
        Err(PaymasterError::InvalidAuthority)
    );
    assert_eq!(ctx.user_lamports, u64::MAX / 2);
    assert_eq!(ctx.paymaster_recv_lamports, 0);
}

#[test]
fn sol_pay_without_config_fails() {
    let store = ConfigStore::new();
    let mut ctx = SolPay {
        user_lamports: 1_000_000,
        paymaster_recv_lamports: 0,
        authority: key(1),
    };
    assert_eq!(
        sol_pay(&store, &mut ctx, 1_000),
        Err(PaymasterError::ConfigNotInitialized)
    );
    assert_eq!(ctx.user_lamports, 1_000_000);
}

#[test]
fn sol_pay_overflow_reported() {
    let store = initialized_store(u64::MAX, vec![]);
    let mut ctx = SolPay {
        user_lamports: 1_000_000,
        paymaster_recv_lamports: 0,
        authority: key(1),
    };
    assert_eq!(
        sol_pay(&store, &mut ctx, 1_000_000),
        Err(PaymasterError::ArithmeticOverflow)
    );
    assert_eq!(ctx.user_lamports, 1_000_000);
    assert_eq!(ctx.paymaster_recv_lamports, 0);
}

#[test]
fn usdt_pay_supported_token_succeeds() {
    let store = initialized_store(100, vec![key(7)]);
    let mut ctx = UsdtPay {
        usdt_mint: key(7),
        user_usdt: 101_000_000_000_000,
        paymaster_usdt: 3,
        authority: key(1),
    };
    assert_eq!(usdt_pay(&store, &mut ctx, 1_000_000, 1_000_000), Ok(()));
    assert_eq!(ctx.user_usdt, 0);
    assert_eq!(ctx.paymaster_usdt, 101_000_000_000_003);
}

#[test]
fn usdt_pay_unsupported_token_fails_before_transfer() {
    let store = initialized_store(100, vec![key(7)]);
    let mut ctx = UsdtPay {
        usdt_mint: key(8),
        user_usdt: 101_000_000_000_000,
        paymaster_usdt: 3,
        authority: key(1),
    };
    assert_eq!(
        usdt_pay(&store, &mut ctx, 1_000_000, 1_000_000),
        Err(PaymasterError::UnsupportedToken)
    );
    // The collection account's balance is unchanged.
    assert_eq!(ctx.paymaster_usdt, 3);
    assert_eq!(ctx.user_usdt, 101_000_000_000_000);
}

#[test]
fn usdt_pay_wrong_authority_fails() {
    let store = initialized_store(100, vec![key(7)]);
    let mut ctx = UsdtPay {
        usdt_mint: key(7),
        user_usdt: u64::MAX / 2,
        paymaster_usdt: 0,
        authority: key(9),
    };
    assert_eq!(
        usdt_pay(&store, &mut ctx, 1_000_000, 1_000_000),
        Err(PaymasterError::InvalidAuthority)
    );
    assert_eq!(ctx.user_usdt, u64::MAX / 2);
    assert_eq!(ctx.paymaster_usdt, 0);
}

#[test]
fn usdt_pay_insufficiency_propagates() {
    let store = initialized_store(100, vec![key(7)]);
    let mut ctx = UsdtPay {
        usdt_mint: key(7),
        user_usdt: 101_000_000_000_000 - 1,
        paymaster_usdt: 0,
        authority: key(1),
    };
    assert_eq!(
        usdt_pay(&store, &mut ctx, 1_000_000, 1_000_000),
        Err(PaymasterError::InsufficientFunds)
    );
    assert_eq!(ctx.user_usdt, 101_000_000_000_000 - 1);
    assert_eq!(ctx.paymaster_usdt, 0);
}

#[test]
fn usdt_pay_without_config_fails() {
    let store = ConfigStore::new();
    let mut ctx = UsdtPay {
        usdt_mint: key(7),
        user_usdt: 1_000_000,
        paymaster_usdt: 0,
        authority: key(1),
    };
    assert_eq!(
        usdt_pay(&store, &mut ctx, 1_000, 1_000_000),
        Err(PaymasterError::ConfigNotInitialized)
    );
    assert_eq!(ctx.user_usdt, 1_000_000);
}

#[test]
fn verify_authority_accepts_only_recorded_identity() {
    let config = config_with(100, vec![]);
    assert_eq!(verify_authority(&config, &key(1)), Ok(()));
    assert_eq!(
        verify_authority(&config, &key(2)),
        Err(PaymasterError::InvalidAuthority)
    );
}

#[test]
fn supported_token_membership() {
    let config = config_with(100, vec![key(7), key(9)]);
    assert!(config.is_supported(&key(7)));
    assert!(config.is_supported(&key(9)));
    assert!(!config.is_supported(&key(8)));
    let empty = config_with(100, vec![]);
    assert!(!empty.is_supported(&key(7)));
}
