use trading_bot::authorizer::{execute_trade, process_signal, record_success};
use trading_bot::control::{emergency_pause, initialize, resume_trading, update_config};
use trading_bot::errors::TradingBotError;
use trading_bot::guards::{evaluate, validate_token_safety};
use trading_bot::slippage::calculate_min_amount_out;
use trading_bot::state::{BotState, InitializeParams, SignalData};

const AUTHORITY: u64 = 11;
const STRANGER: u64 = 22;

fn base_state() -> BotState {
    BotState {
        authority: AUTHORITY,
        max_trade_amount: 1000,
        min_liquidity: 500,
        max_slippage: 300,
        risk_threshold: 5,
        is_paused: false,
        total_trades: 0,
        successful_trades: 0,
    }
}

fn base_signal() -> SignalData {
    SignalData {
        pool_address: 7,
        token_mint: 8,
        target_token_mint: 9,
        risk_score: 7,
        liquidity: 600,
        trade_amount: 400,
        expected_output: 1000,
        auto_execute: false,
    }
}

fn base_params() -> InitializeParams {
    InitializeParams {
        max_trade_amount: 1000,
        min_liquidity: 500,
        max_slippage: 300,
        risk_threshold: 5,
    }
}

#[test]
fn paused_rejects_every_signal() {
    // Whatever the signal carries - even fields that would fail later
    // guards - a paused bot answers BotPaused.
    let mut state = base_state();
    state.is_paused = true;
    let before = state;

    let ordinary = base_signal();
    let hopeless = SignalData {
        pool_address: 0,
        token_mint: 0,
        risk_score: 1,
        liquidity: 0,
        trade_amount: u64::MAX,
        ..base_signal()
    };
    for signal in [ordinary, hopeless] {
        let r = process_signal(&mut state, &signal, 5);
        assert_eq!(r, Err(TradingBotError::BotPaused));
        assert_eq!(state, before);
    }
}

#[test]
fn min_amount_out_monotone_and_zero_slippage_exact() {
    let expected: u64 = 123_457;
    assert_eq!(calculate_min_amount_out(expected, 0), Ok(expected));
    let mut last = expected;
    for bps in [0u16, 1, 2, 50, 299, 300, 5000, 9999, 10000] {
        let out = calculate_min_amount_out(expected, bps).unwrap();
        assert!(out <= last, "minimum output grew as slippage rose");
        last = out;
    }
    assert_eq!(calculate_min_amount_out(expected, 10000), Ok(0));
}

#[test]
fn resume_twice_is_idempotent() {
    let mut state = base_state();
    state.is_paused = true;
    assert_eq!(resume_trading(&mut state, AUTHORITY), Ok(()));
    assert!(!state.is_paused);
    assert_eq!(resume_trading(&mut state, AUTHORITY), Ok(()));
    assert!(!state.is_paused);
}

#[test]
fn unauthorized_pause_fails_and_changes_nothing() {
    let mut state = base_state();
    let before = state;
    let r = emergency_pause(&mut state, STRANGER, 5);
    assert_eq!(r, Err(TradingBotError::UnauthorizedAccess));
    assert_eq!(state, before);
}

#[test]
fn unauthorized_resume_fails_and_changes_nothing() {
    let mut state = base_state();
    state.is_paused = true;
    let before = state;
    let r = resume_trading(&mut state, STRANGER);
    assert_eq!(r, Err(TradingBotError::UnauthorizedAccess));
    assert_eq!(state, before);
}

#[test]
fn unauthorized_update_fails_and_changes_nothing() {
    let mut state = base_state();
    let before = state;
    let tighter = InitializeParams {
        max_trade_amount: 1,
        ..base_params()
    };
    let r = update_config(&mut state, STRANGER, tighter);
    assert_eq!(r, Err(TradingBotError::UnauthorizedAccess));
    assert_eq!(state, before);
}

#[test]
fn earlier_guard_wins_on_double_violation() {
    let state = base_state();
    let signal = SignalData {
        liquidity: 499,       // below min_liquidity = 500
        trade_amount: 1001,   // above max_trade_amount = 1000
        ..base_signal()
    };
    assert_eq!(
        evaluate(&signal, &state),
        Err(TradingBotError::InsufficientLiquidity)
    );
}

#[test]
fn authorized_signal_without_execution() {
    let mut state = base_state();
    let r = process_signal(&mut state, &base_signal(), 99);
    let (record, swap) = r.expect("signal should pass every guard");
    assert!(!record.executed);
    assert_eq!(record.pool_address, 7);
    assert_eq!(record.token_mint, 8);
    assert_eq!(record.risk_score, 7);
    assert_eq!(record.trade_amount, 400);
    assert_eq!(record.timestamp, 99);
    assert!(swap.is_none());
    assert_eq!(state.total_trades, 0);
    assert_eq!(state, base_state());
}

#[test]
fn low_risk_score_rejected() {
    let mut state = base_state();
    let signal = SignalData {
        risk_score: 3,
        ..base_signal()
    };
    let r = process_signal(&mut state, &signal, 99);
    assert_eq!(r, Err(TradingBotError::RiskScoreTooLow));
    assert_eq!(state, base_state());
}

#[test]
fn three_percent_slippage_on_one_thousand() {
    assert_eq!(calculate_min_amount_out(1000, 300), Ok(970));
}

#[test]
fn overlarge_slippage_update_rejected() {
    let mut state = base_state();
    let before = state;
    let bad = InitializeParams {
        max_slippage: 11000,
        ..base_params()
    };
    let r = update_config(&mut state, AUTHORITY, bad);
    assert_eq!(r, Err(TradingBotError::InvalidConfiguration));
    assert_eq!(state, before);
}

#[test]
fn authorized_update_replaces_only_the_bounds() {
    let mut state = base_state();
    state.is_paused = true;
    state.total_trades = 3;
    state.successful_trades = 2;
    let fresh = InitializeParams {
        max_trade_amount: 2000,
        min_liquidity: 100,
        max_slippage: 50,
        risk_threshold: 9,
    };
    assert_eq!(update_config(&mut state, AUTHORITY, fresh), Ok(()));
    assert_eq!(state.max_trade_amount, 2000);
    assert_eq!(state.min_liquidity, 100);
    assert_eq!(state.max_slippage, 50);
    assert_eq!(state.risk_threshold, 9);
    assert_eq!(state.authority, AUTHORITY);
    assert!(state.is_paused);
    assert_eq!(state.total_trades, 3);
    assert_eq!(state.successful_trades, 2);
}

#[test]
fn auto_execute_counts_the_attempt_and_orders_the_swap() {
    let mut state = base_state();
    let signal = SignalData {
        auto_execute: true,
        ..base_signal()
    };
    let (record, swap) = process_signal(&mut state, &signal, 5).unwrap();
    assert!(record.executed);
    let swap = swap.expect("execution was requested");
    assert_eq!(swap.token_in, 8);
    assert_eq!(swap.token_out, 9);
    assert_eq!(swap.amount_in, 400);
    assert_eq!(swap.min_amount_out, 970);
    assert_eq!(state.total_trades, 1);
    assert_eq!(state.successful_trades, 0);
}

#[test]
fn execute_trade_increments_only_total_trades() {
    let mut state = base_state();
    let swap = execute_trade(&mut state, &base_signal()).unwrap();
    assert_eq!(swap.min_amount_out, 970);
    assert_eq!(state.total_trades, 1);
    let rest = BotState {
        total_trades: 0,
        ..state
    };
    assert_eq!(rest, base_state());
}

#[test]
fn record_success_increments_only_successful_trades() {
    let mut state = base_state();
    state.total_trades = 4;
    record_success(&mut state);
    assert_eq!(state.successful_trades, 1);
    assert_eq!(state.total_trades, 4);
    record_success(&mut state);
    assert_eq!(state.successful_trades, 2);
}

#[test]
fn zero_pool_address_rejected() {
    let mut state = base_state();
    let signal = SignalData {
        pool_address: 0,
        ..base_signal()
    };
    let r = process_signal(&mut state, &signal, 5);
    assert_eq!(r, Err(TradingBotError::InvalidPoolAddress));
}

#[test]
fn oversized_trade_rejected() {
    let mut state = base_state();
    let signal = SignalData {
        trade_amount: 1001,
        ..base_signal()
    };
    let r = process_signal(&mut state, &signal, 5);
    assert_eq!(r, Err(TradingBotError::ExceedsMaxTradeAmount));
}

#[test]
fn zero_token_mint_rejected() {
    let mut state = base_state();
    let signal = SignalData {
        token_mint: 0,
        ..base_signal()
    };
    assert_eq!(
        process_signal(&mut state, &signal, 5),
        Err(TradingBotError::InvalidTokenMint)
    );
    assert_eq!(
        validate_token_safety(&signal),
        Err(TradingBotError::InvalidTokenMint)
    );
    assert_eq!(validate_token_safety(&base_signal()), Ok(()));
}

#[test]
fn guards_check_pause_before_pool() {
    // Both the pause flag and the zero pool apply; the earlier guard answers.
    let mut state = base_state();
    state.is_paused = true;
    let signal = SignalData {
        pool_address: 0,
        ..base_signal()
    };
    assert_eq!(evaluate(&signal, &state), Err(TradingBotError::BotPaused));
}

#[test]
fn initialize_creates_the_state_once() {
    let mut store: Option<BotState> = None;
    assert_eq!(initialize(&mut store, AUTHORITY, base_params()), Ok(()));
    let state = store.expect("initialization succeeded");
    assert_eq!(state, base_state());

    let r = initialize(&mut store, STRANGER, base_params());
    assert_eq!(r, Err(TradingBotError::AlreadyInitialized));
    assert_eq!(store, Some(base_state()));
}

#[test]
fn initialize_rejects_invalid_bounds() {
    let mut store: Option<BotState> = None;
    let bad_risk = InitializeParams {
        risk_threshold: 0,
        ..base_params()
    };
    assert_eq!(
        initialize(&mut store, AUTHORITY, bad_risk),
        Err(TradingBotError::InvalidConfiguration)
    );
    assert_eq!(store, None);

    let bad_slippage = InitializeParams {
        max_slippage: 10001,
        ..base_params()
    };
    assert_eq!(
        initialize(&mut store, AUTHORITY, bad_slippage),
        Err(TradingBotError::InvalidConfiguration)
    );
    assert_eq!(store, None);
}

#[test]
fn slippage_calculator_rejects_out_of_range_tolerance() {
    assert_eq!(
        calculate_min_amount_out(1000, 10001),
        Err(TradingBotError::InvalidConfiguration)
    );
}

#[test]
fn slippage_on_the_largest_amount() {
    // The scaled product runs through 128-bit arithmetic, so the largest
    // expected output must come through exactly, not wrapped.
    let expected = u64::MAX;
    let want = (u128::from(expected) * 9_999 / 10_000) as u64;
    assert_eq!(calculate_min_amount_out(expected, 1), Ok(want));
    assert_eq!(calculate_min_amount_out(expected, 0), Ok(expected));
}

#[test]
fn pause_event_carries_authority_and_time() {
    let mut state = base_state();
    let event = emergency_pause(&mut state, AUTHORITY, 1234).unwrap();
    assert_eq!(event.authority, AUTHORITY);
    assert_eq!(event.timestamp, 1234);
    assert!(state.is_paused);
    let unpaused = BotState {
        is_paused: false,
        ..state
    };
    assert_eq!(unpaused, base_state());
}
