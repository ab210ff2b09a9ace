//! The guard pipeline: the ordered validations a trade signal must pass
//! before it may be authorized.
//!
//! The checks run in a fixed order and stop at the first failure, so equal
//! signals always draw the same, reproducible rejection reason. Note the
//! comparison direction of the risk check: a signal is rejected when its
//! `risk_score` is *below* the configured threshold, so higher scores are
//! treated as safer. That reading is deliberate and callers must document
//! it; it is not to be silently inverted here.

use vstd::prelude::*;

use crate::errors::TradingBotError;
use crate::state::BotState;
use crate::state::NULL_IDENTITY;
use crate::state::SignalData;

verus! {

/// The first guard a signal fails against a configuration, in pipeline
/// order, or `None` when it passes all six.
pub open spec fn guard_error(signal: SignalData, state: BotState) -> Option<TradingBotError> {
    if state.is_paused {
        Some(TradingBotError::BotPaused)
    } else if signal.pool_address == NULL_IDENTITY {
        Some(TradingBotError::InvalidPoolAddress)
    } else if signal.risk_score < state.risk_threshold {
        Some(TradingBotError::RiskScoreTooLow)
    } else if signal.liquidity < state.min_liquidity {
        Some(TradingBotError::InsufficientLiquidity)
    } else if signal.trade_amount > state.max_trade_amount {
        Some(TradingBotError::ExceedsMaxTradeAmount)
    } else if signal.token_mint == NULL_IDENTITY {
        Some(TradingBotError::InvalidTokenMint)
    } else {
        None
    }
}

/// Whether a signal passes every guard against a configuration.
pub open spec fn guards_pass(signal: SignalData, state: BotState) -> bool {
    guard_error(signal, state) is None
}

/// Evaluates the guard pipeline for one signal. Pure: reads the signal and
/// the configuration, mutates nothing.
///
/// Rejects with the first failing guard, in this order: `BotPaused`,
/// `InvalidPoolAddress`, `RiskScoreTooLow`, `InsufficientLiquidity`,
/// `ExceedsMaxTradeAmount`, `InvalidTokenMint`.
pub fn evaluate(signal: &SignalData, state: &BotState) -> (r: Result<(), TradingBotError>)
    ensures
        r == match guard_error(*signal, *state) {
            Some(e) => Err::<(), TradingBotError>(e),
            None => Ok::<(), TradingBotError>(()),
        },
{
    if state.is_paused {
        return Err(TradingBotError::BotPaused);
    }
    if signal.pool_address == NULL_IDENTITY {
        return Err(TradingBotError::InvalidPoolAddress);
    }
    if signal.risk_score < state.risk_threshold {
        return Err(TradingBotError::RiskScoreTooLow);
    }
    if signal.liquidity < state.min_liquidity {
        return Err(TradingBotError::InsufficientLiquidity);
    }
    if signal.trade_amount > state.max_trade_amount {
        return Err(TradingBotError::ExceedsMaxTradeAmount);
    }
    validate_token_safety(signal)
}

/// The token-safety check: the single placeholder for deeper analysis
/// (blacklists, honeypot and scam heuristics are out of scope). A token is
/// accepted exactly when its mint identifier is not the unset zero value.
pub fn validate_token_safety(signal: &SignalData) -> (r: Result<(), TradingBotError>)
    ensures
        signal.token_mint == NULL_IDENTITY ==> r == Err::<(), TradingBotError>(
            TradingBotError::InvalidTokenMint,
        ),
        signal.token_mint != NULL_IDENTITY ==> r == Ok::<(), TradingBotError>(()),
{
    if signal.token_mint == NULL_IDENTITY {
        Err(TradingBotError::InvalidTokenMint)
    } else {
        Ok(())
    }
}

/// Law: the earlier guard wins. A signal that violates both the liquidity
/// floor and the trade-amount ceiling (and fails no earlier guard) is
/// rejected with `InsufficientLiquidity`, never `ExceedsMaxTradeAmount`.
pub proof fn lemma_earlier_guard_wins(signal: SignalData, state: BotState)
    requires
        !state.is_paused,
        signal.pool_address != NULL_IDENTITY,
        signal.risk_score >= state.risk_threshold,
        signal.liquidity < state.min_liquidity,
        signal.trade_amount > state.max_trade_amount,
    ensures
        guard_error(signal, state) == Some(TradingBotError::InsufficientLiquidity),
{
}

} // verus!
