//! The trade authorizer: runs the guard pipeline over an incoming signal,
//! computes the slippage bound for trades that request settlement, keeps the
//! running counters, and reports the decision record to emit.
//!
//! Settlement itself belongs to the exchange collaborator outside this
//! library: when a signal asks for execution the authorizer hands back a
//! [`SwapRequest`] for the shell to perform. The `total_trades` counter is
//! incremented when execution is *attempted*, before the exchange confirms
//! the fill — a known weakness kept deliberately; `successful_trades` moves
//! only through the explicit [`record_success`] follow-up once the shell has
//! confirmed settlement.

use vstd::prelude::*;

use crate::errors::TradingBotError;
use crate::guards::evaluate;
use crate::guards::guard_error;
use crate::guards::guards_pass;
use crate::slippage::calculate_min_amount_out;
use crate::slippage::spec_min_amount_out;
use crate::state::BotState;
use crate::state::SignalData;
use crate::state::SignalProcessed;
use crate::state::SwapRequest;

verus! {

/// `state` with one more attempted trade; every other field unchanged.
pub open spec fn spec_trade_counted(state: BotState) -> BotState {
    BotState { total_trades: (state.total_trades + 1) as u64, ..state }
}

/// `state` with one more confirmed trade; every other field unchanged.
pub open spec fn spec_success_counted(state: BotState) -> BotState {
    BotState { successful_trades: (state.successful_trades + 1) as u64, ..state }
}

/// The decision record for a signal authorized at time `now`.
pub open spec fn spec_decision(signal: SignalData, now: i64) -> SignalProcessed {
    SignalProcessed {
        pool_address: signal.pool_address,
        token_mint: signal.token_mint,
        risk_score: signal.risk_score,
        trade_amount: signal.trade_amount,
        executed: signal.auto_execute,
        timestamp: now,
    }
}

/// The settlement order for a signal under a configuration's slippage bound.
pub open spec fn spec_swap_request(signal: SignalData, state: BotState) -> SwapRequest {
    SwapRequest {
        token_in: signal.token_mint,
        token_out: signal.target_token_mint,
        amount_in: signal.trade_amount,
        min_amount_out: spec_min_amount_out(
            signal.expected_output as int,
            state.max_slippage as int,
        ) as u64,
    }
}

/// Prepares settlement of one signal: computes the slippage-bounded minimum
/// output and counts the attempt.
///
/// Returns the settlement order for the exchange collaborator. A slippage
/// setting outside the basis-point range (impossible for a well-formed
/// state) fails with `InvalidConfiguration` before anything is counted.
pub fn execute_trade(state: &mut BotState, signal: &SignalData) -> (r: Result<
    SwapRequest,
    TradingBotError,
>)
    requires
        old(state).max_slippage <= 10000 ==> old(state).total_trades < u64::MAX,
    ensures
        old(state).max_slippage > 10000 ==> r == Err::<SwapRequest, TradingBotError>(
            TradingBotError::InvalidConfiguration,
        ) && *final(state) == *old(state),
        old(state).max_slippage <= 10000 ==> r == Ok::<SwapRequest, TradingBotError>(
            spec_swap_request(*signal, *old(state)),
        ) && *final(state) == spec_trade_counted(*old(state)),
{
    let min_amount_out = match calculate_min_amount_out(signal.expected_output, state.max_slippage) {
        Ok(m) => m,
        Err(e) => {
            return Err(e);
        },
    };
    state.total_trades = state.total_trades + 1;
    Ok(
        SwapRequest {
            token_in: signal.token_mint,
            token_out: signal.target_token_mint,
            amount_in: signal.trade_amount,
            min_amount_out: min_amount_out,
        },
    )
}

/// Authorizes one trade signal against the current configuration.
///
/// The guard pipeline runs first and a rejection is propagated unchanged —
/// in particular, while the bot is paused every signal fails with
/// `BotPaused`, whatever its other fields. An authorized signal yields the
/// decision record to emit, together with the settlement order for the
/// exchange collaborator when the signal asked for execution (`None`
/// otherwise). Only an execution attempt touches the state, and only its
/// `total_trades` counter.
pub fn process_signal(state: &mut BotState, signal: &SignalData, now: i64) -> (r: Result<
    (SignalProcessed, Option<SwapRequest>),
    TradingBotError,
>)
    requires
        guards_pass(*signal, *old(state)) && signal.auto_execute && old(state).max_slippage
            <= 10000 ==> old(state).total_trades < u64::MAX,
    ensures
        old(state).is_paused ==> r == Err::<(SignalProcessed, Option<SwapRequest>), TradingBotError>(
            TradingBotError::BotPaused,
        ) && *final(state) == *old(state),
        guard_error(*signal, *old(state)) matches Some(e) ==> r == Err::<
            (SignalProcessed, Option<SwapRequest>),
            TradingBotError,
        >(e) && *final(state) == *old(state),
        guards_pass(*signal, *old(state)) && !signal.auto_execute ==> r == Ok::<
            (SignalProcessed, Option<SwapRequest>),
            TradingBotError,
        >((spec_decision(*signal, now), None)) && *final(state) == *old(state),
        guards_pass(*signal, *old(state)) && signal.auto_execute && old(state).max_slippage > 10000
            ==> r == Err::<(SignalProcessed, Option<SwapRequest>), TradingBotError>(
            TradingBotError::InvalidConfiguration,
        ) && *final(state) == *old(state),
        guards_pass(*signal, *old(state)) && signal.auto_execute && old(state).max_slippage <= 10000
            ==> r == Ok::<(SignalProcessed, Option<SwapRequest>), TradingBotError>(
            (spec_decision(*signal, now), Some(spec_swap_request(*signal, *old(state)))),
        ) && *final(state) == spec_trade_counted(*old(state)),
{
    match evaluate(signal, state) {
        Ok(()) => (),
        Err(e) => {
            return Err(e);
        },
    };
    let swap = if signal.auto_execute {
        match execute_trade(state, signal) {
            Ok(req) => Some(req),
            Err(e) => {
                return Err(e);
            },
        }
    } else {
        None
    };
    Ok(
        (
            SignalProcessed {
                pool_address: signal.pool_address,
                token_mint: signal.token_mint,
                risk_score: signal.risk_score,
                trade_amount: signal.trade_amount,
                executed: signal.auto_execute,
                timestamp: now,
            },
            swap,
        ),
    )
}

/// Records one settlement the shell has confirmed with the exchange
/// collaborator: increments `successful_trades` and touches nothing else.
pub fn record_success(state: &mut BotState)
    requires
        old(state).successful_trades < u64::MAX,
    ensures
        *final(state) == spec_success_counted(*old(state)),
{
    state.successful_trades = state.successful_trades + 1;
}

} // verus!
