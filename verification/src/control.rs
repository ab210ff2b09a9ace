//! The control plane: creation of the bot state and the authority-gated
//! administrative operations.
//!
//! Every operation but `initialize` demands that the caller's identity equal
//! the configured authority; an unauthorized call fails with
//! `UnauthorizedAccess` and leaves the state untouched. The authority itself
//! is fixed at initialization and never rewritten.

use vstd::prelude::*;

use crate::errors::TradingBotError;
use crate::state::BotState;
use crate::state::EmergencyPause;
use crate::state::InitializeParams;

verus! {

/// The state `initialize` creates: the caller as authority, the supplied
/// bounds, unpaused, both counters at zero.
pub open spec fn spec_initial_state(authority: u64, params: InitializeParams) -> BotState {
    BotState {
        authority: authority,
        max_trade_amount: params.max_trade_amount,
        min_liquidity: params.min_liquidity,
        max_slippage: params.max_slippage,
        risk_threshold: params.risk_threshold,
        is_paused: false,
        total_trades: 0,
        successful_trades: 0,
    }
}

/// `state` with trading paused; every other field unchanged.
pub open spec fn spec_paused(state: BotState) -> BotState {
    BotState { is_paused: true, ..state }
}

/// `state` with trading resumed; every other field unchanged.
pub open spec fn spec_resumed(state: BotState) -> BotState {
    BotState { is_paused: false, ..state }
}

/// `state` with the four operating bounds replaced by `params`; the
/// authority, the pause flag and the counters unchanged.
pub open spec fn spec_reconfigured(state: BotState, params: InitializeParams) -> BotState {
    BotState {
        max_trade_amount: params.max_trade_amount,
        min_liquidity: params.min_liquidity,
        max_slippage: params.max_slippage,
        risk_threshold: params.risk_threshold,
        ..state
    }
}

/// Creates the bot state for a deployment, exactly once.
///
/// The store slot is the deployment's single persistent record: a second
/// call finds it occupied and fails with `AlreadyInitialized`. Bounds that
/// violate the configuration invariants are rejected with
/// `InvalidConfiguration`, so every state ever created is well-formed.
pub fn initialize(store: &mut Option<BotState>, authority: u64, params: InitializeParams) -> (r:
    Result<(), TradingBotError>)
    ensures
        (*old(store)) is Some ==> r == Err::<(), TradingBotError>(TradingBotError::AlreadyInitialized)
            && *final(store) == *old(store),
        (*old(store)) is None && !params.valid() ==> r == Err::<(), TradingBotError>(
            TradingBotError::InvalidConfiguration,
        ) && *final(store) == *old(store),
        (*old(store)) is None && params.valid() ==> r == Ok::<(), TradingBotError>(())
            && *final(store) == Some(spec_initial_state(authority, params)),
        (*old(store)) is None && params.valid() ==> spec_initial_state(authority, params).wf(),
{
    if store.is_some() {
        return Err(TradingBotError::AlreadyInitialized);
    }
    if !params.is_valid() {
        return Err(TradingBotError::InvalidConfiguration);
    }
    *store = Some(
        BotState {
            authority: authority,
            max_trade_amount: params.max_trade_amount,
            min_liquidity: params.min_liquidity,
            max_slippage: params.max_slippage,
            risk_threshold: params.risk_threshold,
            is_paused: false,
            total_trades: 0,
            successful_trades: 0,
        },
    );
    Ok(())
}

/// Pauses all trade authorization and reports the pause event to emit.
///
/// Only the configured authority may pause; any other caller fails with
/// `UnauthorizedAccess` and the state is left exactly as it was.
pub fn emergency_pause(state: &mut BotState, caller: u64, now: i64) -> (r: Result<
    EmergencyPause,
    TradingBotError,
>)
    ensures
        caller != old(state).authority ==> r == Err::<EmergencyPause, TradingBotError>(
            TradingBotError::UnauthorizedAccess,
        ) && *final(state) == *old(state),
        caller == old(state).authority ==> r == Ok::<EmergencyPause, TradingBotError>(
            EmergencyPause { authority: caller, timestamp: now },
        ) && *final(state) == spec_paused(*old(state)),
{
    if caller != state.authority {
        return Err(TradingBotError::UnauthorizedAccess);
    }
    state.is_paused = true;
    Ok(EmergencyPause { authority: caller, timestamp: now })
}

/// Resumes trade authorization.
///
/// Only the configured authority may resume; any other caller fails with
/// `UnauthorizedAccess` and the state is left exactly as it was.
pub fn resume_trading(state: &mut BotState, caller: u64) -> (r: Result<(), TradingBotError>)
    ensures
        caller != old(state).authority ==> r == Err::<(), TradingBotError>(
            TradingBotError::UnauthorizedAccess,
        ) && *final(state) == *old(state),
        caller == old(state).authority ==> r == Ok::<(), TradingBotError>(()) && *final(state)
            == spec_resumed(*old(state)),
{
    if caller != state.authority {
        return Err(TradingBotError::UnauthorizedAccess);
    }
    state.is_paused = false;
    Ok(())
}

/// Replaces the four operating bounds with `new_params`.
///
/// Only the configured authority may reconfigure; any other caller fails
/// with `UnauthorizedAccess`. Bounds that violate the configuration
/// invariants are rejected with `InvalidConfiguration`. Either way a failed
/// call leaves the state exactly as it was, and a successful one never
/// touches the authority, the pause flag or the counters.
pub fn update_config(state: &mut BotState, caller: u64, new_params: InitializeParams) -> (r: Result<
    (),
    TradingBotError,
>)
    ensures
        caller != old(state).authority ==> r == Err::<(), TradingBotError>(
            TradingBotError::UnauthorizedAccess,
        ) && *final(state) == *old(state),
        caller == old(state).authority && !new_params.valid() ==> r == Err::<(), TradingBotError>(
            TradingBotError::InvalidConfiguration,
        ) && *final(state) == *old(state),
        caller == old(state).authority && new_params.valid() ==> r == Ok::<(), TradingBotError>(())
            && *final(state) == spec_reconfigured(*old(state), new_params),
        r is Ok ==> final(state).wf(),
{
    if caller != state.authority {
        return Err(TradingBotError::UnauthorizedAccess);
    }
    if !new_params.is_valid() {
        return Err(TradingBotError::InvalidConfiguration);
    }
    state.max_trade_amount = new_params.max_trade_amount;
    state.min_liquidity = new_params.min_liquidity;
    state.max_slippage = new_params.max_slippage;
    state.risk_threshold = new_params.risk_threshold;
    Ok(())
}

/// Law: resuming is idempotent. One resume leaves the bot unpaused, resuming
/// again changes nothing further, and because the authority is preserved a
/// second call by the same authority succeeds exactly as the first did.
pub proof fn lemma_resume_idempotent(state: BotState)
    ensures
        !spec_resumed(state).is_paused,
        spec_resumed(spec_resumed(state)) == spec_resumed(state),
        spec_resumed(state).authority == state.authority,
{
}

} // verus!
