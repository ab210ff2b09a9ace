//! The bot's configuration record and the plain data it exchanges with the
//! hosting shell.
//!
//! Identities (the authority, pool and token mint addresses) are opaque
//! non-zero identifiers; the zero value stands for the unset default and is
//! never a valid identifier.

use vstd::prelude::*;

verus! {

/// The identifier value that counts as "unset": no valid pool, token or
/// authority identity may equal it.
pub const NULL_IDENTITY: u64 = 0;

/// The single configuration record of a deployment: operating bounds,
/// administrative flags and running counters.
///
/// Well-formedness ([`BotState::wf`]) is established at initialization and
/// preserved by every operation: `max_slippage` stays within basis-point
/// range and `risk_threshold` on its 1-10 scale. The `authority` is fixed at
/// creation and never rewritten; the two counters never decrease.
#[derive(Clone, Copy, Debug, PartialEq, Eq, Structural)]
pub struct BotState {
    /// Identity of the sole administrator allowed to mutate this record.
    pub authority: u64,
    /// Largest trade amount a signal may request.
    pub max_trade_amount: u64,
    /// Smallest pool liquidity a signal may carry.
    pub min_liquidity: u64,
    /// Maximum tolerated slippage, in basis points (at most 10000).
    pub max_slippage: u16,
    /// Minimum acceptable risk score, on a 1-10 scale.
    pub risk_threshold: u8,
    /// When set, all trade authorization is blocked.
    pub is_paused: bool,
    /// Number of trades for which execution was attempted.
    pub total_trades: u64,
    /// Number of trades confirmed settled by the exchange collaborator.
    pub successful_trades: u64,
}

impl BotState {
    /// The configuration invariants: slippage within basis-point range and
    /// the risk threshold on its 1-10 scale.
    pub open spec fn wf(self) -> bool {
        &&& self.max_slippage <= 10000
        &&& 1 <= self.risk_threshold <= 10
    }
}

/// The operating bounds supplied to `initialize` and `update_config`.
#[derive(Clone, Copy, Debug, PartialEq, Eq, Structural)]
pub struct InitializeParams {
    pub max_trade_amount: u64,
    pub min_liquidity: u64,
    /// In basis points (500 = 5%).
    pub max_slippage: u16,
    /// On a 1-10 scale.
    pub risk_threshold: u8,
}

impl InitializeParams {
    /// Whether these bounds satisfy the configuration invariants.
    pub open spec fn valid(self) -> bool {
        &&& self.max_slippage <= 10000
        &&& 1 <= self.risk_threshold <= 10
    }

    /// Checks the configuration invariants on these bounds.
    pub fn is_valid(&self) -> (b: bool)
        ensures
            b == self.valid(),
    {
        self.max_slippage <= 10000 && 1 <= self.risk_threshold && self.risk_threshold <= 10
    }
}

/// One proposed trade: the signal consumed, exactly once, by the trade
/// authorizer.
#[derive(Clone, Copy, Debug, PartialEq, Eq, Structural)]
pub struct SignalData {
    /// Pool to trade against; zero is invalid.
    pub pool_address: u64,
    /// Token to spend; zero is invalid.
    pub token_mint: u64,
    /// Token to receive.
    pub target_token_mint: u64,
    /// On a 1-10 scale; higher values are treated as safer.
    pub risk_score: u8,
    /// The pool's current liquidity.
    pub liquidity: u64,
    /// Amount to spend.
    pub trade_amount: u64,
    /// Expected output amount, before slippage.
    pub expected_output: u64,
    /// Whether to request immediate settlement when authorized.
    pub auto_execute: bool,
}

/// The decision record emitted for every authorized signal.
#[derive(Clone, Copy, Debug, PartialEq, Eq, Structural)]
pub struct SignalProcessed {
    pub pool_address: u64,
    pub token_mint: u64,
    pub risk_score: u8,
    pub trade_amount: u64,
    /// Whether settlement was requested for this signal.
    pub executed: bool,
    pub timestamp: i64,
}

/// The event emitted when the authority pauses the bot.
#[derive(Clone, Copy, Debug, PartialEq, Eq, Structural)]
pub struct EmergencyPause {
    pub authority: u64,
    pub timestamp: i64,
}

/// A settlement order for the exchange collaborator: swap `amount_in` of
/// `token_in` for at least `min_amount_out` of `token_out`.
#[derive(Clone, Copy, Debug, PartialEq, Eq, Structural)]
pub struct SwapRequest {
    pub token_in: u64,
    pub token_out: u64,
    pub amount_in: u64,
    pub min_amount_out: u64,
}

} // verus!
