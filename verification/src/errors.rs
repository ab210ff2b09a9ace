//! The reasons for which a request is rejected.

use vstd::prelude::*;

verus! {

/// Every way a trade authorization or control-plane request can fail.
///
/// Guard rejections (`BotPaused` through `InvalidTokenMint`) are produced by
/// the guard pipeline in its fixed order; the remaining variants come from the
/// control plane and the slippage calculator. `SlippageExceeded` is reserved
/// for the exchange collaborator's settlement path, which reports a fill below
/// the computed minimum through the hosting shell.
#[derive(Clone, Copy, Debug, PartialEq, Eq, Structural)]
pub enum TradingBotError {
    /// The bot is paused; all trade authorization is blocked.
    BotPaused,
    /// The signal's pool identifier is the zero (default) value.
    InvalidPoolAddress,
    /// The signal's risk score is below the configured threshold.
    RiskScoreTooLow,
    /// The pool's liquidity is below the configured minimum.
    InsufficientLiquidity,
    /// The trade amount exceeds the configured maximum.
    ExceedsMaxTradeAmount,
    /// The signal's token identifier is the zero (default) value.
    InvalidTokenMint,
    /// The caller is not the configured authority.
    UnauthorizedAccess,
    /// Settlement returned less than the slippage-bounded minimum.
    SlippageExceeded,
    /// Supplied parameters violate the configuration invariants.
    InvalidConfiguration,
    /// The bot state was already created for this deployment.
    AlreadyInitialized,
}

} // verus!
