//! A risk-gated authorization engine for automated trades.
//!
//! Given a proposed trade signal and the bot's current configuration, the
//! library decides whether the trade may proceed, enforces administrative
//! controls (pause / resume, authority-only reconfiguration), computes the
//! slippage-bounded minimum output for trades it approves, and maintains
//! running trade counters. Settlement against an exchange, persistence and
//! event transport are left to the hosting shell; the library hands it plain
//! values (a swap request, an event record) and takes plain values back.

pub mod authorizer;
pub mod control;
pub mod errors;
pub mod guards;
pub mod slippage;
pub mod state;
