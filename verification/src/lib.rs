//! A delta-neutral funding-rate arbitrage engine for a margin/derivatives
//! exchange.
//!
//! On each evaluation cycle the engine reconstructs the venue's time-weighted
//! price state from a fresh oracle reading, derives an annualized funding rate
//! and a tiered borrow rate, gates profitability, and computes idempotent
//! rebalancing instructions for both legs of the hedge. All rate math is
//! integer arithmetic over explicit fixed-point precision scales; every
//! arithmetic failure is detected and surfaced as a typed error.

pub mod arith;
pub mod borrow;
pub mod config;
pub mod engine;
pub mod error;
pub mod funding;
pub mod market;
pub mod names;
pub mod oracle;
pub mod planner;
pub mod twap;
