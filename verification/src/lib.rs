//! Watches one crypto trading pair on two venues — a centralized exchange
//! streaming ticker data and an on-chain AMM whose mid-price is derived from
//! raw liquidity-pool account bytes — and reports arbitrage opportunities
//! whenever the fee-adjusted spread crosses a configured threshold.
//!
//! Prices and fees are fixed-point integers throughout: prices and per-unit
//! amounts carry six decimal places (micro-units), percentages carry six
//! decimal places as well (micro-percent).

pub mod binance;
pub mod calculator;
pub mod config;
pub mod detector;
pub mod jsonio;
pub mod manager;
pub mod metrics;
pub mod monitor;
pub mod numeric;
pub mod output;
pub mod price;
pub mod processor;
pub mod reconnect;
pub mod solana;
pub mod util;
