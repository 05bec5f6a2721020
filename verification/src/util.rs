use vstd::prelude::*;

use crate::config::TradingPair;
use crate::price::PriceSource;

verus! {

/// Format a trading pair as a human-readable string.
pub fn format_trading_pair(pair: TradingPair) -> (r: &'static str)
    ensures
        pair is SolUsdt ==> r@ == "SOL/USDT"@,
        pair is SolUsdc ==> r@ == "SOL/USDC"@,
{
    match pair {
        TradingPair::SolUsdt => "SOL/USDT",
        TradingPair::SolUsdc => "SOL/USDC",
    }
}

/// Format a price source as a human-readable string.
pub fn format_price_source(source: PriceSource) -> (r: &'static str)
    ensures
        source is Solana ==> r@ == "Solana"@,
        source is Binance ==> r@ == "Binance"@,
{
    match source {
        PriceSource::Solana => "Solana",
        PriceSource::Binance => "Binance",
    }
}

} // verus!
