use arbitrage_watcher::config::{MaxPriceAge, PriceBounds};
use arbitrage_watcher::price::{PriceCache, PriceSource, PriceUpdate, SourcePrice};
use arbitrage_watcher::processor::{PriceProcessor, ProcessorError, ValidatedPricePair};
use arbitrage_watcher::config::TradingPair;

const NOW_MS: u64 = 1_700_000_000_000;

fn create_test_processor() -> PriceProcessor {
    PriceProcessor::new(
        MaxPriceAge::new(5000),
        PriceBounds::new(1_000_000, 10_000_000_000).unwrap(),
    )
}

fn create_test_price_cache() -> PriceCache {
    let mut cache = PriceCache::new();
    let solana_update =
        PriceUpdate::new(PriceSource::Solana, TradingPair::SolUsdt, 195_500_000, NOW_MS);
    let binance_update =
        PriceUpdate::new(PriceSource::Binance, TradingPair::SolUsdt, 195_000_000, NOW_MS);
    cache.update(&solana_update);
    cache.update(&binance_update);
    cache
}

#[test]
fn test_processor_creation() {
    let processor = create_test_processor();
    assert_eq!(processor.max_price_age(), 5000);
    assert!(processor.is_validation_enabled());
}

#[test]
fn test_custom_processor_settings() {
    let processor = PriceProcessor::with_custom_settings(MaxPriceAge::new(1000), false);
    assert_eq!(processor.max_price_age(), 1000);
    assert!(!processor.is_validation_enabled());
}

#[test]
fn test_validated_price_pair_creation() {
    let solana_price = SourcePrice::new(195_500_000, PriceSource::Solana, NOW_MS);
    let binance_price = SourcePrice::new(195_000_000, PriceSource::Binance, NOW_MS);

    let pair = ValidatedPricePair::new(solana_price, binance_price);

    assert_eq!(pair.price_spread, 500_000);
    // 100 * 0.5 / 195 percent, in micro-percent, truncated.
    assert_eq!(pair.price_spread_percentage, 256_410);
    assert_eq!(pair.higher_price_source(), PriceSource::Solana);
    assert_eq!(pair.lower_price_source(), PriceSource::Binance);
    assert!(pair.is_inverted());
}

#[test]
fn test_get_validated_prices_success() {
    let processor = create_test_processor();
    let cache = create_test_price_cache();

    let result = processor.get_validated_prices(&cache, NOW_MS);
    assert!(result.is_ok());

    let pair = result.unwrap();
    assert_eq!(pair.solana_price.source, PriceSource::Solana);
    assert_eq!(pair.binance_price.source, PriceSource::Binance);
}

#[test]
fn test_get_validated_prices_no_data() {
    let processor = create_test_processor();
    let cache = PriceCache::new();

    let result = processor.get_validated_prices(&cache, NOW_MS);
    assert!(matches!(result, Err(ProcessorError::NoFreshData)));
}

#[test]
fn test_price_validation_disabled() {
    let mut processor = PriceProcessor::with_custom_settings(MaxPriceAge::new(5000), true);

    processor.set_validation_enabled(false);
    assert!(!processor.is_validation_enabled());

    processor.set_validation_enabled(true);
    assert!(processor.is_validation_enabled());
}

#[test]
fn test_invalid_price_detection() {
    let processor = create_test_processor();
    let mut cache = PriceCache::new();

    // A zero price is the invalid observation in this representation.
    let invalid_update = PriceUpdate::new(PriceSource::Solana, TradingPair::SolUsdt, 0, NOW_MS);
    cache.update(&invalid_update);

    let valid_update =
        PriceUpdate::new(PriceSource::Binance, TradingPair::SolUsdt, 195_000_000, NOW_MS);
    cache.update(&valid_update);

    let result = processor.get_validated_prices(&cache, NOW_MS);
    assert!(matches!(result, Err(ProcessorError::InvalidPrice { .. })));
}

#[test]
fn test_price_freshness_check() {
    let processor = create_test_processor();
    let cache = PriceCache::new();

    assert!(!processor.has_fresh_prices(&cache, NOW_MS));
}

#[test]
fn test_price_spread_calculation() {
    let solana_price = SourcePrice::new(200_000_000, PriceSource::Solana, NOW_MS);
    let binance_price = SourcePrice::new(190_000_000, PriceSource::Binance, NOW_MS);

    let pair = ValidatedPricePair::new(solana_price, binance_price);

    assert_eq!(pair.price_spread, 10_000_000);
    // 100 * 10 / 190 percent, in micro-percent, truncated.
    assert_eq!(pair.price_spread_percentage, 5_263_157);
}

#[test]
fn test_price_source_identification() {
    let solana_price = SourcePrice::new(190_000_000, PriceSource::Solana, NOW_MS);
    let binance_price = SourcePrice::new(200_000_000, PriceSource::Binance, NOW_MS);

    let pair = ValidatedPricePair::new(solana_price, binance_price);

    assert_eq!(pair.higher_price_source(), PriceSource::Binance);
    assert_eq!(pair.lower_price_source(), PriceSource::Solana);
    assert!(!pair.is_inverted());
}

#[test]
fn test_stale_price_rejected_with_age_report() {
    // A DEX observation ten seconds old against a five second window
    // fails with the stale error that reports the age.
    let processor = create_test_processor();
    let mut cache = PriceCache::new();

    let stale_dex = PriceUpdate::new(
        PriceSource::Solana,
        TradingPair::SolUsdt,
        190_000_000,
        NOW_MS - 10_000,
    );
    let fresh_cex =
        PriceUpdate::new(PriceSource::Binance, TradingPair::SolUsdt, 195_000_000, NOW_MS);
    cache.update(&stale_dex);
    cache.update(&fresh_cex);

    let result = processor.get_validated_prices(&cache, NOW_MS);
    assert_eq!(
        result,
        Err(ProcessorError::StaleData { age_ms: 10_000, max_age_ms: 5000 })
    );
}

#[test]
fn test_zero_freshness_window_always_stale() {
    // With a freshness window of zero, any observation made strictly
    // before the clock reading is stale.
    let processor = PriceProcessor::with_custom_settings(MaxPriceAge::new(0), true);
    let mut cache = PriceCache::new();
    cache.update(&PriceUpdate::new(
        PriceSource::Solana,
        TradingPair::SolUsdt,
        195_000_000,
        NOW_MS - 1,
    ));
    cache.update(&PriceUpdate::new(
        PriceSource::Binance,
        TradingPair::SolUsdt,
        195_000_000,
        NOW_MS - 1,
    ));

    let result = processor.get_validated_prices(&cache, NOW_MS);
    assert!(matches!(result, Err(ProcessorError::StaleData { .. })));
}

#[test]
fn test_out_of_bounds_price_rejected() {
    let processor = create_test_processor();
    let mut cache = PriceCache::new();
    // Half a quote unit: below the configured minimum of one.
    cache.update(&PriceUpdate::new(
        PriceSource::Solana,
        TradingPair::SolUsdt,
        500_000,
        NOW_MS,
    ));
    cache.update(&PriceUpdate::new(
        PriceSource::Binance,
        TradingPair::SolUsdt,
        195_000_000,
        NOW_MS,
    ));

    let result = processor.get_validated_prices(&cache, NOW_MS);
    assert_eq!(result, Err(ProcessorError::InvalidPrice { price: 500_000 }));
}

#[test]
fn test_price_age_stats() {
    let processor = create_test_processor();
    let mut cache = PriceCache::new();
    cache.update(&PriceUpdate::new(
        PriceSource::Solana,
        TradingPair::SolUsdt,
        195_000_000,
        NOW_MS - 300,
    ));
    cache.update(&PriceUpdate::new(
        PriceSource::Binance,
        TradingPair::SolUsdt,
        195_000_000,
        NOW_MS - 700,
    ));

    assert_eq!(
        processor.get_price_age_stats(&cache, NOW_MS),
        Some((300, 700))
    );
}
