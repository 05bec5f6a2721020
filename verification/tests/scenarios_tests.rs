use arbitrage_watcher::calculator::{FeeCalculator, TradingFees};
use arbitrage_watcher::config::{Config, RawConfig, TradingPair};
use arbitrage_watcher::detector::{ArbitrageDetector, DetectionTick, DetectorError};
use arbitrage_watcher::output::OutputFormat;
use arbitrage_watcher::price::{PriceCache, PriceSource, PriceUpdate, SourcePrice};
use arbitrage_watcher::processor::{ProcessorError, ValidatedPricePair};
use base64::Engine;

const NOW_MS: u64 = 1_700_000_000_000;

fn config_with_threshold(threshold_micro_pct: u64) -> Config {
    Config::new(&RawConfig {
        pair: TradingPair::SolUsdt,
        threshold: threshold_micro_pct,
        max_price_age_ms: 5000,
        rpc_url: None,
        helius_api_key: None,
        quicknode_api_key: None,
        alchemy_api_key: None,
        genesisgo_api_key: None,
        output_format: OutputFormat::Table,
        min_price: 1_000_000,
        max_price: 10_000_000_000,
    })
    .unwrap()
}

#[test]
fn scenario_happy_arbitrage() {
    // CEX at 195, DEX at 190, fees 0.1% / 0.25%, 0.001 base units of
    // gas, no transfer fee, ten units per trade: buy on the DEX, sell on
    // the CEX, and collect the worked-out figures exactly.
    let fees = TradingFees::new(100_000, 250_000, 1_000, 0).unwrap();
    let calculator = FeeCalculator::new(fees, 10_000_000).unwrap();
    let pair = ValidatedPricePair::new(
        SourcePrice::new(190_000_000, PriceSource::Solana, NOW_MS),
        SourcePrice::new(195_000_000, PriceSource::Binance, NOW_MS),
    );

    let opp = calculator
        .calculate_opportunity(&pair, TradingPair::SolUsdt)
        .unwrap()
        .unwrap();

    assert_eq!(opp.buy_source, PriceSource::Solana);
    assert_eq!(opp.sell_source, PriceSource::Binance);
    assert_eq!(opp.raw_profit_per_unit, 5_000_000);
    // per-unit fees: 190 * 0.25% + 195 * 0.1% = 0.475 + 0.195 = 0.670
    // gas in quote: 0.001 * 190 = 0.19, amortized over ten units: 0.019
    assert_eq!(opp.net_profit_per_unit, 4_311_000);
    // 100 * 4.311 / 190 percent, in micro-percent, truncated.
    assert_eq!(opp.profit_percentage, 2_268_947);
    assert_eq!(opp.recommended_amount, 10_000_000);
    // (5.0 - 0.670) * 10 - 0.19 = 43.11
    assert_eq!(opp.estimated_total_profit, 43_110_000);
    assert_eq!(opp.total_fees_per_unit, 689_000);
}

#[test]
fn scenario_no_arbitrage_after_fees() {
    // CEX at 195.1, DEX at 195.0: a raw spread of 0.1 that fees eat up;
    // the detector emits nothing.
    let config = config_with_threshold(100_000);
    let mut cache = PriceCache::new();
    cache.update(&PriceUpdate::new(
        PriceSource::Solana,
        TradingPair::SolUsdt,
        195_000_000,
        NOW_MS,
    ));
    cache.update(&PriceUpdate::new(
        PriceSource::Binance,
        TradingPair::SolUsdt,
        195_100_000,
        NOW_MS,
    ));
    let mut detector = ArbitrageDetector::new(&config, FeeCalculator::default());

    let result = detector.check_for_opportunities(&cache, NOW_MS).unwrap();
    assert!(result.is_none());

    let tick = detector.detection_tick(&cache, NOW_MS, NOW_MS);
    assert!(matches!(tick, DetectionTick::NoOpportunity));
}

#[test]
fn scenario_stale_dex_price() {
    // The DEX update is ten seconds old against a five second window:
    // validation fails with the stale error and nothing is emitted.
    let config = config_with_threshold(100_000);
    let mut cache = PriceCache::new();
    cache.update(&PriceUpdate::new(
        PriceSource::Solana,
        TradingPair::SolUsdt,
        190_000_000,
        NOW_MS - 10_000,
    ));
    cache.update(&PriceUpdate::new(
        PriceSource::Binance,
        TradingPair::SolUsdt,
        195_000_000,
        NOW_MS,
    ));
    let mut detector = ArbitrageDetector::new(&config, FeeCalculator::default());

    let result = detector.check_for_opportunities(&cache, NOW_MS);
    assert_eq!(
        result,
        Err(DetectorError::ProcessorError(ProcessorError::StaleData {
            age_ms: 10_000,
            max_age_ms: 5000
        }))
    );

    let tick = detector.detection_tick(&cache, NOW_MS, NOW_MS);
    assert!(matches!(tick, DetectionTick::DetectionError(_)));
    assert_eq!(detector.stats().total_checks, 0);
}

#[test]
fn test_price_extraction_fallback() {
    // A 400-byte blob whose strict decode fails, with the reserves at
    // the documented offsets: one million base units at nine decimals,
    // two hundred million quote units at six decimals, a price of 200.
    let client =
        arbitrage_watcher::solana::SolanaClient::with_default(TradingPair::SolUsdt).unwrap();

    let mut mock_data = vec![0u8; 400];
    let base_amount: u64 = 1_000_000_000_000_000;
    let quote_amount: u64 = 200_000_000_000_000;
    mock_data[232..240].copy_from_slice(&base_amount.to_le_bytes());
    mock_data[240..248].copy_from_slice(&quote_amount.to_le_bytes());

    // The direct fallback path.
    let price =
        arbitrage_watcher::solana::extract_price_from_raw_data(&mock_data, TradingPair::SolUsdt)
            .unwrap();
    assert_eq!(price, 200_000_000);

    // The same bytes through a full account notification.
    let encoded_data = base64::engine::general_purpose::STANDARD.encode(&mock_data);
    let notification = format!(
        "{{\"subscription\":123,\"result\":{{\"context\":{{\"slot\":100}},\"value\":{{\"data\":\"{}\",\"executable\":false,\"lamports\":1000000,\"owner\":\"675kPX9MHTjS2zt1qfr1NYHuzeLXfQM9H24wFSUt1Mp8\",\"rentEpoch\":300}}}}}}",
        encoded_data
    );

    let price_update = client.parse_account_message(&notification, NOW_MS).unwrap();
    assert_eq!(price_update.source, PriceSource::Solana);
    assert_eq!(price_update.pair, TradingPair::SolUsdt);
    assert!(price_update.price > 0);
    assert_eq!(price_update.price, 200_000_000);
}

#[test]
fn scenario_fallback_rejects_unreasonable_price() {
    // The fallback path is guarded by the sanity bound: a price outside
    // ten to a thousand quote units never enters the store.
    let mut mock_data = vec![0u8; 400];
    let base_amount: u64 = 1_000_000_000_000_000;
    let quote_amount: u64 = 1_000_000_000; // price of 0.001: absurd
    mock_data[232..240].copy_from_slice(&base_amount.to_le_bytes());
    mock_data[240..248].copy_from_slice(&quote_amount.to_le_bytes());

    let result =
        arbitrage_watcher::solana::extract_price_from_raw_data(&mock_data, TradingPair::SolUsdt);
    assert!(result.is_err());
}

#[test]
fn scenario_fallback_rejects_short_blob() {
    let mock_data = vec![0u8; 399];
    let result =
        arbitrage_watcher::solana::extract_price_from_raw_data(&mock_data, TradingPair::SolUsdt);
    assert!(result.is_err());
}

#[test]
fn scenario_strict_decode_active_pool() {
    // A blob with exactly the strict layout's length and an active pool
    // marker decodes strictly: status 6, state 1, reserves at their
    // fixed offsets, a mid-price of 200.
    let mut data = vec![0u8; 703];
    data[0..8].copy_from_slice(&6u64.to_le_bytes()); // status
    data[32..40].copy_from_slice(&9u64.to_le_bytes()); // base decimals
    data[40..48].copy_from_slice(&6u64.to_le_bytes()); // quote decimals
    data[48..56].copy_from_slice(&1u64.to_le_bytes()); // state
    data[224..232].copy_from_slice(&1_000_000_000_000_000u64.to_le_bytes());
    data[232..240].copy_from_slice(&200_000_000_000_000u64.to_le_bytes());

    let pool = arbitrage_watcher::solana::RaydiumPoolState::try_from_bytes(&data).unwrap();
    assert!(pool.is_active());
    assert_eq!(pool.pool_base_token_amount, 1_000_000_000_000_000);
    assert_eq!(pool.pool_quote_token_amount, 200_000_000_000_000);
    assert_eq!(pool.calculate_price().unwrap(), 200_000_000);

    let price =
        arbitrage_watcher::solana::price_from_pool_data(&data, TradingPair::SolUsdt).unwrap();
    assert_eq!(price, 200_000_000);
}

#[test]
fn scenario_strict_decode_rejects_inactive_pool() {
    // An inactive pool is an error, not a zero: no update may be pushed.
    let mut data = vec![0u8; 703];
    data[0..8].copy_from_slice(&5u64.to_le_bytes()); // status: not active
    data[32..40].copy_from_slice(&9u64.to_le_bytes());
    data[40..48].copy_from_slice(&6u64.to_le_bytes());
    data[48..56].copy_from_slice(&1u64.to_le_bytes());
    data[224..232].copy_from_slice(&1_000_000_000_000_000u64.to_le_bytes());
    data[232..240].copy_from_slice(&200_000_000_000_000u64.to_le_bytes());

    let result = arbitrage_watcher::solana::price_from_pool_data(&data, TradingPair::SolUsdt);
    assert!(result.is_err());
}

#[test]
fn scenario_zero_base_reserve_is_an_error() {
    let mut data = vec![0u8; 703];
    data[0..8].copy_from_slice(&6u64.to_le_bytes());
    data[48..56].copy_from_slice(&1u64.to_le_bytes());
    // Reserves left at zero.
    let pool = arbitrage_watcher::solana::RaydiumPoolState::try_from_bytes(&data).unwrap();
    assert!(pool.calculate_price().is_err());
}

#[test]
fn scenario_snapshot_sees_latest_update() {
    // A pushed update is visible to the next snapshot; a later update on
    // the same source replaces it; the other slot is untouched.
    let mut cache = PriceCache::new();
    let first = PriceUpdate::new(PriceSource::Solana, TradingPair::SolUsdt, 190_000_000, NOW_MS);
    cache.update(&first);

    let seen = cache.get_price(PriceSource::Solana).unwrap();
    assert_eq!(seen.price, 190_000_000);
    assert_eq!(seen.timestamp_ms, NOW_MS);
    assert!(cache.get_price(PriceSource::Binance).is_none());
    assert!(cache.get_both_prices().is_none());

    let second =
        PriceUpdate::new(PriceSource::Solana, TradingPair::SolUsdt, 191_000_000, NOW_MS + 5);
    cache.update(&second);
    let seen = cache.get_price(PriceSource::Solana).unwrap();
    assert_eq!(seen.price, 191_000_000);
    assert!(seen.timestamp_ms >= NOW_MS);

    let cex = PriceUpdate::new(PriceSource::Binance, TradingPair::SolUsdt, 195_000_000, NOW_MS);
    cache.update(&cex);
    let (solana, binance) = cache.get_both_prices().unwrap();
    assert_eq!(solana.price, 191_000_000);
    assert_eq!(binance.price, 195_000_000);
}

#[test]
fn scenario_purge_empties_only_stale_slots() {
    let mut cache = PriceCache::new();
    cache.update(&PriceUpdate::new(
        PriceSource::Solana,
        TradingPair::SolUsdt,
        190_000_000,
        NOW_MS - 10_000,
    ));
    cache.update(&PriceUpdate::new(
        PriceSource::Binance,
        TradingPair::SolUsdt,
        195_000_000,
        NOW_MS,
    ));

    cache.clear_stale_prices(5000, NOW_MS);
    assert!(cache.get_price(PriceSource::Solana).is_none());
    assert!(cache.get_price(PriceSource::Binance).is_some());
}
