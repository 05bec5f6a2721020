use arbitrage_watcher::config::{
    ApiKeyConfig, Config, ConfigError, MaxPriceAge, PriceBounds, ProfitThreshold, RawConfig,
    TradingPair,
};
use arbitrage_watcher::manager::ConnectionManager;
use arbitrage_watcher::metrics::MetricsCollector;
use arbitrage_watcher::monitor::MonitorConfig;
use arbitrage_watcher::numeric::parse_price_micro;
use arbitrage_watcher::output::{OutputFormat, OutputFormatter};
use arbitrage_watcher::price::PriceSource;
use arbitrage_watcher::util::{format_price_source, format_trading_pair};

const NOW_MS: u64 = 1_700_000_000_000;

fn valid_raw_config() -> RawConfig {
    RawConfig {
        pair: TradingPair::SolUsdt,
        threshold: 500_000,
        max_price_age_ms: 5000,
        rpc_url: None,
        helius_api_key: None,
        quicknode_api_key: None,
        alchemy_api_key: None,
        genesisgo_api_key: None,
        output_format: OutputFormat::Table,
        min_price: 1_000_000,
        max_price: 10_000_000_000,
    }
}

#[test]
fn test_format_trading_pair() {
    assert_eq!(format_trading_pair(TradingPair::SolUsdt), "SOL/USDT");
    assert_eq!(format_trading_pair(TradingPair::SolUsdc), "SOL/USDC");
}

#[test]
fn test_format_price_source() {
    assert_eq!(format_price_source(PriceSource::Solana), "Solana");
    assert_eq!(format_price_source(PriceSource::Binance), "Binance");
}

#[test]
fn test_output_format_display() {
    assert_eq!(OutputFormat::Table.as_str(), "table");
    assert_eq!(OutputFormat::Json.as_str(), "json");
    assert_eq!(OutputFormat::Compact.as_str(), "compact");
}

#[test]
fn test_output_formatter_settings() {
    let formatter = OutputFormatter::new(OutputFormat::Json);
    assert_eq!(formatter.format(), OutputFormat::Json);
    assert!(formatter.show_timestamps());
    assert_eq!(formatter.precision(), 4);

    let custom = OutputFormatter::with_settings(OutputFormat::Compact, false, 2);
    assert_eq!(custom.format(), OutputFormat::Compact);
    assert!(!custom.show_timestamps());
    assert_eq!(custom.precision(), 2);
}

#[test]
fn test_price_source_helpers() {
    assert_eq!(PriceSource::Solana.display_name(), "Solana DEX");
    assert_eq!(PriceSource::Binance.display_name(), "Binance");
    assert!(PriceSource::Solana.is_dex());
    assert!(!PriceSource::Solana.is_cex());
    assert!(PriceSource::Binance.is_cex());
    assert!(!PriceSource::Binance.is_dex());
}

#[test]
fn test_config_validation_accumulates_errors() {
    // Every invalid field is reported at once, in a fixed order.
    let raw = RawConfig {
        threshold: 100_000_001,
        max_price_age_ms: 50,
        min_price: 0,
        ..valid_raw_config()
    };
    let errors = match Config::new(&raw) {
        Err(errors) => errors,
        Ok(_) => panic!("expected the invalid configuration to be rejected"),
    };
    assert_eq!(
        errors.errors,
        vec![
            ConfigError::Threshold(100_000_001),
            ConfigError::MaxPriceAge(50),
            ConfigError::PriceBoundMinNotPositive(0),
        ]
    );
}

#[test]
fn test_config_valid_roundtrip() {
    let config = Config::new(&valid_raw_config()).unwrap();
    assert_eq!(config.pair, TradingPair::SolUsdt);
    assert_eq!(config.threshold.value(), 500_000);
    assert_eq!(config.max_price_age_ms.value(), 5000);
    assert_eq!(config.price_bounds.min_price, 1_000_000);
    assert_eq!(config.price_bounds.max_price, 10_000_000_000);
    // No keys and no override: the public fallback providers.
    assert_eq!(config.rpc_providers.len(), 2);
    assert_eq!(config.rpc_providers[0].name, "Public Solana (Limited)");
    assert_eq!(config.rpc_providers[1].name, "Solana Devnet (Fallback)");
}

#[test]
fn test_config_custom_rpc_url_overrides_providers() {
    let raw = RawConfig {
        rpc_url: Some("wss://example.com/rpc".to_string()),
        helius_api_key: Some("SECRET-REDACTED".to_string()),
        ..valid_raw_config()
    };
    let config = Config::new(&raw).unwrap();
    assert_eq!(config.rpc_providers.len(), 1);
    assert_eq!(config.rpc_providers[0].name, "Custom");
    assert_eq!(config.rpc_providers[0].websocket_url, "wss://example.com/rpc");
}

#[test]
fn test_authenticated_providers_from_keys() {
    let api_keys = ApiKeyConfig {
        helius: Some("SECRET-REDACTED".to_string()),
        quicknode: None,
        alchemy: Some("SECRET-REDACTED".to_string()),
        genesisgo: None,
    };
    assert!(api_keys.has_keys());
    let providers = Config::get_authenticated_providers(&api_keys);
    assert_eq!(providers.len(), 2);
    assert_eq!(providers[0].name, "Helius (Authenticated)");
    assert!(providers[0]
        .websocket_url
        .starts_with("wss://mainnet.helius-rpc.com/?api-key="));
    assert_eq!(providers[0].priority, 1);
    assert_eq!(providers[1].name, "Alchemy (Authenticated)");
    assert!(providers[1]
        .websocket_url
        .starts_with("wss://solana-mainnet.g.alchemy.com/v2/"));
    assert_eq!(providers[1].priority, 2);
}

#[test]
fn test_quicknode_key_alone_builds_nothing() {
    // A bare QuickNode key cannot build an endpoint: the public
    // providers stand in.
    let api_keys = ApiKeyConfig {
        helius: None,
        quicknode: Some("SECRET-REDACTED".to_string()),
        alchemy: None,
        genesisgo: None,
    };
    let providers = Config::get_authenticated_providers(&api_keys);
    assert_eq!(providers.len(), 2);
    assert_eq!(providers[0].name, "Public Solana (Limited)");
}

#[test]
fn test_threshold_and_bounds_validation() {
    assert!(ProfitThreshold::new(100_000_000).is_ok());
    assert!(ProfitThreshold::new(100_000_001).is_err());
    assert!(PriceBounds::new(0, 10).is_err());
    assert!(PriceBounds::new(10, 10).is_err());
    assert!(PriceBounds::new(10, 11).is_ok());
    assert_eq!(MaxPriceAge::new(777).value(), 777);
}

#[test]
fn test_connection_manager_creation() {
    let config = Config::new(&valid_raw_config()).unwrap();
    let manager = ConnectionManager::new(&config);
    assert!(manager.is_ok());

    let manager = manager.unwrap();
    assert_eq!(manager.trading_pair(), TradingPair::SolUsdt);
}

#[test]
fn test_connection_manager_with_custom_configs() {
    let config = Config::new(&valid_raw_config()).unwrap();
    let binance_config = arbitrage_watcher::binance::BinanceConfig::default();
    let solana_config = arbitrage_watcher::solana::SolanaConfig::default();

    let manager = ConnectionManager::with_custom_configs(&config, binance_config, solana_config);
    assert!(manager.is_ok());
}

#[test]
fn test_price_cache_access() {
    let config = Config::new(&valid_raw_config()).unwrap();
    let manager = ConnectionManager::new(&config).unwrap();
    let cache = manager.price_cache();

    assert!(cache.get_both_prices().is_none());
}

#[test]
fn test_metrics_collector_creation() {
    let collector = MetricsCollector::new(NOW_MS);
    assert_eq!(collector.solana_messages, 0);
    assert_eq!(collector.binance_messages, 0);
    assert_eq!(collector.opportunities_found, 0);
}

#[test]
fn test_message_recording() {
    let mut collector = MetricsCollector::new(NOW_MS);

    collector.record_solana_message();
    collector.record_binance_message();
    collector.record_opportunity();

    assert_eq!(collector.solana_messages, 1);
    assert_eq!(collector.binance_messages, 1);
    assert_eq!(collector.opportunities_found, 1);
}

#[test]
fn test_processing_time_recording() {
    let mut collector = MetricsCollector::new(NOW_MS);

    collector.record_processing_time(50);
    collector.record_arbitrage_time(50);
    collector.record_output_time(50);

    let metrics = collector.get_metrics(NOW_MS + 1000);
    assert!(metrics.processing.price_processing_latency_ms > 0);
    assert!(metrics.processing.arbitrage_detection_latency_ms > 0);
    assert!(metrics.processing.output_formatting_latency_ms > 0);
}

#[test]
fn test_queue_depth_tracking() {
    let mut collector = MetricsCollector::new(NOW_MS);

    collector.set_queue_depth(5);
    collector.set_queue_depth(10);
    collector.set_queue_depth(3);

    assert_eq!(collector.current_queue_depth, 3);
    assert_eq!(collector.max_queue_depth, 10);
}

#[test]
fn test_metrics_generation() {
    let mut collector = MetricsCollector::new(NOW_MS);

    collector.record_solana_message();
    collector.record_binance_message();
    collector.record_opportunity();
    collector.record_processing_time(10);

    let metrics = collector.get_metrics(NOW_MS + 2000);

    assert_eq!(metrics.summary.total_opportunities, 1);
    assert_eq!(metrics.processing.messages_processed, 2);
    assert_eq!(metrics.summary.uptime_seconds, 2);
}

#[test]
fn test_metrics_rates_exact() {
    // Ten on-chain and five CEX messages over ten seconds: rates in
    // thousandths per second, and one opportunity turning into 360 per
    // hour.
    let mut collector = MetricsCollector::new(NOW_MS);
    for _ in 0..10 {
        collector.record_solana_message();
    }
    for _ in 0..5 {
        collector.record_binance_message();
    }
    collector.record_opportunity();
    collector.record_error();

    let metrics = collector.get_metrics(NOW_MS + 10_000);
    assert_eq!(metrics.summary.uptime_seconds, 10);
    assert_eq!(metrics.summary.solana_msg_rate, 1000);
    assert_eq!(metrics.summary.binance_msg_rate, 500);
    assert_eq!(metrics.throughput.messages_per_second, 1500);
    assert_eq!(metrics.throughput.opportunities_per_hour, 360);
    // One error over fifteen messages: 14/15 of a hundred percent.
    assert_eq!(
        metrics.throughput.processing_efficiency_pct,
        14 * 100_000_000 / 15
    );
    assert_eq!(metrics.processing.errors_encountered, 1);
}

#[test]
fn metrics_test_reset_functionality() {
    let mut collector = MetricsCollector::new(NOW_MS);

    collector.record_solana_message();
    collector.record_opportunity();
    collector.record_error();

    collector.reset();

    assert_eq!(collector.solana_messages, 0);
    assert_eq!(collector.opportunities_found, 0);
    assert_eq!(collector.processing_errors, 0);
}

#[test]
fn test_monitor_config_default() {
    let config = MonitorConfig::default();
    assert!(config.enabled);
    assert!(!config.detailed_logging);
    assert_eq!(config.reporting_interval_ms, 30_000);
}

#[test]
fn test_parse_price_micro_plain() {
    assert_eq!(parse_price_micro(b"195.50"), Some(195_500_000));
    assert_eq!(parse_price_micro(b"195"), Some(195_000_000));
    assert_eq!(parse_price_micro(b"195."), Some(195_000_000));
    assert_eq!(parse_price_micro(b"0.000001"), Some(1));
    assert_eq!(parse_price_micro(b"0"), Some(0));
}

#[test]
fn test_parse_price_micro_truncates_extra_places() {
    assert_eq!(parse_price_micro(b"1.2345678"), Some(1_234_567));
}

#[test]
fn test_parse_price_micro_rejects_malformed_text() {
    assert_eq!(parse_price_micro(b""), None);
    assert_eq!(parse_price_micro(b"."), None);
    assert_eq!(parse_price_micro(b".5"), None);
    assert_eq!(parse_price_micro(b"abc"), None);
    assert_eq!(parse_price_micro(b"1.2.3"), None);
    assert_eq!(parse_price_micro(b"12a"), None);
    assert_eq!(parse_price_micro(b"-1"), None);
    assert_eq!(parse_price_micro(b"1e5"), None);
}

#[test]
fn test_parse_price_micro_rejects_overflow() {
    assert_eq!(parse_price_micro(b"18446744073709551616"), None);
    assert_eq!(parse_price_micro(b"99999999999999999999999"), None);
}

#[test]
fn test_api_key_config_roundtrip() {
    let raw = RawConfig {
        genesisgo_api_key: Some("SECRET-REDACTED".to_string()),
        ..valid_raw_config()
    };
    let keys = ApiKeyConfig::from_raw(&raw);
    assert!(keys.has_keys());
    assert!(keys.helius.is_none());
    assert!(keys.genesisgo.is_some());

    let none = ApiKeyConfig::from_raw(&valid_raw_config());
    assert!(!none.has_keys());
}

#[test]
fn test_connection_manager_custom_config_errors() {
    let config = Config::new(&valid_raw_config()).unwrap();

    // An invalid CEX reconnect configuration is reported first.
    let bad_reconnect = arbitrage_watcher::reconnect::ReconnectConfig::new(0, 1000, 2);
    let binance_config =
        arbitrage_watcher::binance::BinanceConfig::default().with_reconnect_config(bad_reconnect);
    let result = ConnectionManager::with_custom_configs(
        &config,
        binance_config,
        arbitrage_watcher::solana::SolanaConfig::default(),
    );
    assert!(matches!(
        result,
        Err(arbitrage_watcher::manager::ConnectionManagerError::BinanceError(_))
    ));

    // An empty provider list is the on-chain error.
    let result = ConnectionManager::with_custom_configs(
        &config,
        arbitrage_watcher::binance::BinanceConfig::default(),
        arbitrage_watcher::solana::SolanaConfig::new(vec![], 10_000),
    );
    assert!(matches!(
        result,
        Err(arbitrage_watcher::manager::ConnectionManagerError::SolanaError(
            arbitrage_watcher::solana::SolanaError::NoProvidersAvailable
        ))
    ));
}
