use arbitrage_watcher::binance::{BinanceClient, BinanceConfig};
use arbitrage_watcher::config::{RpcProvider, RpcProviderType, TradingPair};
use arbitrage_watcher::price::PriceSource;
use arbitrage_watcher::reconnect::ReconnectConfig;
use arbitrage_watcher::solana::{RecoveryAction, SolanaClient, SolanaConfig, SolanaError};

const NOW_MS: u64 = 1_700_000_000_000;

fn provider(name: &str, url: &str, priority: u8) -> RpcProvider {
    RpcProvider {
        name: name.to_string(),
        websocket_url: url.to_string(),
        priority,
        provider_type: RpcProviderType::Custom,
    }
}

#[test]
fn test_binance_config_creation() {
    let config = BinanceConfig::default();
    assert_eq!(config.base_url, "wss://stream.binance.com:9443/ws");
    assert_eq!(config.connection_timeout_ms, 10_000);

    let custom_config = BinanceConfig::new("wss://testnet.binance.vision/ws".to_string(), 5_000);
    assert_eq!(custom_config.base_url, "wss://testnet.binance.vision/ws");
    assert_eq!(custom_config.connection_timeout_ms, 5_000);
}

#[test]
fn test_binance_client_creation() {
    let config = BinanceConfig::default();
    let client = BinanceClient::new(config, TradingPair::SolUsdt);
    assert!(client.is_ok());

    let default_client = BinanceClient::with_default(TradingPair::SolUsdc);
    assert!(default_client.is_ok());
}

#[test]
fn test_trading_pair_to_symbol() {
    let config = BinanceConfig::default();
    let client = BinanceClient::new(config, TradingPair::SolUsdt).unwrap();

    assert_eq!(client.trading_pair_to_binance_symbol().unwrap(), "SOLUSDT");

    let client2 = BinanceClient::with_default(TradingPair::SolUsdc).unwrap();
    assert_eq!(client2.trading_pair_to_binance_symbol().unwrap(), "SOLUSDC");
}

#[test]
fn test_subscribe_message_creation() {
    let client = BinanceClient::with_default(TradingPair::SolUsdt).unwrap();
    let msg = client.create_subscribe_message().unwrap();

    assert!(msg.contains("SUBSCRIBE"));
    assert!(msg.contains("solusdt@ticker"));
    assert_eq!(
        msg,
        "{\"method\":\"SUBSCRIBE\",\"params\":[\"solusdt@ticker\"],\"id\":1}"
    );
}

#[test]
fn test_ticker_message_parsing() {
    let client = BinanceClient::with_default(TradingPair::SolUsdt).unwrap();

    let ticker_json = r#"{
        "stream": "solusdt@ticker",
        "data": {
            "s": "SOLUSDT",
            "c": "195.50",
            "E": 1699123456789
        }
    }"#;

    let price_update = client.parse_ticker_message(ticker_json, NOW_MS).unwrap();

    assert_eq!(price_update.source, PriceSource::Binance);
    assert_eq!(price_update.pair, TradingPair::SolUsdt);
    assert_eq!(price_update.price, 195_500_000);
}

#[test]
fn test_reconnect_config_integration() {
    let reconnect_config = ReconnectConfig::new(500, 30_000, 2);

    let binance_config = BinanceConfig::default().with_reconnect_config(reconnect_config);

    let client = BinanceClient::new(binance_config, TradingPair::SolUsdt).unwrap();

    assert_eq!(client.reconnect_attempts(), 0);
    assert!(client.reconnect_elapsed_time(NOW_MS).is_none());
}

#[test]
fn test_invalid_price_format() {
    let client = BinanceClient::with_default(TradingPair::SolUsdt).unwrap();

    let invalid_json = r#"{
        "stream": "solusdt@ticker",
        "data": {
            "s": "SOLUSDT",
            "c": "invalid_price",
            "E": 1699123456789
        }
    }"#;

    let result = client.parse_ticker_message(invalid_json, NOW_MS);
    assert!(result.is_err());
}

#[test]
fn test_solana_config_creation() {
    let config = SolanaConfig::default();
    assert!(!config.rpc_providers.is_empty());
    assert_eq!(config.connection_timeout_ms, 10_000);
}

#[test]
fn test_solana_client_creation() {
    let config = SolanaConfig::default();
    let client = SolanaClient::new(config, TradingPair::SolUsdt);
    assert!(client.is_ok());

    let default_client = SolanaClient::with_default(TradingPair::SolUsdc);
    assert!(default_client.is_ok());
}

#[test]
fn test_empty_providers_error() {
    let config = SolanaConfig::new(vec![], 10_000);
    let client = SolanaClient::new(config, TradingPair::SolUsdt);
    assert!(matches!(client, Err(SolanaError::NoProvidersAvailable)));
}

#[test]
fn test_pool_addresses() {
    let client = SolanaClient::with_default(TradingPair::SolUsdt).unwrap();
    assert!(client.get_pool_address().is_ok());
    assert_eq!(
        client.get_pool_address().unwrap(),
        "7XawhbbxtsRcQA8KTkHT9f9nc6d69UwqCDh6U5EEbEmX"
    );

    let client2 = SolanaClient::with_default(TradingPair::SolUsdc).unwrap();
    assert!(client2.get_pool_address().is_ok());
    assert_eq!(
        client2.get_pool_address().unwrap(),
        "58oQChx4yWmvKdwLLZzBi4ChoCc2fqCUWBkwMihLYQo2"
    );
}

#[test]
fn test_account_subscribe_message_creation() {
    let client = SolanaClient::with_default(TradingPair::SolUsdt).unwrap();
    let msg = client.create_account_subscribe_message().unwrap();

    assert!(msg.contains("2.0"));
    assert!(msg.contains("accountSubscribe"));
    assert!(msg.contains("\"id\":1"));
    assert!(msg.contains("7XawhbbxtsRcQA8KTkHT9f9nc6d69UwqCDh6U5EEbEmX"));
    assert!(msg.contains("\"encoding\":\"base64\""));
    assert!(msg.contains("\"commitment\":\"confirmed\""));
}

#[test]
fn test_provider_switching() {
    let providers = vec![
        provider("Provider1", "wss://provider1.com", 1),
        provider("Provider2", "wss://provider2.com", 2),
    ];

    let config = SolanaConfig::new(providers, 10_000);
    let mut client = SolanaClient::new(config, TradingPair::SolUsdt).unwrap();

    assert_eq!(client.current_provider_name(), "Provider1");
    assert!(client.try_next_provider());
    assert_eq!(client.current_provider_name(), "Provider2");
    assert!(!client.try_next_provider());
}

#[test]
fn test_config_with_reconnect_settings() {
    let reconnect_config = ReconnectConfig::new(500, 30_000, 2);

    let solana_config = SolanaConfig::default().with_reconnect_config(reconnect_config);

    let client = SolanaClient::new(solana_config, TradingPair::SolUsdt).unwrap();

    assert_eq!(client.reconnect_attempts(), 0);
    assert!(client.reconnect_elapsed_time(NOW_MS).is_none());
}

#[test]
fn test_account_address_configuration() {
    let custom_address = "CustomPoolAddress123456789".to_string();
    let config = SolanaConfig::default().with_account_address(custom_address.clone());

    assert_eq!(config.account_address, Some(custom_address));
}

#[test]
fn test_recovery_switches_provider_without_backoff() {
    // A connect failure on the first provider moves straight to the
    // second, without consulting the reconnection policy.
    let providers = vec![
        provider("Provider1", "wss://provider1.com", 1),
        provider("Provider2", "wss://provider2.com", 2),
    ];
    let config = SolanaConfig::new(providers, 10_000)
        .with_reconnect_config(ReconnectConfig::new(100, 1000, 2).with_jitter(false));
    let mut client = SolanaClient::new(config, TradingPair::SolUsdt).unwrap();

    let action = client.next_recovery(NOW_MS);
    assert_eq!(action, RecoveryAction::SwitchProvider(1));
    assert_eq!(client.reconnect_attempts(), 0);
    assert_eq!(client.current_provider_name(), "Provider2");

    // With the list exhausted, the policy is consulted and the pointer
    // starts over at the first provider.
    let action = client.next_recovery(NOW_MS);
    assert_eq!(action, RecoveryAction::Backoff(100));
    assert_eq!(client.reconnect_attempts(), 1);
    assert_eq!(client.current_provider_name(), "Provider1");
}

#[test]
fn test_parse_account_message_rejects_acknowledgement() {
    // A subscription acknowledgement carries no account data and never
    // becomes a price.
    let client = SolanaClient::with_default(TradingPair::SolUsdt).unwrap();
    let ack = r#"{"jsonrpc":"2.0","result":23784,"id":1}"#;
    assert!(client.parse_account_message(ack, NOW_MS).is_err());
}

#[test]
fn test_parse_account_message_rejects_bad_base64() {
    let client = SolanaClient::with_default(TradingPair::SolUsdt).unwrap();
    let notification = r#"{"subscription":1,"result":{"value":{"data":"!!!not-base64!!!"}}}"#;
    let result = client.parse_account_message(notification, NOW_MS);
    assert!(matches!(result, Err(SolanaError::PoolParsingError(_))));
}

#[test]
fn test_parse_ticker_message_rejects_missing_fields() {
    let client = BinanceClient::with_default(TradingPair::SolUsdt).unwrap();
    assert!(client.parse_ticker_message("not json at all", NOW_MS).is_err());
    assert!(client
        .parse_ticker_message(r#"{"stream":"solusdt@ticker","data":{"s":"SOLUSDT"}}"#, NOW_MS)
        .is_err());
    assert!(client
        .parse_ticker_message(r#"{"data":{"s":"SOLUSDT","c":"195.5","E":1}}"#, NOW_MS)
        .is_err());
}

#[test]
fn test_calculate_price_rejects_huge_exponent() {
    // A decimal exponent beyond twelve cannot be priced in fixed point.
    let mut data = vec![0u8; 703];
    data[0..8].copy_from_slice(&6u64.to_le_bytes());
    data[32..40].copy_from_slice(&40u64.to_le_bytes()); // base decimals: absurd
    data[40..48].copy_from_slice(&6u64.to_le_bytes());
    data[48..56].copy_from_slice(&1u64.to_le_bytes());
    data[224..232].copy_from_slice(&1_000u64.to_le_bytes());
    data[232..240].copy_from_slice(&2_000u64.to_le_bytes());

    let pool = arbitrage_watcher::solana::RaydiumPoolState::try_from_bytes(&data).unwrap();
    assert!(matches!(
        pool.calculate_price(),
        Err(SolanaError::PoolParsingError(_))
    ));
}

#[test]
fn test_handle_disconnect_follows_policy() {
    // The CEX client's recovery is exactly the backoff policy's decision:
    // the doubled-and-capped delays first, then the policy's own
    // exhaustion error.
    let reconnect_config = ReconnectConfig {
        initial_delay_ms: 100,
        max_delay_ms: 1000,
        backoff_multiplier: 2,
        max_attempts: Some(3),
        max_total_duration_ms: None,
        jitter: false,
    };
    let binance_config = BinanceConfig::default().with_reconnect_config(reconnect_config);
    let mut client = BinanceClient::new(binance_config, TradingPair::SolUsdt).unwrap();

    assert_eq!(client.handle_disconnect(NOW_MS).unwrap(), 100);
    assert_eq!(client.handle_disconnect(NOW_MS).unwrap(), 200);
    assert_eq!(client.handle_disconnect(NOW_MS).unwrap(), 400);
    let result = client.handle_disconnect(NOW_MS);
    assert!(matches!(
        result,
        Err(arbitrage_watcher::binance::BinanceError::ReconnectFailed(
            arbitrage_watcher::reconnect::ReconnectError::MaxAttemptsExceeded(3)
        ))
    ));
    assert_eq!(client.reconnect_attempts(), 3);
}

#[test]
fn test_recovery_gives_up_with_policy_error() {
    // With one provider and an exhausted policy, the recovery action is
    // the policy's own terminal error, and the pointer stays put.
    let providers = vec![provider("Provider1", "wss://provider1.com", 1)];
    let reconnect_config = ReconnectConfig {
        initial_delay_ms: 100,
        max_delay_ms: 1000,
        backoff_multiplier: 2,
        max_attempts: Some(1),
        max_total_duration_ms: None,
        jitter: false,
    };
    let config = SolanaConfig::new(providers, 10_000).with_reconnect_config(reconnect_config);
    let mut client = SolanaClient::new(config, TradingPair::SolUsdt).unwrap();

    assert_eq!(client.next_recovery(NOW_MS), RecoveryAction::Backoff(100));
    assert_eq!(
        client.next_recovery(NOW_MS),
        RecoveryAction::GiveUp(
            arbitrage_watcher::reconnect::ReconnectError::MaxAttemptsExceeded(1)
        )
    );
    assert_eq!(client.current_provider_name(), "Provider1");
}
