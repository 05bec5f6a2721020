use arbitrage_watcher::reconnect::{ReconnectConfig, ReconnectError, ReconnectHandler};

const NOW_MS: u64 = 1_700_000_000_000;

#[test]
fn test_default_config_is_valid() {
    let config = ReconnectConfig::default();
    assert!(config.validate().is_ok());
}

#[test]
fn test_config_validation() {
    // Invalid initial delay.
    let mut config = ReconnectConfig::default();
    config.initial_delay_ms = 0;
    assert!(config.validate().is_err());

    // Max delay below the initial delay.
    let mut config = ReconnectConfig::default();
    config.max_delay_ms = 500;
    config.initial_delay_ms = 1000;
    assert!(config.validate().is_err());

    // A multiplier that does not grow the delay.
    let mut config = ReconnectConfig::default();
    config.backoff_multiplier = 1;
    assert!(config.validate().is_err());

    // Zero max attempts.
    let mut config = ReconnectConfig::default();
    config.max_attempts = Some(0);
    assert!(config.validate().is_err());
}

#[test]
fn test_reconnect_handler_creation() {
    let config = ReconnectConfig::default();
    let handler = ReconnectHandler::new(config);
    assert!(handler.is_ok());

    let handler = ReconnectHandler::with_default();
    assert_eq!(handler.attempt_count(), 0);
    assert!(handler.elapsed_time(NOW_MS).is_none());
}

#[test]
fn test_exponential_backoff() {
    let config = ReconnectConfig {
        initial_delay_ms: 100,
        max_delay_ms: 1000,
        backoff_multiplier: 2,
        max_attempts: Some(5),
        max_total_duration_ms: None,
        jitter: false,
    };

    let mut handler = ReconnectHandler::new(config).unwrap();

    let delay1 = handler.should_reconnect(NOW_MS).unwrap();
    assert_eq!(delay1, 100);
    assert_eq!(handler.attempt_count(), 1);

    let delay2 = handler.should_reconnect(NOW_MS).unwrap();
    assert_eq!(delay2, 200);
    assert_eq!(handler.attempt_count(), 2);

    let delay3 = handler.should_reconnect(NOW_MS).unwrap();
    assert_eq!(delay3, 400);
    assert_eq!(handler.attempt_count(), 3);
}

#[test]
fn test_max_attempts_exceeded() {
    let config = ReconnectConfig {
        initial_delay_ms: 100,
        max_delay_ms: 1000,
        backoff_multiplier: 2,
        max_attempts: Some(2),
        max_total_duration_ms: None,
        jitter: false,
    };

    let mut handler = ReconnectHandler::new(config).unwrap();

    assert!(handler.should_reconnect(NOW_MS).is_ok());
    assert!(handler.should_reconnect(NOW_MS).is_ok());

    let result = handler.should_reconnect(NOW_MS);
    assert!(result.is_err());
    assert!(matches!(result, Err(ReconnectError::MaxAttemptsExceeded(2))));
}

#[test]
fn test_max_delay_cap() {
    let config = ReconnectConfig {
        initial_delay_ms: 100,
        max_delay_ms: 300,
        backoff_multiplier: 3,
        max_attempts: Some(5),
        max_total_duration_ms: None,
        jitter: false,
    };

    let mut handler = ReconnectHandler::new(config).unwrap();

    let delay1 = handler.should_reconnect(NOW_MS).unwrap();
    assert_eq!(delay1, 100);

    // Capped at the maximum delay.
    let delay2 = handler.should_reconnect(NOW_MS).unwrap();
    assert_eq!(delay2, 300);

    // Still capped.
    let delay3 = handler.should_reconnect(NOW_MS).unwrap();
    assert_eq!(delay3, 300);
}

#[test]
fn reconnect_test_reset_functionality() {
    let config = ReconnectConfig::default();
    let mut handler = ReconnectHandler::new(config).unwrap();

    let _ = handler.should_reconnect(NOW_MS);
    let _ = handler.should_reconnect(NOW_MS);
    assert_eq!(handler.attempt_count(), 2);
    assert!(handler.elapsed_time(NOW_MS).is_some());

    handler.reset();
    assert_eq!(handler.attempt_count(), 0);
    assert!(handler.elapsed_time(NOW_MS).is_none());
}

#[test]
fn test_jitter_adds_variation() {
    let config = ReconnectConfig {
        initial_delay_ms: 1000,
        max_delay_ms: 5000,
        backoff_multiplier: 2,
        max_attempts: Some(10),
        max_total_duration_ms: None,
        jitter: true,
    };

    let mut handler = ReconnectHandler::new(config).unwrap();

    let delay1 = handler.should_reconnect(NOW_MS).unwrap();
    handler.reset();
    let delay2 = handler.should_reconnect(NOW_MS).unwrap();

    // The jitter is keyed by the attempt count alone, so the same attempt
    // number draws the same perturbation after a reset.
    println!("Delay1: {:?}, Delay2: {:?}", delay1, delay2);
    assert_eq!(delay1, delay2);
    // And it stays within a tenth of the base delay.
    assert!(delay1 >= 900 && delay1 <= 1100);
}

#[test]
fn test_backoff_sequence_monotone_until_exhausted() {
    // The delays handed out before exhaustion never decrease and never
    // pass the cap: 100, 200, 400, 800, 1000, then the terminal error.
    let config = ReconnectConfig {
        initial_delay_ms: 100,
        max_delay_ms: 1000,
        backoff_multiplier: 2,
        max_attempts: Some(5),
        max_total_duration_ms: None,
        jitter: false,
    };
    let mut handler = ReconnectHandler::new(config).unwrap();

    let mut delays = Vec::new();
    for _ in 0..5 {
        delays.push(handler.should_reconnect(NOW_MS).unwrap());
    }
    assert_eq!(delays, vec![100, 200, 400, 800, 1000]);
    for window in delays.windows(2) {
        assert!(window[0] <= window[1]);
        assert!(window[1] <= 1000);
    }
    assert!(matches!(
        handler.should_reconnect(NOW_MS),
        Err(ReconnectError::MaxAttemptsExceeded(5))
    ));
}

#[test]
fn test_total_duration_timeout() {
    let config = ReconnectConfig {
        initial_delay_ms: 100,
        max_delay_ms: 1000,
        backoff_multiplier: 2,
        max_attempts: None,
        max_total_duration_ms: Some(60_000),
        jitter: false,
    };
    let mut handler = ReconnectHandler::new(config).unwrap();

    assert!(handler.should_reconnect(NOW_MS).is_ok());
    // A minute later the budget has run out.
    assert!(matches!(
        handler.should_reconnect(NOW_MS + 60_000),
        Err(ReconnectError::ConnectionTimeout(60_000))
    ));
}
