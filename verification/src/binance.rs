use vstd::prelude::*;

use crate::config::TradingPair;
use crate::jsonio::{json_as_str, json_as_u64, json_get, json_parse};
use crate::numeric::parse_price_micro;
use crate::price::{PriceSource, PriceUpdate};
use crate::reconnect::{ReconnectConfig, ReconnectError, ReconnectHandler};

verus! {

/// Errors that can occur with the CEX ticker feed.
#[derive(Debug, Clone, PartialEq, Eq)]
pub enum BinanceError {
    /// WebSocket connection error with a description.
    ConnectionError(String),
    /// JSON message that cannot be used.
    JsonError(String),
    /// URL that cannot be parsed.
    UrlError(String),
    /// Connection timeout (carries the timeout in ms).
    Timeout(u64),
    /// Reconnection failed.
    ReconnectFailed(ReconnectError),
    /// The trading pair is not supported.
    InvalidTradingPair(TradingPair),
}

/// Configuration for the CEX WebSocket client.
#[derive(Debug, Clone, PartialEq, Eq)]
pub struct BinanceConfig {
    /// WebSocket endpoint URL.
    pub base_url: String,
    /// Connection timeout in milliseconds.
    pub connection_timeout_ms: u64,
    /// Reconnection configuration.
    pub reconnect_config: ReconnectConfig,
}

impl BinanceConfig {
    /// Create a new configuration with custom settings and the default
    /// reconnection strategy.
    pub fn new(base_url: String, connection_timeout_ms: u64) -> (r: Self)
        ensures
            r.base_url@ == base_url@,
            r.connection_timeout_ms == connection_timeout_ms,
            r.reconnect_config.spec_valid(),
    {
        BinanceConfig {
            base_url,
            connection_timeout_ms,
            reconnect_config: ReconnectConfig::default(),
        }
    }

    /// Set the reconnection configuration.
    pub fn with_reconnect_config(self, config: ReconnectConfig) -> (r: Self)
        ensures
            r == (BinanceConfig { reconnect_config: config, ..self }),
    {
        BinanceConfig { reconnect_config: config, ..self }
    }
}

impl Default for BinanceConfig {
    /// The default endpoint: the public spot ticker stream, a ten second
    /// connect timeout, and the default reconnection strategy.
    fn default() -> (r: Self)
        ensures
            r.base_url@ == "wss://stream.binance.com:9443/ws"@,
            r.connection_timeout_ms == 10_000,
            r.reconnect_config.spec_valid(),
    {
        BinanceConfig {
            base_url: "wss://stream.binance.com:9443/ws".to_owned(),
            connection_timeout_ms: 10_000,
            reconnect_config: ReconnectConfig::default(),
        }
    }
}

/// CEX WebSocket client state: the endpoint, the monitored pair, and the
/// reconnection state. The network session itself lives with the caller;
/// this type owns every decision about frames and reconnection.
#[derive(Debug)]
pub struct BinanceClient {
    config: BinanceConfig,
    trading_pair: TradingPair,
    reconnect_handler: ReconnectHandler,
}

impl BinanceClient {
    pub closed spec fn spec_config(&self) -> BinanceConfig {
        self.config
    }

    pub closed spec fn spec_pair(&self) -> TradingPair {
        self.trading_pair
    }

    pub closed spec fn spec_handler(&self) -> ReconnectHandler {
        self.reconnect_handler
    }

    /// Create a new CEX client. Fails when the reconnection configuration
    /// is invalid.
    pub fn new(config: BinanceConfig, trading_pair: TradingPair) -> (r: Result<
        Self,
        BinanceError,
    >)
        ensures
            (r is Ok) <==> config.reconnect_config.spec_valid(),
            r matches Ok(c) ==> {
                &&& c.spec_config() == config
                &&& c.spec_pair() == trading_pair
                &&& c.spec_handler().spec_wf()
                &&& c.spec_handler().spec_attempt_count() == 0
                &&& (c.spec_handler().spec_start_time_ms() is None)
            },
    {
        match ReconnectHandler::new(config.reconnect_config) {
            Ok(reconnect_handler) => Ok(
                BinanceClient { config, trading_pair, reconnect_handler },
            ),
            Err(e) => Err(BinanceError::JsonError(e)),
        }
    }

    /// Create a client with the default configuration.
    pub fn with_default(trading_pair: TradingPair) -> (r: Result<Self, BinanceError>)
        ensures
            r is Ok,
            r matches Ok(c) ==> {
                &&& c.spec_pair() == trading_pair
                &&& c.spec_config().base_url@ == "wss://stream.binance.com:9443/ws"@
                &&& c.spec_handler().spec_wf()
            },
    {
        Self::new(BinanceConfig::default(), trading_pair)
    }

    /// The endpoint URL to connect to.
    pub fn base_url(&self) -> (r: &String)
        ensures
            r@ == self.spec_config().base_url@,
    {
        &self.config.base_url
    }

    /// The connect timeout in milliseconds.
    pub fn connection_timeout_ms(&self) -> (r: u64)
        ensures
            r == self.spec_config().connection_timeout_ms,
    {
        self.config.connection_timeout_ms
    }

    /// The ticker symbol for the monitored pair: the uppercase
    /// concatenation of base and quote.
    pub fn trading_pair_to_binance_symbol(&self) -> (r: Result<String, BinanceError>)
        ensures
            self.spec_pair() is SolUsdt ==> (r matches Ok(s) && s@ == "SOLUSDT"@),
            self.spec_pair() is SolUsdc ==> (r matches Ok(s) && s@ == "SOLUSDC"@),
    {
        match self.trading_pair {
            TradingPair::SolUsdt => Ok("SOLUSDT".to_owned()),
            TradingPair::SolUsdc => Ok("SOLUSDC".to_owned()),
        }
    }

    /// The subscribe frame for the pair's ticker stream, as the outbound
    /// JSON text.
    pub fn create_subscribe_message(&self) -> (r: Result<String, BinanceError>)
        ensures
            self.spec_pair() is SolUsdt ==> (r matches Ok(s) && s@
                == "{\"method\":\"SUBSCRIBE\",\"params\":[\"solusdt@ticker\"],\"id\":1}"@),
            self.spec_pair() is SolUsdc ==> (r matches Ok(s) && s@
                == "{\"method\":\"SUBSCRIBE\",\"params\":[\"solusdc@ticker\"],\"id\":1}"@),
    {
        match self.trading_pair {
            TradingPair::SolUsdt => Ok(
                "{\"method\":\"SUBSCRIBE\",\"params\":[\"solusdt@ticker\"],\"id\":1}".to_owned(),
            ),
            TradingPair::SolUsdc => Ok(
                "{\"method\":\"SUBSCRIBE\",\"params\":[\"solusdc@ticker\"],\"id\":1}".to_owned(),
            ),
        }
    }

    /// Parse one inbound ticker frame into a price update: the frame must
    /// carry the stream wrapper and a tick object with symbol, price text
    /// and event time; the price text must be a plain decimal. The update
    /// is stamped with the caller's clock reading.
    pub fn parse_ticker_message(&self, text: &str, now_ms: u64) -> (r: Result<
        PriceUpdate,
        BinanceError,
    >)
        ensures
            r matches Ok(u) ==> {
                &&& u.source is Binance
                &&& u.pair == self.spec_pair()
                &&& u.timestamp_ms == now_ms
            },
    {
        let parsed = match json_parse(text) {
            Some(v) => v,
            None => {
                return Err(BinanceError::JsonError("Malformed ticker frame".to_owned()));
            },
        };

        if json_get(&parsed, "stream").is_none() {
            return Err(BinanceError::JsonError("Missing stream field".to_owned()));
        }
        let data = match json_get(&parsed, "data") {
            Some(d) => d,
            None => {
                return Err(BinanceError::JsonError("Missing tick data".to_owned()));
            },
        };
        if json_get(data, "s").is_none() {
            return Err(BinanceError::JsonError("Missing tick symbol".to_owned()));
        }
        let event_time = match json_get(data, "E") {
            Some(t) => json_as_u64(t),
            None => None,
        };
        if event_time.is_none() {
            return Err(BinanceError::JsonError("Missing event time".to_owned()));
        }
        let price_text = match json_get(data, "c") {
            Some(c) => match json_as_str(c) {
                Some(s) => s,
                None => {
                    return Err(BinanceError::JsonError("Price is not text".to_owned()));
                },
            },
            None => {
                return Err(BinanceError::JsonError("Missing last price".to_owned()));
            },
        };

        let price = match parse_price_micro(price_text.as_str().as_bytes()) {
            Some(p) => p,
            None => {
                return Err(BinanceError::JsonError("Invalid price format".to_owned()));
            },
        };

        Ok(PriceUpdate::new(PriceSource::Binance, self.trading_pair, price, now_ms))
    }

    /// Decide how to recover from a dropped session: hand out the policy's
    /// backoff delay for the next attempt, or the policy's own terminal
    /// error — exhausted attempts or an elapsed time budget — once it
    /// refuses. The outcome is exactly the reconnection policy's decision.
    pub fn handle_disconnect(&mut self, now_ms: u64) -> (r: Result<u64, BinanceError>)
        requires
            old(self).spec_handler().spec_attempt_count() < usize::MAX,
        ensures
            final(self).spec_config() == old(self).spec_config(),
            final(self).spec_pair() == old(self).spec_pair(),
            match r {
                Ok(delay) => ReconnectHandler::spec_reconnect_decision(
                    old(self).spec_handler(),
                    final(self).spec_handler(),
                    Ok(delay),
                    now_ms,
                ),
                Err(e) => (e matches BinanceError::ReconnectFailed(inner)
                    && ReconnectHandler::spec_reconnect_decision(
                    old(self).spec_handler(),
                    final(self).spec_handler(),
                    Err(inner),
                    now_ms,
                )),
            },
            old(self).spec_handler().spec_wf() ==> final(self).spec_handler().spec_wf(),
    {
        match self.reconnect_handler.should_reconnect(now_ms) {
            Ok(delay) => Ok(delay),
            Err(e) => Err(BinanceError::ReconnectFailed(e)),
        }
    }

    /// Note a clean disconnect: the session ended normally, so the
    /// backoff state is reset for the next session.
    pub fn reset_backoff(&mut self)
        ensures
            final(self).spec_config() == old(self).spec_config(),
            final(self).spec_pair() == old(self).spec_pair(),
            final(self).spec_handler().spec_attempt_count() == 0,
            (final(self).spec_handler().spec_start_time_ms() is None),
    {
        self.reconnect_handler.reset();
    }

    /// The number of reconnection attempts made so far.
    pub fn reconnect_attempts(&self) -> (r: usize)
        ensures
            r == self.spec_handler().spec_attempt_count(),
    {
        self.reconnect_handler.attempt_count()
    }

    /// The time spent reconnecting so far, if an attempt was made.
    pub fn reconnect_elapsed_time(&self, now_ms: u64) -> (r: Option<u64>)
        ensures
            match self.spec_handler().spec_start_time_ms() {
                Some(t) => r == Some(crate::price::spec_age_ms(t, now_ms)),
                None => r is None,
            },
    {
        self.reconnect_handler.elapsed_time(now_ms)
    }
}

} // verus!
