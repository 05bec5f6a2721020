use vstd::prelude::*;

use crate::binance::{BinanceClient, BinanceConfig, BinanceError};
use crate::config::{Config, RpcProvider, TradingPair};
use crate::price::{PriceCache, PriceSource};
use crate::solana::{SolanaClient, SolanaConfig, SolanaError};

verus! {

/// Errors that can occur in the connection manager.
#[derive(Debug, Clone, PartialEq, Eq)]
pub enum ConnectionManagerError {
    /// The CEX client could not be created or failed.
    BinanceError(BinanceError),
    /// The on-chain client could not be created or failed.
    SolanaError(SolanaError),
    /// A feed task ended abnormally.
    JoinError(String),
    /// Every connection failed.
    AllConnectionsFailed,
}

/// Copy a provider list, keeping every entry's exact contents.
fn clone_providers(providers: &Vec<RpcProvider>) -> (r: Vec<RpcProvider>)
    ensures
        r@.len() == providers@.len(),
        forall|i: int| 0 <= i < providers@.len() ==> {
            &&& (#[trigger] r@[i]).name@ == providers@[i].name@
            &&& r@[i].websocket_url@ == providers@[i].websocket_url@
            &&& r@[i].priority == providers@[i].priority
            &&& r@[i].provider_type == providers@[i].provider_type
        },
{
    let mut out: Vec<RpcProvider> = Vec::new();
    let mut i: usize = 0;
    let n = providers.len();
    while i < n
        invariant
            0 <= i <= n,
            n == providers@.len(),
            out@.len() == i,
            forall|k: int| 0 <= k < i ==> {
                &&& (#[trigger] out@[k]).name@ == providers@[k].name@
                &&& out@[k].websocket_url@ == providers@[k].websocket_url@
                &&& out@[k].priority == providers@[k].priority
                &&& out@[k].provider_type == providers@[k].provider_type
            },
        decreases n - i,
    {
        let p = &providers[i];
        let name = p.name.clone();
        let websocket_url = p.websocket_url.clone();
        proof {
            assert(name@ == p.name@);
            assert(websocket_url@ == p.websocket_url@);
        }
        out.push(
            RpcProvider {
                name,
                websocket_url,
                priority: p.priority,
                provider_type: p.provider_type,
            },
        );
        i = i + 1;
    }
    out
}

/// Owns the two feed clients and the shared price store, and wires them
/// together. The caller runs the sessions; each client's own reconnect
/// state keeps its feed durable.
pub struct ConnectionManager {
    binance_client: BinanceClient,
    solana_client: SolanaClient,
    price_cache: PriceCache,
    trading_pair: TradingPair,
}

impl ConnectionManager {
    pub closed spec fn spec_binance(&self) -> BinanceClient {
        self.binance_client
    }

    pub closed spec fn spec_solana(&self) -> SolanaClient {
        self.solana_client
    }

    pub closed spec fn spec_cache(&self) -> PriceCache {
        self.price_cache
    }

    pub closed spec fn spec_pair(&self) -> TradingPair {
        self.trading_pair
    }

    /// Create a new connection manager from a validated configuration:
    /// a default CEX client, an on-chain client over the configured
    /// providers, and an empty price store. This succeeds exactly when at
    /// least one provider is configured.
    pub fn new(config: &Config) -> (r: Result<Self, ConnectionManagerError>)
        ensures
            config.rpc_providers@.len() == 0 ==> r == Err::<
                ConnectionManager,
                ConnectionManagerError,
            >(ConnectionManagerError::SolanaError(SolanaError::NoProvidersAvailable)),
            config.rpc_providers@.len() > 0 ==> r is Ok,
            r matches Ok(m) ==> {
                &&& m.spec_pair() == config.pair
                &&& m.spec_binance().spec_pair() == config.pair
                &&& m.spec_solana().spec_pair() == config.pair
                &&& m.spec_solana().spec_wf()
                &&& (m.spec_cache().spec_slot(PriceSource::Solana) is None)
                &&& (m.spec_cache().spec_slot(PriceSource::Binance) is None)
            },
    {
        let binance_client = match BinanceClient::with_default(config.pair) {
            Ok(c) => c,
            Err(e) => {
                return Err(ConnectionManagerError::BinanceError(e));
            },
        };
        let providers = clone_providers(&config.rpc_providers);
        let solana_client = match SolanaClient::from_providers(providers, config.pair) {
            Ok(c) => c,
            Err(e) => {
                return Err(ConnectionManagerError::SolanaError(e));
            },
        };
        Ok(
            ConnectionManager {
                binance_client,
                solana_client,
                price_cache: PriceCache::new(),
                trading_pair: config.pair,
            },
        )
    }

    /// Create a connection manager with custom feed configurations. This
    /// succeeds exactly when both reconnection configurations are valid
    /// and at least one provider is configured; the CEX client is built
    /// first, so its failure is the one reported.
    pub fn with_custom_configs(
        config: &Config,
        binance_config: BinanceConfig,
        solana_config: SolanaConfig,
    ) -> (r: Result<Self, ConnectionManagerError>)
        ensures
            (r is Ok) <==> (binance_config.reconnect_config.spec_valid()
                && solana_config.rpc_providers@.len() > 0
                && solana_config.reconnect_config.spec_valid()),
            !binance_config.reconnect_config.spec_valid() ==> (r matches Err(
                ConnectionManagerError::BinanceError(_),
            )),
            binance_config.reconnect_config.spec_valid()
                && solana_config.rpc_providers@.len() == 0 ==> r == Err::<
                ConnectionManager,
                ConnectionManagerError,
            >(ConnectionManagerError::SolanaError(SolanaError::NoProvidersAvailable)),
            binance_config.reconnect_config.spec_valid() && solana_config.rpc_providers@.len() > 0
                && !solana_config.reconnect_config.spec_valid() ==> (r matches Err(
                ConnectionManagerError::SolanaError(e),
            ) && (e matches SolanaError::JsonError(_))),
            r matches Ok(m) ==> {
                &&& m.spec_pair() == config.pair
                &&& m.spec_binance().spec_pair() == config.pair
                &&& m.spec_solana().spec_pair() == config.pair
                &&& m.spec_solana().spec_wf()
                &&& (m.spec_cache().spec_slot(PriceSource::Solana) is None)
                &&& (m.spec_cache().spec_slot(PriceSource::Binance) is None)
            },
    {
        let binance_client = match BinanceClient::new(binance_config, config.pair) {
            Ok(c) => c,
            Err(e) => {
                return Err(ConnectionManagerError::BinanceError(e));
            },
        };
        let solana_client = match SolanaClient::new(solana_config, config.pair) {
            Ok(c) => c,
            Err(e) => {
                return Err(ConnectionManagerError::SolanaError(e));
            },
        };
        Ok(
            ConnectionManager {
                binance_client,
                solana_client,
                price_cache: PriceCache::new(),
                trading_pair: config.pair,
            },
        )
    }

    /// Get the shared price store.
    pub fn price_cache(&self) -> (r: &PriceCache)
        ensures
            *r == self.spec_cache(),
    {
        &self.price_cache
    }

    /// Get the trading pair.
    pub fn trading_pair(&self) -> (r: TradingPair)
        ensures
            r == self.spec_pair(),
    {
        self.trading_pair
    }

    /// Take the manager apart so that the caller can run each feed as its
    /// own task over the shared store.
    pub fn into_parts(self) -> (r: (BinanceClient, SolanaClient, PriceCache, TradingPair))
        ensures
            r.0 == self.spec_binance(),
            r.1 == self.spec_solana(),
            r.2 == self.spec_cache(),
            r.3 == self.spec_pair(),
    {
        let ConnectionManager { binance_client, solana_client, price_cache, trading_pair } = self;
        (binance_client, solana_client, price_cache, trading_pair)
    }
}

} // verus!
