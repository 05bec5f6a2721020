use vstd::prelude::*;

use crate::output::OutputFormat;
use vstd::string::StringExecFns;

verus! {

/// Supported trading pairs for arbitrage monitoring.
#[derive(Debug, Clone, Copy, PartialEq, Eq, Structural)]
pub enum TradingPair {
    SolUsdt,
    SolUsdc,
}

/// Validated maximum price age in milliseconds.
#[derive(Debug, Clone, Copy, PartialEq, Eq, Structural)]
pub struct MaxPriceAge(u64);

impl MaxPriceAge {
    pub closed spec fn spec_value(&self) -> u64 {
        self.0
    }

    pub fn value(&self) -> (r: u64)
        ensures
            r == self.spec_value(),
    {
        self.0
    }

    pub fn new(value: u64) -> (r: Self)
        ensures
            r.spec_value() == value,
    {
        MaxPriceAge(value)
    }
}

/// Validated profit threshold, in micro-percent (one millionth of a percent).
#[derive(Debug, Clone, Copy, PartialEq, Eq, Structural)]
pub struct ProfitThreshold(u64);

/// Upper bound of a valid threshold: 100 percent, in micro-percent.
pub const MAX_THRESHOLD_MICRO_PCT: u64 = 100_000_000;

impl ProfitThreshold {
    pub closed spec fn spec_value(&self) -> u64 {
        self.0
    }

    pub fn value(&self) -> (r: u64)
        ensures
            r == self.spec_value(),
    {
        self.0
    }

    /// Accepts thresholds between 0 and 100 percent inclusive.
    pub fn new(value: u64) -> (r: Result<Self, ConfigError>)
        ensures
            value <= MAX_THRESHOLD_MICRO_PCT ==> (r matches Ok(t) && t.spec_value() == value),
            value > MAX_THRESHOLD_MICRO_PCT ==> r == Err::<ProfitThreshold, ConfigError>(
                ConfigError::Threshold(value),
            ),
    {
        if value <= MAX_THRESHOLD_MICRO_PCT {
            Ok(ProfitThreshold(value))
        } else {
            Err(ConfigError::Threshold(value))
        }
    }
}

/// Validated price bounds, in micro-quote units per base unit.
#[derive(Debug, Clone, Copy, PartialEq, Eq, Structural)]
pub struct PriceBounds {
    pub min_price: u64,
    pub max_price: u64,
}

impl PriceBounds {
    /// A valid pair of bounds has a positive minimum strictly below the maximum.
    pub fn new(min_price: u64, max_price: u64) -> (r: Result<Self, ConfigError>)
        ensures
            min_price > 0 && max_price > min_price ==> r == Ok::<PriceBounds, ConfigError>(
                PriceBounds { min_price, max_price },
            ),
            min_price == 0 ==> r == Err::<PriceBounds, ConfigError>(
                ConfigError::PriceBoundMinNotPositive(min_price),
            ),
            min_price > 0 && max_price <= min_price ==> r == Err::<PriceBounds, ConfigError>(
                ConfigError::PriceBoundOrder(min_price, max_price),
            ),
    {
        if min_price == 0 {
            Err(ConfigError::PriceBoundMinNotPositive(min_price))
        } else if max_price <= min_price {
            Err(ConfigError::PriceBoundOrder(min_price, max_price))
        } else {
            Ok(PriceBounds { min_price, max_price })
        }
    }
}

/// Individual configuration validation error.
#[derive(Debug, Clone, PartialEq, Eq, Structural)]
pub enum ConfigError {
    /// Threshold outside 0..=100 percent, in micro-percent.
    Threshold(u64),
    /// Max price age outside 100..=60000 milliseconds.
    MaxPriceAge(u64),
    /// Minimum price bound is zero.
    PriceBoundMinNotPositive(u64),
    /// Maximum price bound does not exceed the minimum.
    PriceBoundOrder(u64, u64),
}

/// Collection of configuration validation errors, accumulated so that a
/// user sees every problem at once.
#[derive(Debug, Clone, PartialEq, Eq)]
pub struct ConfigErrors {
    pub errors: Vec<ConfigError>,
}

/// Raw configuration from the command line and environment, not yet
/// validated. The threshold is in micro-percent, prices in micro-quote
/// units. Carries API keys, so this type is deliberately not printable.
#[derive(Clone)]
pub struct RawConfig {
    /// Trading pair to monitor.
    pub pair: TradingPair,
    /// Minimum profit threshold, in micro-percent.
    pub threshold: u64,
    /// Maximum price age in milliseconds before data counts as stale.
    pub max_price_age_ms: u64,
    /// Solana RPC WebSocket URL override.
    pub rpc_url: Option<String>,
    /// Helius API key for premium RPC access.
    pub helius_api_key: Option<String>,
    /// QuickNode API key for premium RPC access.
    pub quicknode_api_key: Option<String>,
    /// Alchemy API key for premium RPC access.
    pub alchemy_api_key: Option<String>,
    /// GenesisGo API key for premium RPC access.
    pub genesisgo_api_key: Option<String>,
    /// Output format for displaying results.
    pub output_format: OutputFormat,
    /// Minimum valid price, in micro-quote units.
    pub min_price: u64,
    /// Maximum valid price, in micro-quote units.
    pub max_price: u64,
}

/// API key configuration for RPC providers.
#[derive(Clone)]
pub struct ApiKeyConfig {
    pub helius: Option<String>,
    pub quicknode: Option<String>,
    pub alchemy: Option<String>,
    pub genesisgo: Option<String>,
}

impl ApiKeyConfig {
    /// Create from the raw configuration.
    pub fn from_raw(raw: &RawConfig) -> (r: Self)
        ensures
            r.helius == raw.helius_api_key,
            r.quicknode == raw.quicknode_api_key,
            r.alchemy == raw.alchemy_api_key,
            r.genesisgo == raw.genesisgo_api_key,
    {
        ApiKeyConfig {
            helius: clone_opt_string(&raw.helius_api_key),
            quicknode: clone_opt_string(&raw.quicknode_api_key),
            alchemy: clone_opt_string(&raw.alchemy_api_key),
            genesisgo: clone_opt_string(&raw.genesisgo_api_key),
        }
    }

    /// Check whether any API keys are configured.
    pub fn has_keys(&self) -> (r: bool)
        ensures
            r == (self.helius is Some || self.quicknode is Some || self.alchemy is Some
                || self.genesisgo is Some),
    {
        self.helius.is_some() || self.quicknode.is_some() || self.alchemy.is_some()
            || self.genesisgo.is_some()
    }
}

/// Clone an optional string, keeping its exact contents.
fn clone_opt_string(s: &Option<String>) -> (r: Option<String>)
    ensures
        r == *s,
{
    match s {
        Some(v) => {
            let c = v.clone();
            proof {
                assert(c@ == v@);
            }
            Some(c)
        },
        None => None,
    }
}

/// Types of RPC providers for different authentication methods.
#[derive(Debug, Clone, Copy, PartialEq, Eq, Structural)]
pub enum RpcProviderType {
    Helius,
    QuickNode,
    Alchemy,
    GenesisGo,
    Custom,
    Public,
}

/// RPC provider configuration with failover support: providers are tried
/// in ascending priority order. The URL may carry an API key, so this type
/// is deliberately not printable.
#[derive(Clone)]
pub struct RpcProvider {
    pub name: String,
    pub websocket_url: String,
    pub priority: u8,
    pub provider_type: RpcProviderType,
}

/// A provider entry built from the Helius API key.
pub open spec fn spec_is_helius(p: RpcProvider, key: Seq<char>, priority: u8) -> bool {
    &&& p.name@ == "Helius (Authenticated)"@
    &&& p.websocket_url@ == "wss://mainnet.helius-rpc.com/?api-key="@ + key
    &&& p.priority == priority
    &&& p.provider_type is Helius
}

/// A provider entry built from the Alchemy API key.
pub open spec fn spec_is_alchemy(p: RpcProvider, key: Seq<char>, priority: u8) -> bool {
    &&& p.name@ == "Alchemy (Authenticated)"@
    &&& p.websocket_url@ == "wss://solana-mainnet.g.alchemy.com/v2/"@ + key
    &&& p.priority == priority
    &&& p.provider_type is Alchemy
}

/// A provider entry built from the GenesisGo API key.
pub open spec fn spec_is_genesisgo(p: RpcProvider, key: Seq<char>, priority: u8) -> bool {
    &&& p.name@ == "GenesisGo Triton (Authenticated)"@
    &&& p.websocket_url@ == "wss://triton.genesysgo.net/"@ + key
    &&& p.priority == priority
    &&& p.provider_type is GenesisGo
}

/// The two public fallback providers, in priority order.
pub open spec fn spec_is_default_providers(providers: Seq<RpcProvider>) -> bool {
    &&& providers.len() == 2
    &&& providers[0].name@ == "Public Solana (Limited)"@
    &&& providers[0].websocket_url@ == "wss://api.mainnet-beta.solana.com/"@
    &&& providers[0].priority == 1u8
    &&& providers[0].provider_type is Public
    &&& providers[1].name@ == "Solana Devnet (Fallback)"@
    &&& providers[1].websocket_url@ == "wss://api.devnet.solana.com/"@
    &&& providers[1].priority == 2u8
    &&& providers[1].provider_type is Public
}

/// The authenticated provider list owed for a set of API keys: Helius
/// first, then Alchemy, then GenesisGo, with consecutive priorities from
/// one; the public fallbacks when no key builds a provider. A QuickNode
/// key alone builds nothing: QuickNode needs a full endpoint URL.
pub open spec fn spec_is_authenticated_providers(
    providers: Seq<RpcProvider>,
    api_keys: ApiKeyConfig,
) -> bool {
    let nh: int = if api_keys.helius is Some {
        1
    } else {
        0
    };
    let na: int = if api_keys.alchemy is Some {
        1
    } else {
        0
    };
    let ng: int = if api_keys.genesisgo is Some {
        1
    } else {
        0
    };
    if nh + na + ng == 0 {
        spec_is_default_providers(providers)
    } else {
        &&& providers.len() == nh + na + ng
        &&& (api_keys.helius matches Some(k) ==> spec_is_helius(providers[0], k@, 1u8))
        &&& (api_keys.alchemy matches Some(k) ==> spec_is_alchemy(
            providers[nh],
            k@,
            (nh + 1) as u8,
        ))
        &&& (api_keys.genesisgo matches Some(k) ==> spec_is_genesisgo(
            providers[nh + na],
            k@,
            (nh + na + 1) as u8,
        ))
    }
}

/// The provider list owed for a configuration: a single custom entry when
/// an explicit RPC URL is given; otherwise the authenticated providers
/// when keys exist; otherwise the public fallbacks.
pub open spec fn spec_is_providers_for(
    providers: Seq<RpcProvider>,
    custom_url: Option<String>,
    api_keys: ApiKeyConfig,
) -> bool {
    match custom_url {
        Some(url) => {
            &&& providers.len() == 1
            &&& providers[0].name@ == "Custom"@
            &&& providers[0].websocket_url@ == url@
            &&& providers[0].priority == 1u8
            &&& providers[0].provider_type is Custom
        },
        None => if api_keys.helius is Some || api_keys.quicknode is Some
            || api_keys.alchemy is Some || api_keys.genesisgo is Some {
            spec_is_authenticated_providers(providers, api_keys)
        } else {
            spec_is_default_providers(providers)
        },
    }
}

/// Validated application configuration: every field has passed its check.
/// Carries API keys, so this type is deliberately not printable.
#[derive(Clone)]
pub struct Config {
    pub pair: TradingPair,
    pub threshold: ProfitThreshold,
    pub max_price_age_ms: MaxPriceAge,
    pub rpc_providers: Vec<RpcProvider>,
    pub output_format: OutputFormat,
    pub price_bounds: PriceBounds,
    pub api_keys: ApiKeyConfig,
}

impl Config {
    /// Parse and validate a raw configuration, accumulating all errors:
    /// the threshold must lie within 0..=100 percent, the price age within
    /// 100..=60000 milliseconds, and the price bounds must be ordered and
    /// positive. On success every validated field carries the raw value.
    pub fn new(raw: &RawConfig) -> (r: Result<Config, ConfigErrors>)
        ensures
            ({
                let threshold_ok = raw.threshold <= MAX_THRESHOLD_MICRO_PCT;
                let age_ok = 100 <= raw.max_price_age_ms <= 60000;
                let bounds_ok = raw.min_price > 0 && raw.max_price > raw.min_price;
                match r {
                    Ok(config) => {
                        &&& threshold_ok
                        &&& age_ok
                        &&& bounds_ok
                        &&& config.pair == raw.pair
                        &&& config.threshold.spec_value() == raw.threshold
                        &&& config.max_price_age_ms.spec_value() == raw.max_price_age_ms
                        &&& config.output_format == raw.output_format
                        &&& config.price_bounds == (PriceBounds {
                            min_price: raw.min_price,
                            max_price: raw.max_price,
                        })
                        &&& config.api_keys.helius == raw.helius_api_key
                        &&& config.api_keys.quicknode == raw.quicknode_api_key
                        &&& config.api_keys.alchemy == raw.alchemy_api_key
                        &&& config.api_keys.genesisgo == raw.genesisgo_api_key
                        &&& spec_is_providers_for(
                            config.rpc_providers@,
                            raw.rpc_url,
                            config.api_keys,
                        )
                    },
                    Err(errors) => {
                        &&& !(threshold_ok && age_ok && bounds_ok)
                        &&& errors.errors@ == spec_expected_errors(
                            raw.threshold,
                            raw.max_price_age_ms,
                            raw.min_price,
                            raw.max_price,
                        )
                    },
                }
            }),
    {
        let mut errors: Vec<ConfigError> = Vec::new();

        // Validate the threshold.
        let threshold: Option<ProfitThreshold> = match ProfitThreshold::new(raw.threshold) {
            Ok(t) => Some(t),
            Err(e) => {
                errors.push(e);
                None
            },
        };

        // Validate the max price age (reasonable range: 100 ms to 60 s).
        let max_price_age_ms: Option<MaxPriceAge> = if raw.max_price_age_ms >= 100
            && raw.max_price_age_ms <= 60000 {
            Some(MaxPriceAge::new(raw.max_price_age_ms))
        } else {
            errors.push(ConfigError::MaxPriceAge(raw.max_price_age_ms));
            None
        };

        // Validate the price bounds.
        let price_bounds: Option<PriceBounds> = match PriceBounds::new(
            raw.min_price,
            raw.max_price,
        ) {
            Ok(bounds) => Some(bounds),
            Err(e) => {
                errors.push(e);
                None
            },
        };

        // Create the API key configuration and the provider list.
        let api_keys = ApiKeyConfig::from_raw(raw);
        let rpc_providers = Config::create_rpc_providers(&raw.rpc_url, &api_keys);

        proof {
            assert(errors@ == spec_expected_errors(
                raw.threshold,
                raw.max_price_age_ms,
                raw.min_price,
                raw.max_price,
            ));
        }

        if errors.len() > 0 {
            return Err(ConfigErrors { errors });
        }

        match (threshold, max_price_age_ms, price_bounds) {
            (Some(threshold), Some(max_price_age_ms), Some(price_bounds)) => Ok(
                Config {
                    pair: raw.pair,
                    threshold,
                    max_price_age_ms,
                    rpc_providers,
                    output_format: raw.output_format,
                    price_bounds,
                    api_keys,
                },
            ),
            _ => {
                // unreachable: with no errors every field validated
                let mut fallback: Vec<ConfigError> = Vec::new();
                fallback.push(ConfigError::Threshold(raw.threshold));
                Err(ConfigErrors { errors: fallback })
            },
        }
    }

    /// Create the RPC provider list for a configuration.
    pub fn create_rpc_providers(custom_url: &Option<String>, api_keys: &ApiKeyConfig) -> (r: Vec<
        RpcProvider,
    >)
        ensures
            spec_is_providers_for(r@, *custom_url, *api_keys),
    {
        match custom_url {
            Some(url) => {
                let mut providers: Vec<RpcProvider> = Vec::new();
                let url_copy = url.clone();
                proof {
                    assert(url_copy@ == url@);
                }
                providers.push(
                    RpcProvider {
                        name: "Custom".to_owned(),
                        websocket_url: url_copy,
                        priority: 1,
                        provider_type: RpcProviderType::Custom,
                    },
                );
                providers
            },
            None => {
                if api_keys.has_keys() {
                    Config::get_authenticated_providers(api_keys)
                } else {
                    Config::get_default_providers()
                }
            },
        }
    }

    /// Build the authenticated provider list from the configured API keys:
    /// Helius first, then Alchemy, then GenesisGo. QuickNode needs a full
    /// endpoint URL handed in as the custom RPC URL, so its bare key builds
    /// nothing. Falls back to the public providers when no entry is built.
    pub fn get_authenticated_providers(api_keys: &ApiKeyConfig) -> (r: Vec<RpcProvider>)
        ensures
            spec_is_authenticated_providers(r@, *api_keys),
    {
        let mut providers: Vec<RpcProvider> = Vec::new();
        let mut priority: u8 = 1;

        // Helius gets the highest priority when its key is present.
        if let Some(api_key) = &api_keys.helius {
            let url = "wss://mainnet.helius-rpc.com/?api-key=".to_owned().concat(
                api_key.as_str(),
            );
            providers.push(
                RpcProvider {
                    name: "Helius (Authenticated)".to_owned(),
                    websocket_url: url,
                    priority,
                    provider_type: RpcProviderType::Helius,
                },
            );
            priority = priority + 1;
        }

        // QuickNode requires a full endpoint URL; a bare key is not enough.

        if let Some(api_key) = &api_keys.alchemy {
            let url = "wss://solana-mainnet.g.alchemy.com/v2/".to_owned().concat(
                api_key.as_str(),
            );
            providers.push(
                RpcProvider {
                    name: "Alchemy (Authenticated)".to_owned(),
                    websocket_url: url,
                    priority,
                    provider_type: RpcProviderType::Alchemy,
                },
            );
            priority = priority + 1;
        }

        if let Some(api_key) = &api_keys.genesisgo {
            let url = "wss://triton.genesysgo.net/".to_owned().concat(api_key.as_str());
            providers.push(
                RpcProvider {
                    name: "GenesisGo Triton (Authenticated)".to_owned(),
                    websocket_url: url,
                    priority,
                    provider_type: RpcProviderType::GenesisGo,
                },
            );
        }

        // Fall back to the public providers when nothing was built.
        if providers.len() == 0 {
            return Config::get_default_providers();
        }

        providers
    }

    /// The public RPC providers used when nothing better is configured.
    pub fn get_default_providers() -> (r: Vec<RpcProvider>)
        ensures
            spec_is_default_providers(r@),
    {
        let mut providers: Vec<RpcProvider> = Vec::new();
        providers.push(
            RpcProvider {
                name: "Public Solana (Limited)".to_owned(),
                websocket_url: "wss://api.mainnet-beta.solana.com/".to_owned(),
                priority: 1,
                provider_type: RpcProviderType::Public,
            },
        );
        providers.push(
            RpcProvider {
                name: "Solana Devnet (Fallback)".to_owned(),
                websocket_url: "wss://api.devnet.solana.com/".to_owned(),
                priority: 2,
                provider_type: RpcProviderType::Public,
            },
        );
        providers
    }
}

/// The exact error list that validation owes for the given raw values:
/// threshold first, then price age, then bounds.
pub open spec fn spec_expected_errors(
    threshold: u64,
    max_price_age_ms: u64,
    min_price: u64,
    max_price: u64,
) -> Seq<ConfigError> {
    let s0: Seq<ConfigError> = Seq::empty();
    let s1: Seq<ConfigError> = if threshold > MAX_THRESHOLD_MICRO_PCT {
        s0.push(ConfigError::Threshold(threshold))
    } else {
        s0
    };
    let s2: Seq<ConfigError> = if max_price_age_ms < 100 || max_price_age_ms > 60000 {
        s1.push(ConfigError::MaxPriceAge(max_price_age_ms))
    } else {
        s1
    };
    if min_price == 0 {
        s2.push(ConfigError::PriceBoundMinNotPositive(min_price))
    } else if max_price <= min_price {
        s2.push(ConfigError::PriceBoundOrder(min_price, max_price))
    } else {
        s2
    }
}

} // verus!
