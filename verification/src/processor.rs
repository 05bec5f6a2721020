use vstd::prelude::*;

use crate::config::{MaxPriceAge, PriceBounds};
use crate::price::{spec_age_ms, PriceCache, PriceSource, SourcePrice};

verus! {

/// Errors that can occur during price processing.
#[derive(Debug, Clone, Copy, PartialEq, Eq, Structural)]
pub enum ProcessorError {
    /// No fresh price data available: at least one slot is empty.
    NoFreshData,
    /// Price data is stale: its age exceeds the freshness window.
    StaleData { age_ms: u64, max_age_ms: u64 },
    /// Invalid price detected (zero or outside the configured bounds).
    InvalidPrice { price: u64 },
    /// The shared cache could not be read.
    CacheLockError,
}

/// Spread percentage normalized by the CEX price, in micro-percent:
/// `100 * spread / cex_price`, scaled by a million. A zero denominator
/// yields zero.
pub open spec fn spec_spread_pct(spread: u64, cex_price: u64) -> u128 {
    if cex_price == 0 {
        0u128
    } else {
        (spread * 100_000_000 / (cex_price as int)) as u128
    }
}

/// Absolute difference of the two venue prices.
pub open spec fn spec_spread(a: u64, b: u64) -> u64 {
    if a >= b {
        (a - b) as u64
    } else {
        (b - a) as u64
    }
}

/// Validated price pair with a freshness guarantee. Prices are in
/// micro-quote units; the spread percentage is in micro-percent.
#[derive(Debug, Clone, Copy, PartialEq, Eq, Structural)]
pub struct ValidatedPricePair {
    pub solana_price: SourcePrice,
    pub binance_price: SourcePrice,
    pub price_spread: u64,
    pub price_spread_percentage: u128,
}

impl ValidatedPricePair {
    /// Create a new validated price pair. The spread is the absolute price
    /// difference; the spread percentage is normalized by the Binance (CEX)
    /// price by convention.
    pub fn new(solana_price: SourcePrice, binance_price: SourcePrice) -> (r: Self)
        ensures
            r == (ValidatedPricePair {
                solana_price,
                binance_price,
                price_spread: spec_spread(solana_price.price, binance_price.price),
                price_spread_percentage: spec_spread_pct(
                    spec_spread(solana_price.price, binance_price.price),
                    binance_price.price,
                ),
            }),
    {
        let price_spread: u64 = if solana_price.price >= binance_price.price {
            solana_price.price - binance_price.price
        } else {
            binance_price.price - solana_price.price
        };
        let price_spread_percentage: u128 = if binance_price.price == 0 {
            0
        } else {
            (price_spread as u128) * 100_000_000 / (binance_price.price as u128)
        };
        proof {
            if binance_price.price != 0 {
                assert(price_spread_percentage == spec_spread_pct(
                    price_spread,
                    binance_price.price,
                ));
            }
        }
        ValidatedPricePair { solana_price, binance_price, price_spread, price_spread_percentage }
    }

    /// Get the higher-priced source; the CEX wins exact ties.
    pub fn higher_price_source(&self) -> (r: PriceSource)
        ensures
            r == if self.solana_price.price > self.binance_price.price {
                PriceSource::Solana
            } else {
                PriceSource::Binance
            },
    {
        if self.solana_price.price > self.binance_price.price {
            PriceSource::Solana
        } else {
            PriceSource::Binance
        }
    }

    /// Get the lower-priced source; the CEX wins exact ties.
    pub fn lower_price_source(&self) -> (r: PriceSource)
        ensures
            r == if self.solana_price.price < self.binance_price.price {
                PriceSource::Solana
            } else {
                PriceSource::Binance
            },
    {
        if self.solana_price.price < self.binance_price.price {
            PriceSource::Solana
        } else {
            PriceSource::Binance
        }
    }

    /// Get the price observation for a specific source.
    pub fn get_price(&self, source: PriceSource) -> (r: &SourcePrice)
        ensures
            *r == self.spec_price_of(source),
    {
        match source {
            PriceSource::Solana => &self.solana_price,
            PriceSource::Binance => &self.binance_price,
        }
    }

    /// The observation that serves a given source.
    pub open spec fn spec_price_of(&self, source: PriceSource) -> SourcePrice {
        match source {
            PriceSource::Solana => self.solana_price,
            PriceSource::Binance => self.binance_price,
        }
    }

    /// Check whether prices are inverted (Solana above Binance).
    pub fn is_inverted(&self) -> (r: bool)
        ensures
            r == (self.solana_price.price > self.binance_price.price),
    {
        self.solana_price.price > self.binance_price.price
    }

    /// Get the age of the older of the two observations.
    pub fn max_age_ms(&self, now_ms: u64) -> (r: u64)
        ensures
            r == if spec_age_ms(self.solana_price.timestamp_ms, now_ms) >= spec_age_ms(
                self.binance_price.timestamp_ms,
                now_ms,
            ) {
                spec_age_ms(self.solana_price.timestamp_ms, now_ms)
            } else {
                spec_age_ms(self.binance_price.timestamp_ms, now_ms)
            },
    {
        let solana_age = self.solana_price.age_ms(now_ms);
        let binance_age = self.binance_price.age_ms(now_ms);
        if solana_age >= binance_age {
            solana_age
        } else {
            binance_age
        }
    }
}

/// Law: the spread of a validated pair is the absolute difference of the two
/// prices — never negative — and the spread percentage is exactly
/// `100 * spread / cex_price` in micro-percent whenever the CEX price is
/// positive.
pub proof fn law_spread_formula(solana: SourcePrice, binance: SourcePrice)
    requires
        binance.price > 0,
    ensures
        spec_spread(solana.price, binance.price) >= 0,
        spec_spread(solana.price, binance.price) == if solana.price >= binance.price {
            solana.price - binance.price
        } else {
            binance.price - solana.price
        },
        spec_spread_pct(spec_spread(solana.price, binance.price), binance.price) == spec_spread(
            solana.price,
            binance.price,
        ) * 100_000_000 / (binance.price as int),
{
}

/// The outcome the validator owes for one slot's freshness at a given clock
/// reading: `None` for pass, or the stale error.
pub open spec fn spec_freshness_check(
    price: SourcePrice,
    max_age_ms: u64,
    now_ms: u64,
) -> Option<ProcessorError> {
    if spec_age_ms(price.timestamp_ms, now_ms) > max_age_ms {
        Some(
            ProcessorError::StaleData {
                age_ms: spec_age_ms(price.timestamp_ms, now_ms),
                max_age_ms,
            },
        )
    } else {
        None
    }
}

/// The outcome the validator owes for one slot's price value: `None` for
/// pass, or the invalid-price error. A price passes when it is positive and
/// within the configured bounds.
pub open spec fn spec_value_check(price: SourcePrice, bounds: PriceBounds) -> Option<
    ProcessorError,
> {
    if price.price == 0 || price.price < bounds.min_price || price.price > bounds.max_price {
        Some(ProcessorError::InvalidPrice { price: price.price })
    } else {
        None
    }
}

/// The full validation outcome for a snapshot of the two slots: missing data
/// first, then freshness (Solana before Binance), then value sanity (in the
/// same order, only when enabled), and otherwise the validated pair.
pub open spec fn spec_validated(
    solana_slot: Option<SourcePrice>,
    binance_slot: Option<SourcePrice>,
    max_age_ms: u64,
    bounds: PriceBounds,
    validation_enabled: bool,
    now_ms: u64,
) -> Result<ValidatedPricePair, ProcessorError> {
    match (solana_slot, binance_slot) {
        (Some(solana), Some(binance)) => if spec_freshness_check(
            solana,
            max_age_ms,
            now_ms,
        ) is Some {
            Err(spec_freshness_check(solana, max_age_ms, now_ms)->Some_0)
        } else if spec_freshness_check(binance, max_age_ms, now_ms) is Some {
            Err(spec_freshness_check(binance, max_age_ms, now_ms)->Some_0)
        } else if validation_enabled && spec_value_check(solana, bounds) is Some {
            Err(spec_value_check(solana, bounds)->Some_0)
        } else if validation_enabled && spec_value_check(binance, bounds) is Some {
            Err(spec_value_check(binance, bounds)->Some_0)
        } else {
            Ok(
                ValidatedPricePair {
                    solana_price: solana,
                    binance_price: binance,
                    price_spread: spec_spread(solana.price, binance.price),
                    price_spread_percentage: spec_spread_pct(
                        spec_spread(solana.price, binance.price),
                        binance.price,
                    ),
                },
            )
        },
        _ => Err(ProcessorError::NoFreshData),
    }
}

/// Price processor that validates and promotes snapshots of the price cache
/// to validated pairs.
#[derive(Debug, Clone, Copy, PartialEq, Eq, Structural)]
pub struct PriceProcessor {
    max_price_age: MaxPriceAge,
    validation_enabled: bool,
    price_bounds: PriceBounds,
}

impl PriceProcessor {
    pub closed spec fn spec_max_price_age(&self) -> u64 {
        self.max_price_age.spec_value()
    }

    pub closed spec fn spec_validation_enabled(&self) -> bool {
        self.validation_enabled
    }

    pub closed spec fn spec_price_bounds(&self) -> PriceBounds {
        self.price_bounds
    }

    /// Create a new price processor with the given freshness window and
    /// price sanity bounds.
    pub fn new(max_price_age: MaxPriceAge, price_bounds: PriceBounds) -> (r: Self)
        ensures
            r.spec_max_price_age() == max_price_age.spec_value(),
            r.spec_validation_enabled(),
            r.spec_price_bounds() == price_bounds,
    {
        PriceProcessor { max_price_age, validation_enabled: true, price_bounds }
    }

    /// Create a processor with custom settings and the default sanity
    /// bounds of 1 to 10000 quote units.
    pub fn with_custom_settings(max_price_age: MaxPriceAge, validation_enabled: bool) -> (r: Self)
        ensures
            r.spec_max_price_age() == max_price_age.spec_value(),
            r.spec_validation_enabled() == validation_enabled,
            r.spec_price_bounds() == (PriceBounds {
                min_price: 1_000_000u64,
                max_price: 10_000_000_000u64,
            }),
    {
        PriceProcessor {
            max_price_age,
            validation_enabled,
            price_bounds: PriceBounds { min_price: 1_000_000, max_price: 10_000_000_000 },
        }
    }

    /// Promote a snapshot of the cache to a validated price pair: fail with
    /// `NoFreshData` when a slot is empty, `StaleData` when an observation
    /// is older than the freshness window, and `InvalidPrice` when a price
    /// is zero or out of bounds while validation is enabled.
    pub fn get_validated_prices(&self, cache: &PriceCache, now_ms: u64) -> (r: Result<
        ValidatedPricePair,
        ProcessorError,
    >)
        ensures
            r == spec_validated(
                cache.spec_slot(PriceSource::Solana),
                cache.spec_slot(PriceSource::Binance),
                self.spec_max_price_age(),
                self.spec_price_bounds(),
                self.spec_validation_enabled(),
                now_ms,
            ),
    {
        let (solana_price, binance_price) = match cache.get_both_prices() {
            Some(pair) => pair,
            None => {
                return Err(ProcessorError::NoFreshData);
            },
        };

        if let Some(e) = self.check_price_freshness(&solana_price, now_ms) {
            return Err(e);
        }
        if let Some(e) = self.check_price_freshness(&binance_price, now_ms) {
            return Err(e);
        }

        if self.validation_enabled {
            if let Some(e) = self.check_price_value(&solana_price) {
                return Err(e);
            }
            if let Some(e) = self.check_price_value(&binance_price) {
                return Err(e);
            }
        }

        Ok(ValidatedPricePair::new(solana_price, binance_price))
    }

    /// Check whether fresh prices are available, without value validation.
    pub fn has_fresh_prices(&self, cache: &PriceCache, now_ms: u64) -> (r: bool)
        ensures
            r == cache.spec_has_fresh(self.spec_max_price_age(), now_ms),
    {
        cache.has_fresh_prices(self.max_price_age.value(), now_ms)
    }

    /// Get the ages of the two cached observations, if both are present.
    pub fn get_price_age_stats(&self, cache: &PriceCache, now_ms: u64) -> (r: Option<(u64, u64)>)
        ensures
            match (
                cache.spec_slot(PriceSource::Solana),
                cache.spec_slot(PriceSource::Binance),
            ) {
                (Some(s), Some(b)) => r == Some(
                    (
                        spec_age_ms(s.timestamp_ms, now_ms),
                        spec_age_ms(b.timestamp_ms, now_ms),
                    ),
                ),
                _ => r is None,
            },
    {
        match cache.get_both_prices() {
            Some((solana, binance)) => Some((solana.age_ms(now_ms), binance.age_ms(now_ms))),
            None => None,
        }
    }

    /// Check one observation against the freshness window.
    pub fn check_price_freshness(&self, price: &SourcePrice, now_ms: u64) -> (r: Option<
        ProcessorError,
    >)
        ensures
            r == spec_freshness_check(*price, self.spec_max_price_age(), now_ms),
    {
        let age_ms = price.age_ms(now_ms);
        let max_age_ms = self.max_price_age.value();
        if age_ms > max_age_ms {
            Some(ProcessorError::StaleData { age_ms, max_age_ms })
        } else {
            None
        }
    }

    /// Check one observation against the price sanity bounds.
    pub fn check_price_value(&self, price: &SourcePrice) -> (r: Option<ProcessorError>)
        ensures
            r == spec_value_check(*price, self.spec_price_bounds()),
    {
        if price.price == 0 || price.price < self.price_bounds.min_price || price.price
            > self.price_bounds.max_price {
            Some(ProcessorError::InvalidPrice { price: price.price })
        } else {
            None
        }
    }

    /// Get the maximum allowed price age in milliseconds.
    pub fn max_price_age(&self) -> (r: u64)
        ensures
            r == self.spec_max_price_age(),
    {
        self.max_price_age.value()
    }

    /// Check whether value validation is enabled.
    pub fn is_validation_enabled(&self) -> (r: bool)
        ensures
            r == self.spec_validation_enabled(),
    {
        self.validation_enabled
    }

    /// Enable or disable price value validation.
    pub fn set_validation_enabled(&mut self, enabled: bool)
        ensures
            final(self).spec_validation_enabled() == enabled,
            final(self).spec_max_price_age() == old(self).spec_max_price_age(),
            final(self).spec_price_bounds() == old(self).spec_price_bounds(),
    {
        self.validation_enabled = enabled;
    }
}

/// Law: a freshness window of zero rejects any observation made strictly
/// before the clock reading — validation then fails with the stale error
/// that reports the observation's age.
pub proof fn law_zero_window_is_stale(
    solana: SourcePrice,
    binance: SourcePrice,
    bounds: PriceBounds,
    validation_enabled: bool,
    now_ms: u64,
)
    requires
        now_ms > solana.timestamp_ms,
    ensures
        spec_validated(
            Some(solana),
            Some(binance),
            0u64,
            bounds,
            validation_enabled,
            now_ms,
        ) == Err::<ValidatedPricePair, ProcessorError>(
            ProcessorError::StaleData {
                age_ms: spec_age_ms(solana.timestamp_ms, now_ms),
                max_age_ms: 0u64,
            },
        ),
{
    assert(spec_age_ms(solana.timestamp_ms, now_ms) > 0);
}

} // verus!
