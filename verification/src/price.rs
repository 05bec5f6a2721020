use vstd::prelude::*;

use crate::config::TradingPair;

verus! {

/// Age in milliseconds of an observation stamped `timestamp_ms`, seen at
/// `now_ms`. A timestamp in the future counts as age zero.
pub open spec fn spec_age_ms(timestamp_ms: u64, now_ms: u64) -> u64 {
    if now_ms >= timestamp_ms {
        (now_ms - timestamp_ms) as u64
    } else {
        0u64
    }
}

/// Helper for calculating the age of a timestamp in milliseconds.
pub fn calculate_age_ms(timestamp_ms: u64, now_ms: u64) -> (r: u64)
    ensures
        r == spec_age_ms(timestamp_ms, now_ms),
{
    if now_ms >= timestamp_ms {
        now_ms - timestamp_ms
    } else {
        0
    }
}

/// Price source identifier for arbitrage direction calculation.
#[derive(Debug, Clone, Copy, PartialEq, Eq, Structural)]
pub enum PriceSource {
    Solana,
    Binance,
}

impl PriceSource {
    /// Get the display name for this source.
    pub fn display_name(&self) -> (r: &'static str)
        ensures
            self is Solana ==> r@ == "Solana DEX"@,
            self is Binance ==> r@ == "Binance"@,
    {
        match self {
            PriceSource::Solana => "Solana DEX",
            PriceSource::Binance => "Binance",
        }
    }

    /// Check if this is a DEX source.
    pub fn is_dex(&self) -> (r: bool)
        ensures
            r == (self is Solana),
    {
        matches!(self, PriceSource::Solana)
    }

    /// Check if this is a CEX source.
    pub fn is_cex(&self) -> (r: bool)
        ensures
            r == (self is Binance),
    {
        matches!(self, PriceSource::Binance)
    }
}

/// Price update from a WebSocket source. The price is in micro-quote units
/// per base unit; the timestamp is in milliseconds since the Unix epoch.
#[derive(Debug, Clone, Copy, PartialEq, Eq, Structural)]
pub struct PriceUpdate {
    pub source: PriceSource,
    pub pair: TradingPair,
    pub price: u64,
    pub timestamp_ms: u64,
}

impl PriceUpdate {
    /// Create a new price update stamped with the caller's clock reading.
    pub fn new(source: PriceSource, pair: TradingPair, price: u64, now_ms: u64) -> (r: Self)
        ensures
            r == (PriceUpdate { source, pair, price, timestamp_ms: now_ms }),
    {
        PriceUpdate { source, pair, price, timestamp_ms: now_ms }
    }

    /// Validate the price value for financial data integrity.
    pub fn is_valid_price(&self) -> (r: bool)
        ensures
            r == (self.price > 0),
    {
        self.price > 0
    }

    /// Create a price update with a specific timestamp.
    pub fn with_timestamp(
        source: PriceSource,
        pair: TradingPair,
        price: u64,
        timestamp_ms: u64,
    ) -> (r: Self)
        ensures
            r == (PriceUpdate { source, pair, price, timestamp_ms }),
    {
        PriceUpdate { source, pair, price, timestamp_ms }
    }

    /// Get the age of this price update in milliseconds.
    pub fn age_ms(&self, now_ms: u64) -> (r: u64)
        ensures
            r == spec_age_ms(self.timestamp_ms, now_ms),
    {
        calculate_age_ms(self.timestamp_ms, now_ms)
    }

    /// Check whether this price update is stale at the given clock reading.
    pub fn is_stale(&self, max_age_ms: u64, now_ms: u64) -> (r: bool)
        ensures
            r == (spec_age_ms(self.timestamp_ms, now_ms) > max_age_ms),
    {
        self.age_ms(now_ms) > max_age_ms
    }
}

/// Price data with source metadata for arbitrage calculations.
#[derive(Debug, Clone, Copy, PartialEq, Eq, Structural)]
pub struct SourcePrice {
    pub price: u64,
    pub source: PriceSource,
    pub timestamp_ms: u64,
}

impl SourcePrice {
    /// The cell shape that a price update coalesces into.
    pub open spec fn spec_from_update(update: PriceUpdate) -> SourcePrice {
        SourcePrice {
            price: update.price,
            source: update.source,
            timestamp_ms: update.timestamp_ms,
        }
    }

    /// Create a new source price stamped with the caller's clock reading.
    pub fn new(price: u64, source: PriceSource, now_ms: u64) -> (r: Self)
        ensures
            r == (SourcePrice { price, source, timestamp_ms: now_ms }),
    {
        SourcePrice { price, source, timestamp_ms: now_ms }
    }

    /// Create a source price from a price update.
    pub fn from_update(update: &PriceUpdate) -> (r: Self)
        ensures
            r == Self::spec_from_update(*update),
    {
        SourcePrice {
            price: update.price,
            source: update.source,
            timestamp_ms: update.timestamp_ms,
        }
    }

    /// Get the age of this price data in milliseconds.
    pub fn age_ms(&self, now_ms: u64) -> (r: u64)
        ensures
            r == spec_age_ms(self.timestamp_ms, now_ms),
    {
        calculate_age_ms(self.timestamp_ms, now_ms)
    }

    /// Check whether this price data is stale at the given clock reading.
    pub fn is_stale(&self, max_age_ms: u64, now_ms: u64) -> (r: bool)
        ensures
            r == (spec_age_ms(self.timestamp_ms, now_ms) > max_age_ms),
    {
        self.age_ms(now_ms) > max_age_ms
    }

    /// Get the timestamp as milliseconds since the Unix epoch.
    pub fn timestamp_ms(&self) -> (r: u64)
        ensures
            r == self.timestamp_ms,
    {
        self.timestamp_ms
    }
}

/// Two-slot coalescing cache holding the latest price from each source.
/// Each slot is either empty or holds the most recent observation for that
/// source; older observations are silently overwritten.
#[derive(Debug, Clone, PartialEq, Eq, Structural)]
pub struct PriceCache {
    solana_price: Option<SourcePrice>,
    binance_price: Option<SourcePrice>,
}

impl PriceCache {
    /// The slot that serves a given source.
    pub closed spec fn spec_slot(&self, source: PriceSource) -> Option<SourcePrice> {
        match source {
            PriceSource::Solana => self.solana_price,
            PriceSource::Binance => self.binance_price,
        }
    }

    /// The cache after coalescing one update: the matching slot holds the
    /// update, the other slot is untouched.
    pub closed spec fn spec_updated(self, update: PriceUpdate) -> PriceCache {
        match update.source {
            PriceSource::Solana => PriceCache {
                solana_price: Some(SourcePrice::spec_from_update(update)),
                ..self
            },
            PriceSource::Binance => PriceCache {
                binance_price: Some(SourcePrice::spec_from_update(update)),
                ..self
            },
        }
    }

    /// Create a new empty price cache.
    pub fn new() -> (r: Self)
        ensures
            r.spec_slot(PriceSource::Solana) is None,
            r.spec_slot(PriceSource::Binance) is None,
    {
        PriceCache { solana_price: None, binance_price: None }
    }

    /// Update the slot for the update's source, leaving the other slot alone.
    pub fn update(&mut self, update: &PriceUpdate)
        ensures
            *final(self) == old(self).spec_updated(*update),
    {
        let source_price = SourcePrice::from_update(update);
        match update.source {
            PriceSource::Solana => {
                self.solana_price = Some(source_price);
            },
            PriceSource::Binance => {
                self.binance_price = Some(source_price);
            },
        }
    }

    /// Get the current prices from both sources, if both are available.
    pub fn get_both_prices(&self) -> (r: Option<(SourcePrice, SourcePrice)>)
        ensures
            match r {
                Some(pair) => self.spec_slot(PriceSource::Solana) == Some(pair.0)
                    && self.spec_slot(PriceSource::Binance) == Some(pair.1),
                None => self.spec_slot(PriceSource::Solana) is None || self.spec_slot(
                    PriceSource::Binance,
                ) is None,
            },
    {
        match (&self.solana_price, &self.binance_price) {
            (Some(solana), Some(binance)) => Some((*solana, *binance)),
            _ => None,
        }
    }

    /// Get the price for a specific source.
    pub fn get_price(&self, source: PriceSource) -> (r: Option<SourcePrice>)
        ensures
            r == self.spec_slot(source),
    {
        match source {
            PriceSource::Solana => self.solana_price,
            PriceSource::Binance => self.binance_price,
        }
    }

    /// Both slots hold fresh observations at the given clock reading.
    pub open spec fn spec_has_fresh(
        &self,
        max_age_ms: u64,
        now_ms: u64,
    ) -> bool {
        &&& match self.spec_slot(PriceSource::Solana) {
            Some(p) => spec_age_ms(p.timestamp_ms, now_ms) <= max_age_ms,
            None => false,
        }
        &&& match self.spec_slot(PriceSource::Binance) {
            Some(p) => spec_age_ms(p.timestamp_ms, now_ms) <= max_age_ms,
            None => false,
        }
    }

    /// Check whether both prices are available and fresh.
    pub fn has_fresh_prices(&self, max_age_ms: u64, now_ms: u64) -> (r: bool)
        ensures
            r == self.spec_has_fresh(max_age_ms, now_ms),
    {
        match self.get_both_prices() {
            Some((solana, binance)) => !solana.is_stale(max_age_ms, now_ms) && !binance.is_stale(
                max_age_ms,
                now_ms,
            ),
            None => false,
        }
    }

    /// One slot after a purge: emptied exactly when it held a stale price.
    pub open spec fn spec_purged_slot(
        slot: Option<SourcePrice>,
        max_age_ms: u64,
        now_ms: u64,
    ) -> Option<SourcePrice> {
        match slot {
            Some(p) => if spec_age_ms(p.timestamp_ms, now_ms) > max_age_ms {
                None
            } else {
                Some(p)
            },
            None => None,
        }
    }

    /// Clear any slot whose observation is older than the freshness window.
    pub fn clear_stale_prices(&mut self, max_age_ms: u64, now_ms: u64)
        ensures
            final(self).spec_slot(PriceSource::Solana) == Self::spec_purged_slot(
                old(self).spec_slot(PriceSource::Solana),
                max_age_ms,
                now_ms,
            ),
            final(self).spec_slot(PriceSource::Binance) == Self::spec_purged_slot(
                old(self).spec_slot(PriceSource::Binance),
                max_age_ms,
                now_ms,
            ),
    {
        let clear_solana = match &self.solana_price {
            Some(p) => p.is_stale(max_age_ms, now_ms),
            None => false,
        };
        if clear_solana {
            self.solana_price = None;
        }
        let clear_binance = match &self.binance_price {
            Some(p) => p.is_stale(max_age_ms, now_ms),
            None => false,
        };
        if clear_binance {
            self.binance_price = None;
        }
    }
}

/// Law: an update is retained. Right after a price update is coalesced into
/// the cache, the slot for its source holds exactly that observation, and a
/// snapshot taken from the updated cache returns it for that source.
pub proof fn law_snapshot_sees_update(cache: PriceCache, update: PriceUpdate)
    ensures
        cache.spec_updated(update).spec_slot(update.source) == Some(
            SourcePrice::spec_from_update(update),
        ),
{
}

/// Law: an update coalesces. Updating one source never disturbs the slot of
/// the other source.
pub proof fn law_update_is_per_slot(cache: PriceCache, update: PriceUpdate, other: PriceSource)
    requires
        other != update.source,
    ensures
        cache.spec_updated(update).spec_slot(other) == cache.spec_slot(other),
{
}

/// Law: the latest observation is what a snapshot sees. After an update
/// and then a later one, the slot for a source holds the later update when
/// both came from it, and still the first when the later one came from the
/// other source — a snapshot never returns anything older than the last
/// update pushed for its source.
pub proof fn law_later_update_wins(cache: PriceCache, first: PriceUpdate, second: PriceUpdate)
    ensures
        second.source == first.source ==> cache.spec_updated(first).spec_updated(
            second,
        ).spec_slot(first.source) == Some(SourcePrice::spec_from_update(second)),
        second.source != first.source ==> cache.spec_updated(first).spec_updated(
            second,
        ).spec_slot(first.source) == Some(SourcePrice::spec_from_update(first)),
{
}

} // verus!
