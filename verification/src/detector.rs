use vstd::prelude::*;

use crate::calculator::{
    spec_opportunity, ArbitrageOpportunity, CalculatorError, FeeCalculator, MAX_CALC_PRICE,
};
use crate::config::{Config, ProfitThreshold, TradingPair};
use crate::price::{spec_age_ms, PriceCache, PriceSource};
use crate::processor::{spec_validated, PriceProcessor, ProcessorError, ValidatedPricePair};

verus! {

/// Errors that can occur during arbitrage detection.
#[derive(Debug, Clone, Copy, PartialEq, Eq, Structural)]
pub enum DetectorError {
    /// The price processor rejected the snapshot.
    ProcessorError(ProcessorError),
    /// The fee calculator rejected its input.
    CalculatorError(CalculatorError),
    /// No arbitrage opportunities were found.
    NoOpportunitiesFound,
    /// Detection timed out (carries the timeout in ms).
    DetectionTimeout(u64),
    /// The detector is not running.
    DetectorNotRunning,
}

/// Saturating addition on the spread accumulator.
pub open spec fn spec_sat_add(a: u128, b: u128) -> u128 {
    if a + b > u128::MAX {
        u128::MAX
    } else {
        (a + b) as u128
    }
}

/// Statistics about arbitrage detection. The average spread is the exact
/// running mean of every recorded spread percentage (micro-percent),
/// maintained through a saturating sum.
#[derive(Debug, Clone, Copy, PartialEq, Eq, Structural)]
pub struct DetectionStats {
    /// Total number of price checks performed.
    pub total_checks: u64,
    /// Number of opportunities found (profitable after fees).
    pub opportunities_found: u64,
    /// Number of opportunities that met the threshold.
    pub threshold_opportunities: u64,
    /// Best opportunity seen (highest profit percentage).
    pub best_opportunity: Option<ArbitrageOpportunity>,
    /// Average spread percentage over all checks, in micro-percent.
    pub average_spread: u128,
    /// Running sum of recorded spread percentages, in micro-percent.
    pub spread_sum: u128,
    /// Detection uptime in milliseconds.
    pub uptime_ms: u64,
    /// Clock reading of the last check.
    pub last_check_ms: Option<u64>,
}

impl DetectionStats {
    /// The counter invariant the detector maintains: every threshold hit
    /// was an opportunity, and every opportunity was seen during a check.
    pub open spec fn spec_counters_wf(&self) -> bool {
        &&& self.threshold_opportunities <= self.opportunities_found
        &&& self.opportunities_found <= self.total_checks
    }

    /// The average is the truncated mean of the recorded sum.
    pub open spec fn spec_average_wf(&self) -> bool {
        self.average_spread == if self.total_checks == 0 {
            0u128
        } else {
            (self.spread_sum / (self.total_checks as u128)) as u128
        }
    }

    pub open spec fn spec_wf(&self) -> bool {
        self.spec_counters_wf() && self.spec_average_wf()
    }

    /// Fresh statistics: all counters at zero, nothing seen yet.
    pub open spec fn spec_default() -> DetectionStats {
        DetectionStats {
            total_checks: 0u64,
            opportunities_found: 0u64,
            threshold_opportunities: 0u64,
            best_opportunity: None,
            average_spread: 0u128,
            spread_sum: 0u128,
            uptime_ms: 0u64,
            last_check_ms: None,
        }
    }

    /// The statistics after one more price check.
    pub open spec fn spec_checked(self, spread_percentage: u128, now_ms: u64) -> DetectionStats {
        let sum = spec_sat_add(self.spread_sum, spread_percentage);
        let checks = (self.total_checks + 1) as u64;
        DetectionStats {
            total_checks: checks,
            last_check_ms: Some(now_ms),
            spread_sum: sum,
            average_spread: (sum / (checks as u128)) as u128,
            ..self
        }
    }

    /// The best of the recorded and the new opportunity, by profit
    /// percentage; the incumbent wins ties.
    pub open spec fn spec_best_updated(
        best: Option<ArbitrageOpportunity>,
        opportunity: ArbitrageOpportunity,
    ) -> Option<ArbitrageOpportunity> {
        match best {
            Some(b) => if opportunity.profit_percentage > b.profit_percentage {
                Some(opportunity)
            } else {
                Some(b)
            },
            None => Some(opportunity),
        }
    }

    /// The statistics after recording an opportunity.
    pub open spec fn spec_noted(
        self,
        opportunity: ArbitrageOpportunity,
        meets_threshold: bool,
    ) -> DetectionStats {
        DetectionStats {
            opportunities_found: (self.opportunities_found + 1) as u64,
            threshold_opportunities: if meets_threshold {
                (self.threshold_opportunities + 1) as u64
            } else {
                self.threshold_opportunities
            },
            best_opportunity: Self::spec_best_updated(self.best_opportunity, opportunity),
            ..self
        }
    }

    /// Update the statistics with a new price check.
    pub fn update_check(&mut self, spread_percentage: u128, now_ms: u64)
        requires
            old(self).total_checks < u64::MAX,
        ensures
            *final(self) == old(self).spec_checked(spread_percentage, now_ms),
    {
        self.total_checks = self.total_checks + 1;
        self.last_check_ms = Some(now_ms);
        if self.spread_sum <= u128::MAX - spread_percentage {
            self.spread_sum = self.spread_sum + spread_percentage;
        } else {
            self.spread_sum = u128::MAX;
        }
        self.average_spread = self.spread_sum / (self.total_checks as u128);
    }

    /// Update the statistics with a found opportunity, counting a
    /// threshold hit when it qualifies and keeping the best seen.
    pub fn update_opportunity(
        &mut self,
        opportunity: &ArbitrageOpportunity,
        meets_threshold: bool,
    )
        requires
            old(self).opportunities_found < u64::MAX,
            old(self).threshold_opportunities < u64::MAX,
        ensures
            *final(self) == old(self).spec_noted(*opportunity, meets_threshold),
    {
        self.opportunities_found = self.opportunities_found + 1;
        if meets_threshold {
            self.threshold_opportunities = self.threshold_opportunities + 1;
        }
        let replace = match &self.best_opportunity {
            Some(best) => opportunity.profit_percentage > best.profit_percentage,
            None => true,
        };
        if replace {
            self.best_opportunity = Some(*opportunity);
        }
    }

    /// Update the uptime from the detection start time.
    pub fn update_uptime(&mut self, start_time_ms: u64, now_ms: u64)
        ensures
            *final(self) == (DetectionStats {
                uptime_ms: spec_age_ms(start_time_ms, now_ms),
                ..*old(self)
            }),
    {
        self.uptime_ms = crate::price::calculate_age_ms(start_time_ms, now_ms);
    }

    /// The share of checks that found an opportunity, in micro-percent.
    pub fn success_rate(&self) -> (r: u64)
        requires
            self.spec_counters_wf(),
        ensures
            self.total_checks == 0 ==> r == 0,
            self.total_checks > 0 ==> r == self.opportunities_found * 100_000_000 / (
            self.total_checks as int),
    {
        if self.total_checks == 0 {
            0
        } else {
            proof {
                crate::calculator::lemma_rate_bounded(
                    self.opportunities_found as int,
                    self.total_checks as int,
                );
            }
            (((self.opportunities_found as u128) * 100_000_000) / (self.total_checks
                as u128)) as u64
        }
    }

    /// The share of checks that met the threshold, in micro-percent.
    pub fn threshold_success_rate(&self) -> (r: u64)
        requires
            self.spec_counters_wf(),
        ensures
            self.total_checks == 0 ==> r == 0,
            self.total_checks > 0 ==> r == self.threshold_opportunities * 100_000_000 / (
            self.total_checks as int),
    {
        if self.total_checks == 0 {
            0
        } else {
            proof {
                crate::calculator::lemma_rate_bounded(
                    self.threshold_opportunities as int,
                    self.total_checks as int,
                );
            }
            (((self.threshold_opportunities as u128) * 100_000_000) / (self.total_checks
                as u128)) as u64
        }
    }
}

impl Default for DetectionStats {
    /// Fresh statistics: all counters at zero, nothing seen yet.
    fn default() -> (r: Self)
        ensures
            r == DetectionStats::spec_default(),
            r.spec_wf(),
    {
        DetectionStats {
            total_checks: 0,
            opportunities_found: 0,
            threshold_opportunities: 0,
            best_opportunity: None,
            average_spread: 0,
            spread_sum: 0,
            uptime_ms: 0,
            last_check_ms: None,
        }
    }
}

/// Law: the detection counters are ordered. In any well-formed statistics
/// record, the opportunities found never exceed the checks performed, and
/// the threshold hits never exceed the opportunities found.
pub proof fn law_counters_ordered(stats: DetectionStats)
    requires
        stats.spec_counters_wf(),
    ensures
        stats.opportunities_found <= stats.total_checks,
        stats.threshold_opportunities <= stats.opportunities_found,
{
}

/// Law: one check followed by at most one recorded opportunity preserves
/// the counter ordering.
pub proof fn law_tick_preserves_counters(
    stats: DetectionStats,
    spread_percentage: u128,
    now_ms: u64,
    opportunity: ArbitrageOpportunity,
    meets_threshold: bool,
)
    requires
        stats.spec_counters_wf(),
        stats.total_checks < u64::MAX,
    ensures
        stats.spec_checked(spread_percentage, now_ms).spec_counters_wf(),
        stats.spec_checked(spread_percentage, now_ms).spec_noted(
            opportunity,
            meets_threshold,
        ).spec_counters_wf(),
{
}

/// The outcome of one detection pass over a snapshot.
#[derive(Debug, Clone, Copy, PartialEq, Eq, Structural)]
pub enum DetectionTick {
    /// An opportunity met the threshold: deliver it to the subscriber.
    Emitted(ArbitrageOpportunity),
    /// An opportunity exists but sits below the threshold.
    BelowThreshold(ArbitrageOpportunity),
    /// The pair is valid but carries no positive spread after fees.
    NoOpportunity,
    /// No fresh data yet: wait briefly without counting an error.
    NoFreshData,
    /// Validation failed: count an error and continue.
    DetectionError(DetectorError),
}

/// Arbitrage detector that inspects price snapshots and identifies
/// threshold-crossing opportunities.
pub struct ArbitrageDetector {
    price_processor: PriceProcessor,
    fee_calculator: FeeCalculator,
    profit_threshold: ProfitThreshold,
    trading_pair: TradingPair,
    check_interval_ms: u64,
    stats: DetectionStats,
    is_running: bool,
}

impl ArbitrageDetector {
    pub closed spec fn spec_processor(&self) -> PriceProcessor {
        self.price_processor
    }

    pub closed spec fn spec_calculator(&self) -> FeeCalculator {
        self.fee_calculator
    }

    pub closed spec fn spec_threshold(&self) -> ProfitThreshold {
        self.profit_threshold
    }

    pub closed spec fn spec_pair(&self) -> TradingPair {
        self.trading_pair
    }

    pub closed spec fn spec_check_interval_ms(&self) -> u64 {
        self.check_interval_ms
    }

    pub closed spec fn spec_stats(&self) -> DetectionStats {
        self.stats
    }

    pub closed spec fn spec_is_running(&self) -> bool {
        self.is_running
    }

    /// The detector's invariant: a well-formed calculator, well-formed
    /// statistics, and a validating processor whose price bounds fit the
    /// calculator's range.
    pub open spec fn spec_wf(&self) -> bool {
        &&& self.spec_calculator().spec_wf()
        &&& self.spec_stats().spec_wf()
        &&& self.spec_processor().spec_validation_enabled()
        &&& self.spec_processor().spec_price_bounds().min_price > 0
        &&& self.spec_processor().spec_price_bounds().max_price <= MAX_CALC_PRICE
    }

    /// Create a new arbitrage detector from a validated configuration.
    /// The configured price bounds must fit the calculator's range.
    pub fn new(config: &Config, fee_calculator: FeeCalculator) -> (r: Self)
        requires
            fee_calculator.spec_wf(),
            config.price_bounds.min_price > 0,
            config.price_bounds.max_price <= MAX_CALC_PRICE,
        ensures
            r.spec_wf(),
            r.spec_calculator() == fee_calculator,
            r.spec_threshold() == config.threshold,
            r.spec_pair() == config.pair,
            r.spec_check_interval_ms() == 500,
            r.spec_stats() == DetectionStats::spec_default(),
            !r.spec_is_running(),
            r.spec_processor().spec_max_price_age() == config.max_price_age_ms.spec_value(),
            r.spec_processor().spec_price_bounds() == config.price_bounds,
            r.spec_processor().spec_validation_enabled(),
    {
        let price_processor = PriceProcessor::new(config.max_price_age_ms, config.price_bounds);
        ArbitrageDetector {
            price_processor,
            fee_calculator,
            profit_threshold: config.threshold,
            trading_pair: config.pair,
            check_interval_ms: 500,
            stats: DetectionStats::default(),
            is_running: false,
        }
    }

    /// Use a custom check interval, in milliseconds.
    pub fn with_check_interval(self, interval_ms: u64) -> (r: Self)
        ensures
            r.spec_check_interval_ms() == interval_ms,
            r.spec_processor() == self.spec_processor(),
            r.spec_calculator() == self.spec_calculator(),
            r.spec_threshold() == self.spec_threshold(),
            r.spec_pair() == self.spec_pair(),
            r.spec_stats() == self.spec_stats(),
            r.spec_is_running() == self.spec_is_running(),
    {
        ArbitrageDetector { check_interval_ms: interval_ms, ..self }
    }

    /// The opportunity a snapshot owes once validated: the fee model's
    /// result, kept only when profitable after fees.
    pub open spec fn spec_profitable_opportunity(
        &self,
        prices: ValidatedPricePair,
    ) -> Option<ArbitrageOpportunity> {
        match spec_opportunity(
            self.spec_calculator().spec_trading_fees(),
            self.spec_calculator().spec_default_trade_amount(),
            prices,
            self.spec_pair(),
        ) {
            Some(o) => if o.net_profit_per_unit > 0 {
                Some(o)
            } else {
                None
            },
            None => None,
        }
    }

    /// The validation outcome the detector sees for a cache snapshot.
    pub open spec fn spec_validated_snapshot(&self, cache: PriceCache, now_ms: u64) -> Result<
        ValidatedPricePair,
        ProcessorError,
    > {
        spec_validated(
            cache.spec_slot(PriceSource::Solana),
            cache.spec_slot(PriceSource::Binance),
            self.spec_processor().spec_max_price_age(),
            self.spec_processor().spec_price_bounds(),
            self.spec_processor().spec_validation_enabled(),
            now_ms,
        )
    }

    /// Check once for an arbitrage opportunity in the given snapshot.
    /// A validated pair counts a check; the result is the fee model's
    /// opportunity, kept only when profitable after fees.
    pub fn check_for_opportunities(&mut self, cache: &PriceCache, now_ms: u64) -> (r: Result<
        Option<ArbitrageOpportunity>,
        DetectorError,
    >)
        requires
            old(self).spec_wf(),
            old(self).spec_stats().total_checks < u64::MAX,
        ensures
            final(self).spec_wf(),
            final(self).spec_processor() == old(self).spec_processor(),
            final(self).spec_calculator() == old(self).spec_calculator(),
            final(self).spec_threshold() == old(self).spec_threshold(),
            final(self).spec_pair() == old(self).spec_pair(),
            final(self).spec_is_running() == old(self).spec_is_running(),
            match old(self).spec_validated_snapshot(*cache, now_ms) {
                Err(e) => r == Err::<Option<ArbitrageOpportunity>, DetectorError>(
                    DetectorError::ProcessorError(e),
                ) && final(self).spec_stats() == old(self).spec_stats(),
                Ok(prices) => {
                    &&& r == Ok::<Option<ArbitrageOpportunity>, DetectorError>(
                        old(self).spec_profitable_opportunity(prices),
                    )
                    &&& final(self).spec_stats() == old(self).spec_stats().spec_checked(
                        prices.price_spread_percentage,
                        now_ms,
                    )
                },
            },
    {
        let prices = match self.price_processor.get_validated_prices(cache, now_ms) {
            Ok(prices) => prices,
            Err(e) => {
                return Err(DetectorError::ProcessorError(e));
            },
        };

        // A validated pair counts as one check.
        self.stats.update_check(prices.price_spread_percentage, now_ms);

        let opportunity = match self.fee_calculator.calculate_opportunity(
            &prices,
            self.trading_pair,
        ) {
            Ok(o) => o,
            Err(e) => {
                return Err(DetectorError::CalculatorError(e));
            },
        };

        match opportunity {
            Some(o) => {
                if o.is_profitable() {
                    Ok(Some(o))
                } else {
                    Ok(None)
                }
            },
            None => Ok(None),
        }
    }

    /// One pass of the detection loop: validate, count, calculate, and
    /// classify the outcome; record any opportunity and the uptime. The
    /// caller performs the waiting and the delivery that each outcome
    /// asks for.
    pub fn detection_tick(&mut self, cache: &PriceCache, start_time_ms: u64, now_ms: u64) -> (r:
        DetectionTick)
        requires
            old(self).spec_wf(),
            old(self).spec_stats().total_checks < u64::MAX,
            old(self).spec_stats().opportunities_found < u64::MAX,
            old(self).spec_stats().threshold_opportunities < u64::MAX,
        ensures
            final(self).spec_wf(),
            final(self).spec_processor() == old(self).spec_processor(),
            final(self).spec_calculator() == old(self).spec_calculator(),
            final(self).spec_threshold() == old(self).spec_threshold(),
            final(self).spec_pair() == old(self).spec_pair(),
            final(self).spec_stats().spec_counters_wf(),
            match old(self).spec_validated_snapshot(*cache, now_ms) {
                Err(ProcessorError::NoFreshData) => r == DetectionTick::NoFreshData
                    && final(self).spec_stats() == old(self).spec_stats(),
                Err(e) => r == DetectionTick::DetectionError(DetectorError::ProcessorError(e))
                    && final(self).spec_stats() == old(self).spec_stats(),
                Ok(prices) => {
                    let checked = old(self).spec_stats().spec_checked(
                        prices.price_spread_percentage,
                        now_ms,
                    );
                    match old(self).spec_profitable_opportunity(prices) {
                        Some(o) => {
                            let meets = o.profit_percentage
                                >= old(self).spec_threshold().spec_value() as i128;
                            &&& r == if meets {
                                DetectionTick::Emitted(o)
                            } else {
                                DetectionTick::BelowThreshold(o)
                            }
                            &&& final(self).spec_stats() == (DetectionStats {
                                uptime_ms: spec_age_ms(start_time_ms, now_ms),
                                ..checked.spec_noted(o, meets)
                            })
                        },
                        None => {
                            &&& r == DetectionTick::NoOpportunity
                            &&& final(self).spec_stats() == (DetectionStats {
                                uptime_ms: spec_age_ms(start_time_ms, now_ms),
                                ..checked
                            })
                        },
                    }
                },
            },
    {
        let outcome = match self.check_for_opportunities(cache, now_ms) {
            Ok(Some(opportunity)) => {
                let meets_threshold = opportunity.exceeds_threshold(&self.profit_threshold);
                self.stats.update_opportunity(&opportunity, meets_threshold);
                if meets_threshold {
                    DetectionTick::Emitted(opportunity)
                } else {
                    DetectionTick::BelowThreshold(opportunity)
                }
            },
            Ok(None) => DetectionTick::NoOpportunity,
            Err(DetectorError::ProcessorError(ProcessorError::NoFreshData)) => {
                return DetectionTick::NoFreshData;
            },
            Err(e) => {
                return DetectionTick::DetectionError(e);
            },
        };

        self.stats.update_uptime(start_time_ms, now_ms);
        outcome
    }

    /// The cadence of the detection loop, in milliseconds.
    pub fn check_interval_ms(&self) -> (r: u64)
        ensures
            r == self.spec_check_interval_ms(),
    {
        self.check_interval_ms
    }

    /// One poll of the wait-for-opportunity operation: give up once the
    /// timeout has elapsed since the wait began; otherwise check once and
    /// hand back an opportunity only when it reaches the threshold. The
    /// caller polls at its fast cadence until something other than an
    /// empty result comes back.
    pub fn poll_for_opportunity(
        &mut self,
        cache: &PriceCache,
        start_time_ms: u64,
        timeout_ms: u64,
        now_ms: u64,
    ) -> (r: Result<Option<ArbitrageOpportunity>, DetectorError>)
        requires
            old(self).spec_wf(),
            old(self).spec_stats().total_checks < u64::MAX,
        ensures
            final(self).spec_wf(),
            final(self).spec_processor() == old(self).spec_processor(),
            final(self).spec_calculator() == old(self).spec_calculator(),
            final(self).spec_threshold() == old(self).spec_threshold(),
            final(self).spec_pair() == old(self).spec_pair(),
            spec_age_ms(start_time_ms, now_ms) >= timeout_ms ==> r == Err::<
                Option<ArbitrageOpportunity>,
                DetectorError,
            >(DetectorError::DetectionTimeout(timeout_ms)) && final(self).spec_stats() == old(
                self,
            ).spec_stats(),
            spec_age_ms(start_time_ms, now_ms) < timeout_ms ==> match old(
                self,
            ).spec_validated_snapshot(*cache, now_ms) {
                Err(e) => r == Err::<Option<ArbitrageOpportunity>, DetectorError>(
                    DetectorError::ProcessorError(e),
                ),
                Ok(prices) => r == Ok::<Option<ArbitrageOpportunity>, DetectorError>(
                    match old(self).spec_profitable_opportunity(prices) {
                        Some(o) => if o.profit_percentage >= old(
                            self,
                        ).spec_threshold().spec_value() as i128 {
                            Some(o)
                        } else {
                            None
                        },
                        None => None,
                    },
                ),
            },
    {
        if crate::price::calculate_age_ms(start_time_ms, now_ms) >= timeout_ms {
            return Err(DetectorError::DetectionTimeout(timeout_ms));
        }
        match self.check_for_opportunities(cache, now_ms) {
            Ok(Some(opportunity)) => {
                if opportunity.exceeds_threshold(&self.profit_threshold) {
                    Ok(Some(opportunity))
                } else {
                    Ok(None)
                }
            },
            Ok(None) => Ok(None),
            Err(e) => Err(e),
        }
    }

    /// Enter the running state; the caller drives the periodic ticks.
    pub fn begin_detection(&mut self)
        ensures
            final(self).spec_is_running(),
            final(self).spec_processor() == old(self).spec_processor(),
            final(self).spec_calculator() == old(self).spec_calculator(),
            final(self).spec_threshold() == old(self).spec_threshold(),
            final(self).spec_pair() == old(self).spec_pair(),
            final(self).spec_stats() == old(self).spec_stats(),
            final(self).spec_check_interval_ms() == old(self).spec_check_interval_ms(),
    {
        self.is_running = true;
    }

    /// Leave the running state, stopping the detection loop.
    pub fn stop_detection(&mut self)
        ensures
            !final(self).spec_is_running(),
            final(self).spec_processor() == old(self).spec_processor(),
            final(self).spec_calculator() == old(self).spec_calculator(),
            final(self).spec_threshold() == old(self).spec_threshold(),
            final(self).spec_pair() == old(self).spec_pair(),
            final(self).spec_stats() == old(self).spec_stats(),
            final(self).spec_check_interval_ms() == old(self).spec_check_interval_ms(),
    {
        self.is_running = false;
    }

    /// Check whether the detector is currently running.
    pub fn is_running(&self) -> (r: bool)
        ensures
            r == self.spec_is_running(),
    {
        self.is_running
    }

    /// Get the current detection statistics.
    pub fn stats(&self) -> (r: &DetectionStats)
        ensures
            *r == self.spec_stats(),
    {
        &self.stats
    }

    /// Reset the detection statistics.
    pub fn reset_stats(&mut self)
        ensures
            final(self).spec_stats() == DetectionStats::spec_default(),
            final(self).spec_processor() == old(self).spec_processor(),
            final(self).spec_calculator() == old(self).spec_calculator(),
            final(self).spec_threshold() == old(self).spec_threshold(),
            final(self).spec_pair() == old(self).spec_pair(),
            final(self).spec_is_running() == old(self).spec_is_running(),
    {
        self.stats = DetectionStats::default();
    }

    /// Get the profit threshold, in micro-percent.
    pub fn profit_threshold(&self) -> (r: u64)
        ensures
            r == self.spec_threshold().spec_value(),
    {
        self.profit_threshold.value()
    }

    /// Update the profit threshold.
    pub fn set_profit_threshold(&mut self, threshold: ProfitThreshold)
        ensures
            final(self).spec_threshold() == threshold,
            final(self).spec_processor() == old(self).spec_processor(),
            final(self).spec_calculator() == old(self).spec_calculator(),
            final(self).spec_pair() == old(self).spec_pair(),
            final(self).spec_stats() == old(self).spec_stats(),
            final(self).spec_is_running() == old(self).spec_is_running(),
    {
        self.profit_threshold = threshold;
    }

    /// Get the trading pair.
    pub fn trading_pair(&self) -> (r: TradingPair)
        ensures
            r == self.spec_pair(),
    {
        self.trading_pair
    }

    /// Check whether fresh prices are available in the snapshot.
    pub fn has_fresh_prices(&self, cache: &PriceCache, now_ms: u64) -> (r: bool)
        ensures
            r == cache.spec_has_fresh(self.spec_processor().spec_max_price_age(), now_ms),
    {
        self.price_processor.has_fresh_prices(cache, now_ms)
    }

    /// Get a validated snapshot of the current prices, if available.
    pub fn get_current_prices(&self, cache: &PriceCache, now_ms: u64) -> (r: Result<
        ValidatedPricePair,
        DetectorError,
    >)
        ensures
            match self.spec_validated_snapshot(*cache, now_ms) {
                Ok(prices) => r == Ok::<ValidatedPricePair, DetectorError>(prices),
                Err(e) => r == Err::<ValidatedPricePair, DetectorError>(
                    DetectorError::ProcessorError(e),
                ),
            },
    {
        match self.price_processor.get_validated_prices(cache, now_ms) {
            Ok(prices) => Ok(prices),
            Err(e) => Err(DetectorError::ProcessorError(e)),
        }
    }
}

} // verus!
