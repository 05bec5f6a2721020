use vstd::prelude::*;

use crate::price::spec_age_ms;

verus! {

/// How many latency samples each queue retains.
pub const LATENCY_WINDOW: usize = 1000;

/// How many connection failures are retained.
pub const FAILURE_WINDOW: usize = 100;

/// A value clipped into the 64-bit range.
pub open spec fn spec_sat64(x: int) -> u64 {
    if x > u64::MAX {
        u64::MAX
    } else if x < 0 {
        0u64
    } else {
        x as u64
    }
}

/// A counter rate per second, carried in thousandths per second; zero
/// while no time has passed.
pub open spec fn spec_rate_milli(count: u64, uptime_seconds: u64) -> u64 {
    if uptime_seconds == 0 {
        0u64
    } else {
        spec_sat64(count * 1000 / (uptime_seconds as int))
    }
}

/// Events per hour; zero while no time has passed.
pub open spec fn spec_per_hour(count: u64, uptime_seconds: u64) -> u64 {
    if uptime_seconds == 0 {
        0u64
    } else {
        spec_sat64(count * 3600 / (uptime_seconds as int))
    }
}

/// A share of elapsed time in micro-percent; zero while no time has
/// passed.
pub open spec fn spec_share_pct_micro(part_seconds: u64, uptime_seconds: u64) -> u64 {
    if uptime_seconds == 0 {
        0u64
    } else {
        spec_sat64(part_seconds * 100_000_000 / (uptime_seconds as int))
    }
}

/// The share of messages processed without error, in micro-percent; a
/// full hundred percent with no traffic, and zero once the errors
/// outnumber the messages.
pub open spec fn spec_efficiency_pct_micro(total: int, errors: u64) -> u64 {
    if total == 0 {
        100_000_000u64
    } else if errors >= total {
        0u64
    } else {
        spec_sat64((total - errors) * 100_000_000 / total)
    }
}

/// The sum of a sample queue.
pub open spec fn spec_sum(s: Seq<u64>) -> int
    decreases s.len(),
{
    if s.len() == 0 {
        0
    } else {
        spec_sum(s.drop_last()) + s.last()
    }
}

/// The truncated mean of a sample queue; zero when it is empty.
pub open spec fn spec_avg(s: Seq<u64>) -> int {
    if s.len() == 0 {
        0
    } else {
        spec_sum(s) / (s.len() as int)
    }
}

/// A sample queue after one more sample: append, and drop the oldest
/// entry once the window is full.
pub open spec fn spec_ring_push(s: Seq<u64>, x: u64, window: int) -> Seq<u64> {
    let grown = s.push(x);
    if grown.len() > window {
        grown.drop_first()
    } else {
        grown
    }
}

/// Saturating addition on 64-bit counters.
pub open spec fn spec_sat_add64(a: u64, b: u64) -> u64 {
    if a + b > u64::MAX {
        u64::MAX
    } else {
        (a + b) as u64
    }
}

/// A sample queue sums to no more than its length times the largest
/// sample value.
proof fn lemma_sum_bounded(s: Seq<u64>)
    ensures
        0 <= spec_sum(s) <= s.len() * (u64::MAX as int),
    decreases s.len(),
{
    if s.len() == 0 {
    } else {
        lemma_sum_bounded(s.drop_last());
        assert((s.len() - 1) * (u64::MAX as int) + (u64::MAX as int) == s.len() * (u64::MAX
            as int)) by (nonlinear_arith);
    }
}

/// The truncated mean of a sample queue stays in the sample range.
proof fn lemma_avg_bounded(s: Seq<u64>)
    ensures
        0 <= spec_avg(s) <= u64::MAX,
{
    if s.len() > 0 {
        lemma_sum_bounded(s);
        let n = s.len() as int;
        vstd::arithmetic::div_mod::lemma_div_is_ordered(
            spec_sum(s),
            n * (u64::MAX as int),
            n,
        );
        vstd::arithmetic::div_mod::lemma_div_multiples_vanish(u64::MAX as int, n);
        assert(n * (u64::MAX as int) == (u64::MAX as int) * n) by (nonlinear_arith);
        vstd::arithmetic::div_mod::lemma_div_pos_is_pos(spec_sum(s), n);
    }
}

/// Overall performance summary. Rates are in thousandths of a message
/// per second; latencies in whole milliseconds.
#[derive(Debug, Clone, Copy, PartialEq, Eq, Structural)]
pub struct PerformanceSummary {
    pub uptime_seconds: u64,
    pub total_opportunities: u64,
    pub avg_processing_latency_ms: u64,
    pub solana_msg_rate: u64,
    pub binance_msg_rate: u64,
    pub reconnection_count: u64,
}

/// Real-time throughput statistics. The message rate is in thousandths
/// per second; the efficiency in micro-percent.
#[derive(Debug, Clone, Copy, PartialEq, Eq, Structural)]
pub struct ThroughputStats {
    pub messages_per_second: u64,
    pub opportunities_per_hour: u64,
    pub current_queue_depth: usize,
    pub processing_efficiency_pct: u64,
}

/// Connection reliability statistics. Uptime shares are in micro-percent;
/// the last failure is a clock reading in milliseconds.
#[derive(Debug, Clone, Copy, PartialEq, Eq, Structural)]
pub struct ConnectionStats {
    pub solana_uptime_pct: u64,
    pub binance_uptime_pct: u64,
    pub total_reconnections: u64,
    pub avg_reconnect_time_ms: u64,
    pub last_connection_failure: Option<u64>,
}

/// Processing pipeline performance statistics, in whole milliseconds.
#[derive(Debug, Clone, Copy, PartialEq, Eq, Structural)]
pub struct ProcessingStats {
    pub price_processing_latency_ms: u64,
    pub arbitrage_detection_latency_ms: u64,
    pub output_formatting_latency_ms: u64,
    pub total_pipeline_latency_ms: u64,
    pub messages_processed: u64,
    pub errors_encountered: u64,
}

/// Comprehensive performance metrics snapshot.
#[derive(Debug, Clone, Copy, PartialEq, Eq, Structural)]
pub struct PerformanceMetrics {
    pub summary: PerformanceSummary,
    pub throughput: ThroughputStats,
    pub connection: ConnectionStats,
    pub processing: ProcessingStats,
}

/// Append-only counters and bounded latency queues for the pipeline,
/// consumed by the external monitor.
#[derive(Debug, Clone, PartialEq, Eq)]
pub struct MetricsCollector {
    /// Clock reading at creation, in milliseconds.
    pub start_time_ms: u64,
    /// Messages received from the on-chain feed.
    pub solana_messages: u64,
    /// Messages received from the CEX feed.
    pub binance_messages: u64,
    /// Arbitrage opportunities found.
    pub opportunities_found: u64,
    /// Reconnection attempts recorded.
    pub reconnection_count: u64,
    /// Cumulative on-chain session time, in milliseconds.
    pub solana_connection_time_ms: u64,
    /// Cumulative CEX session time, in milliseconds.
    pub binance_connection_time_ms: u64,
    /// Clock reading when the last reconnection started.
    pub last_reconnect_start_ms: Option<u64>,
    /// Recent price-processing latencies, in milliseconds.
    pub processing_times_ms: Vec<u64>,
    /// Recent arbitrage-detection latencies, in milliseconds.
    pub arbitrage_times_ms: Vec<u64>,
    /// Recent output-formatting latencies, in milliseconds.
    pub output_times_ms: Vec<u64>,
    /// Current work queue depth.
    pub current_queue_depth: usize,
    /// Highest queue depth seen.
    pub max_queue_depth: usize,
    /// Processing errors recorded.
    pub processing_errors: u64,
    /// Clock readings of recent connection failures.
    pub connection_failures_ms: Vec<u64>,
}

/// Append a sample to a bounded queue, dropping the oldest entry once the
/// window is full.
fn push_capped(samples: &mut Vec<u64>, value: u64, window: usize)
    requires
        window > 0,
    ensures
        final(samples)@ == spec_ring_push(old(samples)@, value, window as int),
{
    samples.push(value);
    if samples.len() > window {
        samples.remove(0);
        proof {
            assert(old(samples)@.push(value).remove(0) =~= old(samples)@.push(
                value,
            ).drop_first());
        }
    }
}

impl MetricsCollector {
    /// Create a new metrics collector, stamped with the caller's clock
    /// reading.
    pub fn new(now_ms: u64) -> (r: Self)
        ensures
            r.start_time_ms == now_ms,
            r.solana_messages == 0,
            r.binance_messages == 0,
            r.opportunities_found == 0,
            r.reconnection_count == 0,
            r.solana_connection_time_ms == 0,
            r.binance_connection_time_ms == 0,
            (r.last_reconnect_start_ms is None),
            r.processing_times_ms@ == Seq::<u64>::empty(),
            r.arbitrage_times_ms@ == Seq::<u64>::empty(),
            r.output_times_ms@ == Seq::<u64>::empty(),
            r.current_queue_depth == 0,
            r.max_queue_depth == 0,
            r.processing_errors == 0,
            r.connection_failures_ms@ == Seq::<u64>::empty(),
    {
        MetricsCollector {
            start_time_ms: now_ms,
            solana_messages: 0,
            binance_messages: 0,
            opportunities_found: 0,
            reconnection_count: 0,
            solana_connection_time_ms: 0,
            binance_connection_time_ms: 0,
            last_reconnect_start_ms: None,
            processing_times_ms: Vec::new(),
            arbitrage_times_ms: Vec::new(),
            output_times_ms: Vec::new(),
            current_queue_depth: 0,
            max_queue_depth: 0,
            processing_errors: 0,
            connection_failures_ms: Vec::new(),
        }
    }

    /// Record a message received from the on-chain feed.
    pub fn record_solana_message(&mut self)
        requires
            old(self).solana_messages < u64::MAX,
        ensures
            *final(self) == (MetricsCollector {
                solana_messages: (old(self).solana_messages + 1) as u64,
                ..*old(self)
            }),
    {
        self.solana_messages = self.solana_messages + 1;
    }

    /// Record a message received from the CEX feed.
    pub fn record_binance_message(&mut self)
        requires
            old(self).binance_messages < u64::MAX,
        ensures
            *final(self) == (MetricsCollector {
                binance_messages: (old(self).binance_messages + 1) as u64,
                ..*old(self)
            }),
    {
        self.binance_messages = self.binance_messages + 1;
    }

    /// Record an arbitrage opportunity found.
    pub fn record_opportunity(&mut self)
        requires
            old(self).opportunities_found < u64::MAX,
        ensures
            *final(self) == (MetricsCollector {
                opportunities_found: (old(self).opportunities_found + 1) as u64,
                ..*old(self)
            }),
    {
        self.opportunities_found = self.opportunities_found + 1;
    }

    /// Record the start of a reconnection attempt.
    pub fn record_reconnection(&mut self, now_ms: u64)
        requires
            old(self).reconnection_count < u64::MAX,
        ensures
            *final(self) == (MetricsCollector {
                reconnection_count: (old(self).reconnection_count + 1) as u64,
                last_reconnect_start_ms: Some(now_ms),
                ..*old(self)
            }),
    {
        self.reconnection_count = self.reconnection_count + 1;
        self.last_reconnect_start_ms = Some(now_ms);
    }

    /// How long the reconnection in progress has taken, if one started.
    pub fn record_reconnection_complete(&self, now_ms: u64) -> (r: Option<u64>)
        ensures
            match self.last_reconnect_start_ms {
                Some(t) => r == Some(spec_age_ms(t, now_ms)),
                None => r is None,
            },
    {
        match self.last_reconnect_start_ms {
            Some(start) => Some(crate::price::calculate_age_ms(start, now_ms)),
            None => None,
        }
    }

    /// Record the cumulative on-chain session time.
    pub fn record_solana_uptime(&mut self, connected_duration_ms: u64)
        ensures
            *final(self) == (MetricsCollector {
                solana_connection_time_ms: connected_duration_ms,
                ..*old(self)
            }),
    {
        self.solana_connection_time_ms = connected_duration_ms;
    }

    /// Record the cumulative CEX session time.
    pub fn record_binance_uptime(&mut self, connected_duration_ms: u64)
        ensures
            *final(self) == (MetricsCollector {
                binance_connection_time_ms: connected_duration_ms,
                ..*old(self)
            }),
    {
        self.binance_connection_time_ms = connected_duration_ms;
    }

    /// Record a price-processing latency sample.
    pub fn record_processing_time(&mut self, duration_ms: u64)
        ensures
            *final(self) == (MetricsCollector {
                processing_times_ms: final(self).processing_times_ms,
                ..*old(self)
            }),
            final(self).processing_times_ms@ == spec_ring_push(
                old(self).processing_times_ms@,
                duration_ms,
                LATENCY_WINDOW as int,
            ),
    {
        push_capped(&mut self.processing_times_ms, duration_ms, LATENCY_WINDOW);
    }

    /// Record an arbitrage-detection latency sample.
    pub fn record_arbitrage_time(&mut self, duration_ms: u64)
        ensures
            *final(self) == (MetricsCollector {
                arbitrage_times_ms: final(self).arbitrage_times_ms,
                ..*old(self)
            }),
            final(self).arbitrage_times_ms@ == spec_ring_push(
                old(self).arbitrage_times_ms@,
                duration_ms,
                LATENCY_WINDOW as int,
            ),
    {
        push_capped(&mut self.arbitrage_times_ms, duration_ms, LATENCY_WINDOW);
    }

    /// Record an output-formatting latency sample.
    pub fn record_output_time(&mut self, duration_ms: u64)
        ensures
            *final(self) == (MetricsCollector {
                output_times_ms: final(self).output_times_ms,
                ..*old(self)
            }),
            final(self).output_times_ms@ == spec_ring_push(
                old(self).output_times_ms@,
                duration_ms,
                LATENCY_WINDOW as int,
            ),
    {
        push_capped(&mut self.output_times_ms, duration_ms, LATENCY_WINDOW);
    }

    /// Update the current queue depth, tracking the highest seen.
    pub fn set_queue_depth(&mut self, depth: usize)
        ensures
            *final(self) == (MetricsCollector {
                current_queue_depth: depth,
                max_queue_depth: if depth > old(self).max_queue_depth {
                    depth
                } else {
                    old(self).max_queue_depth
                },
                ..*old(self)
            }),
    {
        self.current_queue_depth = depth;
        if depth > self.max_queue_depth {
            self.max_queue_depth = depth;
        }
    }

    /// Record a processing error.
    pub fn record_error(&mut self)
        requires
            old(self).processing_errors < u64::MAX,
        ensures
            *final(self) == (MetricsCollector {
                processing_errors: (old(self).processing_errors + 1) as u64,
                ..*old(self)
            }),
    {
        self.processing_errors = self.processing_errors + 1;
    }

    /// Record a connection failure at the given clock reading.
    pub fn record_connection_failure(&mut self, now_ms: u64)
        ensures
            *final(self) == (MetricsCollector {
                connection_failures_ms: final(self).connection_failures_ms,
                ..*old(self)
            }),
            final(self).connection_failures_ms@ == spec_ring_push(
                old(self).connection_failures_ms@,
                now_ms,
                FAILURE_WINDOW as int,
            ),
    {
        push_capped(&mut self.connection_failures_ms, now_ms, FAILURE_WINDOW);
    }

    /// The collector's uptime in whole seconds at the given clock
    /// reading.
    pub fn get_uptime_seconds(&self, now_ms: u64) -> (r: u64)
        ensures
            r == spec_age_ms(self.start_time_ms, now_ms) / 1000,
    {
        crate::price::calculate_age_ms(self.start_time_ms, now_ms) / 1000
    }

    /// The truncated mean of a latency sample queue, zero when empty.
    pub fn avg_duration_ms(times: &Vec<u64>) -> (r: u64)
        ensures
            r == spec_avg(times@),
    {
        let n = times.len();
        if n == 0 {
            return 0;
        }
        let mut sum: u128 = 0;
        let mut i: usize = 0;
        while i < n
            invariant
                0 <= i <= n,
                n == times@.len(),
                sum == spec_sum(times@.subrange(0, i as int)),
                sum <= (i as int) * (u64::MAX as int),
            decreases n - i,
        {
            proof {
                assert(times@.subrange(0, i + 1).drop_last() =~= times@.subrange(0, i as int));
                assert((i as int) * (u64::MAX as int) + (u64::MAX as int) == (i + 1) * (u64::MAX
                    as int)) by (nonlinear_arith);
                assert((i + 1) * (u64::MAX as int) <= (u64::MAX as int) * (u64::MAX as int))
                    by (nonlinear_arith)
                    requires
                        0 <= i,
                        i + 1 <= u64::MAX,
                ;
            }
            sum = sum + times[i] as u128;
            i = i + 1;
        }
        proof {
            assert(times@.subrange(0, n as int) =~= times@);
            lemma_avg_bounded(times@);
        }
        (sum / (n as u128)) as u64
    }

    /// Generate a comprehensive metrics snapshot at the given clock
    /// reading. Every figure is an exact integer function of the
    /// collector's state: rates and shares are computed over the whole
    /// seconds of uptime, means over the retained sample windows.
    pub fn get_metrics(&self, now_ms: u64) -> (r: PerformanceMetrics)
        ensures
            ({
                let uptime = spec_age_ms(self.start_time_ms, now_ms) / 1000;
                let total_msgs = spec_sat_add64(self.solana_messages, self.binance_messages);
                let processing_avg = spec_avg(self.processing_times_ms@);
                let arbitrage_avg = spec_avg(self.arbitrage_times_ms@);
                let output_avg = spec_avg(self.output_times_ms@);
                &&& r.summary.uptime_seconds == uptime
                &&& r.summary.total_opportunities == self.opportunities_found
                &&& r.summary.avg_processing_latency_ms == processing_avg
                &&& r.summary.solana_msg_rate == spec_rate_milli(self.solana_messages, uptime)
                &&& r.summary.binance_msg_rate == spec_rate_milli(self.binance_messages, uptime)
                &&& r.summary.reconnection_count == self.reconnection_count
                &&& r.throughput.messages_per_second == spec_rate_milli(total_msgs, uptime)
                &&& r.throughput.opportunities_per_hour == spec_per_hour(
                    self.opportunities_found,
                    uptime,
                )
                &&& r.throughput.current_queue_depth == self.current_queue_depth
                &&& r.throughput.processing_efficiency_pct == spec_efficiency_pct_micro(
                    total_msgs as int,
                    self.processing_errors,
                )
                &&& r.connection.solana_uptime_pct == spec_share_pct_micro(
                    (self.solana_connection_time_ms / 1000) as u64,
                    uptime,
                )
                &&& r.connection.binance_uptime_pct == spec_share_pct_micro(
                    (self.binance_connection_time_ms / 1000) as u64,
                    uptime,
                )
                &&& r.connection.total_reconnections == self.reconnection_count
                &&& r.connection.avg_reconnect_time_ms == 0
                &&& r.connection.last_connection_failure == (if self.connection_failures_ms@.len()
                    > 0 {
                    Some(self.connection_failures_ms@.last())
                } else {
                    None::<u64>
                })
                &&& r.processing.price_processing_latency_ms == processing_avg
                &&& r.processing.arbitrage_detection_latency_ms == arbitrage_avg
                &&& r.processing.output_formatting_latency_ms == output_avg
                &&& r.processing.total_pipeline_latency_ms == spec_sat_add64(
                    spec_sat_add64(processing_avg as u64, arbitrage_avg as u64),
                    output_avg as u64,
                )
                &&& r.processing.messages_processed == total_msgs
                &&& r.processing.errors_encountered == self.processing_errors
            }),
    {
        let uptime = self.get_uptime_seconds(now_ms);

        // Message counts and rates, per second in thousandths.
        let total_msgs = sat_add64(self.solana_messages, self.binance_messages);
        let solana_rate = rate_milli(self.solana_messages, uptime);
        let binance_rate = rate_milli(self.binance_messages, uptime);
        let total_rate = rate_milli(total_msgs, uptime);

        // Opportunities per hour.
        let opportunities_per_hour = per_hour(self.opportunities_found, uptime);

        // Mean latencies over the retained windows.
        let processing_avg = Self::avg_duration_ms(&self.processing_times_ms);
        let arbitrage_avg = Self::avg_duration_ms(&self.arbitrage_times_ms);
        let output_avg = Self::avg_duration_ms(&self.output_times_ms);
        proof {
            lemma_avg_bounded(self.processing_times_ms@);
            lemma_avg_bounded(self.arbitrage_times_ms@);
            lemma_avg_bounded(self.output_times_ms@);
        }

        // Connection uptime shares.
        let solana_uptime_pct = share_pct_micro(self.solana_connection_time_ms / 1000, uptime);
        let binance_uptime_pct = share_pct_micro(self.binance_connection_time_ms / 1000, uptime);

        let last_failure: Option<u64> = if self.connection_failures_ms.len() > 0 {
            Some(self.connection_failures_ms[self.connection_failures_ms.len() - 1])
        } else {
            None
        };

        // Processing efficiency: the share of messages that drew no error.
        let efficiency = efficiency_pct_micro(total_msgs, self.processing_errors);

        PerformanceMetrics {
            summary: PerformanceSummary {
                uptime_seconds: uptime,
                total_opportunities: self.opportunities_found,
                avg_processing_latency_ms: processing_avg,
                solana_msg_rate: solana_rate,
                binance_msg_rate: binance_rate,
                reconnection_count: self.reconnection_count,
            },
            throughput: ThroughputStats {
                messages_per_second: total_rate,
                opportunities_per_hour,
                current_queue_depth: self.current_queue_depth,
                processing_efficiency_pct: efficiency,
            },
            connection: ConnectionStats {
                solana_uptime_pct,
                binance_uptime_pct,
                total_reconnections: self.reconnection_count,
                avg_reconnect_time_ms: 0,
                last_connection_failure: last_failure,
            },
            processing: ProcessingStats {
                price_processing_latency_ms: processing_avg,
                arbitrage_detection_latency_ms: arbitrage_avg,
                output_formatting_latency_ms: output_avg,
                total_pipeline_latency_ms: sat_add64(
                    sat_add64(processing_avg, arbitrage_avg),
                    output_avg,
                ),
                messages_processed: total_msgs,
                errors_encountered: self.processing_errors,
            },
        }
    }

    /// Reset the counters and sample queues, keeping the start time and
    /// the recorded session times.
    pub fn reset(&mut self)
        ensures
            final(self).start_time_ms == old(self).start_time_ms,
            final(self).solana_messages == 0,
            final(self).binance_messages == 0,
            final(self).opportunities_found == 0,
            final(self).reconnection_count == 0,
            final(self).solana_connection_time_ms == old(self).solana_connection_time_ms,
            final(self).binance_connection_time_ms == old(self).binance_connection_time_ms,
            final(self).last_reconnect_start_ms == old(self).last_reconnect_start_ms,
            final(self).processing_times_ms@ == Seq::<u64>::empty(),
            final(self).arbitrage_times_ms@ == Seq::<u64>::empty(),
            final(self).output_times_ms@ == Seq::<u64>::empty(),
            final(self).current_queue_depth == 0,
            final(self).max_queue_depth == 0,
            final(self).processing_errors == 0,
            final(self).connection_failures_ms@ == Seq::<u64>::empty(),
    {
        self.solana_messages = 0;
        self.binance_messages = 0;
        self.opportunities_found = 0;
        self.reconnection_count = 0;
        self.current_queue_depth = 0;
        self.max_queue_depth = 0;
        self.processing_errors = 0;
        self.processing_times_ms = Vec::new();
        self.arbitrage_times_ms = Vec::new();
        self.output_times_ms = Vec::new();
        self.connection_failures_ms = Vec::new();
    }
}

/// Saturating addition on 64-bit counters.
fn sat_add64(a: u64, b: u64) -> (r: u64)
    ensures
        r == spec_sat_add64(a, b),
{
    if a <= u64::MAX - b {
        a + b
    } else {
        u64::MAX
    }
}

/// A counter rate per second in thousandths, clipped to the machine
/// range.
fn rate_milli(count: u64, uptime_seconds: u64) -> (r: u64)
    ensures
        r == spec_rate_milli(count, uptime_seconds),
{
    if uptime_seconds == 0 {
        return 0;
    }
    let wide: u128 = (count as u128) * 1000 / (uptime_seconds as u128);
    if wide > u64::MAX as u128 {
        u64::MAX
    } else {
        wide as u64
    }
}

/// Events per hour, clipped to the machine range.
fn per_hour(count: u64, uptime_seconds: u64) -> (r: u64)
    ensures
        r == spec_per_hour(count, uptime_seconds),
{
    if uptime_seconds == 0 {
        return 0;
    }
    let wide: u128 = (count as u128) * 3600 / (uptime_seconds as u128);
    if wide > u64::MAX as u128 {
        u64::MAX
    } else {
        wide as u64
    }
}

/// A share of elapsed time in micro-percent, clipped to the machine
/// range.
fn share_pct_micro(part_seconds: u64, uptime_seconds: u64) -> (r: u64)
    ensures
        r == spec_share_pct_micro(part_seconds, uptime_seconds),
{
    if uptime_seconds == 0 {
        return 0;
    }
    let wide: u128 = (part_seconds as u128) * 100_000_000 / (uptime_seconds as u128);
    if wide > u64::MAX as u128 {
        u64::MAX
    } else {
        wide as u64
    }
}

/// The share of messages processed without error, in micro-percent.
fn efficiency_pct_micro(total: u64, errors: u64) -> (r: u64)
    ensures
        r == spec_efficiency_pct_micro(total as int, errors),
{
    if total == 0 {
        return 100_000_000;
    }
    if errors >= total {
        return 0;
    }
    proof {
        crate::calculator::lemma_rate_bounded((total - errors) as int, total as int);
    }
    let wide: u128 = ((total - errors) as u128) * 100_000_000 / (total as u128);
    wide as u64
}

} // verus!
