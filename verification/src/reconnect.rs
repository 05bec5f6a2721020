use vstd::prelude::*;

use crate::price::spec_age_ms;

verus! {

/// Errors that can occur during reconnection attempts.
#[derive(Debug, Clone, PartialEq, Eq)]
pub enum ReconnectError {
    /// Maximum reconnection attempts exceeded (carries the configured cap).
    MaxAttemptsExceeded(usize),
    /// Total reconnection time budget elapsed (carries the budget in ms).
    ConnectionTimeout(u64),
    /// Connection error with a description.
    ConnectionError(String),
}

/// Configuration for the exponential-backoff reconnection strategy.
/// All delays are in milliseconds; the multiplier is an integer factor.
#[derive(Debug, Clone, Copy, PartialEq, Eq)]
pub struct ReconnectConfig {
    /// Initial delay before the first reconnection attempt, in ms.
    pub initial_delay_ms: u64,
    /// Maximum delay between reconnection attempts, in ms.
    pub max_delay_ms: u64,
    /// Multiplier for exponential backoff (e.g. 2 for doubling).
    pub backoff_multiplier: u64,
    /// Maximum number of reconnection attempts (None for unlimited).
    pub max_attempts: Option<usize>,
    /// Maximum total time to spend on reconnection attempts, in ms.
    pub max_total_duration_ms: Option<u64>,
    /// Add deterministic jitter to delays to avoid thundering herds.
    pub jitter: bool,
}

impl ReconnectConfig {
    /// A configuration is well-formed when the initial delay is positive and
    /// no larger than the cap, the multiplier actually grows the delay, and
    /// an attempt cap, if present, is positive.
    pub open spec fn spec_valid(&self) -> bool {
        &&& self.initial_delay_ms > 0
        &&& self.max_delay_ms >= self.initial_delay_ms
        &&& self.backoff_multiplier > 1
        &&& self.max_attempts != Some(0usize)
    }

    /// Create a new reconnection configuration with custom parameters.
    pub fn new(initial_delay_ms: u64, max_delay_ms: u64, backoff_multiplier: u64) -> (r: Self)
        ensures
            r == (ReconnectConfig {
                initial_delay_ms,
                max_delay_ms,
                backoff_multiplier,
                max_attempts: Some(10usize),
                max_total_duration_ms: Some(300_000u64),
                jitter: true,
            }),
    {
        ReconnectConfig {
            initial_delay_ms,
            max_delay_ms,
            backoff_multiplier,
            max_attempts: Some(10),
            max_total_duration_ms: Some(300_000),
            jitter: true,
        }
    }

    /// Set the maximum number of attempts.
    pub fn with_max_attempts(self, max_attempts: Option<usize>) -> (r: Self)
        ensures
            r == (ReconnectConfig { max_attempts, ..self }),
    {
        ReconnectConfig { max_attempts, ..self }
    }

    /// Set the maximum total duration for reconnection attempts.
    pub fn with_max_total_duration(self, max_duration_ms: Option<u64>) -> (r: Self)
        ensures
            r == (ReconnectConfig { max_total_duration_ms: max_duration_ms, ..self }),
    {
        ReconnectConfig { max_total_duration_ms: max_duration_ms, ..self }
    }

    /// Enable or disable jitter.
    pub fn with_jitter(self, jitter: bool) -> (r: Self)
        ensures
            r == (ReconnectConfig { jitter, ..self }),
    {
        ReconnectConfig { jitter, ..self }
    }

    /// Validate the configuration parameters.
    pub fn validate(&self) -> (r: Result<(), String>)
        ensures
            r is Ok <==> self.spec_valid(),
    {
        if self.initial_delay_ms == 0 {
            return Err("Initial delay must be greater than zero".to_owned());
        }
        if self.max_delay_ms < self.initial_delay_ms {
            return Err("Max delay must be greater than or equal to initial delay".to_owned());
        }
        if self.backoff_multiplier <= 1 {
            return Err("Backoff multiplier must be greater than one".to_owned());
        }
        if let Some(attempts) = self.max_attempts {
            if attempts == 0 {
                return Err("Max attempts must be greater than zero if specified".to_owned());
            }
        }
        Ok(())
    }
}

impl Default for ReconnectConfig {
    /// The default strategy: start at one second, double up to a minute,
    /// give up after ten attempts or five minutes, with jitter on.
    fn default() -> (r: Self)
        ensures
            r == (ReconnectConfig {
                initial_delay_ms: 1000u64,
                max_delay_ms: 60_000u64,
                backoff_multiplier: 2u64,
                max_attempts: Some(10usize),
                max_total_duration_ms: Some(300_000u64),
                jitter: true,
            }),
            r.spec_valid(),
    {
        ReconnectConfig {
            initial_delay_ms: 1000,
            max_delay_ms: 60_000,
            backoff_multiplier: 2,
            max_attempts: Some(10),
            max_total_duration_ms: Some(300_000),
            jitter: true,
        }
    }
}

/// The delay that follows `current` under exponential backoff: multiplied,
/// then capped at the configured maximum.
pub open spec fn spec_next_delay(current: u64, multiplier: u64, max_delay: u64) -> u64 {
    if current * multiplier <= max_delay {
        (current * multiplier) as u64
    } else {
        max_delay
    }
}

/// Deterministic pseudo-random jitter index for an attempt number: a linear
/// congruential step reduced to the range 0..20.
pub open spec fn spec_jitter_index(attempt: nat) -> nat {
    (((attempt * 25214903917 + 11) % 0x1000000000000) % 20) as nat
}

/// A delay perturbed by jitter between -10% and +9%, chosen by the attempt
/// number alone so that runs are reproducible. Saturates at the top of the
/// machine range.
pub open spec fn spec_jittered_delay(delay: u64, attempt: nat) -> u64 {
    let index = spec_jitter_index(attempt);
    let adjusted: int = if index >= 10 {
        // indexes 10..20 stand for -10% .. -1%: subtract a tenth at most
        delay - delay * ((index - 10) + 1) / 100
    } else {
        // indexes 0..10 stand for +0% .. +9%: add under a tenth
        delay + delay * index / 100
    };
    if adjusted > u64::MAX {
        u64::MAX
    } else if adjusted < 0 {
        0u64
    } else {
        adjusted as u64
    }
}

/// Manages exponential-backoff reconnection attempts with jitter and limits.
#[derive(Debug, Clone, PartialEq, Eq)]
pub struct ReconnectHandler {
    config: ReconnectConfig,
    attempt_count: usize,
    start_time_ms: Option<u64>,
    current_delay_ms: u64,
}

impl ReconnectHandler {
    /// The handler's invariant: a valid configuration, and a current delay
    /// that stays between the initial delay and the cap.
    pub open spec fn spec_wf(&self) -> bool {
        &&& self.spec_config().spec_valid()
        &&& self.spec_config().initial_delay_ms <= self.spec_current_delay_ms()
        &&& self.spec_current_delay_ms() <= self.spec_config().max_delay_ms
    }

    pub closed spec fn spec_config(&self) -> ReconnectConfig {
        self.config
    }

    pub closed spec fn spec_attempt_count(&self) -> usize {
        self.attempt_count
    }

    pub closed spec fn spec_start_time_ms(&self) -> Option<u64> {
        self.start_time_ms
    }

    pub closed spec fn spec_current_delay_ms(&self) -> u64 {
        self.current_delay_ms
    }

    /// Create a new reconnection handler with the given configuration.
    pub fn new(config: ReconnectConfig) -> (r: Result<Self, String>)
        ensures
            r is Ok <==> config.spec_valid(),
            r matches Ok(h) ==> {
                &&& h.spec_config() == config
                &&& h.spec_attempt_count() == 0
                &&& h.spec_start_time_ms() is None
                &&& h.spec_current_delay_ms() == config.initial_delay_ms
                &&& h.spec_wf()
            },
    {
        match config.validate() {
            Ok(()) => Ok(ReconnectHandler {
                current_delay_ms: config.initial_delay_ms,
                config,
                attempt_count: 0,
                start_time_ms: None,
            }),
            Err(e) => Err(e),
        }
    }

    /// Create a reconnection handler with the default configuration.
    pub fn with_default() -> (r: Self)
        ensures
            r.spec_config() == (ReconnectConfig {
                initial_delay_ms: 1000u64,
                max_delay_ms: 60_000u64,
                backoff_multiplier: 2u64,
                max_attempts: Some(10usize),
                max_total_duration_ms: Some(300_000u64),
                jitter: true,
            }),
            r.spec_attempt_count() == 0,
            (r.spec_start_time_ms() is None),
            r.spec_wf(),
    {
        let config = ReconnectConfig::default();
        match Self::new(config) {
            Ok(handler) => handler,
            Err(_) => {
                // unreachable: the default configuration is valid
                ReconnectHandler {
                    current_delay_ms: 1000,
                    config: ReconnectConfig::default(),
                    attempt_count: 0,
                    start_time_ms: None,
                }
            },
        }
    }

    /// Reset the handler to its initial state for a new connection session.
    pub fn reset(&mut self)
        ensures
            final(self).spec_config() == old(self).spec_config(),
            final(self).spec_attempt_count() == 0,
            final(self).spec_start_time_ms() is None,
            final(self).spec_current_delay_ms() == old(self).spec_config().initial_delay_ms,
            old(self).spec_config().spec_valid() ==> final(self).spec_wf(),
    {
        self.attempt_count = 0;
        self.start_time_ms = None;
        self.current_delay_ms = self.config.initial_delay_ms;
    }

    /// Everything one permitted or refused reconnection decision owes: the
    /// configuration untouched, the session start time pinned, and either
    /// the exhaustion error with the state unchanged, the time-budget error
    /// with the state unchanged, or the policy's (jittered) current delay
    /// with the attempt counted and the stored delay multiplied and capped.
    /// Feed clients that consult the policy restate their own outcome
    /// through this predicate.
    pub open spec fn spec_reconnect_decision(
        pre: ReconnectHandler,
        post: ReconnectHandler,
        r: Result<u64, ReconnectError>,
        now_ms: u64,
    ) -> bool {
        let started: u64 = match pre.spec_start_time_ms() {
            Some(t) => t,
            None => now_ms,
        };
        let exhausted: bool = match pre.spec_config().max_attempts {
            Some(m) => pre.spec_attempt_count() >= m,
            None => false,
        };
        let timed_out: bool = match pre.spec_config().max_total_duration_ms {
            Some(d) => spec_age_ms(started, now_ms) >= d,
            None => false,
        };
        &&& post.spec_config() == pre.spec_config()
        &&& post.spec_start_time_ms() == Some(started)
        &&& if exhausted {
            match pre.spec_config().max_attempts {
                Some(m) => {
                    &&& r == Err::<u64, ReconnectError>(ReconnectError::MaxAttemptsExceeded(m))
                    &&& post.spec_attempt_count() == pre.spec_attempt_count()
                    &&& post.spec_current_delay_ms() == pre.spec_current_delay_ms()
                },
                None => false,
            }
        } else if timed_out {
            match pre.spec_config().max_total_duration_ms {
                Some(d) => {
                    &&& r == Err::<u64, ReconnectError>(ReconnectError::ConnectionTimeout(d))
                    &&& post.spec_attempt_count() == pre.spec_attempt_count()
                    &&& post.spec_current_delay_ms() == pre.spec_current_delay_ms()
                },
                None => false,
            }
        } else {
            &&& post.spec_attempt_count() == pre.spec_attempt_count() + 1
            &&& post.spec_current_delay_ms() == spec_next_delay(
                pre.spec_current_delay_ms(),
                pre.spec_config().backoff_multiplier,
                pre.spec_config().max_delay_ms,
            )
            &&& r == Ok::<u64, ReconnectError>(
                if pre.spec_config().jitter {
                    spec_jittered_delay(
                        pre.spec_current_delay_ms(),
                        (pre.spec_attempt_count() + 1) as nat,
                    )
                } else {
                    pre.spec_current_delay_ms()
                },
            )
        }
    }

    /// Decide whether another reconnection attempt is allowed, and if so,
    /// return the delay to sleep before it. Each permitted call advances the
    /// backoff: the delay handed out is the current one (jittered when the
    /// configuration asks for it), and the stored delay is multiplied and
    /// capped for the next attempt.
    pub fn should_reconnect(&mut self, now_ms: u64) -> (r: Result<u64, ReconnectError>)
        requires
            old(self).spec_attempt_count() < usize::MAX,
        ensures
            Self::spec_reconnect_decision(*old(self), *final(self), r, now_ms),
            old(self).spec_wf() ==> final(self).spec_wf(),
    {
        // Initialize the start time on the first attempt.
        if self.start_time_ms.is_none() {
            self.start_time_ms = Some(now_ms);
        }

        // Check the maximum-attempts limit.
        if let Some(max_attempts) = self.config.max_attempts {
            if self.attempt_count >= max_attempts {
                return Err(ReconnectError::MaxAttemptsExceeded(max_attempts));
            }
        }

        // Check the maximum total duration limit.
        if let Some(max_duration) = self.config.max_total_duration_ms {
            if let Some(start_time) = self.start_time_ms {
                if crate::price::calculate_age_ms(start_time, now_ms) >= max_duration {
                    return Err(ReconnectError::ConnectionTimeout(max_duration));
                }
            }
        }

        self.attempt_count = self.attempt_count + 1;

        // The delay for this attempt.
        let delay = self.calculate_delay();

        // Advance the stored delay for the next attempt.
        self.update_delay();

        proof {
            if old(self).spec_wf() {
                law_backoff_step_in_range(
                    old(self).spec_current_delay_ms(),
                    old(self).spec_config().backoff_multiplier,
                    old(self).spec_config().max_delay_ms,
                );
            }
        }

        Ok(delay)
    }

    /// Get the current attempt number.
    pub fn attempt_count(&self) -> (r: usize)
        ensures
            r == self.spec_attempt_count(),
    {
        self.attempt_count
    }

    /// Get the total elapsed time since the first reconnection attempt.
    pub fn elapsed_time(&self, now_ms: u64) -> (r: Option<u64>)
        ensures
            match self.spec_start_time_ms() {
                Some(t) => r == Some(spec_age_ms(t, now_ms)),
                None => r is None,
            },
    {
        match self.start_time_ms {
            Some(start) => Some(crate::price::calculate_age_ms(start, now_ms)),
            None => None,
        }
    }

    /// Get the current configuration.
    pub fn config(&self) -> (r: &ReconnectConfig)
        ensures
            *r == self.spec_config(),
    {
        &self.config
    }

    /// Calculate the delay for the current attempt, with optional jitter.
    fn calculate_delay(&self) -> (r: u64)
        ensures
            r == if self.spec_config().jitter {
                spec_jittered_delay(self.spec_current_delay_ms(), self.spec_attempt_count() as nat)
            } else {
                self.spec_current_delay_ms()
            },
    {
        if self.config.jitter {
            self.add_jitter(self.current_delay_ms)
        } else {
            self.current_delay_ms
        }
    }

    /// Advance the stored delay for the next attempt using exponential
    /// backoff, capped at the configured maximum.
    fn update_delay(&mut self)
        ensures
            *final(self) == (ReconnectHandler {
                current_delay_ms: spec_next_delay(
                    old(self).spec_current_delay_ms(),
                    old(self).spec_config().backoff_multiplier,
                    old(self).spec_config().max_delay_ms,
                ),
                ..*old(self)
            }),
    {
        let delay_wide: u128 = self.current_delay_ms as u128;
        let mult_wide: u128 = self.config.backoff_multiplier as u128;
        proof {
            assert(delay_wide * mult_wide <= (u64::MAX as u128) * (u64::MAX as u128))
                by (nonlinear_arith)
                requires
                    0 <= delay_wide <= u64::MAX as u128,
                    0 <= mult_wide <= u64::MAX as u128,
            ;
        }
        let next_wide: u128 = delay_wide * mult_wide;
        let capped: u64 = if next_wide <= self.config.max_delay_ms as u128 {
            next_wide as u64
        } else {
            self.config.max_delay_ms
        };
        self.current_delay_ms = capped;
    }

    /// Perturb a delay by a deterministic jitter of -10% to +9%, keyed by
    /// the attempt count, to avoid thundering-herd reconnections.
    fn add_jitter(&self, delay: u64) -> (r: u64)
        ensures
            r == spec_jittered_delay(delay, self.spec_attempt_count() as nat),
    {
        let index: u64 = (((self.attempt_count as u128 * 25214903917 + 11) % 0x1000000000000)
            % 20) as u64;
        proof {
            assert(index == spec_jitter_index(self.spec_attempt_count() as nat));
            assert((delay as u128) * 20u128 < u128::MAX) by (nonlinear_arith)
                requires
                    delay <= u64::MAX,
            ;
        }
        let delay_wide: u128 = delay as u128;
        if index >= 10 {
            let pct: u128 = (index - 10 + 1) as u128;
            proof {
                assert(delay_wide * pct <= delay_wide * 20) by (nonlinear_arith)
                    requires
                        0 <= pct <= 20,
                        delay_wide >= 0,
                ;
                assert(delay_wide * pct / 100 <= delay_wide) by (nonlinear_arith)
                    requires
                        0 <= pct <= 20,
                        delay_wide >= 0,
                ;
            }
            let cut: u128 = delay_wide * pct / 100;
            delay - (cut as u64)
        } else {
            let pct: u128 = index as u128;
            proof {
                assert(delay_wide * pct <= delay_wide * 20) by (nonlinear_arith)
                    requires
                        0 <= pct <= 20,
                        delay_wide >= 0,
                ;
            }
            let add: u128 = delay_wide * pct / 100;
            let sum: u128 = delay_wide + add;
            if sum > u64::MAX as u128 {
                u64::MAX
            } else {
                sum as u64
            }
        }
    }
}

/// Law: one backoff step never shrinks the delay and never exceeds the cap.
/// With the current delay at most the cap and a multiplier above one, the
/// next delay lies between the current delay and the cap.
pub proof fn law_backoff_step_in_range(current: u64, multiplier: u64, max_delay: u64)
    requires
        current <= max_delay,
        multiplier > 1,
    ensures
        current <= spec_next_delay(current, multiplier, max_delay),
        spec_next_delay(current, multiplier, max_delay) <= max_delay,
{
    assert(current * multiplier >= current) by (nonlinear_arith)
        requires
            multiplier >= 1,
            current >= 0,
    ;
}

/// Law: the sequence of delays a handler hands out before exhaustion is
/// monotonically non-decreasing and bounded above by the configured cap,
/// jitter aside. Each permitted attempt returns the stored delay, and the
/// stored delay never decreases and never passes the cap.
pub proof fn law_backoff_monotone(h_before: ReconnectHandler, h_after: ReconnectHandler)
    requires
        h_before.spec_wf(),
        h_after.spec_config() == h_before.spec_config(),
        h_after.spec_current_delay_ms() == spec_next_delay(
            h_before.spec_current_delay_ms(),
            h_before.spec_config().backoff_multiplier,
            h_before.spec_config().max_delay_ms,
        ),
    ensures
        h_before.spec_current_delay_ms() <= h_after.spec_current_delay_ms(),
        h_after.spec_current_delay_ms() <= h_after.spec_config().max_delay_ms,
{
    law_backoff_step_in_range(
        h_before.spec_current_delay_ms(),
        h_before.spec_config().backoff_multiplier,
        h_before.spec_config().max_delay_ms,
    );
}

/// Law: jitter stays within a tenth of the delay in either direction.
pub proof fn law_jitter_bounded(delay: u64, attempt: nat)
    ensures
        spec_jittered_delay(delay, attempt) >= delay - delay / 10,
        spec_jittered_delay(delay, attempt) <= delay + delay / 10,
{
    let index = spec_jitter_index(attempt);
    assert(index < 20);
    let pct: int = if index >= 10 {
        (index - 10) + 1
    } else {
        index as int
    };
    assert(0 <= pct <= 10);
    assert(delay * pct <= delay * 10) by (nonlinear_arith)
        requires
            0 <= pct <= 10,
            delay >= 0,
    ;
    assert(delay * pct >= 0) by (nonlinear_arith)
        requires
            0 <= pct,
            delay >= 0,
    ;
    assert(delay * pct / 100 <= delay * 10 / 100);
    assert(delay * 10 / 100 <= delay / 10) by (nonlinear_arith)
        requires
            delay >= 0,
    ;
}

} // verus!
