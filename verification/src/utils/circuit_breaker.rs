//! Circuit breaker for calls to an exchange: after enough consecutive
//! failures it opens and fails fast, after a timeout it lets calls through
//! again (half-open), and enough successes close it.
//!
//! The breaker does not make the call itself: the caller asks
//! [`CircuitBreaker::before_call`], performs the operation, and reports the
//! outcome with [`CircuitBreaker::on_success`] or [`CircuitBreaker::on_failure`].

use std::time::Instant;
use vstd::prelude::*;

use crate::utils::clock::{instant_now, nanos_since};

verus! {

/// Nanoseconds in one second; durations in this module are in nanoseconds.
pub const NANOS_PER_SEC: u128 = 1_000_000_000;

/// Thresholds and timeouts of a circuit breaker. Durations are in nanoseconds.
#[derive(Debug, Clone, Copy)]
pub struct CircuitBreakerConfig {
    /// Number of consecutive failures before opening.
    pub failure_threshold: usize,
    /// Time (ns) to wait in the open state before letting a call through.
    pub timeout: u128,
    /// Number of consecutive successes needed to close from half-open.
    pub success_threshold: usize,
    /// Longest time (ns) the circuit stays open before a call is let through.
    pub max_open_duration: u128,
}

/// The default thresholds: 5 failures, 60 s timeout, 3 successes, 300 s cap.
pub open spec fn default_breaker_config() -> CircuitBreakerConfig {
    CircuitBreakerConfig {
        failure_threshold: 5,
        timeout: 60_000_000_000,
        success_threshold: 3,
        max_open_duration: 300_000_000_000,
    }
}

impl Default for CircuitBreakerConfig {
    fn default() -> (config: Self)
        ensures
            config == default_breaker_config(),
    {
        CircuitBreakerConfig {
            failure_threshold: 5,
            timeout: 60 * NANOS_PER_SEC,
            success_threshold: 3,
            max_open_duration: 300 * NANOS_PER_SEC,
        }
    }
}

/// Position of the circuit.
#[derive(Debug, Clone, Copy, PartialEq, Eq, Structural)]
pub enum State {
    /// Normal operation: every call passes.
    Closed,
    /// Failing fast: calls are refused until the timeout has elapsed.
    Open,
    /// Probing recovery: calls pass, one failure reopens the circuit.
    HalfOpen,
}

/// Why a call was refused.
#[derive(Debug, Clone, Copy, PartialEq, Eq, Structural)]
pub enum CircuitBreakerError {
    /// The circuit is open and its timeout has not elapsed.
    Open,
}

/// The abstract state of a breaker: its position, counters and configuration.
pub struct BreakerModel {
    pub state: State,
    pub consecutive_failures: nat,
    pub consecutive_successes: nat,
    pub total_calls: nat,
    pub total_failures: nat,
    pub config: CircuitBreakerConfig,
}

/// The invariant every breaker keeps: a closed circuit has fewer consecutive
/// failures than the threshold (or none), and a half-open one fewer
/// consecutive successes than the threshold (or none).
pub open spec fn breaker_inv(m: BreakerModel) -> bool {
    &&& (m.state == State::Closed ==> m.consecutive_failures == 0
        || m.consecutive_failures < m.config.failure_threshold)
    &&& (m.state == State::HalfOpen ==> m.consecutive_successes == 0
        || m.consecutive_successes < m.config.success_threshold)
}

/// An open circuit that has been open for `elapsed` ns lets the next call through.
pub open spec fn reset_due(config: CircuitBreakerConfig, elapsed: int) -> bool {
    elapsed >= config.max_open_duration || elapsed >= config.timeout
}

/// Whether a call is admitted, `elapsed` ns after the last change of position.
pub open spec fn admits(m: BreakerModel, elapsed: int) -> bool {
    m.state != State::Open || reset_due(m.config, elapsed)
}

/// The breaker after a call was asked for, `elapsed` ns after the last change of position.
pub open spec fn after_admission(m: BreakerModel, elapsed: int) -> BreakerModel {
    if m.state == State::Open && reset_due(m.config, elapsed) {
        BreakerModel {
            state: State::HalfOpen,
            consecutive_successes: 0,
            total_calls: m.total_calls + 1,
            ..m
        }
    } else {
        BreakerModel { total_calls: m.total_calls + 1, ..m }
    }
}

/// The breaker after a successful operation.
pub open spec fn after_success(m: BreakerModel) -> BreakerModel {
    let successes = m.consecutive_successes + 1;
    match m.state {
        State::HalfOpen => if successes >= m.config.success_threshold {
            BreakerModel {
                state: State::Closed,
                consecutive_failures: 0,
                consecutive_successes: 0,
                ..m
            }
        } else {
            BreakerModel { consecutive_failures: 0, consecutive_successes: successes, ..m }
        },
        State::Closed => BreakerModel {
            consecutive_failures: 0,
            consecutive_successes: successes,
            ..m
        },
        State::Open => BreakerModel {
            state: State::Closed,
            consecutive_failures: 0,
            consecutive_successes: successes,
            ..m
        },
    }
}

/// The breaker after a failed operation.
pub open spec fn after_failure(m: BreakerModel) -> BreakerModel {
    let failures = m.consecutive_failures + 1;
    let total_failures = m.total_failures + 1;
    match m.state {
        State::Closed => BreakerModel {
            state: if failures >= m.config.failure_threshold {
                State::Open
            } else {
                State::Closed
            },
            consecutive_failures: failures,
            consecutive_successes: 0,
            total_failures,
            ..m
        },
        State::HalfOpen => BreakerModel {
            state: State::Open,
            consecutive_failures: 1,
            consecutive_successes: 0,
            total_failures,
            ..m
        },
        State::Open => BreakerModel {
            consecutive_failures: failures,
            consecutive_successes: 0,
            total_failures,
            ..m
        },
    }
}

/// The breaker after `count` failed operations in a row.
pub open spec fn after_failures(m: BreakerModel, count: nat) -> BreakerModel
    decreases count,
{
    if count == 0 {
        m
    } else {
        after_failure(after_failures(m, (count - 1) as nat))
    }
}

/// One call that was admitted `elapsed` ns after the last change of position and succeeded.
pub open spec fn successful_call(m: BreakerModel, elapsed: int) -> BreakerModel {
    after_success(after_admission(m, elapsed))
}

/// One call that was admitted `elapsed` ns after the last change of position and failed.
pub open spec fn failed_call(m: BreakerModel, elapsed: int) -> BreakerModel {
    after_failure(after_admission(m, elapsed))
}

/// `count` successful calls in a row, each made right after the previous one.
pub open spec fn successful_calls(m: BreakerModel, count: nat) -> BreakerModel
    decreases count,
{
    if count == 0 {
        m
    } else {
        successful_call(successful_calls(m, (count - 1) as nat), 0)
    }
}

/// A closed circuit with no recent failures stays closed for fewer than
/// `failure_threshold` consecutive failures and opens at the threshold
/// (at the first failure when the threshold is 0); it stays open after that.
pub proof fn lemma_consecutive_failures_open(m: BreakerModel, count: nat)
    requires
        m.state == State::Closed,
        m.consecutive_failures == 0,
    ensures
        after_failures(m, count).state == (if count >= m.config.failure_threshold && count >= 1 {
            State::Open
        } else {
            State::Closed
        }),
        after_failures(m, count).consecutive_failures == count,
        after_failures(m, count).total_failures == m.total_failures + count,
        after_failures(m, count).total_calls == m.total_calls,
        after_failures(m, count).config == m.config,
    decreases count,
{
    if count > 0 {
        lemma_consecutive_failures_open(m, (count - 1) as nat);
    }
}

/// An open circuit whose timeout has not elapsed refuses the call and stays
/// open; only the call total moves.
pub proof fn lemma_open_circuit_fails_fast(m: BreakerModel, elapsed: int)
    requires
        m.state == State::Open,
        elapsed < m.config.timeout,
        elapsed < m.config.max_open_duration,
    ensures
        !admits(m, elapsed),
        after_admission(m, elapsed) == (BreakerModel { total_calls: m.total_calls + 1, ..m }),
{
}

/// Recovery: once an open circuit's timeout has elapsed, the next call is let
/// through half-open; counting that call, `success_threshold` successful
/// calls close the circuit and it stays closed while calls keep succeeding.
/// A failure while half-open reopens the circuit with one failure counted.
pub proof fn lemma_recovery_after_timeout(m: BreakerModel, elapsed: int, more: nat)
    requires
        m.state == State::Open,
        reset_due(m.config, elapsed),
        m.config.success_threshold >= 1,
    ensures
        admits(m, elapsed),
        after_admission(m, elapsed).state == State::HalfOpen,
        failed_call(m, elapsed).state == State::Open,
        failed_call(m, elapsed).consecutive_failures == 1,
        successful_calls(successful_call(m, elapsed), more).state == (if more + 1
            >= m.config.success_threshold {
            State::Closed
        } else {
            State::HalfOpen
        }),
{
    lemma_recovery_streak(successful_call(m, elapsed), more);
}

proof fn lemma_recovery_streak(m1: BreakerModel, more: nat)
    requires
        m1.config.success_threshold >= 1,
        m1.state == State::Closed || m1.state == State::HalfOpen,
        m1.state == State::Closed <==> 1 >= m1.config.success_threshold,
        m1.state == State::HalfOpen ==> m1.consecutive_successes == 1,
    ensures
        successful_calls(m1, more).state == (if more + 1 >= m1.config.success_threshold {
            State::Closed
        } else {
            State::HalfOpen
        }),
        successful_calls(m1, more).config == m1.config,
        successful_calls(m1, more).state == State::HalfOpen
            ==> successful_calls(m1, more).consecutive_successes == more + 1,
    decreases more,
{
    if more > 0 {
        lemma_recovery_streak(m1, (more - 1) as nat);
    }
}

/// A call that is let through and fails: the call and the failure are
/// counted, the success streak resets, a closed circuit opens once the
/// failure streak reaches the threshold (and stays closed before), and a
/// half-open circuit (an open one past its timeout becomes half-open with no
/// successes when the call is let through) reopens with one failure counted.
pub proof fn lemma_failed_call(m: BreakerModel, elapsed: int)
    requires
        admits(m, elapsed),
    ensures
        after_admission(m, elapsed).state != State::Open,
        m.state == State::Open ==> after_admission(m, elapsed).state == State::HalfOpen
            && after_admission(m, elapsed).consecutive_successes == 0,
        failed_call(m, elapsed).total_calls == m.total_calls + 1,
        failed_call(m, elapsed).total_failures == m.total_failures + 1,
        failed_call(m, elapsed).consecutive_successes == 0,
        after_admission(m, elapsed).state == State::Closed ==> failed_call(
            m,
            elapsed,
        ).consecutive_failures == m.consecutive_failures + 1 && (failed_call(m, elapsed).state
            == State::Open <==> m.consecutive_failures + 1 >= m.config.failure_threshold) && (
        failed_call(m, elapsed).state == State::Open || failed_call(m, elapsed).state
            == State::Closed),
        after_admission(m, elapsed).state == State::HalfOpen ==> failed_call(m, elapsed).state
            == State::Open && failed_call(m, elapsed).consecutive_failures == 1,
{
}

/// A call that is let through and succeeds: the call is counted, the
/// failure streak resets and the success streak grows; a closed circuit
/// stays closed, and a half-open one closes, with its streak reset, once the
/// streak reaches the threshold.
pub proof fn lemma_successful_call(m: BreakerModel, elapsed: int)
    requires
        admits(m, elapsed),
    ensures
        successful_call(m, elapsed).total_calls == m.total_calls + 1,
        successful_call(m, elapsed).total_failures == m.total_failures,
        successful_call(m, elapsed).consecutive_failures == 0,
        after_admission(m, elapsed).state == State::Closed ==> successful_call(m, elapsed).state
            == State::Closed && successful_call(m, elapsed).consecutive_successes
            == after_admission(m, elapsed).consecutive_successes + 1,
        after_admission(m, elapsed).state == State::HalfOpen ==> (successful_call(
            m,
            elapsed,
        ).state == State::Closed <==> after_admission(m, elapsed).consecutive_successes + 1
            >= m.config.success_threshold),
        after_admission(m, elapsed).state == State::HalfOpen && successful_call(m, elapsed).state
            == State::Closed ==> successful_call(m, elapsed).consecutive_successes == 0,
        after_admission(m, elapsed).state == State::HalfOpen && successful_call(m, elapsed).state
            == State::HalfOpen ==> successful_call(m, elapsed).consecutive_successes
            == after_admission(m, elapsed).consecutive_successes + 1,
{
}

/// Every counted failure follows a call that was let through, so a breaker
/// driven by calls never reports more failures than calls.
pub proof fn lemma_failures_within_calls(m: BreakerModel, elapsed: int)
    requires
        m.total_failures <= m.total_calls,
    ensures
        after_admission(m, elapsed).total_failures <= after_admission(m, elapsed).total_calls,
        admits(m, elapsed) ==> failed_call(m, elapsed).total_failures <= failed_call(
            m,
            elapsed,
        ).total_calls,
        successful_call(m, elapsed).total_failures <= successful_call(m, elapsed).total_calls,
{
}

struct BreakerState {
    state: State,
    consecutive_failures: usize,
    consecutive_successes: usize,
    last_failure_time: Option<Instant>,
    last_success_time: Option<Instant>,
    state_change_time: Instant,
    total_calls: u64,
    total_failures: u64,
}

/// Circuit breaker; see the module documentation for how it is driven.
pub struct CircuitBreaker {
    state: BreakerState,
    config: CircuitBreakerConfig,
}

/// A snapshot of a breaker's counters. `time_in_current_state` is in nanoseconds.
#[derive(Debug, Clone, Copy)]
pub struct CircuitBreakerStats {
    pub state: State,
    pub consecutive_failures: usize,
    pub consecutive_successes: usize,
    pub total_calls: u64,
    pub total_failures: u64,
    pub time_in_current_state: u128,
}

impl View for CircuitBreaker {
    type V = BreakerModel;

    closed spec fn view(&self) -> BreakerModel {
        BreakerModel {
            state: self.state.state,
            consecutive_failures: self.state.consecutive_failures as nat,
            consecutive_successes: self.state.consecutive_successes as nat,
            total_calls: self.state.total_calls as nat,
            total_failures: self.state.total_failures as nat,
            config: self.config,
        }
    }
}

impl CircuitBreaker {
    #[verifier::type_invariant]
    closed spec fn inv(self) -> bool {
        breaker_inv(self@)
    }

    /// When the circuit last changed position (a monotonic clock reading);
    /// the open timeout is measured from it.
    pub closed spec fn changed_at(&self) -> Instant {
        self.state.state_change_time
    }

    /// A closed breaker with zeroed counters.
    pub fn new(config: CircuitBreakerConfig) -> (breaker: Self)
        ensures
            breaker@ == (BreakerModel {
                state: State::Closed,
                consecutive_failures: 0,
                consecutive_successes: 0,
                total_calls: 0,
                total_failures: 0,
                config,
            }),
    {
        CircuitBreaker {
            state: BreakerState {
                state: State::Closed,
                consecutive_failures: 0,
                consecutive_successes: 0,
                last_failure_time: None,
                last_success_time: None,
                state_change_time: instant_now(),
                total_calls: 0,
                total_failures: 0,
            },
            config,
        }
    }

    /// Decides whether a call may go ahead when the circuit has been in its
    /// current position for `elapsed` nanoseconds, and counts the call.
    /// An open circuit whose timeout has elapsed moves to half-open.
    pub fn before_call_at(&mut self, elapsed: u128) -> (r: Result<(), CircuitBreakerError>)
        requires
            old(self)@.total_calls < u64::MAX,
        ensures
            final(self)@ == after_admission(old(self)@, elapsed as int),
            r is Ok <==> admits(old(self)@, elapsed as int),
            r is Err ==> r == Err::<(), CircuitBreakerError>(CircuitBreakerError::Open),
            breaker_inv(final(self)@),
            final(self)@.state == old(self)@.state ==> final(self).changed_at() == old(self).changed_at(),
    {
        proof {
            use_type_invariant(&*self);
        }
        let total_calls = self.state.total_calls + 1;
        match self.state.state {
            State::Closed | State::HalfOpen => {
                self.state = BreakerState { total_calls, ..self.state };
                Ok(())
            },
            State::Open => {
                let cfg = self.config;
                if elapsed >= cfg.max_open_duration || elapsed >= cfg.timeout {
                    self.state = BreakerState {
                        state: State::HalfOpen,
                        consecutive_successes: 0,
                        state_change_time: instant_now(),
                        total_calls,
                        ..self.state
                    };
                    Ok(())
                } else {
                    self.state = BreakerState { total_calls, ..self.state };
                    Err(CircuitBreakerError::Open)
                }
            },
        }
    }
    /// Asks whether a call may go ahead now, reading the monotonic clock for
    /// the time the circuit has spent open. Closed and half-open circuits
    /// admit every call; an open one admits it once its timeout has elapsed.
    pub fn before_call(&mut self) -> (r: Result<(), CircuitBreakerError>)
        requires
            old(self)@.total_calls < u64::MAX,
        ensures
            exists|elapsed: u128|
                final(self)@ == after_admission(old(self)@, elapsed as int) && (r is Ok
                    <==> admits(old(self)@, elapsed as int)),
            old(self)@.state != State::Open ==> r is Ok && final(self)@ == after_admission(
                old(self)@,
                0,
            ),
            r is Err ==> r == Err::<(), CircuitBreakerError>(CircuitBreakerError::Open),
            breaker_inv(final(self)@),
            final(self)@.state == old(self)@.state ==> final(self).changed_at() == old(self).changed_at(),
    {
        let elapsed = if self.state.state == State::Open {
            nanos_since(&self.state.state_change_time)
        } else {
            0
        };
        self.before_call_at(elapsed)
    }

    /// Records a successful operation: failures reset, successes count up,
    /// and a half-open circuit closes once enough successes were seen.
    pub fn on_success(&mut self)
        requires
            old(self)@.consecutive_successes < usize::MAX,
        ensures
            final(self)@ == after_success(old(self)@),
            breaker_inv(final(self)@),
            final(self)@.state == old(self)@.state ==> final(self).changed_at() == old(self).changed_at(),
    {
        proof {
            use_type_invariant(&*self);
        }
        let successes = self.state.consecutive_successes + 1;
        let now = instant_now();
        match self.state.state {
            State::HalfOpen => {
                if successes >= self.config.success_threshold {
                    self.state = BreakerState {
                        state: State::Closed,
                        consecutive_failures: 0,
                        consecutive_successes: 0,
                        last_success_time: Some(now),
                        state_change_time: instant_now(),
                        ..self.state
                    };
                } else {
                    self.state = BreakerState {
                        consecutive_failures: 0,
                        consecutive_successes: successes,
                        last_success_time: Some(now),
                        ..self.state
                    };
                }
            },
            State::Closed => {
                self.state = BreakerState {
                    consecutive_failures: 0,
                    consecutive_successes: successes,
                    last_success_time: Some(now),
                    ..self.state
                };
            },
            State::Open => {
                self.state = BreakerState {
                    state: State::Closed,
                    consecutive_failures: 0,
                    consecutive_successes: successes,
                    last_success_time: Some(now),
                    state_change_time: instant_now(),
                    ..self.state
                };
            },
        }
    }

    /// Records a failed operation: successes reset, failures count up, a
    /// closed circuit opens at the failure threshold and a half-open one
    /// reopens at once.
    pub fn on_failure(&mut self)
        requires
            old(self)@.consecutive_failures < usize::MAX,
            old(self)@.total_failures < u64::MAX,
        ensures
            final(self)@ == after_failure(old(self)@),
            breaker_inv(final(self)@),
            final(self)@.state == old(self)@.state ==> final(self).changed_at() == old(self).changed_at(),
    {
        proof {
            use_type_invariant(&*self);
        }
        let failures = self.state.consecutive_failures + 1;
        let total_failures = self.state.total_failures + 1;
        let now = instant_now();
        match self.state.state {
            State::Closed => {
                if failures >= self.config.failure_threshold {
                    self.state = BreakerState {
                        state: State::Open,
                        consecutive_failures: failures,
                        consecutive_successes: 0,
                        last_failure_time: Some(now),
                        state_change_time: instant_now(),
                        total_failures,
                        ..self.state
                    };
                } else {
                    self.state = BreakerState {
                        consecutive_failures: failures,
                        consecutive_successes: 0,
                        last_failure_time: Some(now),
                        total_failures,
                        ..self.state
                    };
                }
            },
            State::HalfOpen => {
                self.state = BreakerState {
                    state: State::Open,
                    consecutive_failures: 1,
                    consecutive_successes: 0,
                    last_failure_time: Some(now),
                    state_change_time: instant_now(),
                    total_failures,
                    ..self.state
                };
            },
            State::Open => {
                self.state = BreakerState {
                    consecutive_failures: failures,
                    consecutive_successes: 0,
                    last_failure_time: Some(now),
                    total_failures,
                    ..self.state
                };
            },
        }
    }

    /// Current position of the circuit.
    pub fn get_state(&self) -> (state: State)
        ensures
            state == self@.state,
    {
        self.state.state
    }

    /// Closes the circuit and clears both consecutive counters.
    pub fn force_close(&mut self)
        ensures
            final(self)@ == (BreakerModel {
                state: State::Closed,
                consecutive_failures: 0,
                consecutive_successes: 0,
                ..old(self)@
            }),
    {
        self.state = BreakerState {
            state: State::Closed,
            consecutive_failures: 0,
            consecutive_successes: 0,
            state_change_time: instant_now(),
            ..self.state
        };
    }

    /// Opens the circuit, leaving the counters as they are.
    pub fn force_open(&mut self)
        ensures
            final(self)@ == (BreakerModel { state: State::Open, ..old(self)@ }),
    {
        self.state = BreakerState {
            state: State::Open,
            state_change_time: instant_now(),
            ..self.state
        };
    }

    /// The counters, and the nanoseconds spent in the current position.
    pub fn get_stats(&self) -> (stats: CircuitBreakerStats)
        ensures
            stats.state == self@.state,
            stats.consecutive_failures == self@.consecutive_failures,
            stats.consecutive_successes == self@.consecutive_successes,
            stats.total_calls == self@.total_calls,
            stats.total_failures == self@.total_failures,
    {
        CircuitBreakerStats {
            state: self.state.state,
            consecutive_failures: self.state.consecutive_failures,
            consecutive_successes: self.state.consecutive_successes,
            total_calls: self.state.total_calls,
            total_failures: self.state.total_failures,
            time_in_current_state: nanos_since(&self.state.state_change_time),
        }
    }

    /// Zeroes the call and failure totals, keeping position and streaks.
    pub fn reset_stats(&mut self)
        ensures
            final(self)@ == (BreakerModel { total_calls: 0, total_failures: 0, ..old(self)@ }),
            final(self).changed_at() == old(self).changed_at(),
    {
        proof {
            use_type_invariant(&*self);
        }
        self.state = BreakerState { total_calls: 0, total_failures: 0, ..self.state };
    }
}

} // verus!
