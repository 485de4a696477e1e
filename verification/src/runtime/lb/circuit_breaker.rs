//! Circuit breaker for backend servers.
//!
//! The breaker stops requests to a failing backend for a while. It has three
//! states:
//!
//! - **Closed**: normal operation, requests flow through;
//! - **Open**: the backend is failing, requests are blocked;
//! - **HalfOpen**: testing whether the backend has recovered.
//!
//! Closed opens after `failure_threshold` consecutive failures; Open becomes
//! HalfOpen once the timeout has elapsed; HalfOpen closes after
//! `success_threshold` consecutive successes and reopens on any failure.
//!
//! Whether the timeout has elapsed is a reading of the clock. The `*_at`
//! methods take that reading as an argument and are specified exactly; the
//! methods without the suffix read the clock themselves.

use crate::constants::{
    CIRCUIT_BREAKER_FAILURE_THRESHOLD, CIRCUIT_BREAKER_SUCCESS_THRESHOLD,
    CIRCUIT_BREAKER_TIMEOUT_SECS,
};
use crate::time::{
    duration_at_least, duration_from_secs, elapsed_since, instant_now, secs_duration,
};
use std::time::{Duration, Instant};
use vstd::prelude::*;

verus! {

/// Default number of failures before opening the circuit.
pub const DEFAULT_FAILURE_THRESHOLD: u32 = CIRCUIT_BREAKER_FAILURE_THRESHOLD;

/// Default number of successes in half-open state to close the circuit.
pub const DEFAULT_SUCCESS_THRESHOLD: u32 = CIRCUIT_BREAKER_SUCCESS_THRESHOLD;

/// Configuration for the circuit breaker.
#[derive(Debug, Clone)]
pub struct CircuitBreakerConfig {
    /// Number of consecutive failures before opening the circuit.
    pub failure_threshold: u32,
    /// Number of consecutive successes in half-open state to close the circuit.
    pub success_threshold: u32,
    /// How long to stay open before transitioning to half-open.
    pub timeout: Duration,
}

/// The default open timeout.
pub fn default_timeout() -> (d: Duration)
    ensures
        d == secs_duration(CIRCUIT_BREAKER_TIMEOUT_SECS),
{
    duration_from_secs(CIRCUIT_BREAKER_TIMEOUT_SECS)
}

impl Default for CircuitBreakerConfig {
    fn default() -> (c: Self)
        ensures
            c.failure_threshold == DEFAULT_FAILURE_THRESHOLD,
            c.success_threshold == DEFAULT_SUCCESS_THRESHOLD,
            c.timeout == secs_duration(CIRCUIT_BREAKER_TIMEOUT_SECS),
    {
        CircuitBreakerConfig {
            failure_threshold: DEFAULT_FAILURE_THRESHOLD,
            success_threshold: DEFAULT_SUCCESS_THRESHOLD,
            timeout: default_timeout(),
        }
    }
}

impl CircuitBreakerConfig {
    /// Creates a configuration; each threshold is at least 1.
    pub fn new(failure_threshold: u32, success_threshold: u32, timeout: Duration) -> (c: Self)
        ensures
            c.failure_threshold == if failure_threshold == 0 { 1 } else { failure_threshold },
            c.success_threshold == if success_threshold == 0 { 1 } else { success_threshold },
            c.timeout == timeout,
    {
        CircuitBreakerConfig {
            failure_threshold: if failure_threshold == 0 { 1 } else { failure_threshold },
            success_threshold: if success_threshold == 0 { 1 } else { success_threshold },
            timeout,
        }
    }
}

/// State of the circuit breaker.
#[derive(Debug, Clone, Copy, PartialEq, Eq, Structural)]
pub enum CircuitBreakerState {
    /// Normal operation, requests flow through.
    Closed,
    /// Backend is failing, requests are blocked.
    Open,
    /// Testing if backend has recovered.
    HalfOpen,
}

/// The state stored under a byte: 1 is Open, 2 is HalfOpen, anything else Closed.
pub open spec fn state_of_byte(value: u8) -> CircuitBreakerState {
    if value == 1 {
        CircuitBreakerState::Open
    } else if value == 2 {
        CircuitBreakerState::HalfOpen
    } else {
        CircuitBreakerState::Closed
    }
}

impl From<u8> for CircuitBreakerState {
    fn from(value: u8) -> (s: Self) {
        match value {
            1 => CircuitBreakerState::Open,
            2 => CircuitBreakerState::HalfOpen,
            _ => CircuitBreakerState::Closed,
        }
    }
}

impl vstd::std_specs::convert::FromSpecImpl<u8> for CircuitBreakerState {
    open spec fn obeys_from_spec() -> bool {
        true
    }

    open spec fn from_spec(value: u8) -> Self {
        state_of_byte(value)
    }
}

/// The part of a breaker that its transitions change.
pub struct BreakerView {
    pub state: CircuitBreakerState,
    pub failures: nat,
    pub successes: nat,
}

/// The breaker right after it half-opens: both counters cleared.
pub open spec fn half_opened(v: BreakerView) -> BreakerView {
    BreakerView { state: CircuitBreakerState::HalfOpen, failures: 0, successes: 0 }
}

/// The breaker as a reading of the clock leaves it: an open breaker whose
/// timeout has elapsed half-opens; any other breaker is unchanged.
pub open spec fn observed(v: BreakerView, timed_out: bool) -> BreakerView {
    if v.state == CircuitBreakerState::Open && timed_out {
        half_opened(v)
    } else {
        v
    }
}

/// The effect of a successful request on an observed breaker.
pub open spec fn on_success(v: BreakerView, success_threshold: u32) -> BreakerView {
    match v.state {
        CircuitBreakerState::Closed => BreakerView { failures: 0, ..v },
        CircuitBreakerState::HalfOpen => if v.successes + 1 >= success_threshold {
            BreakerView { state: CircuitBreakerState::Closed, failures: 0, successes: 0 }
        } else {
            BreakerView { successes: v.successes + 1, ..v }
        },
        CircuitBreakerState::Open => v,
    }
}

/// The effect of a failed request on an observed breaker.
pub open spec fn on_failure(v: BreakerView, failure_threshold: u32) -> BreakerView {
    match v.state {
        CircuitBreakerState::Closed => if v.failures + 1 >= failure_threshold {
            BreakerView { state: CircuitBreakerState::Open, failures: v.failures + 1, successes: 0 }
        } else {
            BreakerView { failures: v.failures + 1, ..v }
        },
        CircuitBreakerState::HalfOpen => BreakerView {
            state: CircuitBreakerState::Open,
            successes: 0,
            ..v
        },
        CircuitBreakerState::Open => v,
    }
}

/// The breaker after `n` consecutive failures, with no timeout in between.
pub open spec fn failures_applied(v: BreakerView, failure_threshold: u32, n: nat) -> BreakerView
    decreases n,
{
    if n == 0 {
        v
    } else {
        on_failure(failures_applied(v, failure_threshold, (n - 1) as nat), failure_threshold)
    }
}

/// The breaker after `n` consecutive successes, with no timeout in between.
pub open spec fn successes_applied(v: BreakerView, success_threshold: u32, n: nat) -> BreakerView
    decreases n,
{
    if n == 0 {
        v
    } else {
        on_success(successes_applied(v, success_threshold, (n - 1) as nat), success_threshold)
    }
}

/// Circuit breaker for a single backend.
#[derive(Debug, Clone)]
pub struct CircuitBreaker {
    config: CircuitBreakerConfig,
    state: CircuitBreakerState,
    failure_count: u32,
    success_count: u32,
    opened_at: Option<Instant>,
}

impl CircuitBreaker {
    /// The configuration.
    pub closed spec fn config_spec(&self) -> CircuitBreakerConfig {
        self.config
    }

    /// The state and counters.
    pub closed spec fn view(&self) -> BreakerView {
        BreakerView {
            state: self.state,
            failures: self.failure_count as nat,
            successes: self.success_count as nat,
        }
    }

    /// What every breaker keeps: a closed breaker has not been opened, an
    /// open or half-open one has; a closed breaker has fewer failures than
    /// its threshold (or none), a half-open one fewer successes than its
    /// threshold (or none), and only a half-open one counts successes.
    pub closed spec fn wf(&self) -> bool {
        &&& (self.state == CircuitBreakerState::Closed) == self.opened_at.is_none()
        &&& self.state == CircuitBreakerState::Closed ==> (self.failure_count
            < self.config.failure_threshold || self.failure_count == 0)
        &&& self.state == CircuitBreakerState::HalfOpen ==> (self.success_count
            < self.config.success_threshold || self.success_count == 0)
        &&& self.state != CircuitBreakerState::HalfOpen ==> self.success_count == 0
        &&& self.state == CircuitBreakerState::HalfOpen ==> self.failure_count == 0
    }

    /// `after` is `self` once the clock has been read, whatever it said.
    pub open spec fn observed_by(&self, after: Self) -> bool {
        &&& after.wf()
        &&& after.config_spec() == self.config_spec()
        &&& (after.view() == observed(self.view(), false) || after.view() == observed(
            self.view(),
            true,
        ))
    }

    /// `after` is `self` once the clock has been read and a success recorded.
    pub open spec fn success_recorded(&self, after: Self) -> bool {
        &&& after.wf()
        &&& after.config_spec() == self.config_spec()
        &&& (after.view() == on_success(
            observed(self.view(), false),
            self.config_spec().success_threshold,
        ) || after.view() == on_success(
            observed(self.view(), true),
            self.config_spec().success_threshold,
        ))
    }

    /// `after` is `self` once the clock has been read and a failure recorded.
    pub open spec fn failure_recorded(&self, after: Self) -> bool {
        &&& after.wf()
        &&& after.config_spec() == self.config_spec()
        &&& (after.view() == on_failure(
            observed(self.view(), false),
            self.config_spec().failure_threshold,
        ) || after.view() == on_failure(
            observed(self.view(), true),
            self.config_spec().failure_threshold,
        ))
    }

    /// Creates a closed breaker with both counters at zero.
    pub fn new(config: CircuitBreakerConfig) -> (cb: Self)
        ensures
            cb.wf(),
            cb.config_spec() == config,
            cb.view() == (BreakerView { state: CircuitBreakerState::Closed, failures: 0, successes: 0 }),
    {
        CircuitBreaker {
            config,
            state: CircuitBreakerState::Closed,
            failure_count: 0,
            success_count: 0,
            opened_at: None,
        }
    }

    /// Creates a breaker with the default configuration.
    pub fn with_defaults() -> (cb: Self)
        ensures
            cb.wf(),
            cb.config_spec().failure_threshold == DEFAULT_FAILURE_THRESHOLD,
            cb.config_spec().success_threshold == DEFAULT_SUCCESS_THRESHOLD,
            cb.config_spec().timeout == secs_duration(CIRCUIT_BREAKER_TIMEOUT_SECS),
            cb.view() == (BreakerView { state: CircuitBreakerState::Closed, failures: 0, successes: 0 }),
    {
        Self::new(CircuitBreakerConfig::default())
    }

    fn transition_to_open(&mut self)
        ensures
            final(self).config == old(self).config,
            final(self).state == CircuitBreakerState::Open,
            final(self).failure_count == old(self).failure_count,
            final(self).success_count == 0,
            final(self).opened_at.is_some(),
    {
        self.state = CircuitBreakerState::Open;
        self.success_count = 0;
        self.opened_at = Some(instant_now());
    }

    fn transition_to_half_open(&mut self)
        ensures
            final(self).config == old(self).config,
            final(self).state == CircuitBreakerState::HalfOpen,
            final(self).failure_count == 0,
            final(self).success_count == 0,
            final(self).opened_at == old(self).opened_at,
    {
        self.state = CircuitBreakerState::HalfOpen;
        self.success_count = 0;
        self.failure_count = 0;
    }

    fn transition_to_closed(&mut self)
        ensures
            final(self).config == old(self).config,
            final(self).state == CircuitBreakerState::Closed,
            final(self).failure_count == 0,
            final(self).success_count == 0,
            final(self).opened_at.is_none(),
    {
        self.state = CircuitBreakerState::Closed;
        self.failure_count = 0;
        self.success_count = 0;
        self.opened_at = None;
    }

    /// The state once the clock reading `timed_out` (whether the open
    /// timeout has elapsed) is applied: an open breaker half-opens when it
    /// has timed out.
    pub fn state_at(&mut self, timed_out: bool) -> (s: CircuitBreakerState)
        requires
            old(self).wf(),
        ensures
            final(self).wf(),
            final(self).config_spec() == old(self).config_spec(),
            final(self).view() == observed(old(self).view(), timed_out),
            s == final(self).view().state,
    {
        if self.state == CircuitBreakerState::Open && timed_out {
            self.transition_to_half_open();
            return CircuitBreakerState::HalfOpen;
        }
        self.state
    }

    /// Whether the open timeout has elapsed, by the clock; false unless the
    /// breaker is open.
    fn timed_out(&self) -> (b: bool)
        ensures
            b ==> self.state == CircuitBreakerState::Open,
    {
        match &self.opened_at {
            Some(at) => {
                if self.state == CircuitBreakerState::Open {
                    let elapsed = elapsed_since(at);
                    duration_at_least(&elapsed, &self.config.timeout)
                } else {
                    false
                }
            },
            None => false,
        }
    }

    /// The current state; an open breaker whose timeout has elapsed by the
    /// clock half-opens first.
    pub fn state(&mut self) -> (s: CircuitBreakerState)
        requires
            old(self).wf(),
        ensures
            old(self).observed_by(*final(self)),
            s == final(self).view().state,
    {
        let t = self.timed_out();
        self.state_at(t)
    }

    /// Whether requests may pass, given whether the open timeout has elapsed: they may unless
    /// the observed breaker is open.
    pub fn is_available_at(&mut self, timed_out: bool) -> (b: bool)
        requires
            old(self).wf(),
        ensures
            final(self).wf(),
            final(self).config_spec() == old(self).config_spec(),
            final(self).view() == observed(old(self).view(), timed_out),
            b == (final(self).view().state != CircuitBreakerState::Open),
    {
        let s = self.state_at(timed_out);
        s != CircuitBreakerState::Open
    }

    /// Whether requests may pass: Closed and HalfOpen allow them, Open blocks.
    pub fn is_available(&mut self) -> (b: bool)
        requires
            old(self).wf(),
        ensures
            old(self).observed_by(*final(self)),
            b == (final(self).view().state != CircuitBreakerState::Open),
    {
        let t = self.timed_out();
        self.is_available_at(t)
    }

    /// Records a successful request, given whether the open timeout has elapsed.
    ///
    /// Closed: the failure count is reset. HalfOpen: the success count grows
    /// and the breaker closes once it reaches the threshold. Open: ignored.
    pub fn record_success_at(&mut self, timed_out: bool)
        requires
            old(self).wf(),
        ensures
            final(self).wf(),
            final(self).config_spec() == old(self).config_spec(),
            final(self).view() == on_success(
                observed(old(self).view(), timed_out),
                old(self).config_spec().success_threshold,
            ),
    {
        let s = self.state_at(timed_out);
        match s {
            CircuitBreakerState::Closed => {
                self.failure_count = 0;
            },
            CircuitBreakerState::HalfOpen => {
                let successes = self.success_count + 1;
                if successes >= self.config.success_threshold {
                    self.transition_to_closed();
                } else {
                    self.success_count = successes;
                }
            },
            CircuitBreakerState::Open => {},
        }
    }

    /// Records a successful request, reading the clock first.
    pub fn record_success(&mut self)
        requires
            old(self).wf(),
        ensures
            old(self).success_recorded(*final(self)),
    {
        let t = self.timed_out();
        self.record_success_at(t)
    }

    /// Records a failed request, given whether the open timeout has elapsed.
    ///
    /// Closed: the failure count grows and the breaker opens once it reaches
    /// the threshold. HalfOpen: the breaker reopens at once. Open: ignored.
    pub fn record_failure_at(&mut self, timed_out: bool)
        requires
            old(self).wf(),
        ensures
            final(self).wf(),
            final(self).config_spec() == old(self).config_spec(),
            final(self).view() == on_failure(
                observed(old(self).view(), timed_out),
                old(self).config_spec().failure_threshold,
            ),
    {
        let s = self.state_at(timed_out);
        match s {
            CircuitBreakerState::Closed => {
                let failures = self.failure_count + 1;
                self.failure_count = failures;
                if failures >= self.config.failure_threshold {
                    self.transition_to_open();
                }
            },
            CircuitBreakerState::HalfOpen => {
                self.transition_to_open();
            },
            CircuitBreakerState::Open => {},
        }
    }

    /// Records a failed request, reading the clock first.
    pub fn record_failure(&mut self)
        requires
            old(self).wf(),
        ensures
            old(self).failure_recorded(*final(self)),
    {
        let t = self.timed_out();
        self.record_failure_at(t)
    }

    /// The consecutive failure count.
    pub fn failure_count(&self) -> (n: u32)
        ensures
            n as nat == self.view().failures,
    {
        self.failure_count
    }

    /// The consecutive success count (meaningful in half-open state).
    pub fn success_count(&self) -> (n: u32)
        ensures
            n as nat == self.view().successes,
    {
        self.success_count
    }

    /// The configuration.
    pub fn config(&self) -> (c: &CircuitBreakerConfig)
        ensures
            *c == self.config_spec(),
    {
        &self.config
    }

    /// Resets the breaker to closed with both counters at zero.
    pub fn reset(&mut self)
        requires
            old(self).wf(),
        ensures
            final(self).wf(),
            final(self).config_spec() == old(self).config_spec(),
            final(self).view() == (BreakerView { state: CircuitBreakerState::Closed, failures: 0, successes: 0 }),
    {
        self.transition_to_closed();
    }
}

/// From a closed breaker with no failures, `failure_threshold` consecutive
/// failures open it, and fewer leave it closed with that many failures.
pub proof fn lemma_opens_after_threshold_failures(failure_threshold: u32, n: nat)
    requires
        failure_threshold >= 1,
        n <= failure_threshold,
    ensures
        ({
            let start = BreakerView { state: CircuitBreakerState::Closed, failures: 0, successes: 0 };
            let v = failures_applied(start, failure_threshold, n);
            &&& n < failure_threshold ==> v == (BreakerView { state: CircuitBreakerState::Closed, failures: n, successes: 0 })
            &&& n == failure_threshold ==> v.state == CircuitBreakerState::Open
        }),
    decreases n,
{
    if n > 0 {
        lemma_opens_after_threshold_failures(failure_threshold, (n - 1) as nat);
    }
}

/// From a breaker that has just half-opened, `success_threshold` consecutive
/// successes close it, and fewer leave it half-open with that many successes.
pub proof fn lemma_closes_after_threshold_successes(success_threshold: u32, n: nat)
    requires
        success_threshold >= 1,
        n <= success_threshold,
    ensures
        ({
            let start = BreakerView { state: CircuitBreakerState::HalfOpen, failures: 0, successes: 0 };
            let v = successes_applied(start, success_threshold, n);
            &&& n < success_threshold ==> v == (BreakerView { state: CircuitBreakerState::HalfOpen, failures: 0, successes: n })
            &&& n == success_threshold ==> v == (BreakerView { state: CircuitBreakerState::Closed, failures: 0, successes: 0 })
        }),
    decreases n,
{
    if n > 0 {
        lemma_closes_after_threshold_successes(success_threshold, (n - 1) as nat);
    }
}

/// A failure while half-open reopens the breaker, whatever the thresholds,
/// and an open breaker blocks requests until its timeout elapses.
pub proof fn lemma_half_open_failure_reopens(v: BreakerView, failure_threshold: u32)
    requires
        v.state == CircuitBreakerState::HalfOpen,
    ensures
        on_failure(v, failure_threshold).state == CircuitBreakerState::Open,
        observed(on_failure(v, failure_threshold), false).state == CircuitBreakerState::Open,
{
}

/// A success while closed clears the failure count and keeps the breaker closed.
pub proof fn lemma_closed_success_resets(v: BreakerView, success_threshold: u32)
    requires
        v.state == CircuitBreakerState::Closed,
    ensures
        on_success(v, success_threshold) == (BreakerView { failures: 0, ..v }),
        on_success(v, success_threshold).state == CircuitBreakerState::Closed,
{
}

} // verus!
