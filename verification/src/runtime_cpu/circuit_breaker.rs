//! A circuit breaker: calls pass while the circuit is closed, are refused
//! while it is open, and are tried again once the open circuit has rested.
//!
//! The breaker is told the time, in milliseconds of any clock that does
//! not run backwards.

use vstd::prelude::*;
use vstd::string::StringExecFns;

verus! {

/// The state of the circuit.
#[derive(Debug, Clone, Copy, PartialEq, Eq, Structural)]
pub enum CircuitState {
    /// Calls pass.
    Closed,
    /// Calls are refused.
    Open,
    /// Calls pass on trial.
    HalfOpen,
}

/// How the breaker works.
#[derive(Debug, Clone, Copy)]
pub struct CircuitBreakerConfig {
    /// Failures in a row that open the circuit.
    pub failure_threshold: u32,
    /// Milliseconds that an open circuit rests.
    pub reset_timeout_ms: u64,
    /// Successes on trial that close the circuit.
    pub success_threshold: u32,
    /// Milliseconds after which a call is given up.
    pub call_timeout_ms: u64,
}

impl Default for CircuitBreakerConfig {
    fn default() -> (c: CircuitBreakerConfig)
        ensures
            c.failure_threshold == 5,
            c.reset_timeout_ms == 30000,
            c.success_threshold == 3,
            c.call_timeout_ms == 10000,
    {
        CircuitBreakerConfig {
            failure_threshold: 5,
            reset_timeout_ms: 30000,
            success_threshold: 3,
            call_timeout_ms: 10000,
        }
    }
}

/// What a call through the breaker reports.
#[derive(Debug)]
pub enum CircuitBreakerError<E> {
    /// The circuit is open and the call was not made.
    CircuitOpen,
    /// The call was made and failed.
    CallFailed(E),
}

impl<E> CircuitBreakerError<E> {
    /// The failure of the call, where the call was made.
    pub fn source(&self) -> (r: Option<&E>)
        ensures
            match self {
                CircuitBreakerError::CircuitOpen => r is None,
                CircuitBreakerError::CallFailed(e) => r == Some(e),
            },
    {
        match self {
            CircuitBreakerError::CircuitOpen => None,
            CircuitBreakerError::CallFailed(e) => Some(e),
        }
    }
}

impl CircuitBreakerError<String> {
    /// The error as a sentence.
    pub open spec fn spec_message(&self) -> Seq<char> {
        match self {
            CircuitBreakerError::CircuitOpen => "Circuit breaker is open"@,
            CircuitBreakerError::CallFailed(e) => "Call failed: "@ + e@,
        }
    }

    /// The error as a sentence.
    pub fn message(&self) -> (s: String)
        ensures
            s@ == self.spec_message(),
    {
        match self {
            CircuitBreakerError::CircuitOpen => String::from_str("Circuit breaker is open"),
            CircuitBreakerError::CallFailed(e) => {
                let mut s = String::from_str("Call failed: ");
                s.append(e.as_str());
                s
            },
        }
    }
}

/// The counts of a breaker.
#[derive(Debug, Clone, Copy)]
pub struct CircuitBreakerStats {
    /// The state.
    pub state: CircuitState,
    /// Calls asked for.
    pub total_calls: u64,
    /// Calls that succeeded.
    pub total_successes: u64,
    /// Calls that failed.
    pub total_failures: u64,
    /// Calls that were refused.
    pub total_rejections: u64,
    /// Failures in a row while closed.
    pub current_failure_count: u32,
}

/// The breaker.
#[derive(Debug, Clone, Copy)]
pub struct CircuitBreaker {
    /// How it works.
    pub config: CircuitBreakerConfig,
    /// The state.
    pub state: CircuitState,
    /// Failures in a row while closed.
    pub failure_count: u32,
    /// Successes on trial.
    pub success_count: u32,
    /// When a call last failed.
    pub last_failure_time: Option<u64>,
    /// Calls asked for.
    pub total_calls: u64,
    /// Calls that failed.
    pub total_failures: u64,
    /// Calls that succeeded.
    pub total_successes: u64,
    /// Calls that were refused.
    pub total_rejections: u64,
}

impl CircuitBreaker {
    /// Whether an open circuit has rested at `now`.
    pub open spec fn rested(self, now: u64) -> bool {
        self.last_failure_time is Some && now >= self.last_failure_time->0 && now - self.last_failure_time->0
            >= self.config.reset_timeout_ms
    }

    /// Whether a call passes at `now`.
    pub open spec fn allows(self, now: u64) -> bool {
        self.state != CircuitState::Open || self.rested(now)
    }

    /// The breaker once it was asked at `now` whether a call passes: an
    /// open circuit that has rested goes on trial.
    pub open spec fn asked(self, now: u64) -> CircuitBreaker {
        if self.state == CircuitState::Open && self.rested(now) {
            CircuitBreaker { state: CircuitState::HalfOpen, success_count: 0, ..self }
        } else {
            self
        }
    }

    /// The breaker after a success: a closed circuit forgets its
    /// failures; a circuit on trial counts the success and closes once it
    /// has counted enough.
    pub open spec fn succeeded(self) -> CircuitBreaker {
        let counted = CircuitBreaker { total_successes: self.total_successes.wrapping_add(1), ..self };
        match self.state {
            CircuitState::Closed => CircuitBreaker { failure_count: 0, ..counted },
            CircuitState::HalfOpen => if self.success_count.wrapping_add(1) >= self.config.success_threshold {
                CircuitBreaker { state: CircuitState::Closed, failure_count: 0, success_count: 0, ..counted }
            } else {
                CircuitBreaker { success_count: self.success_count.wrapping_add(1), ..counted }
            },
            CircuitState::Open => counted,
        }
    }

    /// The breaker after a failure at `now`: a closed circuit counts the
    /// failure and opens once it has counted enough; a circuit on trial
    /// opens at once.
    pub open spec fn failed(self, now: u64) -> CircuitBreaker {
        let counted = CircuitBreaker {
            total_failures: self.total_failures.wrapping_add(1),
            last_failure_time: Some(now),
            ..self
        };
        match self.state {
            CircuitState::Closed => CircuitBreaker {
                failure_count: self.failure_count.wrapping_add(1),
                state: if self.failure_count.wrapping_add(1) >= self.config.failure_threshold {
                    CircuitState::Open
                } else {
                    CircuitState::Closed
                },
                ..counted
            },
            CircuitState::HalfOpen => CircuitBreaker { state: CircuitState::Open, success_count: 0, ..counted },
            CircuitState::Open => counted,
        }
    }

    /// A closed breaker without counts.
    pub fn new(config: CircuitBreakerConfig) -> (b: Self)
        ensures
            b.config == config,
            b.state == CircuitState::Closed,
            b.failure_count == 0,
            b.success_count == 0,
            b.last_failure_time is None,
            b.total_calls == 0,
            b.total_failures == 0,
            b.total_successes == 0,
            b.total_rejections == 0,
    {
        CircuitBreaker {
            config,
            state: CircuitState::Closed,
            failure_count: 0,
            success_count: 0,
            last_failure_time: None,
            total_calls: 0,
            total_failures: 0,
            total_successes: 0,
            total_rejections: 0,
        }
    }

    /// The state.
    pub fn state(&self) -> (s: CircuitState)
        ensures
            s == self.state,
    {
        self.state
    }

    /// Whether a call passes at `now`; an open circuit that has rested
    /// goes on trial.
    pub fn is_allowed(&mut self, now: u64) -> (r: bool)
        ensures
            r == old(self).allows(now),
            *final(self) == old(self).asked(now),
    {
        match self.state {
            CircuitState::Closed => true,
            CircuitState::HalfOpen => true,
            CircuitState::Open => {
                match self.last_failure_time {
                    Some(last) => {
                        if now >= last && now - last >= self.config.reset_timeout_ms {
                            self.state = CircuitState::HalfOpen;
                            self.success_count = 0;
                            return true;
                        }
                    },
                    None => {},
                }
                false
            },
        }
    }

    /// Asks for a call at `now`: the call is counted, and where the
    /// circuit refuses it, so is the refusal.
    pub fn begin_call(&mut self, now: u64) -> (r: Result<(), CircuitBreakerError<String>>)
        ensures
            r is Ok <==> old(self).allows(now),
            r is Err ==> r->Err_0 is CircuitOpen,
            *final(self) == (CircuitBreaker {
                total_calls: old(self).total_calls.wrapping_add(1),
                total_rejections: if old(self).allows(now) {
                    old(self).total_rejections
                } else {
                    old(self).total_rejections.wrapping_add(1)
                },
                ..old(self).asked(now)
            }),
    {
        self.total_calls = self.total_calls.wrapping_add(1);
        if !self.is_allowed(now) {
            self.total_rejections = self.total_rejections.wrapping_add(1);
            return Err(CircuitBreakerError::CircuitOpen);
        }
        Ok(())
    }

    /// Makes a call through the breaker at `now`. A call that the circuit
    /// refuses is not made; else the call is made and its outcome is
    /// recorded.
    pub fn call<T, E, F: FnOnce() -> Result<T, E>>(&mut self, f: F, now: u64) -> (r: Result<
        T,
        CircuitBreakerError<E>,
    >)
        requires
            f.requires(()),
        ensures
            !old(self).allows(now) ==> r is Err && r->Err_0 is CircuitOpen && *final(self) == (CircuitBreaker {
                total_calls: old(self).total_calls.wrapping_add(1),
                total_rejections: old(self).total_rejections.wrapping_add(1),
                ..*old(self)
            }),
            old(self).allows(now) ==> match r {
                Ok(v) => f.ensures((), Ok(v)) && *final(self) == (CircuitBreaker {
                    total_calls: old(self).total_calls.wrapping_add(1),
                    ..old(self).asked(now)
                }).succeeded(),
                Err(CircuitBreakerError::CallFailed(e)) => f.ensures((), Err(e)) && *final(self) == (CircuitBreaker {
                    total_calls: old(self).total_calls.wrapping_add(1),
                    ..old(self).asked(now)
                }).failed(now),
                Err(CircuitBreakerError::CircuitOpen) => false,
            },
    {
        self.total_calls = self.total_calls.wrapping_add(1);
        if !self.is_allowed(now) {
            self.total_rejections = self.total_rejections.wrapping_add(1);
            return Err(CircuitBreakerError::CircuitOpen);
        }
        match f() {
            Ok(v) => {
                self.on_success();
                Ok(v)
            },
            Err(e) => {
                self.on_failure(now);
                Err(CircuitBreakerError::CallFailed(e))
            },
        }
    }

    /// Records a success.
    pub fn on_success(&mut self)
        ensures
            *final(self) == old(self).succeeded(),
    {
        self.total_successes = self.total_successes.wrapping_add(1);
        match self.state {
            CircuitState::Closed => {
                self.failure_count = 0;
            },
            CircuitState::HalfOpen => {
                let count = self.success_count.wrapping_add(1);
                self.success_count = count;
                if count >= self.config.success_threshold {
                    self.state = CircuitState::Closed;
                    self.failure_count = 0;
                    self.success_count = 0;
                }
            },
            CircuitState::Open => {},
        }
    }

    /// Records a failure at `now`.
    pub fn on_failure(&mut self, now: u64)
        ensures
            *final(self) == old(self).failed(now),
    {
        self.total_failures = self.total_failures.wrapping_add(1);
        self.last_failure_time = Some(now);
        match self.state {
            CircuitState::Closed => {
                let count = self.failure_count.wrapping_add(1);
                self.failure_count = count;
                if count >= self.config.failure_threshold {
                    self.state = CircuitState::Open;
                }
            },
            CircuitState::HalfOpen => {
                self.state = CircuitState::Open;
                self.success_count = 0;
            },
            CircuitState::Open => {},
        }
    }

    /// Closes the circuit and forgets failures and successes; the totals
    /// stay.
    pub fn reset(&mut self)
        ensures
            *final(self) == (CircuitBreaker {
                state: CircuitState::Closed,
                failure_count: 0,
                success_count: 0,
                last_failure_time: None,
                ..*old(self)
            }),
    {
        self.state = CircuitState::Closed;
        self.failure_count = 0;
        self.success_count = 0;
        self.last_failure_time = None;
    }

    /// The counts.
    pub fn stats(&self) -> (s: CircuitBreakerStats)
        ensures
            s.state == self.state,
            s.total_calls == self.total_calls,
            s.total_successes == self.total_successes,
            s.total_failures == self.total_failures,
            s.total_rejections == self.total_rejections,
            s.current_failure_count == self.failure_count,
    {
        CircuitBreakerStats {
            state: self.state,
            total_calls: self.total_calls,
            total_successes: self.total_successes,
            total_failures: self.total_failures,
            total_rejections: self.total_rejections,
            current_failure_count: self.failure_count,
        }
    }
}

} // verus!
