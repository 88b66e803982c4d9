//! Health: what state the service is in and whether it is ready.

use vstd::prelude::*;
use vstd::string::StringExecFns;

verus! {

/// The health of the service.
#[derive(Debug, Clone, Copy, PartialEq, Eq, Structural)]
pub enum HealthStatus {
    /// All is well.
    Healthy,
    /// Working, but not all is well.
    Degraded,
    /// Not working.
    Unhealthy,
    /// Not yet ready.
    Starting,
    /// On its way down.
    ShuttingDown,
}

impl HealthStatus {
    /// The name of the status.
    pub open spec fn spec_name(self) -> Seq<char> {
        match self {
            HealthStatus::Healthy => "healthy"@,
            HealthStatus::Degraded => "degraded"@,
            HealthStatus::Unhealthy => "unhealthy"@,
            HealthStatus::Starting => "starting"@,
            HealthStatus::ShuttingDown => "shutting_down"@,
        }
    }

    /// The name of the status.
    pub fn name(self) -> (s: &'static str)
        ensures
            s@ == self.spec_name(),
    {
        match self {
            HealthStatus::Healthy => "healthy",
            HealthStatus::Degraded => "degraded",
            HealthStatus::Unhealthy => "unhealthy",
            HealthStatus::Starting => "starting",
            HealthStatus::ShuttingDown => "shutting_down",
        }
    }
}

/// What one check found.
#[derive(Debug, Clone)]
pub struct HealthCheckResult {
    /// What was checked.
    pub component: String,
    /// What was found.
    pub status: HealthStatus,
    /// More about it.
    pub message: Option<String>,
    /// How long the check took, in microseconds.
    pub latency_us: u64,
    /// When the check was made, in milliseconds since the epoch.
    pub last_check: u64,
}

/// Whether the service is ready, and why.
#[derive(Debug, Clone)]
pub struct ReadinessResult {
    /// Whether the service takes work.
    pub ready: bool,
    /// What the checks found.
    pub checks: Vec<HealthCheckResult>,
    /// Seconds since the service started.
    pub uptime_secs: u64,
    /// The version of the service.
    pub version: String,
}

/// Whether every check found the component healthy.
pub open spec fn all_healthy(checks: Seq<HealthCheckResult>) -> bool {
    forall|i: int| 0 <= i < checks.len() ==> (#[trigger] checks[i]).status == HealthStatus::Healthy
}

/// The health of the service.
#[derive(Debug, Clone, Copy)]
pub struct HealthManager {
    /// The status.
    pub status: HealthStatus,
    /// Whether the service takes work.
    pub ready: bool,
    /// When the checks last ran, in milliseconds since the epoch.
    pub last_check: u64,
}

impl HealthManager {
    /// A service that is starting and not ready.
    pub fn new() -> (m: Self)
        ensures
            m.status == HealthStatus::Starting,
            !m.ready,
            m.last_check == 0,
    {
        HealthManager { status: HealthStatus::Starting, ready: false, last_check: 0 }
    }

    /// The service takes work and is healthy.
    pub fn set_ready(&mut self)
        ensures
            final(self).ready,
            final(self).status == HealthStatus::Healthy,
            final(self).last_check == old(self).last_check,
    {
        self.ready = true;
        self.status = HealthStatus::Healthy;
    }

    /// The service takes no work.
    pub fn set_not_ready(&mut self)
        ensures
            !final(self).ready,
            final(self).status == old(self).status,
            final(self).last_check == old(self).last_check,
    {
        self.ready = false;
    }

    /// The service is on its way down and takes no work.
    pub fn set_shutting_down(&mut self)
        ensures
            !final(self).ready,
            final(self).status == HealthStatus::ShuttingDown,
            final(self).last_check == old(self).last_check,
    {
        self.status = HealthStatus::ShuttingDown;
        self.ready = false;
    }

    /// The status.
    pub fn status(&self) -> (s: HealthStatus)
        ensures
            s == self.status,
    {
        self.status
    }

    /// Whether the service takes work.
    pub fn is_ready(&self) -> (r: bool)
        ensures
            r == self.ready,
    {
        self.ready
    }

    /// Whether the service is alive: it is unless it is on its way down.
    pub fn liveness(&self) -> (r: bool)
        ensures
            r == (self.status != HealthStatus::ShuttingDown),
    {
        self.status != HealthStatus::ShuttingDown
    }

    /// Takes in what the checks found at `now`. A ready service is
    /// healthy where every check is, else degraded; a service that is not
    /// ready keeps its status. The answer says ready only where the
    /// service is ready and every check is healthy.
    pub fn check_health(&mut self, checks: Vec<HealthCheckResult>, uptime_secs: u64, now: u64, version: &str) -> (r:
        ReadinessResult)
        ensures
            r.checks == checks,
            r.uptime_secs == uptime_secs,
            r.version@ == version@,
            r.ready == (old(self).ready && all_healthy(checks@)),
            final(self).ready == old(self).ready,
            final(self).last_check == now,
            final(self).status == if !old(self).ready {
                old(self).status
            } else if all_healthy(checks@) {
                HealthStatus::Healthy
            } else {
                HealthStatus::Degraded
            },
    {
        let mut healthy: bool = true;
        let mut i: usize = 0;
        while i < checks.len()
            invariant
                i <= checks.len(),
                healthy == all_healthy(checks@.take(i as int)),
            decreases checks.len() - i,
        {
            proof {
                let before = checks@.take(i as int);
                let after = checks@.take(i + 1);
                assert(after[i as int] == checks@[i as int]);
                assert forall|j: int| 0 <= j < before.len() implies before[j] == after[j] by {}
                if all_healthy(after) {
                    assert forall|j: int| 0 <= j < before.len() implies (#[trigger] before[j]).status
                        == HealthStatus::Healthy by {
                        assert(after[j].status == HealthStatus::Healthy);
                    }
                }
            }
            if checks[i].status != HealthStatus::Healthy {
                healthy = false;
            }
            i = i + 1;
        }
        proof {
            assert(checks@.take(checks.len() as int) =~= checks@);
        }
        if healthy && self.ready {
            self.status = HealthStatus::Healthy;
        } else if self.ready {
            self.status = HealthStatus::Degraded;
        }
        self.last_check = now;
        ReadinessResult { ready: self.ready && healthy, checks, uptime_secs, version: String::from_str(version) }
    }
}

} // verus!
