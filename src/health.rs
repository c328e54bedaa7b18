//! Named health checks, their aggregate, and the monitor that records
//! request samples and connection counts.

use vstd::prelude::*;
use crate::text::{owned, same_text};
use crate::window::{count_true, percentile_of, sum_of, RequestMetrics};

verus! {

/// Relies on `std::time::SystemTime::now`: the wall clock in milliseconds
/// since the Unix epoch (0 for a clock set before it).
#[verifier::external_body]
pub fn now_millis() -> u64 {
    match std::time::SystemTime::now().duration_since(std::time::UNIX_EPOCH) {
        Ok(d) => d.as_millis() as u64,
        Err(_) => 0,
    }
}

#[derive(Debug, Clone, Copy, PartialEq, Eq, Structural)]
pub enum HealthStatus {
    Healthy,
    Degraded,
    Unhealthy,
}

impl HealthStatus {
    pub fn is_healthy(&self) -> (r: bool)
        ensures
            r == (*self == HealthStatus::Healthy),
    {
        *self == HealthStatus::Healthy
    }

    pub fn is_degraded(&self) -> (r: bool)
        ensures
            r == (*self == HealthStatus::Degraded),
    {
        *self == HealthStatus::Degraded
    }
}

/// The result of one health check; `last_checked` is in milliseconds since
/// the Unix epoch.
#[derive(Debug, Clone, PartialEq)]
pub struct HealthCheck {
    pub status: HealthStatus,
    pub message: String,
    pub last_checked: u64,
    pub duration_ms: u64,
}

impl HealthCheck {
    fn with_status(status: HealthStatus, message: &str) -> (r: HealthCheck)
        ensures
            r.status == status,
            r.message@ == message@,
            r.duration_ms == 0,
    {
        HealthCheck { status, message: owned(message), last_checked: now_millis(), duration_ms: 0 }
    }

    /// A healthy result checked now.
    pub fn healthy(message: &str) -> (r: HealthCheck)
        ensures
            r.status == HealthStatus::Healthy,
            r.message@ == message@,
            r.duration_ms == 0,
    {
        Self::with_status(HealthStatus::Healthy, message)
    }

    /// A degraded result checked now.
    pub fn degraded(message: &str) -> (r: HealthCheck)
        ensures
            r.status == HealthStatus::Degraded,
            r.message@ == message@,
            r.duration_ms == 0,
    {
        Self::with_status(HealthStatus::Degraded, message)
    }

    /// An unhealthy result checked now.
    pub fn unhealthy(message: &str) -> (r: HealthCheck)
        ensures
            r.status == HealthStatus::Unhealthy,
            r.message@ == message@,
            r.duration_ms == 0,
    {
        Self::with_status(HealthStatus::Unhealthy, message)
    }

    /// The same result, with the time the check took.
    pub fn with_duration(self, duration_ms: u64) -> (r: HealthCheck)
        ensures
            r == (HealthCheck { duration_ms, ..self }),
    {
        HealthCheck { duration_ms, ..self }
    }

    /// A copy of this result.
    pub fn duplicate(&self) -> (r: HealthCheck)
        ensures
            r == *self,
    {
        HealthCheck {
            status: self.status,
            message: self.message.clone(),
            last_checked: self.last_checked,
            duration_ms: self.duration_ms,
        }
    }
}

/// Whether some check is unhealthy.
pub open spec fn any_unhealthy(checks: Seq<(String, HealthCheck)>) -> bool {
    exists|i: int| 0 <= i < checks.len() && (#[trigger] checks[i]).1.status == HealthStatus::Unhealthy
}

/// Whether every check is healthy (true of no checks).
pub open spec fn all_healthy(checks: Seq<(String, HealthCheck)>) -> bool {
    forall|i: int| 0 <= i < checks.len() ==> (#[trigger] checks[i]).1.status == HealthStatus::Healthy
}

/// The aggregate status: unhealthy if any check is, else degraded if any
/// check is not healthy, else healthy.
pub open spec fn overall_status(checks: Seq<(String, HealthCheck)>) -> HealthStatus {
    if any_unhealthy(checks) {
        HealthStatus::Unhealthy
    } else if !all_healthy(checks) {
        HealthStatus::Degraded
    } else {
        HealthStatus::Healthy
    }
}

/// No two checks share a name.
pub open spec fn names_unique(checks: Seq<(String, HealthCheck)>) -> bool {
    forall|i: int, j: int| 0 <= i < j < checks.len() ==> (#[trigger] checks[i]).0@ != (#[trigger] checks[j]).0@
}

/// The three tiers against a threshold: above one and a half times it is
/// unhealthy, above it degraded, else healthy.
pub open spec fn tier(value: int, threshold: int) -> HealthStatus {
    if 2 * value > 3 * threshold {
        HealthStatus::Unhealthy
    } else if value > threshold {
        HealthStatus::Degraded
    } else {
        HealthStatus::Healthy
    }
}

/// The worse of two statuses.
pub open spec fn worse(a: HealthStatus, b: HealthStatus) -> HealthStatus {
    if a == HealthStatus::Unhealthy || b == HealthStatus::Unhealthy {
        HealthStatus::Unhealthy
    } else if a == HealthStatus::Degraded || b == HealthStatus::Degraded {
        HealthStatus::Degraded
    } else {
        HealthStatus::Healthy
    }
}

fn tier_of(value: u128, threshold: u128) -> (r: HealthStatus)
    requires
        value <= u64::MAX * 100000,
        threshold <= u64::MAX * 100000,
    ensures
        r == tier(value as int, threshold as int),
{
    if 2 * value > 3 * threshold {
        HealthStatus::Unhealthy
    } else if value > threshold {
        HealthStatus::Degraded
    } else {
        HealthStatus::Healthy
    }
}

fn worse_of(a: HealthStatus, b: HealthStatus) -> (r: HealthStatus)
    ensures
        r == worse(a, b),
{
    if a == HealthStatus::Unhealthy || b == HealthStatus::Unhealthy {
        HealthStatus::Unhealthy
    } else if a == HealthStatus::Degraded || b == HealthStatus::Degraded {
        HealthStatus::Degraded
    } else {
        HealthStatus::Healthy
    }
}

/// The aggregate status of named checks.
pub fn calculate_overall_status(checks: &Vec<(String, HealthCheck)>) -> (r: HealthStatus)
    ensures
        r == overall_status(checks@),
{
    let mut unhealthy = false;
    let mut all_ok = true;
    let mut i: usize = 0;
    while i < checks.len()
        invariant
            i <= checks@.len(),
            unhealthy == exists|j: int| 0 <= j < i && (#[trigger] checks@[j]).1.status == HealthStatus::Unhealthy,
            all_ok == forall|j: int| 0 <= j < i ==> (#[trigger] checks@[j]).1.status == HealthStatus::Healthy,
        decreases checks.len() - i,
    {
        let s = checks[i].1.status;
        if s == HealthStatus::Unhealthy {
            unhealthy = true;
        }
        if s != HealthStatus::Healthy {
            all_ok = false;
        }
        i = i + 1;
    }
    if unhealthy {
        HealthStatus::Unhealthy
    } else if !all_ok {
        HealthStatus::Degraded
    } else {
        HealthStatus::Healthy
    }
}

fn duplicate_checks(checks: &Vec<(String, HealthCheck)>) -> (r: Vec<(String, HealthCheck)>)
    ensures
        r@.len() == checks@.len(),
        forall|i: int| 0 <= i < checks@.len() ==> (#[trigger] r@[i]).0@ == checks@[i].0@ && r@[i].1 == checks@[i].1,
{
    let mut out: Vec<(String, HealthCheck)> = Vec::new();
    let mut i: usize = 0;
    while i < checks.len()
        invariant
            i <= checks@.len(),
            out@.len() == i,
            forall|j: int| 0 <= j < i ==> (#[trigger] out@[j]).0@ == checks@[j].0@ && out@[j].1 == checks@[j].1,
        decreases checks.len() - i,
    {
        out.push((checks[i].0.clone(), checks[i].1.duplicate()));
        i = i + 1;
    }
    out
}

/// Settings of the monitor.
#[derive(Debug, Clone, Copy)]
pub struct MonitoringConfig {
    pub enable_health_checks: bool,
    pub enable_metrics: bool,
    pub metrics_retention_hours: u32,
    pub health_check_interval_seconds: u64,
    pub memory_threshold_mb: u64,
    pub response_time_threshold_ms: u64,
    pub error_rate_threshold_percent: u64,
}

impl Default for MonitoringConfig {
    fn default() -> (r: MonitoringConfig)
        ensures
            r.enable_health_checks,
            r.enable_metrics,
            r.metrics_retention_hours == 24,
            r.health_check_interval_seconds == 30,
            r.memory_threshold_mb == 512,
            r.response_time_threshold_ms == 1000,
            r.error_rate_threshold_percent == 5,
    {
        MonitoringConfig {
            enable_health_checks: true,
            enable_metrics: true,
            metrics_retention_hours: 24,
            health_check_interval_seconds: 30,
            memory_threshold_mb: 512,
            response_time_threshold_ms: 1000,
            error_rate_threshold_percent: 5,
        }
    }
}

/// Request statistics. Latencies are in milliseconds; the error rate is in
/// hundredths of a percent.
#[derive(Debug, Clone, PartialEq)]
pub struct PerformanceMetrics {
    pub total_requests: u64,
    pub requests_per_minute: usize,
    pub average_response_time_ms: u64,
    pub p95_response_time_ms: u64,
    pub p99_response_time_ms: u64,
    pub error_rate_basis_points: u64,
    pub active_connections: usize,
    pub memory_usage_mb: u64,
}

impl Default for PerformanceMetrics {
    fn default() -> (r: PerformanceMetrics)
        ensures
            r == (PerformanceMetrics {
                total_requests: 0,
                requests_per_minute: 0,
                average_response_time_ms: 0,
                p95_response_time_ms: 0,
                p99_response_time_ms: 0,
                error_rate_basis_points: 0,
                active_connections: 0,
                memory_usage_mb: 0,
            }),
    {
        PerformanceMetrics {
            total_requests: 0,
            requests_per_minute: 0,
            average_response_time_ms: 0,
            p95_response_time_ms: 0,
            p99_response_time_ms: 0,
            error_rate_basis_points: 0,
            active_connections: 0,
            memory_usage_mb: 0,
        }
    }
}

/// What the health endpoint reports.
#[derive(Debug)]
pub struct HealthResponse {
    pub status: HealthStatus,
    pub timestamp: u64,
    pub uptime_seconds: u64,
    pub version: String,
    pub checks: Vec<(String, HealthCheck)>,
    pub metrics: PerformanceMetrics,
}

/// What the readiness endpoint reports.
#[derive(Debug)]
pub struct ReadinessResponse {
    pub ready: bool,
    pub timestamp: u64,
    pub checks: Vec<(String, HealthCheck)>,
}

pub struct HealthMonitor {
    config: MonitoringConfig,
    start_time: u64,
    version: String,
    health_checks: Vec<(String, HealthCheck)>,
    request_metrics: RequestMetrics,
    total_requests: u64,
    active_connections: usize,
}

impl HealthMonitor {
    pub closed spec fn config(&self) -> MonitoringConfig {
        self.config
    }

    pub closed spec fn checks(&self) -> Seq<(String, HealthCheck)> {
        self.health_checks@
    }

    pub closed spec fn metrics(&self) -> RequestMetrics {
        self.request_metrics
    }

    pub closed spec fn total(&self) -> u64 {
        self.total_requests
    }

    pub closed spec fn active(&self) -> usize {
        self.active_connections
    }

    pub closed spec fn spec_version(&self) -> Seq<char> {
        self.version@
    }

    pub closed spec fn started(&self) -> u64 {
        self.start_time
    }

    pub closed spec fn wf(&self) -> bool {
        &&& self.request_metrics.wf()
        &&& names_unique(self.health_checks@)
    }

    /// A monitor started at `now` (milliseconds), with no checks and no samples.
    pub fn new(config: MonitoringConfig, version: String, now: u64) -> (r: HealthMonitor)
        ensures
            r.wf(),
            r.config() == config,
            r.spec_version() == version@,
            r.started() == now,
            r.checks().len() == 0,
            r.metrics().window().len() == 0,
            r.total() == 0,
            r.active() == 0,
    {
        HealthMonitor {
            config,
            start_time: now,
            version,
            health_checks: Vec::new(),
            request_metrics: RequestMetrics::new(),
            total_requests: 0,
            active_connections: 0,
        }
    }

    /// Records the result of the check `name`; a later result replaces an
    /// earlier one of the same name.
    pub fn update_health_check(&mut self, name: &str, check: HealthCheck)
        requires
            old(self).wf(),
        ensures
            final(self).wf(),
            final(self).config() == old(self).config(),
            final(self).metrics() == old(self).metrics(),
            final(self).total() == old(self).total(),
            final(self).active() == old(self).active(),
            final(self).checks().len() > 0,
            final(self).checks().last().0@ == name@,
            final(self).checks().last().1 == check,
            final(self).checks().drop_last() == without_check(old(self).checks(), name@),
            final(self).spec_version() == old(self).spec_version(),
            final(self).started() == old(self).started(),
            check_named(final(self).checks(), name@) == Some(check),
            forall|k: Seq<char>| k != name@ ==> check_named(final(self).checks(), k) == check_named(old(self).checks(), k),
    {
        let ghost old_checks = self.health_checks@;
        let mut i: usize = 0;
        let mut found: Option<usize> = None;
        while i < self.health_checks.len()
            invariant
                i <= self.health_checks@.len(),
                self.health_checks@ == old_checks,
                found is None ==> forall|j: int| 0 <= j < i ==> (#[trigger] old_checks[j]).0@ != name@,
                found matches Some(k) ==> k < old_checks.len() && old_checks[k as int].0@ == name@,
            decreases self.health_checks.len() - i,
        {
            if found.is_none() && same_text(self.health_checks[i].0.as_str(), name) {
                found = Some(i);
            }
            i = i + 1;
        }
        match found {
            Some(k) => {
                self.health_checks.remove(k);
                proof {
                    assert forall|j: int| 0 <= j < old_checks.len() && j != k implies (#[trigger] old_checks[j]).0@ != name@ by {
                        if j < k {
                            assert(old_checks[j].0@ != old_checks[k as int].0@);
                        } else {
                            assert(old_checks[k as int].0@ != old_checks[j].0@);
                        }
                    }
                    lemma_without_skips_one(old_checks, k as int, name@);
                }
            },
            None => {
                proof {
                    lemma_without_keeps_all(old_checks, name@);
                }
            },
        }
        let ghost mid = self.health_checks@;
        self.health_checks.push((owned(name), check));
        proof {
            assert(self.health_checks@.drop_last() =~= mid);
            assert forall|k: Seq<char>| k != name@ implies check_named(self.health_checks@, k) == check_named(old_checks, k) by {
                lemma_without_keeps_others(old_checks, name@, k);
            }
            assert forall|a: int, b: int| 0 <= a < b < self.health_checks@.len() implies (#[trigger] self.health_checks@[a]).0@
                != (#[trigger] self.health_checks@[b]).0@ by {
                lemma_without_unique(old_checks, name@);
                if b == self.health_checks@.len() - 1 {
                    lemma_without_excludes(old_checks, name@);
                    assert(mid[a].0@ != name@);
                } else {
                    assert(mid[a] == self.health_checks@[a] && mid[b] == self.health_checks@[b]);
                }
            }
        }
    }

    /// Aggregate status, uptime, version, checks and statistics at `now`.
    pub fn get_health_status(&self, now: u64, memory_usage_mb: u64) -> (r: HealthResponse)
        requires
            self.wf(),
        ensures
            r.status == overall_status(self.checks()),
            r.timestamp == now,
            r.uptime_seconds == if now >= self.started() { (now - self.started()) / 1000 } else { 0 },
            r.version@ == self.spec_version(),
            r.checks@.len() == self.checks().len(),
            forall|i: int| 0 <= i < self.checks().len() ==> (#[trigger] r.checks@[i]).0@ == self.checks()[i].0@
                && r.checks@[i].1 == self.checks()[i].1,
            r.metrics == self.performance_of(memory_usage_mb),
    {
        let checks = duplicate_checks(&self.health_checks);
        let status = calculate_overall_status(&self.health_checks);
        let uptime = if now >= self.start_time { (now - self.start_time) / 1000 } else { 0 };
        HealthResponse {
            status,
            timestamp: now,
            uptime_seconds: uptime,
            version: self.version.clone(),
            checks,
            metrics: self.get_performance_metrics(memory_usage_mb),
        }
    }

    /// Ready exactly when every check is healthy (so with no checks too).
    pub fn get_readiness_status(&self, now: u64) -> (r: ReadinessResponse)
        requires
            self.wf(),
        ensures
            r.ready == all_healthy(self.checks()),
            r.timestamp == now,
            r.checks@.len() == self.checks().len(),
            forall|i: int| 0 <= i < self.checks().len() ==> (#[trigger] r.checks@[i]).0@ == self.checks()[i].0@
                && r.checks@[i].1 == self.checks()[i].1,
    {
        let mut ready = true;
        let mut i: usize = 0;
        while i < self.health_checks.len()
            invariant
                i <= self.health_checks@.len(),
                ready == forall|j: int| 0 <= j < i ==> (#[trigger] self.health_checks@[j]).1.status == HealthStatus::Healthy,
            decreases self.health_checks.len() - i,
        {
            if !self.health_checks[i].1.status.is_healthy() {
                ready = false;
            }
            i = i + 1;
        }
        ReadinessResponse { ready, timestamp: now, checks: duplicate_checks(&self.health_checks) }
    }

    /// The statistics that the monitor reports, with the given memory usage.
    pub open spec fn performance_of(&self, memory_usage_mb: u64) -> PerformanceMetrics {
        let w = self.metrics().window();
        PerformanceMetrics {
            total_requests: self.total(),
            requests_per_minute: self.metrics().minute().len() as usize,
            average_response_time_ms: if w.len() == 0 { 0 } else { (sum_of(w) / (w.len() as int)) as u64 },
            p95_response_time_ms: percentile_of(w, 95),
            p99_response_time_ms: percentile_of(w, 99),
            error_rate_basis_points: if w.len() == 0 {
                0
            } else {
                (count_true(self.metrics().window_errors()) * 10000 / (w.len() as int)) as u64
            },
            active_connections: self.active(),
            memory_usage_mb,
        }
    }

    pub fn get_performance_metrics(&self, memory_usage_mb: u64) -> (r: PerformanceMetrics)
        requires
            self.wf(),
        ensures
            r == self.performance_of(memory_usage_mb),
    {
        PerformanceMetrics {
            total_requests: self.total_requests,
            requests_per_minute: self.request_metrics.requests_per_minute(),
            average_response_time_ms: self.request_metrics.average_response_time(),
            p95_response_time_ms: self.request_metrics.calculate_percentile(95),
            p99_response_time_ms: self.request_metrics.calculate_percentile(99),
            error_rate_basis_points: self.request_metrics.error_rate_basis_points(),
            active_connections: self.active_connections,
            memory_usage_mb,
        }
    }

    /// Records a completed request at `now` (milliseconds).
    pub fn record_request(&mut self, response_time_ms: u64, is_error: bool, now: u64)
        requires
            old(self).wf(),
        ensures
            final(self).wf(),
            final(self).total() == old(self).total().wrapping_add(1),
            final(self).metrics().recorded() == old(self).metrics().recorded().push(response_time_ms),
            final(self).metrics().recorded_errors() == old(self).metrics().recorded_errors().push(is_error),
            final(self).checks() == old(self).checks(),
            final(self).active() == old(self).active(),
            final(self).config() == old(self).config(),
    {
        self.total_requests = self.total_requests.wrapping_add(1);
        self.request_metrics.add_request(response_time_ms, is_error, now);
    }

    pub fn increment_active_connections(&mut self)
        requires
            old(self).wf(),
        ensures
            final(self).wf(),
            final(self).active() == old(self).active().wrapping_add(1),
            final(self).checks() == old(self).checks(),
            final(self).metrics() == old(self).metrics(),
            final(self).total() == old(self).total(),
            final(self).config() == old(self).config(),
    {
        self.active_connections = self.active_connections.wrapping_add(1);
    }

    /// One connection fewer, never below zero.
    pub fn decrement_active_connections(&mut self)
        requires
            old(self).wf(),
        ensures
            final(self).wf(),
            final(self).active() == if old(self).active() == 0 { 0 } else { (old(self).active() - 1) as usize },
            final(self).checks() == old(self).checks(),
            final(self).metrics() == old(self).metrics(),
            final(self).total() == old(self).total(),
            final(self).config() == old(self).config(),
    {
        self.active_connections = self.active_connections.saturating_sub(1);
    }

    /// The memory check: above one and a half times the threshold unhealthy,
    /// above it degraded, else healthy.
    pub fn check_memory_usage(&self, memory_usage_mb: u64) -> (r: HealthCheck)
        ensures
            r.status == tier(memory_usage_mb as int, self.config().memory_threshold_mb as int),
    {
        let s = tier_of(memory_usage_mb as u128, self.config.memory_threshold_mb as u128);
        if s == HealthStatus::Unhealthy {
            HealthCheck::unhealthy("High memory usage")
        } else if s == HealthStatus::Degraded {
            HealthCheck::degraded("Elevated memory usage")
        } else {
            HealthCheck::healthy("Memory usage normal")
        }
    }

    /// The performance check: the worse of the error-rate tier and the
    /// average-latency tier, each against its threshold.
    pub fn check_performance(&self) -> (r: HealthCheck)
        requires
            self.wf(),
        ensures
            ({
                let w = self.metrics().window();
                let n = w.len() as int;
                r.status == worse(
                    tier(count_true(self.metrics().window_errors()) * 100, self.config().error_rate_threshold_percent * n),
                    tier(sum_of(w), self.config().response_time_threshold_ms * n),
                )
            }),
    {
        let n = self.request_metrics.len() as u128;
        let errors = self.request_metrics.error_count() as u128;
        let sum = self.request_metrics.total_latency();
        let et = self.config.error_rate_threshold_percent as u128;
        let lt = self.config.response_time_threshold_ms as u128;
        proof {
            assert(sum <= 1000 * u64::MAX) by (nonlinear_arith)
                requires
                    sum <= n * u64::MAX,
                    n <= 1000,
            ;
            assert(et * n <= u64::MAX * 1000) by (nonlinear_arith)
                requires
                    et <= u64::MAX,
                    n <= 1000,
            ;
            assert(lt * n <= u64::MAX * 1000) by (nonlinear_arith)
                requires
                    lt <= u64::MAX,
                    n <= 1000,
            ;
        }
        let e = tier_of(errors * 100, et * n);
        let l = tier_of(sum, lt * n);
        let s = worse_of(e, l);
        if s == HealthStatus::Unhealthy {
            HealthCheck::unhealthy("Performance unhealthy")
        } else if s == HealthStatus::Degraded {
            HealthCheck::degraded("Performance degraded")
        } else {
            HealthCheck::healthy("Performance good")
        }
    }

    /// Runs the built-in checks with what was observed outside: whether a
    /// trivial call into the operation engine succeeded, the memory in use,
    /// and the number of worker threads.
    pub fn run_system_health_checks(&mut self, engine: Result<(), String>, memory_usage_mb: u64, threads: usize)
        requires
            old(self).wf(),
        ensures
            final(self).wf(),
            final(self).spec_version() == old(self).spec_version(),
            final(self).started() == old(self).started(),
            check_named(final(self).checks(), "fhirpath_library"@) matches Some(c) && c.status == if engine is Ok {
                HealthStatus::Healthy
            } else {
                HealthStatus::Unhealthy
            },
            check_named(final(self).checks(), "memory_usage"@) matches Some(c) && c.status == tier(
                memory_usage_mb as int,
                old(self).config().memory_threshold_mb as int,
            ),
            check_named(final(self).checks(), "thread_pool"@) matches Some(c) && c.status == if threads > 0 {
                HealthStatus::Healthy
            } else {
                HealthStatus::Unhealthy
            },
            check_named(final(self).checks(), "performance"@) matches Some(c) && ({
                let w = old(self).metrics().window();
                let n = w.len() as int;
                c.status == worse(
                    tier(count_true(old(self).metrics().window_errors()) * 100, old(self).config().error_rate_threshold_percent * n),
                    tier(sum_of(w), old(self).config().response_time_threshold_ms * n),
                )
            }),
            final(self).metrics() == old(self).metrics(),
            final(self).config() == old(self).config(),
            final(self).total() == old(self).total(),
            final(self).active() == old(self).active(),
    {
        proof {
            reveal_strlit("fhirpath_library");
            reveal_strlit("memory_usage");
            reveal_strlit("thread_pool");
            reveal_strlit("performance");
            assert("fhirpath_library"@[0] != "memory_usage"@[0]);
            assert("fhirpath_library"@[0] != "thread_pool"@[0]);
            assert("fhirpath_library"@[0] != "performance"@[0]);
            assert("memory_usage"@[0] != "thread_pool"@[0]);
            assert("memory_usage"@[0] != "performance"@[0]);
            assert("thread_pool"@[0] != "performance"@[0]);
        }
        let engine_check = match engine {
            Ok(()) => HealthCheck::healthy("FHIRPath library operational"),
            Err(_) => HealthCheck::unhealthy("FHIRPath library error"),
        };
        self.update_health_check("fhirpath_library", engine_check);
        let memory_check = self.check_memory_usage(memory_usage_mb);
        self.update_health_check("memory_usage", memory_check);
        let thread_check = if threads > 0 {
            HealthCheck::healthy("Thread pool operational")
        } else {
            HealthCheck::unhealthy("Thread pool unavailable")
        };
        self.update_health_check("thread_pool", thread_check);
        let performance_check = self.check_performance();
        self.update_health_check("performance", performance_check);
    }
}

/// The latest result recorded under `name`, if any.
pub open spec fn check_named(checks: Seq<(String, HealthCheck)>, name: Seq<char>) -> Option<HealthCheck>
    decreases checks.len(),
{
    if checks.len() == 0 {
        None
    } else if checks.last().0@ == name {
        Some(checks.last().1)
    } else {
        check_named(checks.drop_last(), name)
    }
}

proof fn lemma_without_keeps_others(s: Seq<(String, HealthCheck)>, name: Seq<char>, k: Seq<char>)
    requires
        k != name,
    ensures
        check_named(without_check(s, name), k) == check_named(s, k),
    decreases s.len(),
{
    if s.len() > 0 {
        lemma_without_keeps_others(s.drop_last(), name, k);
        if s.last().0@ != name {
            assert(without_check(s, name).drop_last() =~= without_check(s.drop_last(), name));
        }
    }
}

/// The checks without the one named `name`.
pub open spec fn without_check(s: Seq<(String, HealthCheck)>, name: Seq<char>) -> Seq<(String, HealthCheck)>
    decreases s.len(),
{
    if s.len() == 0 {
        Seq::empty()
    } else if s.last().0@ == name {
        without_check(s.drop_last(), name)
    } else {
        without_check(s.drop_last(), name).push(s.last())
    }
}

proof fn lemma_without_keeps_all(s: Seq<(String, HealthCheck)>, name: Seq<char>)
    requires
        forall|j: int| 0 <= j < s.len() ==> (#[trigger] s[j]).0@ != name,
    ensures
        without_check(s, name) == s,
    decreases s.len(),
{
    if s.len() > 0 {
        let p = s.drop_last();
        assert forall|j: int| 0 <= j < p.len() implies (#[trigger] p[j]).0@ != name by {
            assert(p[j] == s[j]);
        }
        lemma_without_keeps_all(p, name);
        assert(s.last() == s[s.len() - 1]);
        assert(p.push(s.last()) =~= s);
    }
}

proof fn lemma_without_skips_one(s: Seq<(String, HealthCheck)>, k: int, name: Seq<char>)
    requires
        0 <= k < s.len(),
        s[k].0@ == name,
        forall|j: int| 0 <= j < s.len() && j != k ==> (#[trigger] s[j]).0@ != name,
    ensures
        without_check(s, name) == s.remove(k),
    decreases s.len(),
{
    let p = s.drop_last();
    if k == s.len() - 1 {
        assert forall|j: int| 0 <= j < p.len() implies (#[trigger] p[j]).0@ != name by {
            assert(p[j] == s[j]);
        }
        lemma_without_keeps_all(p, name);
        assert(s.remove(k) =~= p);
    } else {
        assert forall|j: int| 0 <= j < p.len() && j != k implies (#[trigger] p[j]).0@ != name by {
            assert(p[j] == s[j]);
        }
        assert(s.last() == s[s.len() - 1]);
        lemma_without_skips_one(p, k, name);
        assert(s.remove(k) =~= p.remove(k).push(s.last()));
    }
}

proof fn lemma_without_excludes(s: Seq<(String, HealthCheck)>, name: Seq<char>)
    ensures
        forall|i: int| 0 <= i < without_check(s, name).len() ==> (#[trigger] without_check(s, name)[i]).0@ != name,
        forall|i: int| 0 <= i < without_check(s, name).len() ==> exists|j: int| 0 <= j < s.len() && (#[trigger] s[j]) == #[trigger] without_check(s, name)[i],
    decreases s.len(),
{
    if s.len() > 0 {
        let p = s.drop_last();
        lemma_without_excludes(p, name);
        let w = without_check(s, name);
        let wp = without_check(p, name);
        assert forall|i: int| 0 <= i < w.len() implies exists|j: int| 0 <= j < s.len() && (#[trigger] s[j]) == #[trigger] w[i] by {
            if i < wp.len() {
                let j = choose|j: int| 0 <= j < p.len() && (#[trigger] p[j]) == wp[i];
                assert(s[j] == p[j]);
            } else {
                assert(s[s.len() - 1] == w[i]);
            }
        }
    }
}

proof fn lemma_without_unique(s: Seq<(String, HealthCheck)>, name: Seq<char>)
    requires
        names_unique(s),
    ensures
        names_unique(without_check(s, name)),
    decreases s.len(),
{
    if s.len() > 0 {
        let p = s.drop_last();
        assert forall|i: int, j: int| 0 <= i < j < p.len() implies (#[trigger] p[i]).0@ != (#[trigger] p[j]).0@ by {
            assert(p[i] == s[i] && p[j] == s[j]);
        }
        lemma_without_unique(p, name);
        lemma_without_excludes(p, name);
        let wp = without_check(p, name);
        if s.last().0@ != name {
            let w = without_check(s, name);
            assert forall|a: int, b: int| 0 <= a < b < w.len() implies (#[trigger] w[a]).0@ != (#[trigger] w[b]).0@ by {
                if b == w.len() - 1 {
                    let j = choose|j: int| 0 <= j < p.len() && (#[trigger] p[j]) == wp[a];
                    assert(s[j] == p[j]);
                    assert(s[j].0@ != s[s.len() - 1].0@);
                } else {
                    assert(w[a] == wp[a] && w[b] == wp[b]);
                }
            }
        }
    }
}

} // verus!
