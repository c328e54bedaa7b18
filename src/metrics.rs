//! The metrics provider: the health monitor, custom counters, and the
//! Prometheus exposition of both.

use vstd::prelude::*;
use crate::health::{
    check_named, tier, worse, HealthCheck, HealthMonitor, HealthResponse, HealthStatus, MonitoringConfig,
    PerformanceMetrics, ReadinessResponse,
};
use crate::window::{count_true, sum_of};
use crate::text::{decimal_of, decimal_text, owned, same_text};

verus! {

/// Statistics and custom counters at one moment (milliseconds since the epoch).
#[derive(Debug)]
pub struct MetricsSnapshot {
    pub timestamp: u64,
    pub performance: PerformanceMetrics,
    pub custom_metrics: Vec<(String, u64)>,
}

/// Metrics in the Prometheus text format.
#[derive(Debug, Clone, PartialEq)]
pub struct PrometheusMetrics {
    pub content_type: String,
    pub data: String,
}

/// One metric in the exposition format: help, type and value lines.
pub open spec fn metric_block(name: Seq<char>, help: Seq<char>, kind: Seq<char>, value: nat) -> Seq<char> {
    "# HELP octofhir_"@ + name + " "@ + help + "\n# TYPE octofhir_"@ + name + " "@ + kind + "\noctofhir_"@ + name
        + " "@ + decimal_of(value) + "\n"@
}

/// The custom counters as gauges, in order.
pub open spec fn custom_blocks(metrics: Seq<(String, u64)>) -> Seq<char>
    decreases metrics.len(),
{
    if metrics.len() == 0 {
        Seq::empty()
    } else {
        let m = metrics.last();
        custom_blocks(metrics.drop_last()) + metric_block(m.0@, "Custom metric "@ + m.0@, "gauge"@, m.1 as nat)
    }
}

/// The exposition text of the statistics and the custom counters.
pub open spec fn prometheus_text(p: PerformanceMetrics, custom: Seq<(String, u64)>) -> Seq<char> {
    metric_block("requests_total"@, "Total number of requests"@, "counter"@, p.total_requests as nat)
        + metric_block("requests_per_minute"@, "Current requests per minute"@, "gauge"@, p.requests_per_minute as nat)
        + metric_block("response_time_avg_ms"@, "Average response time in milliseconds"@, "gauge"@, p.average_response_time_ms as nat)
        + metric_block("response_time_p95_ms"@, "95th percentile response time in milliseconds"@, "gauge"@, p.p95_response_time_ms as nat)
        + metric_block("error_rate_basis_points"@, "Error rate in hundredths of a percent"@, "gauge"@, p.error_rate_basis_points as nat)
        + metric_block("active_connections"@, "Current active connections"@, "gauge"@, p.active_connections as nat)
        + metric_block("memory_usage_mb"@, "Memory usage in megabytes"@, "gauge"@, p.memory_usage_mb as nat)
        + custom_blocks(custom)
}

/// The value of the counter `name`, if there is one.
pub open spec fn metric_value(metrics: Seq<(String, u64)>, name: Seq<char>) -> Option<u64>
    decreases metrics.len(),
{
    if metrics.len() == 0 {
        None
    } else if metrics.last().0@ == name {
        Some(metrics.last().1)
    } else {
        metric_value(metrics.drop_last(), name)
    }
}

fn append_block(out: &mut String, name: &str, help: &str, kind: &str, value: u64)
    ensures
        final(out)@ == old(out)@ + metric_block(name@, help@, kind@, value as nat),
{
    let v = decimal_text(value);
    out.append("# HELP octofhir_");
    out.append(name);
    out.append(" ");
    out.append(help);
    out.append("\n# TYPE octofhir_");
    out.append(name);
    out.append(" ");
    out.append(kind);
    out.append("\noctofhir_");
    out.append(name);
    out.append(" ");
    out.append(v.as_str());
    out.append("\n");
    proof {
        assert(out@ =~= old(out)@ + metric_block(name@, help@, kind@, value as nat));
    }
}

fn find_metric(metrics: &Vec<(String, u64)>, name: &str) -> (r: Option<usize>)
    ensures
        match r {
            Some(i) => i < metrics@.len() && metrics@[i as int].0@ == name@
                && forall|j: int| i < j < metrics@.len() ==> (#[trigger] metrics@[j]).0@ != name@,
            None => forall|j: int| 0 <= j < metrics@.len() ==> (#[trigger] metrics@[j]).0@ != name@,
        },
{
    let mut i: usize = metrics.len();
    while i > 0
        invariant
            i <= metrics@.len(),
            forall|j: int| i <= j < metrics@.len() ==> (#[trigger] metrics@[j]).0@ != name@,
        decreases i,
    {
        if same_text(metrics[i - 1].0.as_str(), name) {
            return Some(i - 1);
        }
        i = i - 1;
    }
    None
}

proof fn lemma_metric_value_last(metrics: Seq<(String, u64)>, name: Seq<char>, i: int)
    requires
        0 <= i < metrics.len(),
        metrics[i].0@ == name,
        forall|j: int| i < j < metrics.len() ==> (#[trigger] metrics[j]).0@ != name,
    ensures
        metric_value(metrics, name) == Some(metrics[i].1),
    decreases metrics.len(),
{
    if i < metrics.len() - 1 {
        let p = metrics.drop_last();
        assert forall|j: int| i < j < p.len() implies (#[trigger] p[j]).0@ != name by {
            assert(p[j] == metrics[j]);
        }
        assert(metrics.last() == metrics[metrics.len() - 1]);
        lemma_metric_value_last(p, name, i);
    }
}

proof fn lemma_metric_value_absent(metrics: Seq<(String, u64)>, name: Seq<char>)
    requires
        forall|j: int| 0 <= j < metrics.len() ==> (#[trigger] metrics[j]).0@ != name,
    ensures
        metric_value(metrics, name) is None,
    decreases metrics.len(),
{
    if metrics.len() > 0 {
        let p = metrics.drop_last();
        assert forall|j: int| 0 <= j < p.len() implies (#[trigger] p[j]).0@ != name by {
            assert(p[j] == metrics[j]);
        }
        assert(metrics.last() == metrics[metrics.len() - 1]);
        lemma_metric_value_absent(p, name);
    }
}

proof fn lemma_metric_value_update(metrics: Seq<(String, u64)>, i: int, v: u64, other: Seq<char>)
    requires
        0 <= i < metrics.len(),
        metrics[i].0@ != other,
    ensures
        metric_value(metrics.update(i, (metrics[i].0, v)), other) == metric_value(metrics, other),
    decreases metrics.len(),
{
    let u = metrics.update(i, (metrics[i].0, v));
    if i < metrics.len() - 1 {
        assert(u.drop_last() =~= metrics.drop_last().update(i, (metrics[i].0, v)));
        assert(u.last() == metrics.last());
        lemma_metric_value_update(metrics.drop_last(), i, v, other);
    } else {
        assert(u.drop_last() =~= metrics.drop_last());
    }
}

proof fn lemma_metric_value_push(metrics: Seq<(String, u64)>, e: (String, u64), other: Seq<char>)
    requires
        e.0@ != other,
    ensures
        metric_value(metrics.push(e), other) == metric_value(metrics, other),
{
    assert(metrics.push(e).drop_last() =~= metrics);
}

pub struct MetricsProvider {
    health_monitor: HealthMonitor,
    custom_metrics: Vec<(String, u64)>,
    config: MonitoringConfig,
}

impl MetricsProvider {
    pub closed spec fn monitor(&self) -> HealthMonitor {
        self.health_monitor
    }

    pub closed spec fn custom(&self) -> Seq<(String, u64)> {
        self.custom_metrics@
    }

    pub closed spec fn config(&self) -> MonitoringConfig {
        self.config
    }

    /// The monitor is well formed, and no two custom counters share a name.
    pub closed spec fn wf(&self) -> bool {
        &&& self.health_monitor.wf()
        &&& forall|i: int, j: int| 0 <= i < j < self.custom_metrics@.len() ==> (#[trigger] self.custom_metrics@[i]).0@
            != (#[trigger] self.custom_metrics@[j]).0@
        &&& self.health_monitor.config() == self.config
    }

    pub fn new(config: MonitoringConfig, version: String, now: u64) -> (r: MetricsProvider)
        ensures
            r.wf(),
            r.config() == config,
            r.custom().len() == 0,
            r.monitor().config() == config,
            r.monitor().spec_version() == version@,
    {
        let health_monitor = HealthMonitor::new(config, version, now);
        MetricsProvider { health_monitor, custom_metrics: Vec::new(), config }
    }

    /// Runs the built-in checks first when health checks are enabled, then
    /// reports health.
    pub fn get_health_status(
        &mut self,
        now: u64,
        memory_usage_mb: u64,
        engine: Result<(), String>,
        threads: usize,
    ) -> (r: HealthResponse)
        requires
            old(self).wf(),
        ensures
            final(self).wf(),
            final(self).custom() == old(self).custom(),
            final(self).config() == old(self).config(),
            !old(self).config().enable_health_checks ==> final(self).monitor() == old(self).monitor(),
            r.status == crate::health::overall_status(final(self).monitor().checks()),
            r.timestamp == now,
            r.version@ == old(self).monitor().spec_version(),
            r.metrics == final(self).monitor().performance_of(memory_usage_mb),
            old(self).config().enable_health_checks ==> {
                &&& check_named(final(self).monitor().checks(), "fhirpath_library"@) matches Some(c)
                    && c.status == if engine is Ok { HealthStatus::Healthy } else { HealthStatus::Unhealthy }
                &&& check_named(final(self).monitor().checks(), "memory_usage"@) matches Some(c)
                    && c.status == tier(memory_usage_mb as int, old(self).config().memory_threshold_mb as int)
                &&& check_named(final(self).monitor().checks(), "thread_pool"@) matches Some(c)
                    && c.status == if threads > 0 { HealthStatus::Healthy } else { HealthStatus::Unhealthy }
                &&& check_named(final(self).monitor().checks(), "performance"@) matches Some(c) && ({
                    let w = old(self).monitor().metrics().window();
                    let n = w.len() as int;
                    c.status == worse(
                        tier(count_true(old(self).monitor().metrics().window_errors()) * 100,
                            old(self).config().error_rate_threshold_percent * n),
                        tier(sum_of(w), old(self).config().response_time_threshold_ms * n),
                    )
                })
            },
    {
        if self.config.enable_health_checks {
            self.health_monitor.run_system_health_checks(engine, memory_usage_mb, threads);
        }
        self.health_monitor.get_health_status(now, memory_usage_mb)
    }

    pub fn get_readiness_status(&self, now: u64) -> (r: ReadinessResponse)
        requires
            self.wf(),
        ensures
            r.ready == crate::health::all_healthy(self.monitor().checks()),
            r.timestamp == now,
            r.checks@.len() == self.monitor().checks().len(),
            forall|i: int| 0 <= i < self.monitor().checks().len() ==> (#[trigger] r.checks@[i]).0@
                == self.monitor().checks()[i].0@ && r.checks@[i].1 == self.monitor().checks()[i].1,
    {
        self.health_monitor.get_readiness_status(now)
    }

    pub fn get_performance_metrics(&self, memory_usage_mb: u64) -> (r: PerformanceMetrics)
        requires
            self.wf(),
        ensures
            r == self.monitor().performance_of(memory_usage_mb),
    {
        self.health_monitor.get_performance_metrics(memory_usage_mb)
    }

    /// The custom counters, in the order they were first set.
    pub fn get_custom_metrics(&self) -> (r: Vec<(String, u64)>)
        ensures
            r@.len() == self.custom().len(),
            forall|i: int| 0 <= i < r@.len() ==> (#[trigger] r@[i]).0@ == self.custom()[i].0@ && r@[i].1 == self.custom()[i].1,
    {
        let mut out: Vec<(String, u64)> = Vec::new();
        let mut i: usize = 0;
        while i < self.custom_metrics.len()
            invariant
                i <= self.custom_metrics@.len(),
                out@.len() == i,
                forall|j: int| 0 <= j < i ==> (#[trigger] out@[j]).0@ == self.custom_metrics@[j].0@ && out@[j].1
                    == self.custom_metrics@[j].1,
            decreases self.custom_metrics.len() - i,
        {
            out.push((self.custom_metrics[i].0.clone(), self.custom_metrics[i].1));
            i = i + 1;
        }
        out
    }

    pub fn get_metrics_snapshot(&self, now: u64, memory_usage_mb: u64) -> (r: MetricsSnapshot)
        requires
            self.wf(),
        ensures
            r.timestamp == now,
            r.performance == self.monitor().performance_of(memory_usage_mb),
            r.custom_metrics@.len() == self.custom().len(),
    {
        MetricsSnapshot {
            timestamp: now,
            performance: self.get_performance_metrics(memory_usage_mb),
            custom_metrics: self.get_custom_metrics(),
        }
    }

    /// The statistics and custom counters in the Prometheus text format.
    pub fn get_prometheus_metrics(&self, memory_usage_mb: u64) -> (r: PrometheusMetrics)
        requires
            self.wf(),
        ensures
            r.content_type@ == "text/plain; version=0.0.4; charset=utf-8"@,
            r.data@ == prometheus_text(self.monitor().performance_of(memory_usage_mb), self.custom()),
    {
        let p = self.get_performance_metrics(memory_usage_mb);
        let mut out = String::new();
        append_block(&mut out, "requests_total", "Total number of requests", "counter", p.total_requests);
        proof {
            assert(out@ =~= metric_block("requests_total"@, "Total number of requests"@, "counter"@, p.total_requests as nat));
        }
        append_block(&mut out, "requests_per_minute", "Current requests per minute", "gauge", p.requests_per_minute as u64);
        append_block(
            &mut out,
            "response_time_avg_ms",
            "Average response time in milliseconds",
            "gauge",
            p.average_response_time_ms,
        );
        append_block(
            &mut out,
            "response_time_p95_ms",
            "95th percentile response time in milliseconds",
            "gauge",
            p.p95_response_time_ms,
        );
        append_block(
            &mut out,
            "error_rate_basis_points",
            "Error rate in hundredths of a percent",
            "gauge",
            p.error_rate_basis_points,
        );
        append_block(&mut out, "active_connections", "Current active connections", "gauge", p.active_connections as u64);
        append_block(&mut out, "memory_usage_mb", "Memory usage in megabytes", "gauge", p.memory_usage_mb);
        let ghost fixed = out@;
        let mut i: usize = 0;
        proof {
            assert(self.custom_metrics@.take(0) =~= Seq::<(String, u64)>::empty());
            assert(fixed + custom_blocks(Seq::empty()) =~= fixed);
        }
        while i < self.custom_metrics.len()
            invariant
                i <= self.custom_metrics@.len(),
                out@ == fixed + custom_blocks(self.custom_metrics@.take(i as int)),
            decreases self.custom_metrics.len() - i,
        {
            let name = self.custom_metrics[i].0.as_str();
            let mut help = owned("Custom metric ");
            help.append(name);
            let ghost before = out@;
            append_block(&mut out, name, help.as_str(), "gauge", self.custom_metrics[i].1);
            proof {
                let t = self.custom_metrics@.take(i + 1);
                assert(t.drop_last() =~= self.custom_metrics@.take(i as int));
                assert(t.last() == self.custom_metrics@[i as int]);
                assert(out@ =~= fixed + custom_blocks(t));
            }
            i = i + 1;
        }
        proof {
            assert(self.custom_metrics@.take(i as int) =~= self.custom_metrics@);
        }
        PrometheusMetrics { content_type: owned("text/plain; version=0.0.4; charset=utf-8"), data: out }
    }

    /// Records a finished request when metrics are enabled.
    pub fn record_request(&mut self, response_time_ms: u64, is_error: bool, now: u64)
        requires
            old(self).wf(),
        ensures
            final(self).wf(),
            final(self).custom() == old(self).custom(),
            final(self).config() == old(self).config(),
            !old(self).config().enable_metrics ==> final(self).monitor() == old(self).monitor(),
            old(self).config().enable_metrics ==> final(self).monitor().metrics().recorded()
                == old(self).monitor().metrics().recorded().push(response_time_ms),
            old(self).config().enable_metrics ==> final(self).monitor().metrics().recorded_errors()
                == old(self).monitor().metrics().recorded_errors().push(is_error),
            old(self).config().enable_metrics ==> final(self).monitor().total() == old(self).monitor().total().wrapping_add(1),
    {
        if self.config.enable_metrics {
            self.health_monitor.record_request(response_time_ms, is_error, now);
        }
    }

    pub fn increment_active_connections(&mut self)
        requires
            old(self).wf(),
        ensures
            final(self).wf(),
            final(self).custom() == old(self).custom(),
            final(self).monitor().active() == if old(self).config().enable_metrics {
                old(self).monitor().active().wrapping_add(1)
            } else {
                old(self).monitor().active()
            },
    {
        if self.config.enable_metrics {
            self.health_monitor.increment_active_connections();
        }
    }

    pub fn decrement_active_connections(&mut self)
        requires
            old(self).wf(),
        ensures
            final(self).wf(),
            final(self).custom() == old(self).custom(),
            final(self).monitor().active() == if old(self).config().enable_metrics && old(self).monitor().active() > 0 {
                (old(self).monitor().active() - 1) as usize
            } else {
                old(self).monitor().active()
            },
    {
        if self.config.enable_metrics {
            self.health_monitor.decrement_active_connections();
        }
    }

    /// Adds `value` to the counter `name` (created at 0), wrapping on
    /// overflow, when metrics are enabled.
    pub fn increment_custom_metric(&mut self, name: &str, value: u64)
        requires
            old(self).wf(),
        ensures
            final(self).wf(),
            final(self).monitor() == old(self).monitor(),
            !old(self).config().enable_metrics ==> final(self).custom() == old(self).custom(),
            old(self).config().enable_metrics ==> metric_value(final(self).custom(), name@) == Some(
                match metric_value(old(self).custom(), name@) {
                    Some(v) => v,
                    None => 0u64,
                }.wrapping_add(value),
            ),
            forall|k: Seq<char>| k != name@ ==> metric_value(final(self).custom(), k) == metric_value(old(self).custom(), k),
    {
        if !self.config.enable_metrics {
            return;
        }
        let current = match find_metric(&self.custom_metrics, name) {
            Some(i) => {
                proof {
                    lemma_metric_value_last(self.custom_metrics@, name@, i as int);
                }
                self.custom_metrics[i].1
            },
            None => {
                proof {
                    lemma_metric_value_absent(self.custom_metrics@, name@);
                }
                0
            },
        };
        self.set_custom_metric(name, current.wrapping_add(value));
    }

    /// Sets the counter `name` to `value` when metrics are enabled.
    pub fn set_custom_metric(&mut self, name: &str, value: u64)
        requires
            old(self).wf(),
        ensures
            final(self).wf(),
            final(self).monitor() == old(self).monitor(),
            !old(self).config().enable_metrics ==> final(self).custom() == old(self).custom(),
            old(self).config().enable_metrics ==> metric_value(final(self).custom(), name@) == Some(value),
            forall|k: Seq<char>| k != name@ ==> metric_value(final(self).custom(), k) == metric_value(old(self).custom(), k),
    {
        if !self.config.enable_metrics {
            return;
        }
        let ghost before = self.custom_metrics@;
        match find_metric(&self.custom_metrics, name) {
            Some(i) => {
                let key = self.custom_metrics[i].0.clone();
                self.custom_metrics.set(i, (key, value));
                proof {
                    assert(self.custom_metrics@ =~= before.update(i as int, (before[i as int].0, value)));
                    lemma_metric_value_last(self.custom_metrics@, name@, i as int);
                    assert forall|k: Seq<char>| k != name@ implies metric_value(self.custom_metrics@, k) == metric_value(before, k) by {
                        lemma_metric_value_update(before, i as int, value, k);
                    }
                }
            },
            None => {
                self.custom_metrics.push((owned(name), value));
                proof {
                    assert(self.custom_metrics@.drop_last() =~= before);
                    assert forall|k: Seq<char>| k != name@ implies metric_value(self.custom_metrics@, k) == metric_value(before, k) by {
                        lemma_metric_value_push(before, self.custom_metrics@.last(), k);
                        assert(self.custom_metrics@ == before.push(self.custom_metrics@.last()));
                    }
                }
            },
        }
    }

    pub fn update_health_check(&mut self, name: &str, check: HealthCheck)
        requires
            old(self).wf(),
        ensures
            final(self).wf(),
            final(self).custom() == old(self).custom(),
            final(self).monitor().checks().last().0@ == name@,
            final(self).monitor().checks().last().1 == check,
    {
        self.health_monitor.update_health_check(name, check);
    }

    pub fn health_monitor(&self) -> (r: &HealthMonitor)
        ensures
            *r == self.monitor(),
    {
        &self.health_monitor
    }
}

} // verus!
