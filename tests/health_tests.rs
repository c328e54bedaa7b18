use octofhir_mcp::health::{calculate_overall_status, HealthCheck, HealthMonitor, HealthStatus, MonitoringConfig};
use octofhir_mcp::metrics::MetricsProvider;
use octofhir_mcp::window::RequestMetrics;

fn named(entries: &[(&str, HealthStatus)]) -> Vec<(String, HealthCheck)> {
    entries
        .iter()
        .map(|(name, status)| {
            let check = match status {
                HealthStatus::Healthy => HealthCheck::healthy("ok"),
                HealthStatus::Degraded => HealthCheck::degraded("slow"),
                HealthStatus::Unhealthy => HealthCheck::unhealthy("down"),
            };
            (name.to_string(), check)
        })
        .collect()
}

#[test]
fn test_health_check_creation() {
    let check = HealthCheck::healthy("Test message");
    assert_eq!(check.status, HealthStatus::Healthy);
    assert_eq!(check.message, "Test message");
}

#[test]
fn test_health_status_methods() {
    assert!(HealthStatus::Healthy.is_healthy());
    assert!(!HealthStatus::Healthy.is_degraded());

    assert!(!HealthStatus::Degraded.is_healthy());
    assert!(HealthStatus::Degraded.is_degraded());

    assert!(!HealthStatus::Unhealthy.is_healthy());
    assert!(!HealthStatus::Unhealthy.is_degraded());
}

#[test]
fn test_request_metrics() {
    let mut metrics = RequestMetrics::new();

    metrics.add_request(100, false, 1_000);
    metrics.add_request(200, false, 1_001);
    metrics.add_request(150, true, 1_002);

    assert_eq!(metrics.average_response_time(), 150);
    assert_eq!(metrics.calculate_percentile(50), 150);
    assert!((metrics.error_rate_basis_points() as f64 / 100.0 - 33.33).abs() < 0.1);
}

#[test]
fn test_monitoring_config_defaults() {
    let config = MonitoringConfig::default();
    assert!(config.enable_health_checks);
    assert!(config.enable_metrics);
    assert_eq!(config.metrics_retention_hours, 24);
}

#[test]
fn test_health_monitor_creation() {
    let monitor = HealthMonitor::new(MonitoringConfig::default(), "test-0.1.0".to_string(), 5_000);
    let health = monitor.get_health_status(7_500, 32);
    assert_eq!(health.version, "test-0.1.0");
    assert_eq!(health.uptime_seconds, 2);
    assert_eq!(health.status, HealthStatus::Healthy);
}

#[test]
fn test_readiness_check() {
    let mut monitor = HealthMonitor::new(MonitoringConfig::default(), "test-0.1.0".to_string(), 0);
    assert!(monitor.get_readiness_status(1).ready);
    monitor.update_health_check("test", HealthCheck::unhealthy("Test failure"));
    assert!(!monitor.get_readiness_status(2).ready);
}

#[test]
fn update_replaces_check_of_same_name() {
    let mut monitor = HealthMonitor::new(MonitoringConfig::default(), "v".to_string(), 0);
    monitor.update_health_check("db", HealthCheck::unhealthy("down"));
    monitor.update_health_check("db", HealthCheck::healthy("up"));
    let readiness = monitor.get_readiness_status(1);
    assert!(readiness.ready);
    assert_eq!(readiness.checks.len(), 1);
}

#[test]
fn aggregate_healthy_and_degraded_is_degraded() {
    let checks = named(&[("checkA", HealthStatus::Healthy), ("checkB", HealthStatus::Degraded)]);
    assert_eq!(calculate_overall_status(&checks), HealthStatus::Degraded);
}

#[test]
fn aggregate_unhealthy_and_healthy_is_unhealthy() {
    let checks = named(&[("checkA", HealthStatus::Unhealthy), ("checkB", HealthStatus::Healthy)]);
    assert_eq!(calculate_overall_status(&checks), HealthStatus::Unhealthy);
}

#[test]
fn aggregate_all_healthy_is_healthy() {
    let checks = named(&[("checkA", HealthStatus::Healthy), ("checkB", HealthStatus::Healthy)]);
    assert_eq!(calculate_overall_status(&checks), HealthStatus::Healthy);
    assert_eq!(calculate_overall_status(&Vec::new()), HealthStatus::Healthy);
}

#[test]
fn window_keeps_most_recent_thousand() {
    let mut metrics = RequestMetrics::new();
    for i in 0..1500u64 {
        metrics.add_request(i, false, 10_000);
    }
    assert_eq!(metrics.len(), 1000);
    // the retained samples are 500..1500: their mean is 999 (rounded down)
    assert_eq!(metrics.average_response_time(), 999);
    assert_eq!(metrics.calculate_percentile(0), 500);
    assert_eq!(metrics.calculate_percentile(100), 1499);
}

#[test]
fn percentiles_of_empty_window_are_zero() {
    let metrics = RequestMetrics::new();
    assert_eq!(metrics.calculate_percentile(50), 0);
    assert_eq!(metrics.calculate_percentile(95), 0);
    assert_eq!(metrics.calculate_percentile(99), 0);
    assert_eq!(metrics.average_response_time(), 0);
    assert_eq!(metrics.error_rate_basis_points(), 0);
}

#[test]
fn percentiles_of_single_sample_are_that_sample() {
    let mut metrics = RequestMetrics::new();
    metrics.add_request(42, false, 0);
    assert_eq!(metrics.calculate_percentile(0), 42);
    assert_eq!(metrics.calculate_percentile(95), 42);
    assert_eq!(metrics.calculate_percentile(99), 42);
    assert_eq!(metrics.calculate_percentile(100), 42);
}

#[test]
fn percentile_index_rounds_down() {
    let mut metrics = RequestMetrics::new();
    for t in [40u64, 10, 30, 20] {
        metrics.add_request(t, false, 0);
    }
    // floor(0.5 * 3) = 1 -> second smallest
    assert_eq!(metrics.calculate_percentile(50), 20);
    // floor(0.95 * 3) = 2
    assert_eq!(metrics.calculate_percentile(95), 30);
}

#[test]
fn requests_per_minute_drops_old_requests() {
    let mut metrics = RequestMetrics::new();
    metrics.add_request(1, false, 0);
    metrics.add_request(1, false, 30_000);
    metrics.add_request(1, false, 70_000);
    assert_eq!(metrics.requests_per_minute(), 2);
}

#[test]
fn memory_check_tiers() {
    let monitor = HealthMonitor::new(MonitoringConfig::default(), "v".to_string(), 0);
    assert_eq!(monitor.check_memory_usage(512).status, HealthStatus::Healthy);
    assert_eq!(monitor.check_memory_usage(513).status, HealthStatus::Degraded);
    assert_eq!(monitor.check_memory_usage(768).status, HealthStatus::Degraded);
    assert_eq!(monitor.check_memory_usage(769).status, HealthStatus::Unhealthy);
}

#[test]
fn performance_check_uses_error_rate() {
    let mut monitor = HealthMonitor::new(MonitoringConfig::default(), "v".to_string(), 0);
    for i in 0..10u64 {
        monitor.record_request(10, i == 0, 0);
    }
    // 10% errors against a 5% threshold: above one and a half times it
    assert_eq!(monitor.check_performance().status, HealthStatus::Unhealthy);
}

#[test]
fn test_request_recording() {
    let mut provider = MetricsProvider::new(MonitoringConfig::default(), "v".to_string(), 0);
    provider.record_request(100, false, 1);
    provider.record_request(200, true, 2);
    let metrics = provider.get_performance_metrics(0);
    assert!(metrics.total_requests >= 2);
    assert_eq!(metrics.error_rate_basis_points, 5000);
}

#[test]
fn test_custom_metrics() {
    let mut provider = MetricsProvider::new(MonitoringConfig::default(), "v".to_string(), 0);
    provider.increment_custom_metric("test_counter", 5);
    provider.set_custom_metric("test_gauge", 42);
    let metrics = provider.get_custom_metrics();
    assert!(metrics.contains(&("test_counter".to_string(), 5)));
    assert!(metrics.contains(&("test_gauge".to_string(), 42)));
}

#[test]
fn test_prometheus_metrics() {
    let mut provider = MetricsProvider::new(MonitoringConfig::default(), "v".to_string(), 0);
    provider.increment_custom_metric("test_metric", 10);
    let prometheus = provider.get_prometheus_metrics(32);
    assert!(prometheus.data.contains("octofhir_test_metric 10"));
    assert!(prometheus.data.contains("octofhir_memory_usage_mb 32\n"));
    assert_eq!(prometheus.content_type, "text/plain; version=0.0.4; charset=utf-8");
}

#[test]
fn custom_metric_increment_wraps() {
    let mut provider = MetricsProvider::new(MonitoringConfig::default(), "v".to_string(), 0);
    provider.set_custom_metric("c", u64::MAX);
    provider.increment_custom_metric("c", 2);
    assert_eq!(provider.get_custom_metrics(), vec![("c".to_string(), 1)]);
}

#[test]
fn active_connections_never_go_below_zero() {
    let mut monitor = HealthMonitor::new(MonitoringConfig::default(), "v".to_string(), 0);
    monitor.decrement_active_connections();
    monitor.increment_active_connections();
    monitor.increment_active_connections();
    monitor.decrement_active_connections();
    assert_eq!(monitor.get_performance_metrics(0).active_connections, 1);
}
