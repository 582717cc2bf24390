use quality_filter::health::{
    memory_usage_from_status, CheckResult, HealthChecks, HealthProbes, HealthService,
};
use quality_filter::metrics::MetricsCollector;

fn check(status: &str) -> CheckResult {
    CheckResult { status: status.to_string(), message: String::new(), last_checked: String::new() }
}

fn checks(module: &str, connection: &str, memory: &str, processing: &str) -> HealthChecks {
    HealthChecks {
        wasm_module: check(module),
        mqtt_connection: check(connection),
        memory_usage: check(memory),
        message_processing: check(processing),
    }
}

fn probes(module_size: Result<u64, String>, memory: Result<u64, String>) -> HealthProbes {
    HealthProbes { module_size, memory_usage_mb: memory, uptime_seconds: 42 }
}

#[test]
fn test_health_check_creation() {
    let metrics = MetricsCollector::new();
    let health_service = HealthService::new();
    let status = health_service.check_health(&metrics.get_metrics(0), &probes(Ok(10), Ok(50)));
    assert_eq!(status.uptime_seconds, 42);
}

#[test]
fn unhealthy_module_alone_makes_report_unhealthy() {
    let service = HealthService::new();
    assert!(!service.is_healthy(&checks("unhealthy", "healthy", "healthy", "healthy")));
}

#[test]
fn degraded_connection_is_tolerated() {
    let service = HealthService::new();
    assert!(service.is_healthy(&checks("healthy", "degraded", "healthy", "healthy")));
    assert!(service.is_healthy(&checks("healthy", "healthy", "warning", "warning")));
    assert!(!service.is_healthy(&checks("healthy", "healthy", "unknown", "healthy")));
    assert!(!service.is_healthy(&checks("healthy", "healthy", "healthy", "unhealthy")));
}

#[test]
fn module_check_outcomes() {
    let now = "T".to_string();
    let ok = HealthService::check_wasm_module(&Ok(2048), &now);
    assert_eq!(ok.status, "healthy");
    assert_eq!(ok.message, "WASM module accessible, size: 2048 bytes");
    assert_eq!(ok.last_checked, "T");
    let empty = HealthService::check_wasm_module(&Ok(0), &now);
    assert_eq!(empty.status, "unhealthy");
    assert_eq!(empty.message, "WASM module file is empty");
    let missing = HealthService::check_wasm_module(&Err("not found".to_string()), &now);
    assert_eq!(missing.status, "unhealthy");
    assert_eq!(missing.message, "WASM module not accessible: not found");
}

#[test]
fn connection_check_outcomes() {
    let now = "T".to_string();
    let mut metrics = MetricsCollector::new();
    assert_eq!(HealthService::check_mqtt_connection(&metrics.get_metrics(0), &now).status, "healthy");
    metrics.increment_connection_errors();
    let degraded = HealthService::check_mqtt_connection(&metrics.get_metrics(0), &now);
    assert_eq!(degraded.status, "degraded");
    assert_eq!(degraded.message, "MQTT connection issues detected, errors: 1");
    metrics.increment_messages_received();
    let healthy = HealthService::check_mqtt_connection(&metrics.get_metrics(0), &now);
    assert_eq!(healthy.status, "healthy");
    assert_eq!(healthy.message, "MQTT connection healthy, messages received: 1, errors: 1");
}

#[test]
fn memory_check_bands() {
    let now = "T".to_string();
    assert_eq!(HealthService::check_memory_usage(&Ok(99), &now).status, "healthy");
    assert_eq!(HealthService::check_memory_usage(&Ok(99), &now).message, "Memory usage: 99 MB");
    assert_eq!(HealthService::check_memory_usage(&Ok(100), &now).status, "warning");
    assert_eq!(HealthService::check_memory_usage(&Ok(199), &now).status, "warning");
    assert_eq!(HealthService::check_memory_usage(&Ok(200), &now).status, "unhealthy");
    assert_eq!(HealthService::check_memory_usage(&Ok(200), &now).message, "Memory usage high: 200 MB");
    let unknown = HealthService::check_memory_usage(&Err("no procfs".to_string()), &now);
    assert_eq!(unknown.status, "unknown");
    assert_eq!(unknown.message, "Could not determine memory usage: no procfs");
}

#[test]
fn processing_check_bands() {
    let now = "T".to_string();
    let mut metrics = MetricsCollector::new();
    let idle = HealthService::check_message_processing(&metrics.get_metrics(0), &now);
    assert_eq!(idle.status, "healthy");
    assert_eq!(idle.message, "Processing healthy, processed: 0, error rate: 0.00%");
    for _ in 0..100 {
        metrics.increment_messages_processed();
    }
    metrics.increment_processing_errors();
    let one = HealthService::check_message_processing(&metrics.get_metrics(0), &now);
    assert_eq!(one.status, "warning");
    assert_eq!(one.message, "Processing has some errors, processed: 100, error rate: 1.00%");
    for _ in 0..4 {
        metrics.increment_processing_errors();
    }
    let five = HealthService::check_message_processing(&metrics.get_metrics(0), &now);
    assert_eq!(five.status, "unhealthy");
    assert_eq!(five.message, "High processing error rate, processed: 100, error rate: 5.00%");
}

#[test]
fn report_aggregates_checks() {
    let service = HealthService::new();
    let metrics = MetricsCollector::new().get_metrics(0);
    let good = service.check_health(&metrics, &probes(Ok(10), Ok(50)));
    assert_eq!(good.status, "healthy");
    assert_eq!(good.version, "0.1.0");
    assert_eq!(good.checks.wasm_module.last_checked, good.timestamp);
    let bad = service.check_health(&metrics, &probes(Err("gone".to_string()), Ok(50)));
    assert_eq!(bad.status, "unhealthy");
    let heavy = service.check_health(&metrics, &probes(Ok(10), Ok(150)));
    assert_eq!(heavy.status, "healthy");
    assert_eq!(heavy.checks.memory_usage.status, "warning");
}

#[test]
fn memory_figure_from_process_status() {
    let status = "Name:\tprocessor\nVmPeak:\t  300000 kB\nVmRSS:\t  204800 kB\nThreads:\t4\n";
    assert_eq!(memory_usage_from_status(status), Ok(200));
    assert_eq!(memory_usage_from_status("VmRSS: 1023 kB"), Ok(0));
    assert_eq!(memory_usage_from_status("Name: x\n"), Ok(50));
    assert_eq!(memory_usage_from_status(""), Ok(50));
    assert_eq!(memory_usage_from_status("VmRSS:\nVmRSS: 2048 kB\n"), Ok(2));
    assert!(memory_usage_from_status("VmRSS: lots kB\n").is_err());
}
