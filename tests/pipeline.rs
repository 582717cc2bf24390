use quality_filter::message::{MessageError, WeldingMessage};
use quality_filter::metrics::MetricsCollector;
use quality_filter::pipeline::{
    ingest_step, process_welding_message, record_item, BrokerEvent, IngestAction, ItemResult,
    RECONNECT_BACKOFF_SECONDS,
};

fn decode(json: &str) -> Option<WeldingMessage> {
    let v: serde_json::Value = serde_json::from_str(json).ok()?;
    let text = |k: &str| v.get(k).and_then(|x| x.as_str()).map(|s| s.to_string());
    let seconds = v.get("last_cycle_time")?.as_f64()?;
    Some(WeldingMessage {
        machine_id: text("machine_id")?,
        timestamp: text("timestamp")?,
        status: text("status")?,
        last_cycle_time_ms: (seconds * 1000.0).round() as i64,
        quality: text("quality")?,
        assembly_type: text("assembly_type")?,
        assembly_id: text("assembly_id")?,
        station_id: text("station_id")?,
    })
}

#[test]
fn test_process_valid_welding_message_triggers_alert() {
    let input = r#"{
        "machine_id": "LINE-1-STATION-C-01",
        "timestamp": "2025-12-02T15:30:00Z",
        "status": "running",
        "last_cycle_time": 6.5,
        "quality": "scrap",
        "assembly_type": "FrameAssembly",
        "assembly_id": "FA-001-2025-001",
        "station_id": "LINE-1-STATION-C"
    }"#;

    let result = process_welding_message(decode(input)).unwrap();
    assert!(result.is_some(), "Should generate quality alert for scrap with cycle_time < 7");

    let alert = result.unwrap();
    assert_eq!(alert.alert_type, "quality_control");
    assert_eq!(alert.source_machine, "LINE-1-STATION-C-01");
}

#[test]
fn test_process_valid_welding_message_no_alert() {
    let input = r#"{
        "machine_id": "LINE-1-STATION-C-02",
        "timestamp": "2025-12-02T15:30:00Z",
        "status": "running",
        "last_cycle_time": 8.0,
        "quality": "scrap",
        "assembly_type": "FrameAssembly",
        "assembly_id": "FA-001-2025-002",
        "station_id": "LINE-1-STATION-C"
    }"#;

    let result = process_welding_message(decode(input));
    assert!(
        matches!(result, Ok(None)),
        "Should not generate alert for scrap with cycle_time >= 7"
    );
}

#[test]
fn test_process_good_quality_no_alert() {
    let input = r#"{
        "machine_id": "LINE-1-STATION-C-03",
        "timestamp": "2025-12-02T15:30:00Z",
        "status": "running",
        "last_cycle_time": 6.0,
        "quality": "good",
        "assembly_type": "FrameAssembly",
        "assembly_id": "FA-001-2025-003",
        "station_id": "LINE-1-STATION-C"
    }"#;

    let result = process_welding_message(decode(input));
    assert!(matches!(result, Ok(None)), "Should not generate alert for good quality");
}

#[test]
fn test_process_invalid_json() {
    let input = r#"{"invalid": json"#;
    let result = process_welding_message(decode(input));
    assert!(
        matches!(result, Err(MessageError::Decode)),
        "Should handle invalid JSON gracefully"
    );
}

#[test]
fn scrap_six_and_a_half_seconds_gives_low_severity() {
    let input = r#"{"machine_id": "LINE-1-STATION-C-01", "timestamp": "2025-12-02T15:30:00Z",
        "status": "running", "last_cycle_time": 6.5, "quality": "scrap",
        "assembly_type": "FrameAssembly", "assembly_id": "FA-1", "station_id": "S"}"#;
    let alert = process_welding_message(decode(input)).unwrap().unwrap();
    assert_eq!(alert.severity, "low");
    assert_eq!(alert.recommended_action, "monitor_next_cycle");
}

#[test]
fn invalid_operation_is_reported() {
    let input = r#"{"machine_id": "", "timestamp": "2025-12-02T15:30:00Z",
        "status": "running", "last_cycle_time": 6.5, "quality": "scrap",
        "assembly_type": "FrameAssembly", "assembly_id": "FA-1", "station_id": "S"}"#;
    assert_eq!(process_welding_message(decode(input)), Err(MessageError::InvalidOperation));
}

#[test]
fn publish_event_is_counted_and_queued() {
    let mut metrics = MetricsCollector::new();
    let action = ingest_step(
        &mut metrics,
        BrokerEvent::Publish { topic: "in".to_string(), payload: b"hello".to_vec() },
    );
    assert_eq!(
        action,
        IngestAction::Enqueue { topic: "in".to_string(), payload: "hello".to_string() }
    );
    assert_eq!(metrics.get_metrics(0).messages_received, 1);
}

#[test]
fn invalid_utf8_payload_is_replaced() {
    let mut metrics = MetricsCollector::new();
    let action = ingest_step(
        &mut metrics,
        BrokerEvent::Publish { topic: "in".to_string(), payload: vec![b'a', 0xff, b'b'] },
    );
    assert_eq!(
        action,
        IngestAction::Enqueue { topic: "in".to_string(), payload: "a\u{FFFD}b".to_string() }
    );
}

#[test]
fn poll_error_backs_off() {
    let mut metrics = MetricsCollector::new();
    let action = ingest_step(&mut metrics, BrokerEvent::PollError);
    assert_eq!(action, IngestAction::Backoff { seconds: RECONNECT_BACKOFF_SECONDS });
    assert_eq!(RECONNECT_BACKOFF_SECONDS, 5);
    let m = metrics.get_metrics(0);
    assert_eq!(m.connection_errors, 1);
    assert_eq!(m.messages_received, 0);
    assert_eq!(ingest_step(&mut metrics, BrokerEvent::Other), IngestAction::Continue);
    assert_eq!(metrics.get_metrics(0).connection_errors, 1);
}

#[test]
fn item_outcomes_update_counters() {
    let mut metrics = MetricsCollector::new();
    record_item(&mut metrics, ItemResult::Published, 4);
    record_item(&mut metrics, ItemResult::PublishFailed, 6);
    record_item(&mut metrics, ItemResult::NoAlert, 2);
    record_item(&mut metrics, ItemResult::Failed, 8);
    let m = metrics.get_metrics(0);
    assert_eq!(m.messages_processed, 4);
    assert_eq!(m.alerts_generated, 1);
    assert_eq!(m.publish_errors, 1);
    assert_eq!(m.processing_errors, 1);
    assert_eq!(m.latency_samples, 4);
    assert_eq!(m.latency_total_ms, 20);
    assert_eq!(m.max_processing_latency_ms, 8);
}
