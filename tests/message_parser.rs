use quality_filter::message::{parse_welding_message, MessageError, WeldingMessage};

fn decode(json: &str) -> Option<WeldingMessage> {
    let v: serde_json::Value = serde_json::from_str(json).ok()?;
    let text = |k: &str| v.get(k).and_then(|x| x.as_str()).map(|s| s.to_string());
    let seconds = v.get("last_cycle_time")?.as_f64()?;
    Some(WeldingMessage {
        machine_id: text("machine_id")?,
        timestamp: text("timestamp")?,
        status: text("status")?,
        last_cycle_time_ms: (seconds * 1000.0).round() as i64,
        quality: text("quality")?,
        assembly_type: text("assembly_type")?,
        assembly_id: text("assembly_id")?,
        station_id: text("station_id")?,
    })
}

fn sample_message() -> WeldingMessage {
    WeldingMessage {
        machine_id: "LINE-1-STATION-C-01".to_string(),
        timestamp: "2025-12-02T15:30:00Z".to_string(),
        status: "running".to_string(),
        last_cycle_time_ms: 6500,
        quality: "scrap".to_string(),
        assembly_type: "FrameAssembly".to_string(),
        assembly_id: "FA-001-2025-001".to_string(),
        station_id: "LINE-1-STATION-C".to_string(),
    }
}

#[test]
fn test_parse_valid_welding_message() {
    let json = r#"{
        "machine_id": "LINE-1-STATION-C-01",
        "timestamp": "2025-12-02T15:30:00Z",
        "status": "running",
        "last_cycle_time": 6.5,
        "quality": "scrap",
        "assembly_type": "FrameAssembly",
        "assembly_id": "FA-001-2025-001",
        "station_id": "LINE-1-STATION-C"
    }"#;

    let result = parse_welding_message(decode(json));
    assert!(result.is_ok());

    let message = result.unwrap();
    assert_eq!(message.machine_id, "LINE-1-STATION-C-01");
    assert_eq!(message.quality, "scrap");
    assert_eq!(message.last_cycle_time_ms as f64 / 1000.0, 6.5);
    assert!(message.is_valid_operation());
}

#[test]
fn test_parse_invalid_quality() {
    let json = r#"{
        "machine_id": "LINE-1-STATION-C-01",
        "timestamp": "2025-12-02T15:30:00Z",
        "status": "running",
        "last_cycle_time": 6.5,
        "quality": "invalid_quality",
        "assembly_type": "FrameAssembly",
        "assembly_id": "FA-001-2025-001",
        "station_id": "LINE-1-STATION-C"
    }"#;

    let result = parse_welding_message(decode(json));
    assert!(result.is_err());
}

#[test]
fn test_parse_invalid_json() {
    let json = r#"{"invalid": json"#;
    let result = parse_welding_message(decode(json));
    assert!(result.is_err());
}

#[test]
fn test_get_line_info() {
    let message = sample_message();
    let line_info = message.get_line_info();
    assert!(line_info.is_some());

    let (line, station) = line_info.unwrap();
    assert_eq!(line, "LINE-1");
    assert_eq!(station, "STATION-C");
}

#[test]
fn test_get_timestamp() {
    let message = sample_message();
    let timestamp = message.get_timestamp();
    assert!(timestamp.is_ok());
}

#[test]
fn test_is_valid_operation() {
    let mut message = sample_message();
    assert!(message.is_valid_operation());

    message.last_cycle_time_ms = 0;
    assert!(!message.is_valid_operation());

    message.last_cycle_time_ms = 6500;
    message.machine_id = "".to_string();
    assert!(!message.is_valid_operation());
}

#[test]
fn zero_cycle_time_is_invalid_operation() {
    let mut message = sample_message();
    message.last_cycle_time_ms = 0;
    assert_eq!(parse_welding_message(Some(message)), Err(MessageError::InvalidOperation));
}

#[test]
fn empty_source_is_invalid_operation() {
    let mut message = sample_message();
    message.machine_id = String::new();
    assert_eq!(parse_welding_message(Some(message)), Err(MessageError::InvalidOperation));
}

#[test]
fn malformed_json_is_decode_error() {
    assert_eq!(parse_welding_message(decode(r#"{"invalid": json"#)), Err(MessageError::Decode));
}

#[test]
fn missing_field_is_decode_error() {
    let json = r#"{"machine_id": "M-1", "quality": "scrap"}"#;
    assert_eq!(parse_welding_message(decode(json)), Err(MessageError::Decode));
}

#[test]
fn unknown_status_is_invalid_operation() {
    let mut message = sample_message();
    message.status = "sleeping".to_string();
    assert!(!message.is_valid_operation());
    for status in ["running", "idle", "cooling", "faulted"] {
        message.status = status.to_string();
        assert!(message.is_valid_operation());
    }
}

#[test]
fn quality_tokens_are_case_sensitive_for_validity() {
    let mut message = sample_message();
    for quality in ["good", "scrap", "rework"] {
        message.quality = quality.to_string();
        assert!(message.is_valid_operation());
    }
    message.quality = "Scrap".to_string();
    assert!(!message.is_valid_operation());
}

#[test]
fn negative_cycle_time_is_invalid() {
    let mut message = sample_message();
    message.last_cycle_time_ms = -1;
    assert!(!message.is_valid_operation());
}

#[test]
fn line_info_shapes() {
    let mut message = sample_message();
    message.machine_id = "MACHINE-07".to_string();
    assert_eq!(message.get_line_info(), None);
    message.machine_id = "LINE-12-STATION-AB".to_string();
    assert_eq!(
        message.get_line_info(),
        Some(("LINE-12".to_string(), "STATION-AB".to_string()))
    );
    message.machine_id = "LINE-1-STATION".to_string();
    assert_eq!(message.get_line_info(), None);
    message.machine_id = "LINE-1-STATIONS-C-01".to_string();
    assert_eq!(message.get_line_info(), None);
    message.machine_id = "LINE--STATION--".to_string();
    assert_eq!(
        message.get_line_info(),
        Some(("LINE-".to_string(), "STATION-".to_string()))
    );
}

#[test]
fn timestamp_value_and_rejection() {
    let mut message = sample_message();
    let t = message.get_timestamp().unwrap();
    assert_eq!(t.seconds, 1764689400);
    assert_eq!(t.nanos, 0);
    message.timestamp = "yesterday".to_string();
    assert!(message.get_timestamp().is_err());
}
