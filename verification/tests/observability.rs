use talos::observability::{
    csv_header, decision_name, escape_json, optional_json_bool, optional_json_string,
    optional_json_u32, optional_json_u64, scheduler_state_name, stage_name, task_type_name,
    trace_id, ObservationRecord,
};
use talos::{
    default_csv_path, default_jsonl_path, DecisionStatus, ObservationStage, SchedulerState,
    TaskType, TelemetrySource,
};

fn record() -> ObservationRecord {
    ObservationRecord {
        stage: ObservationStage::Execution,
        task_id: 42,
        task_type: TaskType::CV_FEATURES,
        decision: DecisionStatus::ADMIT,
        queue_pressure: 5,
        scheduler_state: SchedulerState::NORMAL,
        telemetry_source: TelemetrySource::Synthetic,
        telemetry_valid: true,
        memory_usage_percent: format!("{:.3}", 40.0f32),
        temperature_c: format!("{:.3}", 45.0f32),
        gpu_utilization: format!("{:.3}", 0.0f32),
        lease_id: Some("0001".to_string()),
        pool_slot_id: 2,
        latency_ms: Some(3),
        execution_time_ms: 4,
        runtime_ok: Some(true),
        feature_dim: Some(7),
        input_bytes: Some(4),
        feature_checksum: Some(123),
        feature_mean: Some(format!("{:.6}", 0.5f32)),
        feature_entropy: Some(format!("{:.6}", 2.0f32)),
        feature_edge_density: Some(format!("{:.6}", 0.25f32)),
        change_baseline_ready: Some(true),
        change_score: Some(format!("{:.6}", 0.12f32)),
        change_detected: Some(true),
        real_model_backend: None,
        real_model_name: None,
        real_model_exit_code: None,
        real_model_peak_cuda_mb: None,
    }
}

#[test]
fn writes_jsonl_and_csv_observation() {
    let observation = record();
    let json = observation.to_json_line(1700000000000);
    assert!(json.contains("\"task_id\":42"));
    assert!(json.contains("\"task_type\":\"CV_FEATURES\""));
    assert!(json.contains("\"lease_id\":\"0001\""));
    assert!(json.contains("\"pool_slot_id\":2"));
    assert!(json.contains("\"feature_dim\":7"));
    assert!(json.contains("\"feature_checksum\":123"));
    assert!(json.contains("\"runtime_ok\":true"));
    assert!(json.contains("\"telemetry_source\":\"synthetic\""));
    assert!(json.contains("\"change_detected\":true"));

    let csv_content = format!("{}\n{}", csv_header(), observation.to_csv_line(1700000000000));
    assert!(csv_content.contains("timestamp_ms,trace_id,stage"));
    assert!(csv_content.contains("task-42,execution,42,CV_FEATURES,ADMIT"));
}

#[test]
fn json_line_is_exact() {
    let json = record().to_json_line(17);
    assert_eq!(
        json,
        "{\"timestamp_ms\":17,\"trace_id\":\"task-42\",\"stage\":\"execution\",\"task_id\":42,\"task_type\":\"CV_FEATURES\",\"decision\":\"ADMIT\",\"queue_pressure\":5,\"scheduler_state\":\"NORMAL\",\"telemetry_source\":\"synthetic\",\"telemetry_valid\":true,\"memory_usage_percent\":40.000,\"temperature_c\":45.000,\"gpu_utilization\":0.000,\"lease_id\":\"0001\",\"pool_slot_id\":2,\"latency_ms\":3,\"execution_time_ms\":4,\"runtime_ok\":true,\"feature_dim\":7,\"input_bytes\":4,\"feature_checksum\":123,\"feature_mean\":0.500000,\"feature_entropy\":2.000000,\"feature_edge_density\":0.250000,\"change_baseline_ready\":true,\"change_score\":0.120000,\"change_detected\":true,\"real_model_backend\":null,\"real_model_name\":null,\"real_model_exit_code\":null,\"real_model_peak_cuda_mb\":null}"
    );
}

#[test]
fn decision_rows_leave_execution_fields_empty() {
    let mut observation = record();
    observation.stage = ObservationStage::Decision;
    observation.decision = DecisionStatus::DEFER;
    observation.lease_id = None;
    observation.latency_ms = None;
    observation.execution_time_ms = 0;
    observation.runtime_ok = None;
    observation.feature_dim = None;
    observation.input_bytes = None;
    observation.feature_checksum = None;
    observation.feature_mean = None;
    observation.feature_entropy = None;
    observation.feature_edge_density = None;
    observation.change_baseline_ready = None;
    observation.change_score = None;
    observation.change_detected = None;
    assert_eq!(
        observation.to_csv_line(5),
        "5,task-42,decision,42,CV_FEATURES,DEFER,5,NORMAL,synthetic,true,40.000,45.000,0.000,,2,,0,,,,,,,,,,,,,,"
    );
    let json = observation.to_json_line(5);
    assert!(json.contains("\"lease_id\":null,"));
    assert!(json.contains("\"feature_mean\":null,"));
    assert!(json.contains("\"change_detected\":null,"));
    assert!(json.ends_with("\"real_model_peak_cuda_mb\":null}"));
}

#[test]
fn json_helpers() {
    assert_eq!(escape_json(r#"a"b\c"#), r#"a\"b\\c"#);
    assert_eq!(optional_json_string(Some("x\"y")), "\"x\\\"y\"");
    assert_eq!(optional_json_string(None), "null");
    assert_eq!(optional_json_u64(Some(18446744073709551615)), "18446744073709551615");
    assert_eq!(optional_json_u64(None), "null");
    assert_eq!(optional_json_u32(Some(0)), "0");
    assert_eq!(optional_json_bool(Some(false)), "false");
    assert_eq!(optional_json_bool(None), "null");
    assert_eq!(trace_id(7), "task-7");
}

#[test]
fn names_and_default_paths() {
    assert_eq!(stage_name(&ObservationStage::Decision), "decision");
    assert_eq!(task_type_name(TaskType::CHANGE_DETECTION), "CHANGE_DETECTION");
    assert_eq!(decision_name(DecisionStatus::REJECT), "REJECT");
    assert_eq!(scheduler_state_name(SchedulerState::HIGH_LOAD), "HIGH_LOAD");
    assert_eq!(default_jsonl_path(), std::path::PathBuf::from("logs/talos_tasks.jsonl"));
    assert_eq!(default_csv_path(), std::path::PathBuf::from("logs/talos_tasks.csv"));
    assert!(csv_header().ends_with(
        ",change_score,change_detected,real_model_backend,real_model_name,real_model_exit_code,real_model_peak_cuda_mb"
    ));
}

#[test]
fn real_model_fields_are_written_on_every_run() {
    let mut observation = record();
    observation.real_model_backend = Some("tensorrt-engine".to_string());
    observation.real_model_name = Some("models/vision.engine".to_string());
    observation.real_model_exit_code = Some(-2);
    observation.real_model_peak_cuda_mb = Some(format!("{:.6}", 2560.0f32));
    let json = observation.to_json_line(9);
    assert!(json.ends_with(
        ",\"real_model_backend\":\"tensorrt-engine\",\"real_model_name\":\"models/vision.engine\",\"real_model_exit_code\":-2,\"real_model_peak_cuda_mb\":2560.000000}"
    ));
    assert!(observation
        .to_csv_line(9)
        .ends_with(",true,tensorrt-engine,models/vision.engine,-2,2560.000000"));

    observation.real_model_exit_code = Some(i32::MIN);
    assert!(observation.to_json_line(9).contains("\"real_model_exit_code\":-2147483648,"));
    observation.real_model_exit_code = Some(0);
    assert!(observation.to_csv_line(9).contains(",models/vision.engine,0,"));
}
