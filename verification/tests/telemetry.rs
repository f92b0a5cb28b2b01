use talos::telemetry::{
    json_number_token, percent_after, ram_fields, temperature_after, temperature_readings,
    meminfo_field, LastGoodSample, TelemetrySample,
};
use talos::TelemetrySource;

// The way a tegrastats line turns into readings: memory as used over total,
// the GR3D load, and the GPU temperature or else the hottest reported one.
fn tegrastats(line: &str) -> Option<(f32, f32, f32)> {
    let (used, total) = ram_fields(line)?;
    let used: f32 = used.parse().ok()?;
    let total: f32 = total.parse().ok()?;
    if total <= 0.0 {
        return None;
    }
    let gpu = percent_after(line, "GR3D_FREQ")
        .and_then(|value| value.parse().ok())
        .unwrap_or(0.0);
    let temperature = temperature_after(line, "GPU@")
        .and_then(|value| value.parse::<f32>().ok())
        .or_else(|| {
            temperature_readings(line)
                .iter()
                .filter_map(|value| value.parse::<f32>().ok())
                .reduce(f32::max)
        })
        .unwrap_or(45.0);
    Some(((used / total) * 100.0, gpu, temperature))
}

#[test]
fn parses_tegrastats_line() {
    let line = "RAM 2048/4096MB (lfb 12x4MB) SWAP 0/2048MB CPU [1%@102,off] EMC_FREQ 12% GR3D_FREQ 37% GPU@54.5C CPU@49.0C";
    let (memory, gpu, temperature) = tegrastats(line).expect("tegrastats line should parse");

    assert_eq!(memory, 50.0);
    assert_eq!(gpu, 37.0);
    assert_eq!(temperature, 54.5);
}

#[test]
fn parses_tegrastats_without_gpu_temperature() {
    let line = "RAM 1024/4096MB CPU [1%@102] GR3D_FREQ 4% CPU@45.0C thermal@47.5C";
    let (memory, gpu, temperature) = tegrastats(line).expect("tegrastats line should parse");

    assert_eq!(memory, 25.0);
    assert_eq!(gpu, 4.0);
    assert_eq!(temperature, 47.5);
}

#[test]
fn parses_jtop_json() {
    let json = r#"{"memory_usage_percent": 41.5, "temperature_c": 52.0, "gpu_utilization": 13.0}"#;
    let read = |key: &str| -> f32 {
        json_number_token(json, key)
            .expect("jtop json should parse")
            .parse()
            .expect("number")
    };

    assert_eq!(read("memory_usage_percent"), 41.5);
    assert_eq!(read("temperature_c"), 52.0);
    assert_eq!(read("gpu_utilization"), 13.0);
}

#[test]
fn tegrastats_tokens_are_exact() {
    let line = "RAM 2048/4096MB (lfb 12x4MB) GR3D_FREQ 37% GPU@54.5C CPU@49.0C";
    assert_eq!(ram_fields(line), Some(("2048".to_string(), "4096".to_string())));
    assert_eq!(percent_after(line, "GR3D_FREQ"), Some("37".to_string()));
    assert_eq!(temperature_after(line, "GPU@"), Some("54.5".to_string()));
    assert_eq!(
        temperature_readings(line),
        vec!["54.5".to_string(), "49.0".to_string()]
    );
    assert_eq!(ram_fields("SWAP 0/2048MB"), None);
    assert_eq!(ram_fields("RAM 2048"), None);
    assert_eq!(ram_fields("RAM  512/1024"), Some(("512".to_string(), "1024".to_string())));
    assert_eq!(percent_after(line, "EMC_FREQ"), None);
    assert_eq!(temperature_after("GPU@hot", "GPU@"), None);
}

#[test]
fn jtop_number_skips_quotes_and_stops_at_separators() {
    assert_eq!(
        json_number_token(r#"{"a": "-1.5", "b": 2}"#, "a"),
        Some("-1.5".to_string())
    );
    assert_eq!(json_number_token(r#"{"b":7}"#, "b"), Some("7".to_string()));
    assert_eq!(json_number_token(r#"{"b": x}"#, "b"), Some(String::new()));
    assert_eq!(json_number_token(r#"{"b" 7}"#, "b"), None);
    assert_eq!(json_number_token(r#"{"c": 7}"#, "b"), None);
}

#[test]
fn invalid_samples_keep_the_last_good_reading() {
    let mut hold = LastGoodSample::new(40u32);
    assert_eq!(hold.take_sample(55, true), 55);
    assert_eq!(hold.take_sample(99, false), 55);
    assert_eq!(hold.current(), 55);
    assert_eq!(hold.take_sample(60, true), 60);
}

#[test]
fn meminfo_fields_are_read_in_kilobytes() {
    let meminfo = "MemTotal:        3955312 kB\nMemFree:          120000 kB\nMemAvailable:    1977656 kB\n";
    assert_eq!(meminfo_field(meminfo, "MemTotal:"), Some(3955312));
    assert_eq!(meminfo_field(meminfo, "MemAvailable:"), Some(1977656));
    assert_eq!(meminfo_field(meminfo, "SwapTotal:"), None);
    assert_eq!(meminfo_field("MemTotal:\n", "MemTotal:"), None);
    assert_eq!(meminfo_field("MemTotal: lots kB\nMemTotal: 5 kB", "MemTotal:"), None);
}

#[test]
fn samples_keep_source_and_validity_around_the_last_good_reading() {
    let mut hold = LastGoodSample::new(40u32);
    let good = TelemetrySample { telemetry: 55u32, source: TelemetrySource::Sysfs, valid: true };
    assert_eq!(hold.accept(good), good);
    let bad = TelemetrySample { telemetry: 0u32, source: TelemetrySource::Sysfs, valid: false };
    assert_eq!(
        hold.accept(bad),
        TelemetrySample { telemetry: 55, source: TelemetrySource::Sysfs, valid: false }
    );
    assert_eq!(hold.current(), 55);
}
