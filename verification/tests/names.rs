use talos::{ExecutionProfile, RealModelBackend, TelemetrySource};

#[test]
fn parses_backend_names() {
    assert_eq!(
        RealModelBackend::parse("tensorrt-engine"),
        Some(RealModelBackend::TensorRtEngine)
    );
    assert_eq!(
        RealModelBackend::parse("onnx"),
        Some(RealModelBackend::TensorRtOnnx)
    );
    assert_eq!(
        RealModelBackend::parse("smolvlm"),
        Some(RealModelBackend::SmolVlmCuda)
    );
}

#[test]
fn parses_execution_profiles() {
    assert_eq!(
        ExecutionProfile::parse("sitl"),
        Some(ExecutionProfile::Sitl)
    );
    assert_eq!(
        ExecutionProfile::parse("hitl"),
        Some(ExecutionProfile::Hitl)
    );
    assert_eq!(ExecutionProfile::parse("mixed"), None);
}

#[test]
fn backend_aliases_and_unknown_names() {
    assert_eq!(RealModelBackend::parse("trt-engine"), Some(RealModelBackend::TensorRtEngine));
    assert_eq!(RealModelBackend::parse("engine"), Some(RealModelBackend::TensorRtEngine));
    assert_eq!(RealModelBackend::parse("trt-onnx"), Some(RealModelBackend::TensorRtOnnx));
    assert_eq!(RealModelBackend::parse("smolvlm-cuda"), Some(RealModelBackend::SmolVlmCuda));
    assert_eq!(RealModelBackend::parse("Engine"), None);
    assert_eq!(RealModelBackend::parse(""), None);
}

#[test]
fn names_read_back_as_themselves() {
    for backend in [
        RealModelBackend::TensorRtEngine,
        RealModelBackend::TensorRtOnnx,
        RealModelBackend::SmolVlmCuda,
    ] {
        assert_eq!(RealModelBackend::parse(backend.name()), Some(backend));
    }
    for source in [
        TelemetrySource::Synthetic,
        TelemetrySource::Sysfs,
        TelemetrySource::Tegrastats,
        TelemetrySource::Jtop,
    ] {
        assert_eq!(TelemetrySource::parse(source.name()), Some(source));
    }
    for profile in [ExecutionProfile::Sitl, ExecutionProfile::Hitl] {
        assert_eq!(ExecutionProfile::parse(profile.name()), Some(profile));
    }
    assert_eq!(RealModelBackend::TensorRtOnnx.name(), "tensorrt-onnx");
    assert_eq!(TelemetrySource::Jtop.name(), "jtop");
    assert_eq!(TelemetrySource::parse("sysfs"), Some(TelemetrySource::Sysfs));
    assert_eq!(TelemetrySource::Sysfs.name(), "sysfs");
    assert_eq!(TelemetrySource::parse("synthetic"), Some(TelemetrySource::Synthetic));
    assert_eq!(TelemetrySource::parse("tegrastats"), Some(TelemetrySource::Tegrastats));
    assert_eq!(TelemetrySource::parse("jtop"), Some(TelemetrySource::Jtop));
    assert_eq!(TelemetrySource::parse("procfs"), None);
}
