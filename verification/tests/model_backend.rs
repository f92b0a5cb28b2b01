use talos::model_backend::{
    command_line, compact_output, compact_output_checked, parse_metric_u32, peak_cuda_field,
    percentile, RealModelConfig,
};
use talos::RealModelBackend;

#[test]
fn parses_smolvlm_metrics() {
    let stdout = "tokens: 24\npeak_cuda_allocated_gb: 2.50\n";
    assert_eq!(parse_metric_u32(stdout, &["tokens:"]), Some(24));
    let peak = peak_cuda_field(stdout).expect("peak memory");
    assert!(peak.in_gigabytes);
    let gb: f32 = peak.value.parse().expect("number");
    assert_eq!(gb * 1024.0, 2560.0);
}

#[test]
fn builds_trtexec_engine_command() {
    let command = command_line(
        &RealModelConfig {
            backend: RealModelBackend::TensorRtEngine,
            model: "/models/yolo.engine".to_string(),
            image_path: None,
            prompt: None,
            max_new_tokens: 0,
            extra_args: vec!["--verbose".to_string()],
        },
        "trtexec",
    );

    assert!(command.args.contains(&"--loadEngine=/models/yolo.engine".to_string()));
    assert!(command.args.contains(&"--verbose".to_string()));
}

#[test]
fn trtexec_path_can_be_overridden() {
    let command = command_line(
        &RealModelConfig {
            backend: RealModelBackend::TensorRtOnnx,
            model: "/models/vision.onnx".to_string(),
            image_path: None,
            prompt: None,
            max_new_tokens: 0,
            extra_args: Vec::new(),
        },
        "/opt/tensorrt/bin/trtexec",
    );

    assert_eq!(command.program, "/opt/tensorrt/bin/trtexec");
    assert_eq!(
        command.args,
        vec!["--onnx=/models/vision.onnx", "--iterations=1", "--duration=0"]
    );
}

#[test]
fn smolvlm_command_carries_image_prompt_and_tokens() {
    let command = command_line(
        &RealModelConfig {
            backend: RealModelBackend::SmolVlmCuda,
            model: "HuggingFaceTB/SmolVLM".to_string(),
            image_path: Some("frames/a.jpg".to_string()),
            prompt: Some("describe".to_string()),
            max_new_tokens: 32,
            extra_args: vec!["--fp16".to_string()],
        },
        "unused",
    );
    assert_eq!(command.program, "python3");
    assert_eq!(
        command.args,
        vec![
            "scripts/talos_smolvlm_probe.py",
            "--model-id",
            "HuggingFaceTB/SmolVLM",
            "--max-new-tokens",
            "32",
            "--image-path",
            "frames/a.jpg",
            "--prompt",
            "describe",
            "--fp16",
        ]
    );
}

#[test]
fn metric_lines_are_trimmed_and_first_label_wins() {
    let output = "warmup\r\n  tokens= 7  \ntokens: 9\n";
    assert_eq!(parse_metric_u32(output, &["tokens:", "tokens="]), Some(7));
    assert_eq!(parse_metric_u32("tokens: many\ntokens: 3", &["tokens:"]), None);
    assert_eq!(parse_metric_u32("tokens: +12", &["tokens:"]), Some(12));
    assert_eq!(parse_metric_u32("tokens: 4294967296", &["tokens:"]), None);
    assert_eq!(parse_metric_u32("nothing here", &["tokens:"]), None);
    assert_eq!(parse_metric_u32("", &["tokens:"]), None);
}

#[test]
fn compact_output_joins_twelve_trimmed_lines() {
    let output = "  a  \n\n b\r\nc\n";
    assert_eq!(compact_output(output), "a | b | c");
    let many: String = (0..20).map(|i| format!("line{i}\n")).collect();
    let expected: Vec<String> = (0..12).map(|i| format!("line{i}")).collect();
    assert_eq!(compact_output(&many), expected.join(" | "));
    let long = "x".repeat(600);
    assert_eq!(compact_output(&long).len(), 512);
    assert_eq!(compact_output(""), "");
}

#[test]
fn compact_output_refuses_to_cut_inside_a_character() {
    let text = format!("{}é", "x".repeat(511));
    assert!(compact_output_checked(&text).is_none());
    let fits = format!("{}é", "x".repeat(510));
    assert_eq!(compact_output_checked(&fits), Some(fits.clone()));
}

#[test]
fn real_model_percentiles() {
    assert_eq!(percentile(&[], 50), 0);
    assert_eq!(percentile(&[30, 10, 20], 50), 20);
    assert_eq!(percentile(&[30, 10, 20], 95), 20);
    assert_eq!(percentile(&[30, 10, 20], 100), 30);
}
