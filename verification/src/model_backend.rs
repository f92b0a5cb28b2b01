use vstd::prelude::*;

use vstd::string::*;

use vstd::utf8::{decode_utf8, encode_utf8, is_char_boundary};

use crate::optimization::{percentile_in_range, percentile_of, percentile_u64};
use crate::scan::{has_prefix, line_pieces, split_lines, starts_with, trim, trim_str};
use crate::text::{decimal_text, parse_unsigned, parsed_unsigned, push_decimal, str_equal};

verus! {

/// The external runtime a real model run goes through.
#[derive(Clone, Copy, Debug, PartialEq, Eq, Structural)]
pub enum RealModelBackend {
    TensorRtEngine,
    TensorRtOnnx,
    SmolVlmCuda,
}

/// The backend a command-line word names, aliases included, if any.
pub open spec fn backend_named(text: Seq<char>) -> Option<RealModelBackend> {
    if text == "tensorrt-engine"@ || text == "trt-engine"@ || text == "engine"@ {
        Some(RealModelBackend::TensorRtEngine)
    } else if text == "tensorrt-onnx"@ || text == "trt-onnx"@ || text == "onnx"@ {
        Some(RealModelBackend::TensorRtOnnx)
    } else if text == "smolvlm-cuda"@ || text == "smolvlm"@ {
        Some(RealModelBackend::SmolVlmCuda)
    } else {
        None
    }
}

/// The canonical word that names a backend.
pub open spec fn backend_name(backend: RealModelBackend) -> Seq<char> {
    match backend {
        RealModelBackend::TensorRtEngine => "tensorrt-engine"@,
        RealModelBackend::TensorRtOnnx => "tensorrt-onnx"@,
        RealModelBackend::SmolVlmCuda => "smolvlm-cuda"@,
    }
}

impl RealModelBackend {
    /// Reads a backend from its name or one of its aliases.
    pub fn parse(value: &str) -> (backend: Option<Self>)
        ensures
            backend == backend_named(value@),
    {
        if str_equal(value, "tensorrt-engine") || str_equal(value, "trt-engine") || str_equal(value, "engine") {
            Some(RealModelBackend::TensorRtEngine)
        } else if str_equal(value, "tensorrt-onnx") || str_equal(value, "trt-onnx") || str_equal(value, "onnx") {
            Some(RealModelBackend::TensorRtOnnx)
        } else if str_equal(value, "smolvlm-cuda") || str_equal(value, "smolvlm") {
            Some(RealModelBackend::SmolVlmCuda)
        } else {
            None
        }
    }

    /// The backend's canonical name.
    pub fn name(self) -> (name: &'static str)
        ensures
            name@ == backend_name(self),
    {
        match self {
            RealModelBackend::TensorRtEngine => "tensorrt-engine",
            RealModelBackend::TensorRtOnnx => "tensorrt-onnx",
            RealModelBackend::SmolVlmCuda => "smolvlm-cuda",
        }
    }
}

/// Reading a backend's canonical name gives the backend back.
pub proof fn lemma_backend_name_round_trip(backend: RealModelBackend)
    ensures
        backend_named(backend_name(backend)) == Some(backend),
{
    reveal_strlit("tensorrt-engine");
    reveal_strlit("trt-engine");
    reveal_strlit("engine");
    reveal_strlit("tensorrt-onnx");
    reveal_strlit("trt-onnx");
    reveal_strlit("onnx");
    reveal_strlit("smolvlm-cuda");
    reveal_strlit("smolvlm");
    assert("tensorrt-onnx"@.len() != "tensorrt-engine"@.len());
    assert("tensorrt-onnx"@[0] != "trt-engine"@[1]);
    assert("smolvlm-cuda"@[0] != "tensorrt-engine"@[0]);
    assert("smolvlm-cuda"@[0] != "trt-engine"@[0]);
    assert("smolvlm-cuda"@[0] != "engine"@[0]);
    assert("smolvlm-cuda"@[0] != "tensorrt-onnx"@[0]);
    assert("smolvlm-cuda"@[0] != "trt-onnx"@[0]);
    assert("smolvlm-cuda"@[0] != "onnx"@[0]);
    assert("tensorrt-onnx"@.len() != "trt-engine"@.len());
    assert("tensorrt-onnx"@.len() != "engine"@.len());
}

/// What a real model run is asked to do.
#[derive(Clone, Debug)]
pub struct RealModelConfig {
    pub backend: RealModelBackend,
    pub model: String,
    pub image_path: Option<String>,
    pub prompt: Option<String>,
    pub max_new_tokens: u32,
    pub extra_args: Vec<String>,
}

/// A program and its arguments, ready to be spawned.
#[derive(Clone, Debug, PartialEq, Eq)]
pub struct CommandLine {
    pub program: String,
    pub args: Vec<String>,
}

/// The program a run starts: the TensorRT tool for the TensorRT backends,
/// `python3` for the VLM probe.
pub open spec fn command_program(config: RealModelConfig, trtexec: Seq<char>) -> Seq<char> {
    match config.backend {
        RealModelBackend::SmolVlmCuda => "python3"@,
        _ => trtexec,
    }
}

/// The arguments a run passes to its program, extra arguments last.
pub open spec fn command_args(config: RealModelConfig) -> Seq<Seq<char>> {
    let extra = config.extra_args@.map_values(|a: String| a@);
    match config.backend {
        RealModelBackend::TensorRtEngine => seq![
            "--loadEngine="@ + config.model@,
            "--iterations=1"@,
            "--duration=0"@,
        ] + extra,
        RealModelBackend::TensorRtOnnx => seq![
            "--onnx="@ + config.model@,
            "--iterations=1"@,
            "--duration=0"@,
        ] + extra,
        RealModelBackend::SmolVlmCuda => seq![
            "scripts/talos_smolvlm_probe.py"@,
            "--model-id"@,
            config.model@,
            "--max-new-tokens"@,
            decimal_text(config.max_new_tokens as nat),
        ] + (match config.image_path {
            Some(path) => seq!["--image-path"@, path@],
            None => Seq::empty(),
        }) + (match config.prompt {
            Some(prompt) => seq!["--prompt"@, prompt@],
            None => Seq::empty(),
        }) + extra,
    }
}

/// A TensorRT run loads its model and runs one iteration with no timed
/// duration, so that the tool performs a single inference: its program is
/// the TensorRT tool, its arguments are the model flag (`--loadEngine=` for
/// an engine, `--onnx=` for an ONNX file) with the model, then exactly
/// `--iterations=1` and `--duration=0`, then the extra arguments unchanged.
/// A VLM probe runs the probe script under `python3` with the model id and
/// the token budget first and the extra arguments last.
pub proof fn lemma_command_runs_one_inference(config: RealModelConfig, trtexec: Seq<char>)
    ensures
        config.backend != RealModelBackend::SmolVlmCuda ==> {
            &&& command_program(config, trtexec) == trtexec
            &&& command_args(config).len() == 3 + config.extra_args@.len()
            &&& command_args(config)[0] == (if config.backend == RealModelBackend::TensorRtEngine {
                "--loadEngine="@
            } else {
                "--onnx="@
            }) + config.model@
            &&& command_args(config)[1] == "--iterations=1"@
            &&& command_args(config)[2] == "--duration=0"@
            &&& forall|k: int|
                0 <= k < config.extra_args@.len() ==> #[trigger] command_args(config)[3 + k]
                    == config.extra_args@[k]@
        },
        config.backend == RealModelBackend::SmolVlmCuda ==> {
            &&& command_program(config, trtexec) == "python3"@
            &&& command_args(config)[0] == "scripts/talos_smolvlm_probe.py"@
            &&& command_args(config)[1] == "--model-id"@
            &&& command_args(config)[2] == config.model@
            &&& command_args(config)[3] == "--max-new-tokens"@
            &&& command_args(config)[4] == decimal_text(config.max_new_tokens as nat)
            &&& command_args(config).len() >= 5 + config.extra_args@.len()
            &&& forall|k: int|
                0 <= k < config.extra_args@.len() ==> #[trigger] command_args(config)[command_args(config).len()
                    - config.extra_args@.len() + k] == config.extra_args@[k]@
        },
{
    let extra = config.extra_args@.map_values(|a: String| a@);
    assert forall|k: int| 0 <= k < config.extra_args@.len() implies #[trigger] extra[k] == config.extra_args@[k]@ by {}
}

fn push_arg(args: &mut Vec<String>, arg: &str)
    ensures
        final(args)@.map_values(|a: String| a@) == old(args)@.map_values(|a: String| a@).push(arg@),
{
    args.push(String::from_str(arg));
    assert(final(args)@.map_values(|a: String| a@) =~= old(args)@.map_values(|a: String| a@).push(arg@));
}

fn push_extra_args(args: &mut Vec<String>, extra_args: &Vec<String>)
    ensures
        final(args)@.map_values(|a: String| a@) == old(args)@.map_values(|a: String| a@)
            + extra_args@.map_values(|a: String| a@),
{
    let n = extra_args.len();
    let mut i: usize = 0;
    while i < n
        invariant
            n == extra_args@.len(),
            i <= n,
            args@.map_values(|a: String| a@) == old(args)@.map_values(|a: String| a@)
                + extra_args@.take(i as int).map_values(|a: String| a@),
        decreases n - i,
    {
        push_arg(args, extra_args[i].as_str());
        assert(extra_args@.take(i + 1).map_values(|a: String| a@) =~= extra_args@.take(
            i as int,
        ).map_values(|a: String| a@).push(extra_args@[i as int]@));
        i = i + 1;
    }
    assert(extra_args@.take(n as int) =~= extra_args@);
}

/// The command line of a run, with `trtexec` as the TensorRT tool's path.
pub fn command_line(config: &RealModelConfig, trtexec: &str) -> (command: CommandLine)
    ensures
        command.program@ == command_program(*config, trtexec@),
        command.args@.map_values(|a: String| a@) == command_args(*config),
{
    let mut args: Vec<String> = Vec::new();
    let program = match config.backend {
        RealModelBackend::TensorRtEngine => {
            let mut first = String::from_str("--loadEngine=");
            first.append(config.model.as_str());
            args.push(first);
            push_arg(&mut args, "--iterations=1");
            push_arg(&mut args, "--duration=0");
            String::from_str(trtexec)
        },
        RealModelBackend::TensorRtOnnx => {
            let mut first = String::from_str("--onnx=");
            first.append(config.model.as_str());
            args.push(first);
            push_arg(&mut args, "--iterations=1");
            push_arg(&mut args, "--duration=0");
            String::from_str(trtexec)
        },
        RealModelBackend::SmolVlmCuda => {
            push_arg(&mut args, "scripts/talos_smolvlm_probe.py");
            push_arg(&mut args, "--model-id");
            push_arg(&mut args, config.model.as_str());
            push_arg(&mut args, "--max-new-tokens");
            let mut tokens = String::new();
            push_decimal(&mut tokens, config.max_new_tokens as u64);
            push_arg(&mut args, tokens.as_str());
            if let Some(path) = &config.image_path {
                push_arg(&mut args, "--image-path");
                push_arg(&mut args, path.as_str());
            }
            if let Some(prompt) = &config.prompt {
                push_arg(&mut args, "--prompt");
                push_arg(&mut args, prompt.as_str());
            }
            String::from_str("python3")
        },
    };
    let ghost before_extra = args@.map_values(|a: String| a@);
    push_extra_args(&mut args, &config.extra_args);
    let command = CommandLine { program, args };
    proof {
        let extra = config.extra_args@.map_values(|a: String| a@);
        assert(command.args@.map_values(|a: String| a@) == before_extra + extra);
        match config.backend {
            RealModelBackend::TensorRtEngine => {
                assert(before_extra =~= seq!["--loadEngine="@ + config.model@, "--iterations=1"@, "--duration=0"@]);
            },
            RealModelBackend::TensorRtOnnx => {
                assert(before_extra =~= seq!["--onnx="@ + config.model@, "--iterations=1"@, "--duration=0"@]);
            },
            RealModelBackend::SmolVlmCuda => {
                let head = seq![
                    "scripts/talos_smolvlm_probe.py"@,
                    "--model-id"@,
                    config.model@,
                    "--max-new-tokens"@,
                    decimal_text(config.max_new_tokens as nat),
                ];
                let image = match &config.image_path {
                    Some(path) => seq!["--image-path"@, path@],
                    None => Seq::<Seq<char>>::empty(),
                };
                let prompt = match &config.prompt {
                    Some(p) => seq!["--prompt"@, p@],
                    None => Seq::<Seq<char>>::empty(),
                };
                assert(before_extra =~= head + image + prompt);
            },
        }
    }
    command
}

/// The index of the first label that `line` begins with, if any.
pub open spec fn first_prefix_label(line: Seq<char>, labels: Seq<Seq<char>>) -> Option<int>
    decreases labels.len(),
{
    if labels.len() == 0 {
        None
    } else if has_prefix(line, labels[0]) {
        Some(0)
    } else {
        match first_prefix_label(line, labels.drop_first()) {
            Some(k) => Some(k + 1),
            None => None,
        }
    }
}

/// The metric that the first line beginning with one of `labels` reports:
/// the `u32` after the label, or None when that text is no `u32`, or when no
/// line begins with a label.
pub open spec fn metric_in_lines(lines: Seq<Seq<char>>, labels: Seq<Seq<char>>) -> Option<nat>
    decreases lines.len(),
{
    if lines.len() == 0 {
        None
    } else {
        let line = trim(lines[0]);
        match first_prefix_label(line, labels) {
            Some(k) => parsed_unsigned(trim(line.subrange(labels[k].len() as int, line.len() as int)), u32::MAX as nat),
            None => metric_in_lines(lines.drop_first(), labels),
        }
    }
}

/// The texts of a slice of labels.
pub open spec fn label_texts(labels: Seq<&str>) -> Seq<Seq<char>> {
    labels.map_values(|l: &str| l@)
}

proof fn lemma_first_prefix_label_sound(line: Seq<char>, labels: Seq<Seq<char>>)
    ensures
        match first_prefix_label(line, labels) {
            Some(k) => 0 <= k < labels.len() && has_prefix(line, labels[k]),
            None => true,
        },
    decreases labels.len(),
{
    if labels.len() > 0 && !has_prefix(line, labels[0]) {
        lemma_first_prefix_label_sound(line, labels.drop_first());
    }
}

fn first_label_of(line: &str, labels: &[&str]) -> (found: Option<usize>)
    ensures
        match first_prefix_label(line@, label_texts(labels@)) {
            Some(k) => found == Some(k as usize),
            None => found is None,
        },
{
    let n = labels.len();
    proof {
        assert(label_texts(labels@).subrange(0, n as int) =~= label_texts(labels@));
    }
    let mut k: usize = 0;
    while k < n
        invariant
            n == labels@.len(),
            k <= n,
            first_prefix_label(line@, label_texts(labels@)) == match first_prefix_label(
                line@,
                label_texts(labels@).subrange(k as int, n as int),
            ) {
                Some(j) => Some(j + k),
                None => None::<int>,
            },
        decreases n - k,
    {
        let ghost rest = label_texts(labels@).subrange(k as int, n as int);
        assert(rest[0] == labels@[k as int]@);
        if starts_with(line, labels[k]) {
            return Some(k);
        }
        assert(rest.drop_first() =~= label_texts(labels@).subrange(k + 1, n as int));
        k = k + 1;
    }
    proof {
        assert(label_texts(labels@).subrange(k as int, n as int) =~= Seq::<Seq<char>>::empty());
    }
    None
}

/// The `u32` metric that `output` reports after one of `labels`: the value
/// after the label on the first line, trimmed, that begins with a label;
/// None when that value is no `u32` or no line has a label.
pub fn parse_metric_u32(output: &str, labels: &[&str]) -> (metric: Option<u32>)
    ensures
        match metric_in_lines(line_pieces(output@), label_texts(labels@)) {
            Some(v) => metric == Some(v as u32),
            None => metric is None,
        },
{
    let lines = split_lines(output);
    let ghost all = line_pieces(output@);
    let n = lines.len();
    let mut i: usize = 0;
    proof {
        assert(all.subrange(0, all.len() as int) =~= all);
    }
    while i < n
        invariant
            n == lines@.len(),
            i <= n,
            lines@.map_values(|l: String| l@) == all,
            all == line_pieces(output@),
            metric_in_lines(all, label_texts(labels@)) == metric_in_lines(all.subrange(i as int, n as int), label_texts(labels@)),
        decreases n - i,
    {
        let ghost rest = all.subrange(i as int, n as int);
        assert(rest[0] == lines@[i as int]@);
        let line = trim_str(lines[i].as_str());
        proof {
            lemma_first_prefix_label_sound(line@, label_texts(labels@));
        }
        match first_label_of(line, labels) {
            Some(k) => {
                assert(label_texts(labels@)[k as int] == labels@[k as int]@);
                let label_len = labels[k].unicode_len();
                let value = trim_str(line.substring_char(label_len, line.unicode_len()));
                let parsed = parse_unsigned(value, u32::MAX as u64);
                proof {
                    assert(metric_in_lines(rest, label_texts(labels@)) == parsed_unsigned(value@, u32::MAX as nat));
                    crate::text::lemma_parsed_unsigned_bounded(value@, u32::MAX as nat);
                }
                return match parsed {
                    Some(v) => Some(v as u32),
                    None => None,
                };
            },
            None => {},
        }
        assert(rest.drop_first() =~= all.subrange(i + 1, n as int));
        i = i + 1;
    }
    None
}

/// The lines of `output` trimmed, the empty ones left out.
pub open spec fn nonempty_trimmed_lines(output: Seq<char>) -> Seq<Seq<char>> {
    line_pieces(output).map_values(|l: Seq<char>| trim(l)).filter(|l: Seq<char>| l.len() > 0)
}

/// Texts joined by ` | `.
pub open spec fn joined_with_bars(parts: Seq<Seq<char>>) -> Seq<char>
    decreases parts.len(),
{
    if parts.len() == 0 {
        Seq::empty()
    } else if parts.len() == 1 {
        parts[0]
    } else {
        joined_with_bars(parts.drop_last()) + " | "@ + parts.last()
    }
}

/// The first twelve non-empty trimmed lines of `output`, joined by ` | `.
pub open spec fn compact_text(output: Seq<char>) -> Seq<char> {
    let lines = nonempty_trimmed_lines(output);
    joined_with_bars(if lines.len() > 12 { lines.take(12) } else { lines })
}

/// Whether `compact_output` can cut its text at 512 bytes: the text is no
/// longer, or byte 512 starts a character.
pub open spec fn compact_text_cuttable(output: Seq<char>) -> bool {
    encode_utf8(compact_text(output)).len() <= 512 || is_char_boundary(encode_utf8(compact_text(output)), 512)
}

/// The digest of a command's output: its first twelve non-empty trimmed
/// lines joined by ` | `, cut to 512 bytes.
pub open spec fn compact_digest(output: Seq<char>) -> Seq<char> {
    let bytes = encode_utf8(compact_text(output));
    if bytes.len() > 512 {
        decode_utf8(bytes.subrange(0, 512))
    } else {
        compact_text(output)
    }
}

/// `String::truncate`: keeps the first `new_len` bytes; a length at or past
/// the end changes nothing. It panics off a character boundary, which the
/// `requires` leaves out.
#[verifier::external_body]
fn truncate_string(text: &mut String, new_len: usize)
    requires
        new_len < encode_utf8(old(text)@).len() ==> is_char_boundary(encode_utf8(old(text)@), new_len as int),
    ensures
        new_len < encode_utf8(old(text)@).len() ==> final(text)@ == decode_utf8(
            encode_utf8(old(text)@).subrange(0, new_len as int),
        ),
        new_len >= encode_utf8(old(text)@).len() ==> final(text)@ == old(text)@,
{
    text.truncate(new_len);
}

/// The first twelve non-empty trimmed lines of `output`, joined by ` | `.
fn compact_join(output: &str) -> (compact: String)
    ensures
        compact@ == compact_text(output@),
{
    let lines = split_lines(output);
    let ghost trimmed = line_pieces(output@).map_values(|l: Seq<char>| trim(l));
    let ghost kept_lines = nonempty_trimmed_lines(output@);
    let mut compact = String::new();
    let mut kept: usize = 0;
    let n = lines.len();
    let mut i: usize = 0;
    while i < n && kept < 12
        invariant
            n == lines@.len(),
            i <= n,
            lines@.map_values(|l: String| l@) == line_pieces(output@),
            trimmed == line_pieces(output@).map_values(|l: Seq<char>| trim(l)),
            kept_lines == trimmed.filter(|l: Seq<char>| l.len() > 0),
            kept <= 12,
            kept == trimmed.take(i as int).filter(|l: Seq<char>| l.len() > 0).len(),
            compact@ == joined_with_bars(trimmed.take(i as int).filter(|l: Seq<char>| l.len() > 0)),
        decreases n - i,
    {
        let line = trim_str(lines[i].as_str());
        let ghost before = trimmed.take(i as int).filter(|l: Seq<char>| l.len() > 0);
        proof {
            assert(trimmed[i as int] == line@);
            assert(trimmed.take(i + 1).drop_last() =~= trimmed.take(i as int));
            assert(trimmed.take(i + 1).last() == line@);
            reveal_with_fuel(Seq::filter, 1);
        }
        if line.unicode_len() > 0 {
            if kept > 0 {
                compact.append(" | ");
            }
            compact.append(line);
            kept = kept + 1;
            proof {
                let after = trimmed.take(i + 1).filter(|l: Seq<char>| l.len() > 0);
                assert(after == before.push(line@));
                assert(after.drop_last() =~= before);
                if before.len() == 0 {
                    assert(compact@ =~= line@);
                }
            }
        }
        i = i + 1;
    }
    proof {
        trimmed.lemma_filter_len(|l: Seq<char>| l.len() > 0);
        if i == n {
            assert(trimmed.take(n as int) =~= trimmed);
            assert(kept_lines.len() <= 12);
        } else {
            lemma_filter_prefix_take(trimmed, i as int);
            if kept_lines.len() == 12 {
                assert(kept_lines.take(12) =~= kept_lines);
            }
        }
        assert(compact@ == compact_text(output@));
    }
    compact
}

/// The digest of a command's output: its first twelve non-empty trimmed
/// lines joined by ` | `, cut to 512 bytes.
pub fn compact_output(output: &str) -> (digest: String)
    requires
        compact_text_cuttable(output@),
    ensures
        digest@ == compact_digest(output@),
{
    let mut compact = compact_join(output);
    if compact.as_str().as_bytes().len() > 512 {
        truncate_string(&mut compact, 512);
    }
    compact
}

/// The digest of a command's output, or None when it would have to be cut
/// inside a character.
pub fn compact_output_checked(output: &str) -> (digest: Option<String>)
    ensures
        compact_text_cuttable(output@) ==> digest is Some && digest->0@ == compact_digest(output@),
        !compact_text_cuttable(output@) ==> digest is None,
{
    let mut compact = compact_join(output);
    if compact.as_str().as_bytes().len() > 512 {
        if !compact.as_str().is_char_boundary(512) {
            return None;
        }
        truncate_string(&mut compact, 512);
    }
    Some(compact)
}

proof fn lemma_filter_prefix_take(trimmed: Seq<Seq<char>>, i: int)
    requires
        0 <= i <= trimmed.len(),
        trimmed.take(i).filter(|l: Seq<char>| l.len() > 0).len() == 12,
    ensures
        trimmed.filter(|l: Seq<char>| l.len() > 0).take(12) == trimmed.take(i).filter(|l: Seq<char>| l.len() > 0),
        trimmed.filter(|l: Seq<char>| l.len() > 0).len() >= 12,
{
    let f = |l: Seq<char>| l.len() > 0;
    assert(trimmed =~= trimmed.take(i) + trimmed.skip(i));
    Seq::filter_distributes_over_add(trimmed.take(i), trimmed.skip(i), f);
    assert((trimmed.take(i).filter(f) + trimmed.skip(i).filter(f)).take(12) =~= trimmed.take(i).filter(f));
}

/// The peak CUDA memory a probe reports: the number text and whether it is
/// in gigabytes (else megabytes).
#[derive(Clone, Debug, PartialEq, Eq)]
pub struct PeakCudaField {
    pub value: String,
    pub in_gigabytes: bool,
}

/// The peak CUDA memory text of the first line, trimmed, that begins with
/// `peak_cuda_allocated_gb:` or `peak_cuda_allocated_mb:`: what follows, trimmed.
pub open spec fn peak_cuda_in_lines(lines: Seq<Seq<char>>) -> Option<(Seq<char>, bool)>
    decreases lines.len(),
{
    if lines.len() == 0 {
        None
    } else {
        let line = trim(lines[0]);
        if has_prefix(line, "peak_cuda_allocated_gb:"@) {
            Some((trim(line.subrange("peak_cuda_allocated_gb:"@.len() as int, line.len() as int)), true))
        } else if has_prefix(line, "peak_cuda_allocated_mb:"@) {
            Some((trim(line.subrange("peak_cuda_allocated_mb:"@.len() as int, line.len() as int)), false))
        } else {
            peak_cuda_in_lines(lines.drop_first())
        }
    }
}

/// The peak CUDA memory a probe's output reports, as text with its unit.
pub fn peak_cuda_field(output: &str) -> (field: Option<PeakCudaField>)
    ensures
        match peak_cuda_in_lines(line_pieces(output@)) {
            Some((value, gb)) => match field {
                Some(f) => f.value@ == value && f.in_gigabytes == gb,
                None => false,
            },
            None => field is None,
        },
{
    let lines = split_lines(output);
    let ghost all = line_pieces(output@);
    let n = lines.len();
    let mut i: usize = 0;
    proof {
        assert(all.subrange(0, all.len() as int) =~= all);
    }
    while i < n
        invariant
            n == lines@.len(),
            i <= n,
            lines@.map_values(|l: String| l@) == all,
            all == line_pieces(output@),
            peak_cuda_in_lines(all) == peak_cuda_in_lines(all.subrange(i as int, n as int)),
        decreases n - i,
    {
        let ghost rest = all.subrange(i as int, n as int);
        assert(rest[0] == lines@[i as int]@);
        let line = trim_str(lines[i].as_str());
        let line_len = line.unicode_len();
        if starts_with(line, "peak_cuda_allocated_gb:") {
            let label_len = "peak_cuda_allocated_gb:".unicode_len();
            let value = trim_str(line.substring_char(label_len, line_len));
            return Some(PeakCudaField { value: String::from_str(value), in_gigabytes: true });
        }
        if starts_with(line, "peak_cuda_allocated_mb:") {
            let label_len = "peak_cuda_allocated_mb:".unicode_len();
            let value = trim_str(line.substring_char(label_len, line_len));
            return Some(PeakCudaField { value: String::from_str(value), in_gigabytes: false });
        }
        assert(rest.drop_first() =~= all.subrange(i + 1, n as int));
        i = i + 1;
    }
    None
}

/// The latency percentile of a real model run's summary: the value at
/// `(len - 1) * rank / 100` once sorted, or 0 when there are none.
pub fn percentile(values: &[u64], rank: usize) -> (p: u64)
    requires
        percentile_in_range(values@.len(), rank as nat),
    ensures
        p == percentile_of(values@, rank as nat),
{
    percentile_u64(values, rank)
}

} // verus!
