use std::path::PathBuf;

use vstd::prelude::*;
use vstd::string::*;

use crate::telemetry::{source_name, TelemetrySource};
use crate::text::{
    bool_str, bool_text, decimal_text, join_strings, joined, push_char, push_decimal, push_decimal_u128,
};
use crate::types::{DecisionStatus, SchedulerState, TaskType};

verus! {

/// Whether an observation records a decision or an execution.
#[derive(Clone, Debug, PartialEq, Eq, Structural)]
pub enum ObservationStage {
    Decision,
    Execution,
}

#[verifier::external_type_specification]
#[verifier::external_body]
pub struct ExPathBuf(PathBuf);

/// The path that `PathBuf::from` makes of a text.
pub uninterp spec fn path_from_text(text: Seq<char>) -> PathBuf;

/// `PathBuf::from`: the path is a function of the text alone.
#[verifier::external_body]
pub(crate) fn path_from(text: &str) -> (path: PathBuf)
    ensures
        path == path_from_text(text@),
{
    PathBuf::from(text)
}

/// Where decision and execution events go by default, as JSON lines.
pub fn default_jsonl_path() -> (path: PathBuf)
    ensures
        path == path_from_text("logs/talos_tasks.jsonl"@),
{
    path_from("logs/talos_tasks.jsonl")
}

/// Where decision and execution events go by default, as CSV rows.
pub fn default_csv_path() -> (path: PathBuf)
    ensures
        path == path_from_text("logs/talos_tasks.csv"@),
{
    path_from("logs/talos_tasks.csv")
}

pub open spec fn stage_text(stage: ObservationStage) -> Seq<char> {
    match stage {
        ObservationStage::Decision => "decision"@,
        ObservationStage::Execution => "execution"@,
    }
}

pub open spec fn task_type_text(task_type: TaskType) -> Seq<char> {
    match task_type {
        TaskType::CV_FEATURES => "CV_FEATURES"@,
        TaskType::CHANGE_DETECTION => "CHANGE_DETECTION"@,
        TaskType::VLM_QUERY => "VLM_QUERY"@,
    }
}

pub open spec fn decision_text(decision: DecisionStatus) -> Seq<char> {
    match decision {
        DecisionStatus::ADMIT => "ADMIT"@,
        DecisionStatus::DEFER => "DEFER"@,
        DecisionStatus::REJECT => "REJECT"@,
    }
}

pub open spec fn scheduler_state_text(state: SchedulerState) -> Seq<char> {
    match state {
        SchedulerState::NORMAL => "NORMAL"@,
        SchedulerState::HIGH_LOAD => "HIGH_LOAD"@,
        SchedulerState::THROTTLE => "THROTTLE"@,
        SchedulerState::DEGRADED => "DEGRADED"@,
    }
}

/// The stage's name in logs.
pub fn stage_name(stage: &ObservationStage) -> (name: &'static str)
    ensures
        name@ == stage_text(*stage),
{
    match stage {
        ObservationStage::Decision => "decision",
        ObservationStage::Execution => "execution",
    }
}

/// The task type's name in logs.
pub fn task_type_name(task_type: TaskType) -> (name: &'static str)
    ensures
        name@ == task_type_text(task_type),
{
    match task_type {
        TaskType::CV_FEATURES => "CV_FEATURES",
        TaskType::CHANGE_DETECTION => "CHANGE_DETECTION",
        TaskType::VLM_QUERY => "VLM_QUERY",
    }
}

/// The decision's name in logs.
pub fn decision_name(decision: DecisionStatus) -> (name: &'static str)
    ensures
        name@ == decision_text(decision),
{
    match decision {
        DecisionStatus::ADMIT => "ADMIT",
        DecisionStatus::DEFER => "DEFER",
        DecisionStatus::REJECT => "REJECT",
    }
}

/// The scheduler state's name in logs.
pub fn scheduler_state_name(state: SchedulerState) -> (name: &'static str)
    ensures
        name@ == scheduler_state_text(state),
{
    match state {
        SchedulerState::NORMAL => "NORMAL",
        SchedulerState::HIGH_LOAD => "HIGH_LOAD",
        SchedulerState::THROTTLE => "THROTTLE",
        SchedulerState::DEGRADED => "DEGRADED",
    }
}

/// The trace identifier of a task: `task-` and its id.
pub open spec fn trace_id_text(task_id: u64) -> Seq<char> {
    "task-"@ + decimal_text(task_id as nat)
}

/// The trace identifier of a task, `task-<id>`.
pub fn trace_id(task_id: u64) -> (id: String)
    ensures
        id@ == trace_id_text(task_id),
{
    let mut id = String::from_str("task-");
    push_decimal(&mut id, task_id);
    id
}

/// The JSON escape of one character: backslash and double quote get a
/// backslash in front, every other character stands for itself.
pub open spec fn json_escape_char(c: char) -> Seq<char> {
    if c == '\\' {
        seq!['\\', '\\']
    } else if c == '"' {
        seq!['\\', '"']
    } else {
        seq![c]
    }
}

/// `text` with each backslash and double quote escaped.
pub open spec fn json_escaped(text: Seq<char>) -> Seq<char>
    decreases text.len(),
{
    if text.len() == 0 {
        Seq::empty()
    } else {
        json_escaped(text.drop_last()) + json_escape_char(text.last())
    }
}

/// Escapes backslashes and double quotes for a JSON string.
pub fn escape_json(value: &str) -> (escaped: String)
    ensures
        escaped@ == json_escaped(value@),
{
    let mut escaped = String::new();
    let n = value.unicode_len();
    let mut i: usize = 0;
    while i < n
        invariant
            n == value@.len(),
            i <= n,
            escaped@ == json_escaped(value@.take(i as int)),
        decreases n - i,
    {
        let c = value.get_char(i);
        let ghost before = escaped@;
        if c == '\\' {
            push_char(&mut escaped, '\\');
            push_char(&mut escaped, '\\');
        } else if c == '"' {
            push_char(&mut escaped, '\\');
            push_char(&mut escaped, '"');
        } else {
            push_char(&mut escaped, c);
        }
        proof {
            assert(value@.take(i + 1).drop_last() =~= value@.take(i as int));
            assert(value@.take(i + 1).last() == c);
            assert(escaped@ =~= before + json_escape_char(c));
        }
        i = i + 1;
    }
    proof {
        assert(value@.take(n as int) =~= value@);
    }
    escaped
}

/// A JSON value for an optional text: the quoted, escaped text, or `null`.
pub open spec fn optional_json_string_text(value: Option<Seq<char>>) -> Seq<char> {
    match value {
        Some(text) => "\""@ + json_escaped(text) + "\""@,
        None => "null"@,
    }
}

/// A JSON value for an optional text: the quoted, escaped text, or `null`.
pub fn optional_json_string(value: Option<&str>) -> (json: String)
    ensures
        json@ == optional_json_string_text(
            match value {
                Some(v) => Some(v@),
                None => None,
            },
        ),
{
    match value {
        Some(v) => {
            let mut json = String::from_str("\"");
            let escaped = escape_json(v);
            json.append(escaped.as_str());
            json.append("\"");
            json
        },
        None => String::from_str("null"),
    }
}

/// A JSON value for an optional number: its decimal text, or `null`.
pub open spec fn optional_json_number_text(value: Option<nat>) -> Seq<char> {
    match value {
        Some(v) => decimal_text(v),
        None => "null"@,
    }
}

/// A JSON value for an optional `u64`: its decimal text, or `null`.
pub fn optional_json_u64(value: Option<u64>) -> (json: String)
    ensures
        json@ == optional_json_number_text(
            match value {
                Some(v) => Some(v as nat),
                None => None,
            },
        ),
{
    match value {
        Some(v) => {
            let mut json = String::new();
            push_decimal(&mut json, v);
            assert(json@ =~= decimal_text(v as nat));
            json
        },
        None => String::from_str("null"),
    }
}

/// A JSON value for an optional `u32`: its decimal text, or `null`.
pub fn optional_json_u32(value: Option<u32>) -> (json: String)
    ensures
        json@ == optional_json_number_text(
            match value {
                Some(v) => Some(v as nat),
                None => None,
            },
        ),
{
    match value {
        Some(v) => optional_json_u64(Some(v as u64)),
        None => String::from_str("null"),
    }
}

/// A JSON value for an optional flag: `true`, `false`, or `null`.
pub open spec fn optional_json_bool_text(value: Option<bool>) -> Seq<char> {
    match value {
        Some(b) => bool_text(b),
        None => "null"@,
    }
}

/// A JSON value for an optional flag: `true`, `false`, or `null`.
pub fn optional_json_bool(value: Option<bool>) -> (json: String)
    ensures
        json@ == optional_json_bool_text(value),
{
    match value {
        Some(b) => String::from_str(bool_str(b)),
        None => String::from_str("null"),
    }
}

/// One decision or execution event, with its readings already written as
/// text: the telemetry readings with three decimals and the feature and
/// change scores with six.
#[derive(Clone, Debug)]
pub struct ObservationRecord {
    pub stage: ObservationStage,
    pub task_id: u64,
    pub task_type: TaskType,
    pub decision: DecisionStatus,
    pub queue_pressure: u32,
    pub scheduler_state: SchedulerState,
    pub telemetry_source: TelemetrySource,
    pub telemetry_valid: bool,
    pub memory_usage_percent: String,
    pub temperature_c: String,
    pub gpu_utilization: String,
    pub lease_id: Option<String>,
    pub pool_slot_id: usize,
    pub latency_ms: Option<u64>,
    pub execution_time_ms: u64,
    pub runtime_ok: Option<bool>,
    pub feature_dim: Option<u32>,
    pub input_bytes: Option<u64>,
    pub feature_checksum: Option<u64>,
    pub feature_mean: Option<String>,
    pub feature_entropy: Option<String>,
    pub feature_edge_density: Option<String>,
    pub change_baseline_ready: Option<bool>,
    pub change_score: Option<String>,
    pub change_detected: Option<bool>,
    /// The real model backend that ran the task, for a real model run.
    pub real_model_backend: Option<String>,
    pub real_model_name: Option<String>,
    pub real_model_exit_code: Option<i32>,
    /// The peak CUDA memory the backend reported, in megabytes, as text.
    pub real_model_peak_cuda_mb: Option<String>,
}

/// The text of an optional string, if any.
pub open spec fn text_of(value: Option<String>) -> Option<Seq<char>> {
    match value {
        Some(s) => Some(s@),
        None => None,
    }
}

/// The number of an optional `u64` or `u32`, if any.
pub open spec fn number_of_u64(value: Option<u64>) -> Option<nat> {
    match value {
        Some(v) => Some(v as nat),
        None => None,
    }
}

pub open spec fn number_of_u32(value: Option<u32>) -> Option<nat> {
    match value {
        Some(v) => Some(v as nat),
        None => None,
    }
}

/// `text` between double quotes.
pub open spec fn quoted(text: Seq<char>) -> Seq<char> {
    "\""@ + text + "\""@
}

/// An optional text as it stands in JSON: itself, or `null`.
pub open spec fn raw_or_null(value: Option<Seq<char>>) -> Seq<char> {
    match value {
        Some(t) => t,
        None => "null"@,
    }
}

/// The decimal text of a signed integer, with a leading `-` when negative.
pub open spec fn signed_decimal_text(v: int) -> Seq<char> {
    if v < 0 {
        "-"@ + decimal_text((-v) as nat)
    } else {
        decimal_text(v as nat)
    }
}

/// The number of an optional `i32`, if any.
pub open spec fn number_of_i32(value: Option<i32>) -> Option<int> {
    match value {
        Some(v) => Some(v as int),
        None => None,
    }
}

/// A JSON value for an optional signed number: its decimal text, or `null`.
pub open spec fn optional_json_signed_text(value: Option<int>) -> Seq<char> {
    match value {
        Some(v) => signed_decimal_text(v),
        None => "null"@,
    }
}

/// The keys of a JSON observation, in order.
pub open spec fn json_keys() -> Seq<Seq<char>> {
    seq![
        "timestamp_ms"@, "trace_id"@, "stage"@, "task_id"@, "task_type"@, "decision"@,
        "queue_pressure"@, "scheduler_state"@, "telemetry_source"@, "telemetry_valid"@,
        "memory_usage_percent"@, "temperature_c"@, "gpu_utilization"@, "lease_id"@,
        "pool_slot_id"@, "latency_ms"@, "execution_time_ms"@, "runtime_ok"@, "feature_dim"@,
        "input_bytes"@, "feature_checksum"@, "feature_mean"@, "feature_entropy"@,
        "feature_edge_density"@, "change_baseline_ready"@, "change_score"@, "change_detected"@,
        "real_model_backend"@, "real_model_name"@, "real_model_exit_code"@, "real_model_peak_cuda_mb"@,
    ]
}

/// The JSON values of an observation, in the order of the keys.
pub open spec fn json_values(r: ObservationRecord, timestamp_ms: u128) -> Seq<Seq<char>> {
    seq![
        decimal_text(timestamp_ms as nat),
        quoted(trace_id_text(r.task_id)),
        quoted(stage_text(r.stage)),
        decimal_text(r.task_id as nat),
        quoted(task_type_text(r.task_type)),
        quoted(decision_text(r.decision)),
        decimal_text(r.queue_pressure as nat),
        quoted(scheduler_state_text(r.scheduler_state)),
        quoted(source_name(r.telemetry_source)),
        bool_text(r.telemetry_valid),
        r.memory_usage_percent@,
        r.temperature_c@,
        r.gpu_utilization@,
        optional_json_string_text(text_of(r.lease_id)),
        decimal_text(r.pool_slot_id as nat),
        optional_json_number_text(number_of_u64(r.latency_ms)),
        decimal_text(r.execution_time_ms as nat),
        optional_json_bool_text(r.runtime_ok),
        optional_json_number_text(number_of_u32(r.feature_dim)),
        optional_json_number_text(number_of_u64(r.input_bytes)),
        optional_json_number_text(number_of_u64(r.feature_checksum)),
        raw_or_null(text_of(r.feature_mean)),
        raw_or_null(text_of(r.feature_entropy)),
        raw_or_null(text_of(r.feature_edge_density)),
        optional_json_bool_text(r.change_baseline_ready),
        raw_or_null(text_of(r.change_score)),
        optional_json_bool_text(r.change_detected),
        optional_json_string_text(text_of(r.real_model_backend)),
        optional_json_string_text(text_of(r.real_model_name)),
        optional_json_signed_text(number_of_i32(r.real_model_exit_code)),
        raw_or_null(text_of(r.real_model_peak_cuda_mb)),
    ]
}

/// The JSON line of an observation: every key, quoted, with its value, in
/// one object.
pub open spec fn json_line(r: ObservationRecord, timestamp_ms: u128) -> Seq<char> {
    let values = json_values(r, timestamp_ms);
    "{"@ + joined(Seq::new(31, |i: int| quoted(json_keys()[i]) + ":"@ + values[i]), ","@) + "}"@
}

/// An optional text as it stands in CSV: itself, or nothing.
pub open spec fn text_or_empty(value: Option<Seq<char>>) -> Seq<char> {
    match value {
        Some(t) => t,
        None => Seq::empty(),
    }
}

pub open spec fn number_or_empty(value: Option<nat>) -> Seq<char> {
    match value {
        Some(v) => decimal_text(v),
        None => Seq::empty(),
    }
}

pub open spec fn bool_or_empty(value: Option<bool>) -> Seq<char> {
    match value {
        Some(b) => bool_text(b),
        None => Seq::empty(),
    }
}

pub open spec fn signed_or_empty(value: Option<int>) -> Seq<char> {
    match value {
        Some(v) => signed_decimal_text(v),
        None => Seq::empty(),
    }
}

/// The CSV fields of an observation, in the order of the header.
pub open spec fn csv_values(r: ObservationRecord, timestamp_ms: u128) -> Seq<Seq<char>> {
    seq![
        decimal_text(timestamp_ms as nat),
        trace_id_text(r.task_id),
        stage_text(r.stage),
        decimal_text(r.task_id as nat),
        task_type_text(r.task_type),
        decision_text(r.decision),
        decimal_text(r.queue_pressure as nat),
        scheduler_state_text(r.scheduler_state),
        source_name(r.telemetry_source),
        bool_text(r.telemetry_valid),
        r.memory_usage_percent@,
        r.temperature_c@,
        r.gpu_utilization@,
        text_or_empty(text_of(r.lease_id)),
        decimal_text(r.pool_slot_id as nat),
        number_or_empty(number_of_u64(r.latency_ms)),
        decimal_text(r.execution_time_ms as nat),
        bool_or_empty(r.runtime_ok),
        number_or_empty(number_of_u32(r.feature_dim)),
        number_or_empty(number_of_u64(r.input_bytes)),
        number_or_empty(number_of_u64(r.feature_checksum)),
        text_or_empty(text_of(r.feature_mean)),
        text_or_empty(text_of(r.feature_entropy)),
        text_or_empty(text_of(r.feature_edge_density)),
        bool_or_empty(r.change_baseline_ready),
        text_or_empty(text_of(r.change_score)),
        bool_or_empty(r.change_detected),
        text_or_empty(text_of(r.real_model_backend)),
        text_or_empty(text_of(r.real_model_name)),
        signed_or_empty(number_of_i32(r.real_model_exit_code)),
        text_or_empty(text_of(r.real_model_peak_cuda_mb)),
    ]
}

/// The CSV row of an observation: its fields joined by commas.
pub open spec fn csv_line(r: ObservationRecord, timestamp_ms: u128) -> Seq<char> {
    joined(csv_values(r, timestamp_ms), ","@)
}

/// One field of an observation: its key, its JSON value and its CSV text.
pub struct ObservationColumn {
    pub key: Seq<char>,
    pub json: Seq<char>,
    pub csv: Seq<char>,
}

/// The fields of an observation named one by one: each key beside the JSON
/// value and the CSV text of the record field it names.
pub open spec fn observation_columns(r: ObservationRecord, timestamp_ms: u128) -> Seq<ObservationColumn> {
    seq![
        ObservationColumn { key: "timestamp_ms"@, json: decimal_text(timestamp_ms as nat), csv: decimal_text(timestamp_ms as nat) },
        ObservationColumn { key: "trace_id"@, json: quoted(trace_id_text(r.task_id)), csv: trace_id_text(r.task_id) },
        ObservationColumn { key: "stage"@, json: quoted(stage_text(r.stage)), csv: stage_text(r.stage) },
        ObservationColumn { key: "task_id"@, json: decimal_text(r.task_id as nat), csv: decimal_text(r.task_id as nat) },
        ObservationColumn { key: "task_type"@, json: quoted(task_type_text(r.task_type)), csv: task_type_text(r.task_type) },
        ObservationColumn { key: "decision"@, json: quoted(decision_text(r.decision)), csv: decision_text(r.decision) },
        ObservationColumn { key: "queue_pressure"@, json: decimal_text(r.queue_pressure as nat), csv: decimal_text(r.queue_pressure as nat) },
        ObservationColumn { key: "scheduler_state"@, json: quoted(scheduler_state_text(r.scheduler_state)), csv: scheduler_state_text(r.scheduler_state) },
        ObservationColumn { key: "telemetry_source"@, json: quoted(source_name(r.telemetry_source)), csv: source_name(r.telemetry_source) },
        ObservationColumn { key: "telemetry_valid"@, json: bool_text(r.telemetry_valid), csv: bool_text(r.telemetry_valid) },
        ObservationColumn { key: "memory_usage_percent"@, json: r.memory_usage_percent@, csv: r.memory_usage_percent@ },
        ObservationColumn { key: "temperature_c"@, json: r.temperature_c@, csv: r.temperature_c@ },
        ObservationColumn { key: "gpu_utilization"@, json: r.gpu_utilization@, csv: r.gpu_utilization@ },
        ObservationColumn { key: "lease_id"@, json: optional_json_string_text(text_of(r.lease_id)), csv: text_or_empty(text_of(r.lease_id)) },
        ObservationColumn { key: "pool_slot_id"@, json: decimal_text(r.pool_slot_id as nat), csv: decimal_text(r.pool_slot_id as nat) },
        ObservationColumn { key: "latency_ms"@, json: optional_json_number_text(number_of_u64(r.latency_ms)), csv: number_or_empty(number_of_u64(r.latency_ms)) },
        ObservationColumn { key: "execution_time_ms"@, json: decimal_text(r.execution_time_ms as nat), csv: decimal_text(r.execution_time_ms as nat) },
        ObservationColumn { key: "runtime_ok"@, json: optional_json_bool_text(r.runtime_ok), csv: bool_or_empty(r.runtime_ok) },
        ObservationColumn { key: "feature_dim"@, json: optional_json_number_text(number_of_u32(r.feature_dim)), csv: number_or_empty(number_of_u32(r.feature_dim)) },
        ObservationColumn { key: "input_bytes"@, json: optional_json_number_text(number_of_u64(r.input_bytes)), csv: number_or_empty(number_of_u64(r.input_bytes)) },
        ObservationColumn { key: "feature_checksum"@, json: optional_json_number_text(number_of_u64(r.feature_checksum)), csv: number_or_empty(number_of_u64(r.feature_checksum)) },
        ObservationColumn { key: "feature_mean"@, json: raw_or_null(text_of(r.feature_mean)), csv: text_or_empty(text_of(r.feature_mean)) },
        ObservationColumn { key: "feature_entropy"@, json: raw_or_null(text_of(r.feature_entropy)), csv: text_or_empty(text_of(r.feature_entropy)) },
        ObservationColumn { key: "feature_edge_density"@, json: raw_or_null(text_of(r.feature_edge_density)), csv: text_or_empty(text_of(r.feature_edge_density)) },
        ObservationColumn { key: "change_baseline_ready"@, json: optional_json_bool_text(r.change_baseline_ready), csv: bool_or_empty(r.change_baseline_ready) },
        ObservationColumn { key: "change_score"@, json: raw_or_null(text_of(r.change_score)), csv: text_or_empty(text_of(r.change_score)) },
        ObservationColumn { key: "change_detected"@, json: optional_json_bool_text(r.change_detected), csv: bool_or_empty(r.change_detected) },
        ObservationColumn { key: "real_model_backend"@, json: optional_json_string_text(text_of(r.real_model_backend)), csv: text_or_empty(text_of(r.real_model_backend)) },
        ObservationColumn { key: "real_model_name"@, json: optional_json_string_text(text_of(r.real_model_name)), csv: text_or_empty(text_of(r.real_model_name)) },
        ObservationColumn { key: "real_model_exit_code"@, json: optional_json_signed_text(number_of_i32(r.real_model_exit_code)), csv: signed_or_empty(number_of_i32(r.real_model_exit_code)) },
        ObservationColumn { key: "real_model_peak_cuda_mb"@, json: raw_or_null(text_of(r.real_model_peak_cuda_mb)), csv: text_or_empty(text_of(r.real_model_peak_cuda_mb)) },
    ]
}

/// Every JSON entry and every CSV column sits under its own key: the k-th
/// key, the k-th JSON value and the k-th CSV field all describe the record
/// field that the key names, so the CSV header, the JSON keys and the values
/// line up field by field.
pub proof fn lemma_columns_follow_their_keys(r: ObservationRecord, timestamp_ms: u128)
    ensures
        json_keys().len() == 31,
        json_values(r, timestamp_ms).len() == 31,
        csv_values(r, timestamp_ms).len() == 31,
        forall|k: int|
            0 <= k < 31 ==> {
                &&& #[trigger] json_keys()[k] == observation_columns(r, timestamp_ms)[k].key
                &&& json_values(r, timestamp_ms)[k] == observation_columns(r, timestamp_ms)[k].json
                &&& csv_values(r, timestamp_ms)[k] == observation_columns(r, timestamp_ms)[k].csv
            },
{
    assert(observation_columns(r, timestamp_ms)[0].key == json_keys()[0]);
    assert(observation_columns(r, timestamp_ms)[1].key == json_keys()[1]);
    assert(observation_columns(r, timestamp_ms)[2].key == json_keys()[2]);
    assert(observation_columns(r, timestamp_ms)[3].key == json_keys()[3]);
    assert(observation_columns(r, timestamp_ms)[4].key == json_keys()[4]);
    assert(observation_columns(r, timestamp_ms)[5].key == json_keys()[5]);
    assert(observation_columns(r, timestamp_ms)[6].key == json_keys()[6]);
    assert(observation_columns(r, timestamp_ms)[7].key == json_keys()[7]);
    assert(observation_columns(r, timestamp_ms)[8].key == json_keys()[8]);
    assert(observation_columns(r, timestamp_ms)[9].key == json_keys()[9]);
    assert(observation_columns(r, timestamp_ms)[10].key == json_keys()[10]);
    assert(observation_columns(r, timestamp_ms)[11].key == json_keys()[11]);
    assert(observation_columns(r, timestamp_ms)[12].key == json_keys()[12]);
    assert(observation_columns(r, timestamp_ms)[13].key == json_keys()[13]);
    assert(observation_columns(r, timestamp_ms)[14].key == json_keys()[14]);
    assert(observation_columns(r, timestamp_ms)[15].key == json_keys()[15]);
    assert(observation_columns(r, timestamp_ms)[16].key == json_keys()[16]);
    assert(observation_columns(r, timestamp_ms)[17].key == json_keys()[17]);
    assert(observation_columns(r, timestamp_ms)[18].key == json_keys()[18]);
    assert(observation_columns(r, timestamp_ms)[19].key == json_keys()[19]);
    assert(observation_columns(r, timestamp_ms)[20].key == json_keys()[20]);
    assert(observation_columns(r, timestamp_ms)[21].key == json_keys()[21]);
    assert(observation_columns(r, timestamp_ms)[22].key == json_keys()[22]);
    assert(observation_columns(r, timestamp_ms)[23].key == json_keys()[23]);
    assert(observation_columns(r, timestamp_ms)[24].key == json_keys()[24]);
    assert(observation_columns(r, timestamp_ms)[25].key == json_keys()[25]);
    assert(observation_columns(r, timestamp_ms)[26].key == json_keys()[26]);
    assert(observation_columns(r, timestamp_ms)[27].key == json_keys()[27]);
    assert(observation_columns(r, timestamp_ms)[28].key == json_keys()[28]);
    assert(observation_columns(r, timestamp_ms)[29].key == json_keys()[29]);
    assert(observation_columns(r, timestamp_ms)[30].key == json_keys()[30]);
}

fn decimal(v: u64) -> (text: String)
    ensures
        text@ == decimal_text(v as nat),
{
    crate::text::decimal_string(v)
}

fn quoted_string(text: &str) -> (q: String)
    ensures
        q@ == quoted(text@),
{
    let mut q = String::from_str("\"");
    q.append(text);
    q.append("\"");
    q
}

fn owned(text: &str) -> (s: String)
    ensures
        s@ == text@,
{
    String::from_str(text)
}

fn optional_text(value: &Option<String>, none: &str) -> (text: String)
    ensures
        text@ == match value {
            Some(s) => s@,
            None => none@,
        },
{
    match value {
        Some(s) => s.clone(),
        None => String::from_str(none),
    }
}

fn optional_u64(value: Option<u64>, none: &str) -> (text: String)
    ensures
        text@ == match value {
            Some(v) => decimal_text(v as nat),
            None => none@,
        },
{
    match value {
        Some(v) => decimal(v),
        None => String::from_str(none),
    }
}

fn optional_bool(value: Option<bool>, none: &str) -> (text: String)
    ensures
        text@ == match value {
            Some(b) => bool_text(b),
            None => none@,
        },
{
    match value {
        Some(b) => String::from_str(bool_str(b)),
        None => String::from_str(none),
    }
}

fn optional_signed(value: Option<i32>, none: &str) -> (text: String)
    ensures
        text@ == match value {
            Some(v) => signed_decimal_text(v as int),
            None => none@,
        },
{
    match value {
        Some(v) => {
            let mut text = String::new();
            if v < 0 {
                text.append("-");
                let magnitude: u64 = (-(v as i64)) as u64;
                push_decimal(&mut text, magnitude);
                proof {
                    reveal_strlit("-");
                }
            } else {
                push_decimal(&mut text, v as u64);
            }
            assert(text@ =~= signed_decimal_text(v as int));
            text
        },
        None => String::from_str(none),
    }
}

fn lease_json(value: &Option<String>) -> (text: String)
    ensures
        text@ == optional_json_string_text(text_of(*value)),
{
    match value {
        Some(s) => optional_json_string(Some(s.as_str())),
        None => optional_json_string(None),
    }
}

impl ObservationRecord {
    /// The trace identifier of the observed task.
    pub fn trace_id(&self) -> (id: String)
        ensures
            id@ == trace_id_text(self.task_id),
    {
        trace_id(self.task_id)
    }

    /// The observation as one JSON line, stamped `timestamp_ms`.
    pub fn to_json_line(&self, timestamp_ms: u128) -> (line: String)
        ensures
            line@ == json_line(*self, timestamp_ms),
    {
        let mut values: Vec<String> = Vec::new();
        let mut ts = String::new();
        push_decimal_u128(&mut ts, timestamp_ms);
        assert(ts@ =~= decimal_text(timestamp_ms as nat));
        values.push(ts);
        values.push(quoted_string(self.trace_id().as_str()));
        values.push(quoted_string(stage_name(&self.stage)));
        values.push(decimal(self.task_id));
        values.push(quoted_string(task_type_name(self.task_type)));
        values.push(quoted_string(decision_name(self.decision)));
        values.push(decimal(self.queue_pressure as u64));
        values.push(quoted_string(scheduler_state_name(self.scheduler_state)));
        values.push(quoted_string(self.telemetry_source.name()));
        values.push(owned(bool_str(self.telemetry_valid)));
        values.push(self.memory_usage_percent.clone());
        values.push(self.temperature_c.clone());
        values.push(self.gpu_utilization.clone());
        values.push(lease_json(&self.lease_id));
        values.push(decimal(self.pool_slot_id as u64));
        values.push(optional_json_u64(self.latency_ms));
        values.push(decimal(self.execution_time_ms));
        values.push(optional_json_bool(self.runtime_ok));
        values.push(optional_json_u32(self.feature_dim));
        values.push(optional_json_u64(self.input_bytes));
        values.push(optional_json_u64(self.feature_checksum));
        values.push(optional_text(&self.feature_mean, "null"));
        values.push(optional_text(&self.feature_entropy, "null"));
        values.push(optional_text(&self.feature_edge_density, "null"));
        values.push(optional_json_bool(self.change_baseline_ready));
        values.push(optional_text(&self.change_score, "null"));
        values.push(optional_json_bool(self.change_detected));
        values.push(lease_json(&self.real_model_backend));
        values.push(lease_json(&self.real_model_name));
        values.push(optional_signed(self.real_model_exit_code, "null"));
        values.push(optional_text(&self.real_model_peak_cuda_mb, "null"));
        proof {
            reveal_strlit("null");
            assert(values@.map_values(|v: String| v@) =~= json_values(*self, timestamp_ms));
        }
        let keys = json_key_names();
        let mut entries: Vec<String> = Vec::new();
        let mut i: usize = 0;
        while i < 31
            invariant
                values@.map_values(|v: String| v@) == json_values(*self, timestamp_ms),
                keys@.len() == 31,
                forall|k: int| 0 <= k < 31 ==> #[trigger] keys@[k]@ == json_keys()[k],
                values@.len() == 31,
                i <= 31,
                entries@.map_values(|e: String| e@) == Seq::new(
                    i as nat,
                    |k: int| quoted(json_keys()[k]) + ":"@ + json_values(*self, timestamp_ms)[k],
                ),
            decreases 31 - i,
        {
            let key = keys[i];
            assert(key@ == json_keys()[i as int]);
            let mut entry = quoted_string(key);
            entry.append(":");
            entry.append(values[i].as_str());
            let ghost before = entries@.map_values(|e: String| e@);
            proof {
                assert(values@.map_values(|v: String| v@)[i as int] == values@[i as int]@);
                assert(values@[i as int]@ == json_values(*self, timestamp_ms)[i as int]);
                assert(entry@ =~= quoted(json_keys()[i as int]) + ":"@ + json_values(*self, timestamp_ms)[i as int]);
            }
            entries.push(entry);
            proof {
                assert(entries@.map_values(|e: String| e@) =~= before.push(entry@));
                assert(entries@.map_values(|e: String| e@) =~= Seq::new(
                    (i + 1) as nat,
                    |k: int| quoted(json_keys()[k]) + ":"@ + json_values(*self, timestamp_ms)[k],
                ));
            }
            i = i + 1;
        }
        let mut line = String::from_str("{");
        let body = join_strings(&entries, ",");
        line.append(body.as_str());
        line.append("}");
        line
    }

    /// The observation as one CSV row, stamped `timestamp_ms`.
    pub fn to_csv_line(&self, timestamp_ms: u128) -> (line: String)
        ensures
            line@ == csv_line(*self, timestamp_ms),
    {
        let mut values: Vec<String> = Vec::new();
        let mut ts = String::new();
        push_decimal_u128(&mut ts, timestamp_ms);
        assert(ts@ =~= decimal_text(timestamp_ms as nat));
        values.push(ts);
        values.push(self.trace_id());
        values.push(owned(stage_name(&self.stage)));
        values.push(decimal(self.task_id));
        values.push(owned(task_type_name(self.task_type)));
        values.push(owned(decision_name(self.decision)));
        values.push(decimal(self.queue_pressure as u64));
        values.push(owned(scheduler_state_name(self.scheduler_state)));
        values.push(owned(self.telemetry_source.name()));
        values.push(owned(bool_str(self.telemetry_valid)));
        values.push(self.memory_usage_percent.clone());
        values.push(self.temperature_c.clone());
        values.push(self.gpu_utilization.clone());
        values.push(optional_text(&self.lease_id, ""));
        values.push(decimal(self.pool_slot_id as u64));
        values.push(optional_u64(self.latency_ms, ""));
        values.push(decimal(self.execution_time_ms));
        values.push(optional_bool(self.runtime_ok, ""));
        values.push(optional_u64(
            match self.feature_dim {
                Some(d) => Some(d as u64),
                None => None,
            },
            "",
        ));
        values.push(optional_u64(self.input_bytes, ""));
        values.push(optional_u64(self.feature_checksum, ""));
        values.push(optional_text(&self.feature_mean, ""));
        values.push(optional_text(&self.feature_entropy, ""));
        values.push(optional_text(&self.feature_edge_density, ""));
        values.push(optional_bool(self.change_baseline_ready, ""));
        values.push(optional_text(&self.change_score, ""));
        values.push(optional_bool(self.change_detected, ""));
        values.push(optional_text(&self.real_model_backend, ""));
        values.push(optional_text(&self.real_model_name, ""));
        values.push(optional_signed(self.real_model_exit_code, ""));
        values.push(optional_text(&self.real_model_peak_cuda_mb, ""));
        proof {
            reveal_strlit("");
            let vs = values@.map_values(|v: String| v@);
            let cs = csv_values(*self, timestamp_ms);
            assert(vs[0] == cs[0]);
            assert(vs[1] == cs[1]);
            assert(vs[2] == cs[2]);
            assert(vs[3] == cs[3]);
            assert(vs[4] == cs[4]);
            assert(vs[5] == cs[5]);
            assert(vs[6] == cs[6]);
            assert(vs[7] == cs[7]);
            assert(vs[8] == cs[8]);
            assert(vs[9] == cs[9]);
            assert(vs[10] == cs[10]);
            assert(vs[11] == cs[11]);
            assert(vs[12] == cs[12]);
            assert(vs[13] == cs[13]);
            assert(vs[14] == cs[14]);
            assert(vs[15] == cs[15]);
            assert(vs[16] == cs[16]);
            assert(vs[17] == cs[17]);
            assert(vs[18] == cs[18]);
            assert(vs[19] == cs[19]);
            assert(vs[20] == cs[20]);
            assert(vs[21] == cs[21]);
            assert(vs[22] == cs[22]);
            assert(vs[23] == cs[23]);
            assert(vs[24] == cs[24]);
            assert(vs[25] == cs[25]);
            assert(vs[26] == cs[26]);
            assert(vs[27] == cs[27]);
            assert(vs[28] == cs[28]);
            assert(vs[29] == cs[29]);
            assert(vs[30] == cs[30]);
            assert(vs.len() == cs.len());
            assert(vs =~= cs);
        }
        join_strings(&values, ",")
    }
}

fn json_key_names() -> (keys: Vec<&'static str>)
    ensures
        keys@.len() == 31,
        forall|k: int| 0 <= k < 31 ==> #[trigger] keys@[k]@ == json_keys()[k],
{
    let keys = vec![
        "timestamp_ms", "trace_id", "stage", "task_id", "task_type", "decision",
        "queue_pressure", "scheduler_state", "telemetry_source", "telemetry_valid",
        "memory_usage_percent", "temperature_c", "gpu_utilization", "lease_id",
        "pool_slot_id", "latency_ms", "execution_time_ms", "runtime_ok", "feature_dim",
        "input_bytes", "feature_checksum", "feature_mean", "feature_entropy",
        "feature_edge_density", "change_baseline_ready", "change_score", "change_detected",
        "real_model_backend", "real_model_name", "real_model_exit_code", "real_model_peak_cuda_mb",
    ];
    keys
}

/// The header row of the CSV log: the JSON keys joined by commas.
pub fn csv_header() -> (header: String)
    ensures
        header@ == joined(json_keys(), ","@),
{
    let keys = json_key_names();
    let mut parts: Vec<String> = Vec::new();
    let mut i: usize = 0;
    while i < 31
        invariant
            keys@.len() == 31,
            forall|k: int| 0 <= k < 31 ==> #[trigger] keys@[k]@ == json_keys()[k],
            i <= 31,
            parts@.map_values(|p: String| p@) == json_keys().take(i as int),
        decreases 31 - i,
    {
        let key = keys[i];
        assert(key@ == json_keys()[i as int]);
        let ghost before = parts@.map_values(|p: String| p@);
        parts.push(String::from_str(key));
        assert(parts@.map_values(|p: String| p@) =~= before.push(key@));
        assert(json_keys().take(i + 1) =~= json_keys().take(i as int).push(json_keys()[i as int]));
        assert(parts@.map_values(|p: String| p@) =~= json_keys().take(i + 1));
        i = i + 1;
    }
    assert(json_keys().take(31) =~= json_keys());
    join_strings(&parts, ",")
}

} // verus!
