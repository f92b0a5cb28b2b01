use vstd::prelude::*;

use crate::frames::{filled, filled_frame};
use crate::text::{parse_unsigned, parsed_unsigned, str_equal};
use crate::types::{TaskPriority, TaskRequest, TaskType};

verus! {

/// The hardware-in-the-loop workload a run drives.
#[derive(Clone, Copy, Debug, PartialEq, Eq, Structural)]
pub enum HitlWorkload {
    Baseline,
    Heavy,
    Thermal,
}

/// How many CPU burner threads a thermal run starts.
#[derive(Clone, Copy, Debug, PartialEq, Eq, Structural)]
pub enum CpuBurnThreads {
    Disabled,
    Auto,
    Count(usize),
}

/// The workload a word names, if any.
pub open spec fn hitl_workload_named(text: Seq<char>) -> Option<HitlWorkload> {
    if text == "baseline"@ {
        Some(HitlWorkload::Baseline)
    } else if text == "heavy"@ {
        Some(HitlWorkload::Heavy)
    } else if text == "thermal"@ {
        Some(HitlWorkload::Thermal)
    } else {
        None
    }
}

/// The name of a workload in logs and reports.
pub open spec fn hitl_workload_text(workload: HitlWorkload) -> Seq<char> {
    match workload {
        HitlWorkload::Baseline => "hitl-baseline"@,
        HitlWorkload::Heavy => "hitl-heavy"@,
        HitlWorkload::Thermal => "hitl-thermal"@,
    }
}

impl HitlWorkload {
    /// Reads a workload: `baseline`, `heavy` or `thermal`.
    pub fn parse(value: &str) -> (workload: Option<Self>)
        ensures
            workload == hitl_workload_named(value@),
    {
        if str_equal(value, "baseline") {
            Some(HitlWorkload::Baseline)
        } else if str_equal(value, "heavy") {
            Some(HitlWorkload::Heavy)
        } else if str_equal(value, "thermal") {
            Some(HitlWorkload::Thermal)
        } else {
            None
        }
    }

    /// The workload's name in logs and reports.
    pub fn name(self) -> (name: &'static str)
        ensures
            name@ == hitl_workload_text(self),
    {
        match self {
            HitlWorkload::Baseline => "hitl-baseline",
            HitlWorkload::Heavy => "hitl-heavy",
            HitlWorkload::Thermal => "hitl-thermal",
        }
    }

    /// The default frame size: 4 KiB, 16 MiB, or 1 MiB.
    pub fn default_payload_bytes(self) -> (bytes: usize)
        ensures
            bytes == match self {
                HitlWorkload::Baseline => 4096nat,
                HitlWorkload::Heavy => 16777216nat,
                HitlWorkload::Thermal => 1048576nat,
            },
    {
        match self {
            HitlWorkload::Baseline => 4 * 1024,
            HitlWorkload::Heavy => 16 * 1024 * 1024,
            HitlWorkload::Thermal => 1024 * 1024,
        }
    }

    /// The default telemetry sampling period in milliseconds.
    pub fn default_sample_period_ms(self) -> (ms: u64)
        ensures
            ms == match self {
                HitlWorkload::Baseline => 100u64,
                HitlWorkload::Heavy => 20u64,
                HitlWorkload::Thermal => 50u64,
            },
    {
        match self {
            HitlWorkload::Baseline => 100,
            HitlWorkload::Heavy => 20,
            HitlWorkload::Thermal => 50,
        }
    }

    /// The default pause between tasks in milliseconds.
    pub fn default_inter_task_delay_ms(self) -> (ms: u64)
        ensures
            ms == (if self == HitlWorkload::Baseline { 25u64 } else { 0u64 }),
    {
        match self {
            HitlWorkload::Baseline => 25,
            HitlWorkload::Heavy => 0,
            HitlWorkload::Thermal => 0,
        }
    }

    /// The default run length in seconds, if the run is time-limited.
    pub fn default_duration_secs(self) -> (secs: Option<u64>)
        ensures
            secs == match self {
                HitlWorkload::Baseline => None::<u64>,
                HitlWorkload::Heavy => Some(60u64),
                HitlWorkload::Thermal => Some(300u64),
            },
    {
        match self {
            HitlWorkload::Baseline => None,
            HitlWorkload::Heavy => Some(60),
            HitlWorkload::Thermal => Some(300),
        }
    }

    /// How often progress is printed, in completed tasks; 0 never.
    pub fn default_progress_every(self) -> (every: usize)
        ensures
            every == match self {
                HitlWorkload::Baseline => 0nat,
                HitlWorkload::Heavy => 5nat,
                HitlWorkload::Thermal => 1nat,
            },
    {
        match self {
            HitlWorkload::Baseline => 0,
            HitlWorkload::Heavy => 5,
            HitlWorkload::Thermal => 1,
        }
    }

    /// The default number of CPU burner threads: one per core for a thermal
    /// run, none otherwise.
    pub fn default_cpu_burn_threads(self) -> (threads: CpuBurnThreads)
        ensures
            threads == (if self == HitlWorkload::Thermal {
                CpuBurnThreads::Auto
            } else {
                CpuBurnThreads::Disabled
            }),
    {
        match self {
            HitlWorkload::Baseline | HitlWorkload::Heavy => CpuBurnThreads::Disabled,
            HitlWorkload::Thermal => CpuBurnThreads::Auto,
        }
    }

    /// The default memory ballast in mebibytes: none for every workload.
    pub fn default_memory_pressure_mb(self) -> (mb: usize)
        ensures
            mb == 0,
    {
        match self {
            HitlWorkload::Baseline | HitlWorkload::Heavy => 0,
            HitlWorkload::Thermal => 0,
        }
    }
}

/// The burner thread count a word names: `none` or `0`, `auto`, or a count.
pub open spec fn cpu_burn_threads_named(text: Seq<char>) -> Option<CpuBurnThreads> {
    if text == "none"@ || text == "0"@ {
        Some(CpuBurnThreads::Disabled)
    } else if text == "auto"@ {
        Some(CpuBurnThreads::Auto)
    } else {
        match parsed_unsigned(text, usize::MAX as nat) {
            Some(count) => Some(CpuBurnThreads::Count(count as usize)),
            None => None,
        }
    }
}

impl CpuBurnThreads {
    /// Reads a burner thread count: `none` or `0`, `auto`, or a number; None
    /// for anything else.
    pub fn parse(value: &str) -> (threads: Option<Self>)
        ensures
            threads == cpu_burn_threads_named(value@),
    {
        if str_equal(value, "none") || str_equal(value, "0") {
            Some(CpuBurnThreads::Disabled)
        } else if str_equal(value, "auto") {
            Some(CpuBurnThreads::Auto)
        } else {
            match parse_unsigned(value, usize::MAX as u64) {
                Some(count) => Some(CpuBurnThreads::Count(count as usize)),
                None => None,
            }
        }
    }
}

/// Byte `offset` of a patterned frame for task `index`.
pub open spec fn patterned_byte(index: usize, offset: usize) -> u8 {
    ((offset.wrapping_mul(31) + index.wrapping_mul(17)) % 256) as u8
}

/// Whether every byte of a patterned frame of `payload_bytes` bytes can be
/// computed without overflowing `usize`.
pub open spec fn patterned_frame_fits(index: usize, payload_bytes: usize) -> bool {
    forall|offset: usize| offset < payload_bytes ==> #[trigger] offset.wrapping_mul(31) + index.wrapping_mul(17)
        <= usize::MAX
}

/// A frame whose bytes follow a pattern set by the task index.
pub fn patterned_frame(index: usize, payload_bytes: usize) -> (frame: Vec<u8>)
    requires
        patterned_frame_fits(index, payload_bytes),
    ensures
        frame@ == patterned_bytes(index, payload_bytes),
{
    let mut frame: Vec<u8> = Vec::new();
    let mut offset: usize = 0;
    while offset < payload_bytes
        invariant
            offset <= payload_bytes,
            patterned_frame_fits(index, payload_bytes),
            frame@ == Seq::new(offset as nat, |o: int| patterned_byte(index, o as usize)),
        decreases payload_bytes - offset,
    {
        assert(offset.wrapping_mul(31) + index.wrapping_mul(17) <= usize::MAX);
        let byte = ((offset.wrapping_mul(31) + index.wrapping_mul(17)) % 256) as u8;
        frame.push(byte);
        offset = offset + 1;
        assert(frame@ =~= Seq::new(offset as nat, |o: int| patterned_byte(index, o as usize)));
    }
    frame
}

/// The cell that holds the defect in an inspection frame of task `index`.
pub open spec fn defect_cell(index: usize) -> nat {
    (index.wrapping_mul(19).wrapping_add(11) % 64) as nat
}

/// The length of one of the 64 cells of an inspection frame: at least one byte.
pub open spec fn cell_len(payload_bytes: nat) -> nat {
    if payload_bytes / 64 >= 1 {
        payload_bytes / 64
    } else {
        1
    }
}

/// Whether the defect cell of an inspection frame starts within the frame;
/// a defect cell past the end would be an empty, reversed range.
pub open spec fn inspection_frame_fits(index: usize, payload_bytes: usize) -> bool {
    &&& payload_bytes <= isize::MAX
    &&& (payload_bytes == 0 || defect_cell(index) * cell_len(payload_bytes as nat) <= payload_bytes)
}

/// Frames of at least 64 bytes always have room for their defect cell.
pub proof fn lemma_large_inspection_frames_fit(index: usize, payload_bytes: usize)
    requires
        64 <= payload_bytes <= isize::MAX,
    ensures
        inspection_frame_fits(index, payload_bytes),
{
    let d = defect_cell(index);
    let c = cell_len(payload_bytes as nat);
    assert(d < 64);
    assert(c == payload_bytes / 64);
    assert(d * c <= payload_bytes) by (nonlinear_arith)
        requires
            d < 64,
            c == payload_bytes / 64,
            payload_bytes >= 64,
    ;
}

/// Byte `offset` of an inspection frame: the background shade of the task,
/// except in the defect cell, which is bright.
pub open spec fn inspection_byte(index: usize, payload_bytes: usize, offset: int) -> u8 {
    let start = defect_cell(index) * cell_len(payload_bytes as nat);
    let end = start + cell_len(payload_bytes as nat);
    if start <= offset < end {
        (if 232 >= index % 23 { 232 - index % 23 } else { 0 }) as u8
    } else {
        (24 + index % 16) as u8
    }
}

/// An inspection frame: a uniform background with one bright defect cell,
/// both set by the task index.
pub fn inspection_frame(index: usize, payload_bytes: usize) -> (frame: Vec<u8>)
    requires
        inspection_frame_fits(index, payload_bytes),
    ensures
        frame@ == inspection_bytes(index, payload_bytes),
{
    let background: u8 = 24 + (index % 16) as u8;
    let mut frame = filled(background, payload_bytes);
    if payload_bytes == 0 {
        assert(frame@ =~= Seq::new(0, |offset: int| inspection_byte(index, payload_bytes, offset)));
        return frame;
    }
    let cell_count: usize = 64;
    let cell_len: usize = if payload_bytes / cell_count >= 1 { payload_bytes / cell_count } else { 1 };
    let defect_cell: usize = index.wrapping_mul(19).wrapping_add(11) % cell_count;
    assert(defect_cell * cell_len <= payload_bytes);
    assert(cell_len <= payload_bytes);
    let start = defect_cell * cell_len;
    let end = if start + cell_len <= payload_bytes { start + cell_len } else { payload_bytes };
    let bright: u8 = 232u8.saturating_sub((index % 23) as u8);
    let mut k: usize = start;
    while k < end
        invariant
            start <= k <= end <= payload_bytes,
            frame@.len() == payload_bytes,
            start == defect_cell * cell_len,
            end <= start + cell_len,
            forall|o: int| 0 <= o < start ==> frame@[o] == background,
            forall|o: int| start <= o < k ==> frame@[o] == bright,
            forall|o: int| k <= o < payload_bytes ==> frame@[o] == background,
        decreases end - k,
    {
        frame.set(k, bright);
        k = k + 1;
    }
    assert(frame@ =~= Seq::new(payload_bytes as nat, |offset: int| inspection_byte(index, payload_bytes, offset)));
    frame
}

/// The bytes of an inspection frame of `payload_bytes` bytes for task `index`.
pub open spec fn inspection_bytes(index: usize, payload_bytes: usize) -> Seq<u8> {
    Seq::new(payload_bytes as nat, |offset: int| inspection_byte(index, payload_bytes, offset))
}

/// The bytes of a patterned frame of `len` bytes for task `index`.
pub open spec fn patterned_bytes(index: usize, len: usize) -> Seq<u8> {
    Seq::new(len as nat, |offset: int| patterned_byte(index, offset as usize))
}

/// The frame of a change-detection task in a baseline run: a dark baseline
/// for the first three tasks, then an inspection frame every fourth task and
/// a slightly brighter uniform frame otherwise.
pub open spec fn hitl_change_bytes(index: usize) -> Seq<u8> {
    if index < 3 {
        filled_frame(24, 4096)
    } else if index % 4 == 0 {
        inspection_bytes(index, 4096)
    } else {
        filled_frame(36, 4096)
    }
}

/// The frame of a change-detection task in a baseline run.
pub fn hitl_change_frame(index: usize) -> (frame: Vec<u8>)
    ensures
        frame@ == hitl_change_bytes(index),
{
    if index < 3 {
        filled(24, 4096)
    } else if index % 4 == 0 {
        proof {
            lemma_large_inspection_frames_fit(index, 4096);
        }
        inspection_frame(index, 4096)
    } else {
        filled(36, 4096)
    }
}

/// The parts of a task: kind, priority, memory estimate and frame.
pub type TaskParts = (TaskType, TaskPriority, u64, Vec<u8>);

/// What a task is made of: kind, priority, memory estimate and frame bytes.
pub type TaskPartsView = (TaskType, TaskPriority, u64, Seq<u8>);

/// The parts of the `index`-th task of a baseline run: one VLM query in ten,
/// change detections at 3 and 7, HIGH priority CV tasks at 1, 2 and 4, MEDIUM
/// priority CV tasks otherwise.
pub open spec fn baseline_parts(index: usize) -> TaskPartsView {
    let r = index % 10;
    if r == 0 {
        (TaskType::VLM_QUERY, TaskPriority::LOW, 2304u64, filled_frame((64 + index % 32) as u8, 4096))
    } else if r == 3 || r == 7 {
        (TaskType::CHANGE_DETECTION, TaskPriority::MEDIUM, 64u64, hitl_change_bytes(index))
    } else if r == 1 || r == 2 || r == 4 {
        (TaskType::CV_FEATURES, TaskPriority::HIGH, 32u64, inspection_bytes(index, 4096))
    } else {
        (TaskType::CV_FEATURES, TaskPriority::MEDIUM, 32u64, inspection_bytes(index, 4096))
    }
}

/// Builds the parts of the `index`-th task of a baseline run.
pub fn baseline_task_parts(index: usize) -> (parts: TaskParts)
    ensures
        (parts.0, parts.1, parts.2, parts.3@) == baseline_parts(index),
{
    proof {
        lemma_large_inspection_frames_fit(index, 4096);
    }
    let r = index % 10;
    if r == 0 {
        (TaskType::VLM_QUERY, TaskPriority::LOW, 2304, filled(64 + (index % 32) as u8, 4096))
    } else if r == 3 || r == 7 {
        (TaskType::CHANGE_DETECTION, TaskPriority::MEDIUM, 64, hitl_change_frame(index))
    } else if r == 1 || r == 2 || r == 4 {
        (TaskType::CV_FEATURES, TaskPriority::HIGH, 32, inspection_frame(index, 4096))
    } else {
        (TaskType::CV_FEATURES, TaskPriority::MEDIUM, 32, inspection_frame(index, 4096))
    }
}

/// The parts of the `index`-th task of a heavy run: change detections at 0
/// and 4 modulo 8, HIGH priority CV tasks otherwise, all on inspection frames.
pub open spec fn heavy_parts(index: usize, payload_bytes: usize) -> TaskPartsView {
    if index % 8 == 0 || index % 8 == 4 {
        (TaskType::CHANGE_DETECTION, TaskPriority::MEDIUM, 128u64, inspection_bytes(index, payload_bytes))
    } else {
        (TaskType::CV_FEATURES, TaskPriority::HIGH, 128u64, inspection_bytes(index, payload_bytes))
    }
}

/// Builds the parts of the `index`-th task of a heavy run.
pub fn heavy_task_parts(index: usize, payload_bytes: usize) -> (parts: TaskParts)
    requires
        inspection_frame_fits(index, payload_bytes),
    ensures
        (parts.0, parts.1, parts.2, parts.3@) == heavy_parts(index, payload_bytes),
{
    let r = index % 8;
    if r == 0 || r == 4 {
        (TaskType::CHANGE_DETECTION, TaskPriority::MEDIUM, 128, inspection_frame(index, payload_bytes))
    } else {
        (TaskType::CV_FEATURES, TaskPriority::HIGH, 128, inspection_frame(index, payload_bytes))
    }
}

/// The VLM frame size of a thermal run: the payload, capped at 8 MiB.
pub open spec fn thermal_vlm_bytes(payload_bytes: usize) -> usize {
    if payload_bytes <= 8 * 1024 * 1024 {
        payload_bytes
    } else {
        (8 * 1024 * 1024) as usize
    }
}

/// The parts of the `index`-th task of a thermal run: a LOW priority VLM query
/// on a patterned frame every sixth task, a change detection three later, HIGH
/// priority CV tasks otherwise.
pub open spec fn thermal_parts(index: usize, payload_bytes: usize) -> TaskPartsView {
    let r = index % 6;
    if r == 0 {
        (TaskType::VLM_QUERY, TaskPriority::LOW, 2304u64, patterned_bytes(index, thermal_vlm_bytes(payload_bytes)))
    } else if r == 3 {
        (TaskType::CHANGE_DETECTION, TaskPriority::MEDIUM, 128u64, inspection_bytes(index, payload_bytes))
    } else {
        (TaskType::CV_FEATURES, TaskPriority::HIGH, 128u64, inspection_bytes(index, payload_bytes))
    }
}

/// Builds the parts of the `index`-th task of a thermal run.
pub fn thermal_task_parts(index: usize, payload_bytes: usize) -> (parts: TaskParts)
    requires
        index % 6 == 0 ==> patterned_frame_fits(index, thermal_vlm_bytes(payload_bytes)),
        index % 6 != 0 ==> inspection_frame_fits(index, payload_bytes),
    ensures
        (parts.0, parts.1, parts.2, parts.3@) == thermal_parts(index, payload_bytes),
{
    let r = index % 6;
    if r == 0 {
        let vlm_bytes = if payload_bytes <= 8 * 1024 * 1024 { payload_bytes } else { 8 * 1024 * 1024 };
        (TaskType::VLM_QUERY, TaskPriority::LOW, 2304, patterned_frame(index, vlm_bytes))
    } else if r == 3 {
        (TaskType::CHANGE_DETECTION, TaskPriority::MEDIUM, 128, inspection_frame(index, payload_bytes))
    } else {
        (TaskType::CV_FEATURES, TaskPriority::HIGH, 128, inspection_frame(index, payload_bytes))
    }
}

/// Whether the frame of the `index`-th task of `workload` can be built.
pub open spec fn hitl_task_fits(index: usize, workload: HitlWorkload, payload_bytes: usize) -> bool {
    match workload {
        HitlWorkload::Baseline => true,
        HitlWorkload::Heavy => inspection_frame_fits(index, payload_bytes),
        HitlWorkload::Thermal => (index % 6 == 0 ==> patterned_frame_fits(index, thermal_vlm_bytes(payload_bytes)))
            && (index % 6 != 0 ==> inspection_frame_fits(index, payload_bytes)),
    }
}

/// The parts of the `index`-th task of a hardware run of `workload`.
pub open spec fn hitl_parts(index: usize, workload: HitlWorkload, payload_bytes: usize) -> TaskPartsView {
    match workload {
        HitlWorkload::Baseline => baseline_parts(index),
        HitlWorkload::Heavy => heavy_parts(index, payload_bytes),
        HitlWorkload::Thermal => thermal_parts(index, payload_bytes),
    }
}

/// The `index`-th task of a hardware run of `workload`: its parts, a one
/// second deadline for VLM queries and 250 ms otherwise, and a pool slot.
pub fn hitl_task(index: usize, workload: HitlWorkload, payload_bytes: usize) -> (task: TaskRequest)
    requires
        index < u64::MAX,
        hitl_task_fits(index, workload, payload_bytes),
    ensures
        task.task_id == index + 1,
        (task.task_type, task.priority, task.memory_estimate_mb, task.frame@) == hitl_parts(
            index,
            workload,
            payload_bytes,
        ),
        task.deadline_ms == (if task.task_type == TaskType::VLM_QUERY { 1000u64 } else { 250u64 }),
        task.pool_slot_id == index % 5,
{
    let (task_type, priority, memory_estimate_mb, frame) = match workload {
        HitlWorkload::Baseline => baseline_task_parts(index),
        HitlWorkload::Heavy => heavy_task_parts(index, payload_bytes),
        HitlWorkload::Thermal => thermal_task_parts(index, payload_bytes),
    };
    TaskRequest {
        task_id: index as u64 + 1,
        task_type,
        priority,
        memory_estimate_mb,
        deadline_ms: if task_type == TaskType::VLM_QUERY {
            1000
        } else {
            250
        },
        pool_slot_id: index % 5,
        frame,
    }
}

/// Heavy runs never issue VLM queries, and thermal runs issue one exactly
/// every sixth task.
pub proof fn lemma_hitl_vlm_cadence(index: usize, payload_bytes: usize)
    ensures
        hitl_parts(index, HitlWorkload::Heavy, payload_bytes).0 != TaskType::VLM_QUERY,
        (hitl_parts(index, HitlWorkload::Thermal, payload_bytes).0 == TaskType::VLM_QUERY) <==> index % 6 == 0,
        (hitl_parts(index, HitlWorkload::Baseline, payload_bytes).0 == TaskType::VLM_QUERY) <==> index % 10 == 0,
{
}

} // verus!
