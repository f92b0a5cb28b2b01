use vstd::prelude::*;

use crate::types::{TaskPriority, TaskRequest, TaskType};

verus! {

pub const DEFAULT_PHASE1_DEADLINE_MS: u64 = 250;

pub const DEFAULT_POOL_SLOT_COUNT: usize = 5;

/// Hands out the frames of a dataset as tasks, cycling through the files in
/// order and through the pool slots.
#[derive(Debug)]
pub struct MockFrameIngestor {
    file_count: usize,
    next_index: usize,
    pool_slot_count: usize,
}

/// Where the next task's frame comes from and what it is called.
#[derive(Clone, Copy, Debug, PartialEq, Eq, Structural)]
pub struct FrameSlot {
    /// Index of the file to read, in sorted order.
    pub file_index: usize,
    pub task_id: u64,
    pub pool_slot_id: usize,
}

/// The frame ingestor as the number of files, the index of the next read and
/// the number of pool slots.
pub type IngestorView = (nat, nat, nat);

impl View for MockFrameIngestor {
    type V = IngestorView;

    closed spec fn view(&self) -> IngestorView {
        (self.file_count as nat, self.next_index as nat, self.pool_slot_count as nat)
    }
}

/// The number of mebibytes a frame of `bytes` bytes is estimated to take:
/// rounded up, at least one.
pub open spec fn estimated_mb(bytes: nat) -> nat {
    if bytes == 0 {
        1
    } else {
        ((bytes + 1048575) / 1048576) as nat
    }
}

/// Estimates the memory a frame needs, in whole mebibytes, at least one.
pub fn bytes_to_estimated_mb(bytes: usize) -> (mb: u64)
    ensures
        mb == estimated_mb(bytes as nat),
{
    let mb: usize = 1024 * 1024;
    let rounded: usize = bytes / mb + if bytes % mb == 0 { 0 } else { 1 };
    assert(bytes > 0 ==> rounded == (bytes + 1048575) / 1048576 && rounded >= 1) by (nonlinear_arith)
        requires
            mb == 1048576,
            rounded == bytes / mb + if bytes % mb == 0 { 0int } else { 1int },
    ;
    if rounded < 1 {
        1
    } else {
        rounded as u64
    }
}

/// Whether a file extension names a JPEG file: `jpg` in any letter case.
pub open spec fn is_jpg_extension(extension: Seq<char>) -> bool {
    &&& extension.len() == 3
    &&& (extension[0] == 'j' || extension[0] == 'J')
    &&& (extension[1] == 'p' || extension[1] == 'P')
    &&& (extension[2] == 'g' || extension[2] == 'G')
}

/// Whether a file's extension is `jpg`, ignoring ASCII case.
pub fn is_jpg(extension: &str) -> (jpg: bool)
    ensures
        jpg == is_jpg_extension(extension@),
{
    if extension.unicode_len() != 3 {
        return false;
    }
    let a = extension.get_char(0);
    let b = extension.get_char(1);
    let c = extension.get_char(2);
    (a == 'j' || a == 'J') && (b == 'p' || b == 'P') && (c == 'g' || c == 'G')
}

impl MockFrameIngestor {
    /// An ingestor over `file_count` files with the default five pool slots.
    pub fn new(file_count: usize) -> (ingestor: Self)
        ensures
            ingestor@ == (file_count as nat, 0nat, 5nat),
    {
        Self::new_with_pool_slots(file_count, DEFAULT_POOL_SLOT_COUNT)
    }

    /// An ingestor over `file_count` files with `pool_slot_count` slots.
    pub fn new_with_pool_slots(file_count: usize, pool_slot_count: usize) -> (ingestor: Self)
        requires
            pool_slot_count > 0,
        ensures
            ingestor@ == (file_count as nat, 0nat, pool_slot_count as nat),
    {
        MockFrameIngestor { file_count, next_index: 0, pool_slot_count }
    }

    /// How many files the ingestor cycles through.
    pub fn len(&self) -> (count: usize)
        ensures
            count == self@.0,
    {
        self.file_count
    }

    /// Whether the ingestor has no file.
    pub fn is_empty(&self) -> (empty: bool)
        ensures
            empty == (self@.0 == 0),
    {
        self.file_count == 0
    }

    /// The number of pool slots tasks are spread over.
    pub fn pool_slot_count(&self) -> (count: usize)
        ensures
            count == self@.2,
    {
        self.pool_slot_count
    }

    /// The slot of the next task: the file at the next index modulo the
    /// number of files, the task id one past the index, and the pool slot at
    /// the index modulo the number of slots. None, and no change, when there
    /// is no file.
    pub fn next_slot(&mut self) -> (slot: Option<FrameSlot>)
        requires
            old(self)@.2 > 0,
            old(self)@.1 < usize::MAX,
        ensures
            old(self)@.0 == 0 ==> slot is None && final(self)@ == old(self)@,
            old(self)@.0 > 0 ==> slot == Some(FrameSlot {
                file_index: (old(self)@.1 % old(self)@.0) as usize,
                task_id: (old(self)@.1 + 1) as u64,
                pool_slot_id: (old(self)@.1 % old(self)@.2) as usize,
            }) && final(self)@ == (old(self)@.0, old(self)@.1 + 1, old(self)@.2),
    {
        if self.file_count == 0 {
            return None;
        }
        let file_index = self.next_index % self.file_count;
        let task_id = self.next_index as u64 + 1;
        let pool_slot_id = self.next_index % self.pool_slot_count;
        self.next_index = self.next_index + 1;
        Some(FrameSlot { file_index, task_id, pool_slot_id })
    }
}

/// The task made of the frame read for `slot`: a MEDIUM priority CV task
/// with the default deadline.
pub fn frame_task(slot: FrameSlot, frame: Vec<u8>) -> (task: TaskRequest)
    ensures
        task.task_id == slot.task_id,
        task.task_type == TaskType::CV_FEATURES,
        task.priority == TaskPriority::MEDIUM,
        task.memory_estimate_mb == estimated_mb(frame@.len()),
        task.deadline_ms == DEFAULT_PHASE1_DEADLINE_MS,
        task.pool_slot_id == slot.pool_slot_id,
        task.frame == frame,
{
    let memory_estimate_mb = bytes_to_estimated_mb(frame.len());
    TaskRequest {
        task_id: slot.task_id,
        task_type: TaskType::CV_FEATURES,
        priority: TaskPriority::MEDIUM,
        memory_estimate_mb,
        deadline_ms: DEFAULT_PHASE1_DEADLINE_MS,
        pool_slot_id: slot.pool_slot_id,
        frame,
    }
}

/// Reads cycle: successive reads visit the files in order, wrapping around,
/// and every pool slot index stays below the number of slots.
pub proof fn lemma_slots_cycle(file_count: nat, index: nat, pool_slot_count: nat)
    requires
        file_count > 0,
        pool_slot_count > 0,
    ensures
        index % file_count < file_count,
        (index + file_count) % file_count == index % file_count,
        index % pool_slot_count < pool_slot_count,
{
    assert((index + file_count) % file_count == index % file_count) by (nonlinear_arith)
        requires
            file_count > 0,
    ;
}

} // verus!
