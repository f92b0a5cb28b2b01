use vstd::prelude::*;

use crate::admission::{admission_status, AdmissionGates, AdmissionPolicy};
use crate::leases::{GpuLease, GpuLeaseManager, Uuid};
use crate::scheduler::{cv_count, pressure, TaskScheduler};
use crate::types::{Decision, DecisionStatus, SchedulerState, TaskRequest};

verus! {

/// What happened to a task offered to the control plane.
#[derive(Debug)]
pub enum DispatchAction {
    /// The task was admitted and holds the GPU lease; it is to run now.
    Execute { task: TaskRequest, lease: GpuLease },
    /// The task went to the back of the deferred queue.
    Deferred,
    /// The task was rejected; it is handed back for the record only.
    Rejected { task: TaskRequest },
}

/// The outcome of offering a task: the admission decision, the status that
/// is recorded for it, the inputs the decision read, and the action taken.
#[derive(Debug)]
pub struct Dispatch {
    pub decision: Decision,
    pub recorded: DecisionStatus,
    pub queue_pressure: u32,
    pub gpu_lease_active: bool,
    pub cv_burst_active: bool,
    pub action: DispatchAction,
}

/// Offers `task` to the control plane: it is decided on with the current
/// lease and queue, then run under the next lease the manager grants,
/// queued, or rejected. An admitted task that finds the GPU taken is queued
/// and recorded as deferred.
pub fn dispatch(
    admission: &AdmissionPolicy,
    leases: &mut GpuLeaseManager,
    scheduler: &mut TaskScheduler,
    task: TaskRequest,
    gates: &AdmissionGates,
    state: SchedulerState,
) -> (outcome: Dispatch)
    requires
        pressure(old(scheduler)@) <= u32::MAX,
        old(leases).next_lease_id() < u64::MAX,
    ensures
        outcome.queue_pressure == pressure(old(scheduler)@),
        outcome.gpu_lease_active == (old(leases)@ is Some),
        outcome.cv_burst_active == (cv_count(old(scheduler)@) >= 2),
        outcome.decision.status == admission_status(
            task.task_type,
            task.priority,
            *gates,
            state,
            old(leases)@ is Some,
            cv_count(old(scheduler)@) >= 2,
        ),
        outcome.decision.lease_duration_ms == admission.default_lease_duration_ms,
        outcome.recorded == outcome.decision.status,
        final(scheduler)@ == queue_after_dispatch(old(scheduler)@, outcome.decision.status, task),
        outcome.decision.status == DecisionStatus::ADMIT ==> {
            &&& final(leases)@ == Some(Uuid(old(leases).next_lease_id() as u128))
            &&& !old(leases).granted_ids().contains(old(leases).next_lease_id() as u128)
            &&& final(leases).granted_ids() == old(leases).granted_ids().insert(old(leases).next_lease_id() as u128)
            &&& final(leases).next_lease_id() == old(leases).next_lease_id() + 1
            &&& final(scheduler)@ == old(scheduler)@
            &&& outcome.action matches DispatchAction::Execute { task: t, lease: l } && t == task
                && l.identifier() == Uuid(old(leases).next_lease_id() as u128)
        },
        outcome.decision.status != DecisionStatus::ADMIT ==> final(leases).next_lease_id()
            == old(leases).next_lease_id() && final(leases).granted_ids() == old(leases).granted_ids(),
        outcome.decision.status == DecisionStatus::DEFER ==> {
            &&& final(leases)@ == old(leases)@
            &&& final(scheduler)@ == old(scheduler)@.push(task)
            &&& outcome.action == DispatchAction::Deferred
        },
        outcome.decision.status == DecisionStatus::REJECT ==> {
            &&& final(leases)@ == old(leases)@
            &&& final(scheduler)@ == old(scheduler)@
            &&& outcome.action == (DispatchAction::Rejected { task })
        },
{
    let queue_pressure = scheduler.queue_pressure();
    let gpu_lease_active = leases.is_active();
    let cv_burst_active = scheduler.cv_burst_active();
    let decision = admission.decide(&task, gates, state, gpu_lease_active, cv_burst_active);
    match decision.status {
        DecisionStatus::ADMIT => {
            match leases.try_acquire() {
                Some(lease) => Dispatch {
                    decision,
                    recorded: DecisionStatus::ADMIT,
                    queue_pressure,
                    gpu_lease_active,
                    cv_burst_active,
                    action: DispatchAction::Execute { task, lease },
                },
                None => {
                    scheduler.defer(task);
                    Dispatch {
                        decision,
                        recorded: DecisionStatus::DEFER,
                        queue_pressure,
                        gpu_lease_active,
                        cv_burst_active,
                        action: DispatchAction::Deferred,
                    }
                },
            }
        },
        DecisionStatus::DEFER => {
            scheduler.defer(task);
            Dispatch {
                decision,
                recorded: DecisionStatus::DEFER,
                queue_pressure,
                gpu_lease_active,
                cv_burst_active,
                action: DispatchAction::Deferred,
            }
        },
        DecisionStatus::REJECT => Dispatch {
            decision,
            recorded: DecisionStatus::REJECT,
            queue_pressure,
            gpu_lease_active,
            cv_burst_active,
            action: DispatchAction::Rejected { task },
        },
    }
}

/// The next deferred task to replay: the front of the queue, taken only when
/// no GPU lease is active.
pub fn next_replay(leases: &GpuLeaseManager, scheduler: &mut TaskScheduler) -> (task: Option<TaskRequest>)
    ensures
        (leases@ is Some || old(scheduler)@.len() == 0) ==> task is None && final(scheduler)@
            == old(scheduler)@,
        (leases@ is None && old(scheduler)@.len() > 0) ==> task == Some(old(scheduler)@[0])
            && final(scheduler)@ == old(scheduler)@.drop_first(),
{
    if leases.is_active() {
        return None;
    }
    scheduler.pop_next()
}

/// Whether a run is over: the producer is done, nothing is queued and no
/// lease is active.
pub fn run_finished(producer_done: bool, leases: &GpuLeaseManager, scheduler: &TaskScheduler) -> (done: bool)
    ensures
        done == (producer_done && scheduler@.len() == 0 && leases@ is None),
{
    producer_done && scheduler.is_empty() && !leases.is_active()
}

/// The queue a dispatch leaves, as a function of the decision: the task is
/// appended exactly when it is deferred.
pub open spec fn queue_after_dispatch(queued: Seq<TaskRequest>, status: DecisionStatus, task: TaskRequest) -> Seq<TaskRequest> {
    if status == DecisionStatus::DEFER {
        queued.push(task)
    } else {
        queued
    }
}

/// Deferred work stays eligible for replay and rejected work does not: a
/// deferred task is the last in the queue afterwards and is replayed after
/// every task queued before it; a rejected or admitted task leaves the queue
/// as it was.
pub proof fn lemma_defer_queues_reject_drops(queued: Seq<TaskRequest>, status: DecisionStatus, task: TaskRequest)
    ensures
        status == DecisionStatus::DEFER ==> queue_after_dispatch(queued, status, task).last() == task
            && queue_after_dispatch(queued, status, task).len() == queued.len() + 1
            && queue_after_dispatch(queued, status, task).drop_last() == queued,
        status != DecisionStatus::DEFER ==> queue_after_dispatch(queued, status, task) == queued,
{
    if status == DecisionStatus::DEFER {
        assert(queued.push(task).drop_last() =~= queued);
    }
}

/// An admitted task always gets the lease: admission is only given while no
/// lease is active, so acquiring one right after cannot fail.
pub proof fn lemma_admitted_task_gets_the_lease(
    task: TaskRequest,
    gates: AdmissionGates,
    state: SchedulerState,
    holder: Option<Uuid>,
    cv_burst_active: bool,
)
    requires
        admission_status(task.task_type, task.priority, gates, state, holder is Some, cv_burst_active)
            == DecisionStatus::ADMIT,
    ensures
        holder is None,
{
}

} // verus!
