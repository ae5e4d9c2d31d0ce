use vstd::prelude::*;

verus! {

/// Seconds between two garbage-collection rounds.
pub const GC_LOOP_INTERVAL_SECS: u64 = 30;

/// Seconds that the result of an acknowledged queue item is kept before it is
/// deleted.
pub const GC_DELAY_SECS: u64 = 120;

/// A unit of garbage-collection work.
#[derive(Debug, Clone, Copy, PartialEq, Eq)]
pub enum GcTask {
    /// Delete the stored result of the queue item with this id.
    DeleteQueue(u64),
}

/// The events of the meta store that the scheduler tells apart.
#[derive(Debug, Clone, Copy, PartialEq, Eq)]
pub enum MetaStoreEvent {
    /// A queue item with this id was acknowledged.
    AckQueueItem { id: u64 },
    /// Any other event.
    Other,
}

/// What the event processor observes when it waits for the next event.
#[derive(Debug, Clone, Copy, PartialEq, Eq)]
pub enum SchedulerInput {
    /// The scheduler was asked to stop.
    Cancelled,
    /// The processor fell behind and this many events were dropped.
    Lagged(u64),
    /// The event channel was closed.
    Closed,
    /// An event arrived.
    Event(MetaStoreEvent),
}

/// What the event processor does next.
#[derive(Debug, Clone, Copy, PartialEq, Eq)]
pub enum SchedulerStep {
    /// Leave the processing loop.
    Stop,
    /// Report that `dropped` events were missed and wait for the next one.
    ReportLag { dropped: u64 },
    /// Wait for the next event.
    Continue,
    /// Put `task` in the garbage-collection queue, due after `delay_secs`.
    ScheduleGc { task: GcTask, delay_secs: u64 },
}

/// The step taken on an input.
pub open spec fn spec_next_step(input: SchedulerInput) -> SchedulerStep {
    match input {
        SchedulerInput::Cancelled => SchedulerStep::Stop,
        SchedulerInput::Closed => SchedulerStep::Stop,
        SchedulerInput::Lagged(n) => SchedulerStep::ReportLag { dropped: n },
        SchedulerInput::Event(MetaStoreEvent::AckQueueItem { id }) => SchedulerStep::ScheduleGc {
            task: GcTask::DeleteQueue(id),
            delay_secs: GC_DELAY_SECS,
        },
        SchedulerInput::Event(MetaStoreEvent::Other) => SchedulerStep::Continue,
    }
}

/// The input that acknowledges the queue item `id`.
pub open spec fn ack_input(id: u64) -> SchedulerInput {
    SchedulerInput::Event(MetaStoreEvent::AckQueueItem { id })
}

/// The step that reports a lag of `dropped` events.
pub open spec fn lag_step(dropped: u64) -> SchedulerStep {
    SchedulerStep::ReportLag { dropped }
}

/// The step that schedules the deletion of the result of queue item `id`.
pub open spec fn delete_step(id: u64) -> SchedulerStep {
    SchedulerStep::ScheduleGc { task: GcTask::DeleteQueue(id), delay_secs: GC_DELAY_SECS }
}

/// Decides what the event processor does with what it observed: cancellation
/// and a closed channel stop it, a lag is reported, an acknowledged queue item
/// schedules the deletion of its result after `GC_DELAY_SECS`, and any other
/// event is passed over.
pub fn next_step(input: SchedulerInput) -> (step: SchedulerStep)
    ensures
        step == spec_next_step(input),
        step is Stop <==> (input is Cancelled || input is Closed),
        forall|n: u64| input == SchedulerInput::Lagged(n) <==> step == lag_step(n),
        forall|id: u64| input == ack_input(id) <==> step == delete_step(id),
        step is ScheduleGc ==> exists|id: u64| input == ack_input(id),
        step is Continue <==> input == SchedulerInput::Event(MetaStoreEvent::Other),
{
    match input {
        SchedulerInput::Cancelled => SchedulerStep::Stop,
        SchedulerInput::Closed => SchedulerStep::Stop,
        SchedulerInput::Lagged(n) => SchedulerStep::ReportLag { dropped: n },
        SchedulerInput::Event(MetaStoreEvent::AckQueueItem { id }) => {
            proof {
                assert(input == ack_input(id));
            }
            SchedulerStep::ScheduleGc { task: GcTask::DeleteQueue(id), delay_secs: GC_DELAY_SECS }
        },
        SchedulerInput::Event(MetaStoreEvent::Other) => SchedulerStep::Continue,
    }
}

/// The queue id that a task deletes.
pub open spec fn task_queue_id(task: GcTask) -> u64 {
    match task {
        GcTask::DeleteQueue(id) => id,
    }
}

/// The queue ids that the tasks delete, in the order of the tasks.
pub open spec fn task_queue_ids(tasks: Seq<GcTask>) -> Seq<u64> {
    tasks.map_values(|t: GcTask| task_queue_id(t))
}

/// Only cancellation and a closed channel stop the event processor.
pub proof fn law_only_cancel_or_close_stops(input: SchedulerInput)
    ensures
        spec_next_step(input) is Stop <==> (input is Cancelled || input is Closed),
{
}

/// A lag of any size is only reported, with its size; deletion is scheduled
/// only for an acknowledged queue item, for that item's id and after
/// `GC_DELAY_SECS`; any other event is passed over.
pub proof fn law_step_follows_input(input: SchedulerInput)
    ensures
        forall|n: u64| input == SchedulerInput::Lagged(n) <==> spec_next_step(input) == lag_step(n),
        forall|id: u64| input == ack_input(id) <==> spec_next_step(input) == delete_step(id),
        spec_next_step(input) is ScheduleGc ==> exists|id: u64| input == ack_input(id),
        spec_next_step(input) is ReportLag ==> input is Lagged,
        spec_next_step(input) is Continue <==> input == SchedulerInput::Event(
            MetaStoreEvent::Other,
        ),
{
    if let SchedulerInput::Event(MetaStoreEvent::AckQueueItem { id }) = input {
        assert(input == ack_input(id));
    }
}

/// The acknowledgement of a queue item schedules, after `GC_DELAY_SECS`, a task
/// whose collection deletes exactly that item's result.
pub proof fn law_acknowledged_item_is_deleted(id: u64)
    ensures
        spec_next_step(SchedulerInput::Event(MetaStoreEvent::AckQueueItem { id }))
            matches SchedulerStep::ScheduleGc { task, delay_secs } && delay_secs == GC_DELAY_SECS
            && task_queue_ids(seq![task]) == seq![id],
{
    let task = GcTask::DeleteQueue(id);
    assert(task_queue_ids(seq![task]) =~= seq![id]);
}

/// Collecting expired tasks in two rounds deletes the same ids, in the same
/// order, as collecting them all at once.
pub proof fn law_gc_rounds_compose(first: Seq<GcTask>, second: Seq<GcTask>)
    ensures
        task_queue_ids(first + second) == task_queue_ids(first) + task_queue_ids(second),
{
    assert(task_queue_ids(first + second) =~= task_queue_ids(first) + task_queue_ids(second));
}

/// The ids of the queue results to delete for the expired `tasks`, in their
/// order, or `None` when no task expired (then nothing is to be deleted).
pub fn queue_results_to_remove(tasks: Vec<GcTask>) -> (ids: Option<Vec<u64>>)
    ensures
        ids is None <==> tasks@.len() == 0,
        ids matches Some(v) ==> v@ == task_queue_ids(tasks@),
{
    if tasks.len() == 0 {
        return None;
    }
    let mut ids: Vec<u64> = Vec::new();
    let n = tasks.len();
    let mut i: usize = 0;
    while i < n
        invariant
            n == tasks@.len(),
            0 <= i <= n,
            ids@ == task_queue_ids(tasks@.take(i as int)),
        decreases n - i,
    {
        let id = match tasks[i] {
            GcTask::DeleteQueue(id) => id,
        };
        ids.push(id);
        proof {
            assert(tasks@.take(i + 1) == tasks@.take(i as int).push(tasks@[i as int]));
            assert(task_queue_ids(tasks@.take(i + 1)) =~= task_queue_ids(tasks@.take(i as int)).push(id));
        }
        i = i + 1;
    }
    assert(tasks@.take(n as int) == tasks@);
    Some(ids)
}

} // verus!
