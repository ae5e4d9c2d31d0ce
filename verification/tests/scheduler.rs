use cube_native::scheduler::{
    next_step, queue_results_to_remove, GcTask, MetaStoreEvent, SchedulerInput, SchedulerStep,
    GC_DELAY_SECS, GC_LOOP_INTERVAL_SECS,
};

#[test]
fn cancel_and_close_stop() {
    assert_eq!(next_step(SchedulerInput::Cancelled), SchedulerStep::Stop);
    assert_eq!(next_step(SchedulerInput::Closed), SchedulerStep::Stop);
}

#[test]
fn lag_is_reported() {
    assert_eq!(next_step(SchedulerInput::Lagged(12)), SchedulerStep::ReportLag { dropped: 12 });
}

#[test]
fn acknowledged_item_is_scheduled_for_deletion() {
    assert_eq!(
        next_step(SchedulerInput::Event(MetaStoreEvent::AckQueueItem { id: 42 })),
        SchedulerStep::ScheduleGc { task: GcTask::DeleteQueue(42), delay_secs: 120 }
    );
    assert_eq!(GC_DELAY_SECS, 120);
    assert_eq!(GC_LOOP_INTERVAL_SECS, 30);
}

#[test]
fn other_events_are_passed_over() {
    assert_eq!(next_step(SchedulerInput::Event(MetaStoreEvent::Other)), SchedulerStep::Continue);
}

#[test]
fn nothing_to_remove_without_expired_tasks() {
    assert_eq!(queue_results_to_remove(Vec::new()), None);
}

#[test]
fn expired_tasks_give_their_ids_in_order() {
    let tasks = vec![GcTask::DeleteQueue(3), GcTask::DeleteQueue(1), GcTask::DeleteQueue(3)];
    assert_eq!(queue_results_to_remove(tasks), Some(vec![3, 1, 3]));
}

#[test]
fn gc_rounds_compose() {
    let first = queue_results_to_remove(vec![GcTask::DeleteQueue(5)]).unwrap();
    let second = queue_results_to_remove(vec![GcTask::DeleteQueue(6), GcTask::DeleteQueue(7)]).unwrap();
    let all = queue_results_to_remove(vec![GcTask::DeleteQueue(5), GcTask::DeleteQueue(6), GcTask::DeleteQueue(7)]).unwrap();
    let mut joined = first;
    joined.extend(second);
    assert_eq!(joined, all);
}

#[test]
fn ack_then_gc_deletes_that_item() {
    match next_step(SchedulerInput::Event(MetaStoreEvent::AckQueueItem { id: 9 })) {
        SchedulerStep::ScheduleGc { task, .. } => {
            assert_eq!(queue_results_to_remove(vec![task]), Some(vec![9]));
        }
        other => panic!("unexpected step {:?}", other),
    }
}
