use rtos_trace::TaskInfo;
use rtos_trace::events::TraceEvent;
use rtos_trace::record::RecordingTrace;
use rtos_trace::trace;

fn info(name: &'static str, priority: u32) -> TaskInfo {
    TaskInfo { name, priority, stack_base: 0, stack_size: 0 }
}

#[test]
fn five_event_lifecycle() {
    let mut rec = RecordingTrace::new();
    trace::task_new(&mut rec, 1);
    trace::task_send_info(&mut rec, 1, info("idle", 0));
    trace::task_exec_begin(&mut rec, 1);
    trace::task_exec_end(&mut rec);
    trace::task_terminate(&mut rec, 1);
    assert_eq!(
        rec.log,
        vec![
            TraceEvent::TaskNew(1),
            TraceEvent::TaskSendInfo(1, info("idle", 0)),
            TraceEvent::TaskExecBegin(1),
            TraceEvent::TaskExecEnd,
            TraceEvent::TaskTerminate(1),
        ]
    );
}

#[test]
fn every_event_kind_in_call_order() {
    let mut rec = RecordingTrace::new();
    let with_stack = TaskInfo { name: "worker", priority: 3, stack_base: 4096, stack_size: 1024 };
    trace::task_new(&mut rec, 9);
    trace::task_send_info(&mut rec, 9, with_stack);
    trace::task_ready_begin(&mut rec, 9);
    trace::task_exec_begin(&mut rec, 9);
    trace::task_exec_end(&mut rec);
    trace::task_ready_end(&mut rec, 9);
    trace::system_idle(&mut rec);
    trace::isr_enter(&mut rec);
    trace::isr_exit(&mut rec);
    trace::isr_enter(&mut rec);
    trace::isr_exit_to_scheduler(&mut rec);
    trace::marker(&mut rec, 40);
    trace::marker_begin(&mut rec, 41);
    trace::marker_end(&mut rec, 41);
    trace::task_terminate(&mut rec, 9);
    assert_eq!(
        rec.log,
        vec![
            TraceEvent::TaskNew(9),
            TraceEvent::TaskSendInfo(9, with_stack),
            TraceEvent::TaskReadyBegin(9),
            TraceEvent::TaskExecBegin(9),
            TraceEvent::TaskExecEnd,
            TraceEvent::TaskReadyEnd(9),
            TraceEvent::SystemIdle,
            TraceEvent::IsrEnter,
            TraceEvent::IsrExit,
            TraceEvent::IsrEnter,
            TraceEvent::IsrExitToScheduler,
            TraceEvent::Marker(40),
            TraceEvent::MarkerBegin(41),
            TraceEvent::MarkerEnd(41),
            TraceEvent::TaskTerminate(9),
        ]
    );
}

#[test]
fn marker_pair_closes_single_interval() {
    let mut rec = RecordingTrace::new();
    trace::marker_begin(&mut rec, 7);
    trace::marker_end(&mut rec, 7);
    assert_eq!(rec.log, vec![TraceEvent::MarkerBegin(7), TraceEvent::MarkerEnd(7)]);
    let opened: usize =
        rec.log.iter().filter(|e| matches!(e, TraceEvent::MarkerBegin(7))).count();
    let closed: usize = rec.log.iter().filter(|e| matches!(e, TraceEvent::MarkerEnd(7))).count();
    assert_eq!(opened, 1);
    assert_eq!(closed, 1);
}

#[test]
fn task_new_stackless_announces_in_two_events() {
    let mut rec = RecordingTrace::new();
    trace::task_new_stackless(&mut rec, 5, "tick", 2);
    assert_eq!(
        rec.log,
        vec![TraceEvent::TaskNew(5), TraceEvent::TaskSendInfo(5, info("tick", 2))]
    );
}

#[test]
fn task_lifecycle_emits_one_creation_one_termination() {
    let mut rec = RecordingTrace::new();
    let infos = vec![info("net", 4), info("net", 4)];
    trace::task_lifecycle(&mut rec, 3, &infos);
    assert_eq!(
        rec.log,
        vec![
            TraceEvent::TaskNew(3),
            TraceEvent::TaskSendInfo(3, info("net", 4)),
            TraceEvent::TaskSendInfo(3, info("net", 4)),
            TraceEvent::TaskTerminate(3),
        ]
    );
    let created: usize = rec.log.iter().filter(|e| matches!(e, TraceEvent::TaskNew(3))).count();
    let gone: usize =
        rec.log.iter().filter(|e| matches!(e, TraceEvent::TaskTerminate(3))).count();
    assert_eq!(created, 1);
    assert_eq!(gone, 1);
}

#[test]
fn exec_begin_and_end_alternate() {
    let mut rec = RecordingTrace::new();
    trace::task_exec_begin(&mut rec, 1);
    trace::task_exec_end(&mut rec);
    trace::task_exec_begin(&mut rec, 2);
    trace::task_exec_end(&mut rec);
    let begins: usize =
        rec.log.iter().filter(|e| matches!(e, TraceEvent::TaskExecBegin(_))).count();
    let ends: usize = rec.log.iter().filter(|e| matches!(e, TraceEvent::TaskExecEnd)).count();
    assert_eq!(begins, 2);
    assert_eq!(ends, 2);
    // Between the two executions the core holds no running task.
    assert_eq!(rec.log[1], TraceEvent::TaskExecEnd);
    assert_eq!(rec.log[2], TraceEvent::TaskExecBegin(2));
}

#[test]
fn isr_enters_pair_with_either_exit() {
    let mut rec = RecordingTrace::new();
    trace::isr_enter(&mut rec);
    trace::isr_exit(&mut rec);
    trace::isr_enter(&mut rec);
    trace::isr_exit_to_scheduler(&mut rec);
    let enters: usize = rec.log.iter().filter(|e| matches!(e, TraceEvent::IsrEnter)).count();
    let exits: usize = rec.log.iter().filter(|e| matches!(e, TraceEvent::IsrExit)).count();
    let exits_to_sched: usize =
        rec.log.iter().filter(|e| matches!(e, TraceEvent::IsrExitToScheduler)).count();
    assert_eq!(enters, 2);
    assert_eq!(exits + exits_to_sched, 2);
    assert_eq!(exits, 1);
    assert_eq!(exits_to_sched, 1);
}

#[test]
fn recording_trace_starts_empty_and_counts() {
    let mut rec = RecordingTrace::new();
    assert_eq!(rec.len(), 0);
    trace::system_idle(&mut rec);
    assert_eq!(rec.len(), 1);
    assert_eq!(rec.log, vec![TraceEvent::SystemIdle]);
}
