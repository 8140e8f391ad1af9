use rtos_trace::RtosTraceApplicationCallbacks;
use rtos_trace::RtosTraceOSCallbacks;
use rtos_trace::TaskInfo;
use rtos_trace::application::ApplicationInfo;
use rtos_trace::application::description_twice;
use rtos_trace::events::TraceEvent;
use rtos_trace::kernel::TaskTable;
use rtos_trace::record::RecordingTrace;
use rtos_trace::stub::StubApplicationCallbacks;
use rtos_trace::stub::StubOsCallbacks;
use rtos_trace::systemview::SystemView;
use rtos_trace::systemview::TaskRecord;

fn info(name: &'static str, priority: u32) -> TaskInfo {
    TaskInfo { name, priority, stack_base: 0, stack_size: 0 }
}

#[test]
fn task_list_emits_pairs_for_two_live_tasks() {
    let mut kernel = TaskTable::new();
    kernel.add_task(1, info("idle", 0));
    kernel.add_task(2, TaskInfo { name: "main", priority: 1, stack_base: 8192, stack_size: 2048 });
    let mut rec = RecordingTrace::new();
    kernel.task_list(&mut rec);
    assert_eq!(
        rec.log,
        vec![
            TraceEvent::TaskNew(1),
            TraceEvent::TaskSendInfo(1, info("idle", 0)),
            TraceEvent::TaskNew(2),
            TraceEvent::TaskSendInfo(
                2,
                TaskInfo { name: "main", priority: 1, stack_base: 8192, stack_size: 2048 }
            ),
        ]
    );
    let terminated: usize =
        rec.log.iter().filter(|e| matches!(e, TraceEvent::TaskTerminate(_))).count();
    assert_eq!(terminated, 0);
}

#[test]
fn time_is_monotonic_across_calls() {
    let mut kernel = TaskTable::new();
    let t1: u64 = kernel.time();
    kernel.advance_clock(250);
    let t2: u64 = kernel.time();
    let t3: u64 = kernel.time();
    assert!(t1 <= t2);
    assert!(t2 <= t3);
    assert_eq!(t2, 250);
    assert_eq!(t3, 250);
}

#[test]
fn system_description_is_idempotent() {
    let app = ApplicationInfo::new(b"N=Espresso;D=STM32F769NI;C=CortexM7;O=RTOS".to_vec(), 216_000_000);
    let mut first: Vec<u8> = Vec::new();
    app.system_description(&mut first);
    let mut second: Vec<u8> = Vec::new();
    app.system_description(&mut second);
    assert_eq!(first, second);
    assert_eq!(first, b"N=Espresso;D=STM32F769NI;C=CortexM7;O=RTOS".to_vec());
    let (one, two) = description_twice(&app);
    assert_eq!(one, two);
    assert_eq!(one, first);
}

#[test]
fn system_description_appends_to_the_sink() {
    let app = ApplicationInfo::new(b"I#15=SysTick".to_vec(), 64_000_000);
    let mut out: Vec<u8> = b"N=Demo;".to_vec();
    app.system_description(&mut out);
    assert_eq!(out, b"N=Demo;I#15=SysTick".to_vec());
    assert_eq!(app.sysclock(), 64_000_000);
}

#[test]
fn stub_callbacks_are_harmless() {
    let mut rec = RecordingTrace::new();
    let mut os = StubOsCallbacks;
    os.task_list(&mut rec);
    assert_eq!(rec.len(), 0);
    assert_eq!(os.time(), 0);
    let app = StubApplicationCallbacks;
    let mut out: Vec<u8> = Vec::new();
    app.system_description(&mut out);
    assert!(out.is_empty());
    assert_eq!(app.sysclock(), 0);
}

#[test]
fn task_record_keeps_a_nonempty_name() {
    let _view = SystemView::new();
    let rec: TaskRecord =
        SystemView::task_record(4, &TaskInfo { name: "uart", priority: 7, stack_base: 4096, stack_size: 512 });
    assert_eq!(rec.task_id, 4);
    assert_eq!(rec.name, Some("uart"));
    assert_eq!(rec.prio, 7);
    assert_eq!(rec.stack_base, 4096);
    assert_eq!(rec.stack_size, 512);
}

#[test]
fn task_record_drops_an_empty_name() {
    let rec: TaskRecord = SystemView::task_record(8, &info("", 0));
    assert_eq!(rec.name, None);
    assert_eq!(rec.stack_base, 0);
    assert_eq!(rec.stack_size, 0);
}

#[test]
fn task_record_narrows_wide_stack_fields() {
    let wide = TaskInfo {
        name: "big",
        priority: 1,
        stack_base: 0x1_0000_0005usize,
        stack_size: 0x2_0000_0001usize,
    };
    let rec: TaskRecord = SystemView::task_record(2, &wide);
    assert_eq!(rec.stack_base, 5);
    assert_eq!(rec.stack_size, 1);
}
