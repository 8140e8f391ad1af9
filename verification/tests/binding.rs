use rtos_trace::TaskInfo;
use rtos_trace::application::ApplicationInfo;
use rtos_trace::binding::TraceSystem;
use rtos_trace::events::TraceEvent;
use rtos_trace::kernel::TaskTable;
use rtos_trace::record::RecordingTrace;
use rtos_trace::trace;

fn info(name: &'static str, priority: u32) -> TaskInfo {
    TaskInfo { name, priority, stack_base: 0, stack_size: 0 }
}

#[test]
fn bound_system_pushes_and_pulls() {
    let mut kernel = TaskTable::new();
    kernel.add_task(10, info("idle", 0));
    kernel.advance_clock(42);
    let app = ApplicationInfo::new(b"N=Demo;D=Board".to_vec(), 100_000_000);
    let mut sys = TraceSystem::bind(RecordingTrace::new(), kernel, app);

    // Push path: the kernel reports events straight into the bound backend.
    trace::marker(sys.backend_mut(), 3);

    // Pull path: the backend asks the bound callbacks for metadata.
    sys.pull_task_list();
    assert_eq!(
        sys.backend_ref().log,
        vec![
            TraceEvent::Marker(3),
            TraceEvent::TaskNew(10),
            TraceEvent::TaskSendInfo(10, info("idle", 0)),
        ]
    );
    assert_eq!(sys.pull_time(), 42);
    let mut out: Vec<u8> = Vec::new();
    sys.pull_system_description(&mut out);
    assert_eq!(out, b"N=Demo;D=Board".to_vec());
    assert_eq!(sys.pull_sysclock(), 100_000_000);
}

#[test]
fn unbound_callbacks_default_to_stubs() {
    let mut sys = TraceSystem::bind_backend_only(RecordingTrace::new());
    trace::system_idle(sys.backend_mut());
    sys.pull_task_list();
    assert_eq!(sys.backend_ref().log, vec![TraceEvent::SystemIdle]);
    assert_eq!(sys.pull_time(), 0);
    let mut out: Vec<u8> = Vec::new();
    sys.pull_system_description(&mut out);
    assert!(out.is_empty());
    assert_eq!(sys.pull_sysclock(), 0);
}
