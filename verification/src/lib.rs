//! Instrumentation interface between an RTOS kernel, an application, and a
//! pluggable trace backend.
//!
//! The kernel reports every scheduler-visible occurrence (task lifecycle,
//! interrupt entry and exit, user markers) through the [`RtosTrace`] trait;
//! the bound backend observes those notifications in call order.  The backend,
//! at times of its own choosing, pulls descriptive metadata back out of the
//! kernel through [`RtosTraceOSCallbacks`] and out of the application through
//! [`RtosTraceApplicationCallbacks`].
//!
//! Binding is static: the backend, the kernel callbacks and the application
//! callbacks are each chosen once, as a type parameter at the composition
//! root, so every instrumentation call resolves to a direct call into the
//! chosen implementation.  The [`stub`] module provides no-op defaults for
//! the two callback interfaces.
//!
//! The contracts speak of the backend's observation history as a sequence of
//! [`events::TraceEvent`] values: each notification appends exactly one event,
//! so a conforming backend sees the events of a core in the exact order the
//! instrumented code issued them.

use vstd::prelude::*;

pub mod application;
pub mod binding;
pub mod events;
pub mod kernel;
pub mod record;
pub mod stub;
pub mod systemview;
pub mod trace;

use crate::events::TraceEvent;
use crate::events::snapshot_events;

verus! {

/// Task info block: the static attributes of one schedulable unit.
///
/// The descriptor is a plain value copied at the call site; it owns no
/// resources.  An empty `name` signals an unnamed task.
#[derive(Clone, Copy, PartialEq, Eq, Debug)]
pub struct TaskInfo {
    /// Name as a static string; empty for an unnamed task.
    pub name: &'static str,
    /// Task priority number; its ordering semantics belong to the kernel.
    pub priority: u32,
    /// Start address of the stack, 0 for a stackless task.
    pub stack_base: usize,
    /// Size of the stack in bytes, 0 for a stackless task.
    pub stack_size: usize,
}

impl TaskInfo {
    /// The descriptor either tracks no stack at all or names a real region:
    /// base and size are zero together or nonzero together.
    pub open spec fn wf(&self) -> bool {
        (self.stack_base == 0 && self.stack_size == 0) || (self.stack_base != 0
            && self.stack_size != 0)
    }
}

/// Collection of tracing functions which the RTOS calls at each instrumented
/// point.  Exactly one implementer is bound per process, chosen statically.
///
/// Every operation is a fire-and-forget notification: no return value and no
/// error channel.  `events` is the history of notifications the backend has
/// observed; each call appends exactly one event to it, so the backend sees
/// the stream of a core in call order and neither drops, duplicates, nor
/// reorders a notification.  What the backend then records or transmits is
/// its own policy.
pub trait RtosTrace {
    /// The notifications observed so far, oldest first.
    spec fn events(&self) -> Seq<TraceEvent>;

    /// A new task with `id` was created.
    fn task_new(&mut self, id: u32)
        ensures
            final(self).events() == old(self).events().push(TraceEvent::TaskNew(id)),
    ;

    /// The task with `id` has `info` attributes.
    fn task_send_info(&mut self, id: u32, info: TaskInfo)
        ensures
            final(self).events() == old(self).events().push(TraceEvent::TaskSendInfo(id, info)),
    ;

    /// The task with `id` has been terminated.
    fn task_terminate(&mut self, id: u32)
        ensures
            final(self).events() == old(self).events().push(TraceEvent::TaskTerminate(id)),
    ;

    /// The task with `id` will start to run on the CPU now.
    fn task_exec_begin(&mut self, id: u32)
        ensures
            final(self).events() == old(self).events().push(TraceEvent::TaskExecBegin(id)),
    ;

    /// Execution of the current task has ended.  No argument: at most one
    /// task executes per core, so the backend tracks which one it was.
    fn task_exec_end(&mut self)
        ensures
            final(self).events() == old(self).events().push(TraceEvent::TaskExecEnd),
    ;

    /// The task with `id` is ready to run.
    fn task_ready_begin(&mut self, id: u32)
        ensures
            final(self).events() == old(self).events().push(TraceEvent::TaskReadyBegin(id)),
    ;

    /// The task with `id` is being blocked or suspended.
    fn task_ready_end(&mut self, id: u32)
        ensures
            final(self).events() == old(self).events().push(TraceEvent::TaskReadyEnd(id)),
    ;

    /// The RTOS enters idle mode.
    fn system_idle(&mut self)
        ensures
            final(self).events() == old(self).events().push(TraceEvent::SystemIdle),
    ;

    /// Enter an interrupt service routine.
    fn isr_enter(&mut self)
        ensures
            final(self).events() == old(self).events().push(TraceEvent::IsrEnter),
    ;

    /// Exit an interrupt service routine, resuming whatever ran before.
    fn isr_exit(&mut self)
        ensures
            final(self).events() == old(self).events().push(TraceEvent::IsrExit),
    ;

    /// Exit an interrupt service routine into a scheduling decision.
    fn isr_exit_to_scheduler(&mut self)
        ensures
            final(self).events() == old(self).events().push(TraceEvent::IsrExitToScheduler),
    ;

    /// An instantaneous user marker with `id`.
    fn marker(&mut self, id: u32)
        ensures
            final(self).events() == old(self).events().push(TraceEvent::Marker(id)),
    ;

    /// Begin event of the interval marker with `id`.
    fn marker_begin(&mut self, id: u32)
        ensures
            final(self).events() == old(self).events().push(TraceEvent::MarkerBegin(id)),
    ;

    /// End event of the interval marker with `id`.
    fn marker_end(&mut self, id: u32)
        ensures
            final(self).events() == old(self).events().push(TraceEvent::MarkerEnd(id)),
    ;
}

/// Callbacks to the OS, invoked by the tracing system when it wants a
/// snapshot of kernel state.  The RTOS implements this trait.
pub trait RtosTraceOSCallbacks {
    /// The currently-live tasks with their attributes, in enumeration order.
    spec fn tasks(&self) -> Seq<(u32, TaskInfo)>;

    /// No reading of the monotonic clock may return less than this.
    spec fn time_floor(&self) -> u64;

    /// Send a list of all tasks to the tracing system: re-enters the trace
    /// event interface and emits, for each currently-live task, its creation
    /// and info events — a single consistent snapshot, with no termination
    /// and no task-set mutation visible mid-enumeration.
    fn task_list<T: RtosTrace>(&self, trace: &mut T)
        ensures
            final(trace).events() == old(trace).events() + snapshot_events(self.tasks()),
    ;

    /// Get system time in microseconds: non-decreasing across calls within
    /// one process lifetime.  Reading the clock leaves the task set alone.
    fn time(&mut self) -> (t: u64)
        ensures
            t >= old(self).time_floor(),
            final(self).time_floor() == t,
            final(self).tasks() == old(self).tasks(),
    ;
}

/// Callbacks to the application, invoked by the tracing system when it wants
/// descriptive metadata.  The application implements this trait.
pub trait RtosTraceApplicationCallbacks {
    /// The system description this application reports, as the exact bytes
    /// handed to the backend's reporting primitive.
    spec fn description(&self) -> Seq<u8>;

    /// The core clock frequency in Hertz.
    spec fn clock_hz(&self) -> u32;

    /// Send a system and application description to the tracing system by
    /// appending it to the backend's description sink.  Idempotent: the
    /// appended bytes depend on the application alone, so repeated calls
    /// produce byte-identical output.
    fn system_description(&self, out: &mut Vec<u8>)
        ensures
            final(out)@ == old(out)@ + self.description(),
    ;

    /// Get the system clock in Hertz, for backends that timestamp in raw
    /// cycles rather than microseconds.
    fn sysclock(&self) -> (hz: u32)
        ensures
            hz == self.clock_hz(),
    ;
}

} // verus!
