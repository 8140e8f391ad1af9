//! A recording backend: it keeps every notification it observes in a vector,
//! in call order.  It shows that the event interface is implementable and
//! serves as the reference observer when exercising instrumented code.

use vstd::prelude::*;

use crate::RtosTrace;
use crate::TaskInfo;
use crate::events::TraceEvent;

verus! {

/// A backend that stores the full notification stream.
pub struct RecordingTrace {
    /// Every event observed so far, oldest first.
    pub log: Vec<TraceEvent>,
}

impl RecordingTrace {
    /// An observer that has seen nothing yet.
    pub fn new() -> (r: RecordingTrace)
        ensures
            r.events() == Seq::<TraceEvent>::empty(),
    {
        RecordingTrace { log: Vec::new() }
    }

    /// How many events have been observed.
    pub fn len(&self) -> (n: usize)
        ensures
            n == self.events().len(),
    {
        self.log.len()
    }
}

impl RtosTrace for RecordingTrace {
    open spec fn events(&self) -> Seq<TraceEvent> {
        self.log@
    }

    fn task_new(&mut self, id: u32) {
        self.log.push(TraceEvent::TaskNew(id));
    }

    fn task_send_info(&mut self, id: u32, info: TaskInfo) {
        self.log.push(TraceEvent::TaskSendInfo(id, info));
    }

    fn task_terminate(&mut self, id: u32) {
        self.log.push(TraceEvent::TaskTerminate(id));
    }

    fn task_exec_begin(&mut self, id: u32) {
        self.log.push(TraceEvent::TaskExecBegin(id));
    }

    fn task_exec_end(&mut self) {
        self.log.push(TraceEvent::TaskExecEnd);
    }

    fn task_ready_begin(&mut self, id: u32) {
        self.log.push(TraceEvent::TaskReadyBegin(id));
    }

    fn task_ready_end(&mut self, id: u32) {
        self.log.push(TraceEvent::TaskReadyEnd(id));
    }

    fn system_idle(&mut self) {
        self.log.push(TraceEvent::SystemIdle);
    }

    fn isr_enter(&mut self) {
        self.log.push(TraceEvent::IsrEnter);
    }

    fn isr_exit(&mut self) {
        self.log.push(TraceEvent::IsrExit);
    }

    fn isr_exit_to_scheduler(&mut self) {
        self.log.push(TraceEvent::IsrExitToScheduler);
    }

    fn marker(&mut self, id: u32) {
        self.log.push(TraceEvent::Marker(id));
    }

    fn marker_begin(&mut self, id: u32) {
        self.log.push(TraceEvent::MarkerBegin(id));
    }

    fn marker_end(&mut self, id: u32) {
        self.log.push(TraceEvent::MarkerEnd(id));
    }
}

} // verus!
