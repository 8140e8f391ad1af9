//! A minimal kernel-side implementation of the OS callbacks: a table of live
//! tasks and a monotonic clock.  An RTOS that answers the tracing system's
//! pull queries holds exactly this much state; the table enumerates a single
//! consistent snapshot, and the clock never runs backwards.

use vstd::prelude::*;

use crate::RtosTrace;
use crate::RtosTraceOSCallbacks;
use crate::TaskInfo;
use crate::events::TraceEvent;
use crate::events::lemma_snapshot_take_step;
use crate::events::snapshot_events;

verus! {

/// The live tasks the kernel manages, with its monotonic clock.
pub struct TaskTable {
    /// One entry per live task: its identity and attributes, in enumeration order.
    pub entries: Vec<(u32, TaskInfo)>,
    /// The current system time in microseconds; it only moves forward.
    pub clock: u64,
}

impl TaskTable {
    /// Identities are unique among live tasks, and every descriptor keeps
    /// the stack-region invariant.
    pub open spec fn wf(&self) -> bool {
        &&& forall|i: int, j: int|
            0 <= i < j < self.entries@.len() ==> (#[trigger] self.entries@[i]).0 != (
            #[trigger] self.entries@[j]).0
        &&& forall|i: int| 0 <= i < self.entries@.len() ==> (#[trigger] self.entries@[i]).1.wf()
    }

    /// Whether a task with `id` is currently live.
    pub open spec fn has_task(&self, id: u32) -> bool {
        exists|i: int| 0 <= i < self.entries@.len() && (#[trigger] self.entries@[i]).0 == id
    }

    /// An empty kernel: no live tasks, clock at zero.
    pub fn new() -> (t: TaskTable)
        ensures
            t.entries@ == Seq::<(u32, TaskInfo)>::empty(),
            t.clock == 0,
            t.wf(),
    {
        TaskTable { entries: Vec::new(), clock: 0 }
    }

    /// A task with a fresh identity becomes live.
    pub fn add_task(&mut self, id: u32, info: TaskInfo)
        requires
            old(self).wf(),
            !old(self).has_task(id),
            info.wf(),
        ensures
            final(self).entries@ == old(self).entries@.push((id, info)),
            final(self).clock == old(self).clock,
            final(self).wf(),
            final(self).has_task(id),
    {
        self.entries.push((id, info));
        proof {
            // The new last entry is the witness that `id` is now live.
            assert(self.entries@.last() == (id, info));
        }
    }

    /// The clock moves forward by `delta` microseconds.
    pub fn advance_clock(&mut self, delta: u64)
        requires
            old(self).clock + delta <= u64::MAX,
        ensures
            final(self).clock == old(self).clock + delta,
            final(self).entries@ == old(self).entries@,
    {
        self.clock = self.clock + delta;
    }
}

impl RtosTraceOSCallbacks for TaskTable {
    open spec fn tasks(&self) -> Seq<(u32, TaskInfo)> {
        self.entries@
    }

    open spec fn time_floor(&self) -> u64 {
        self.clock
    }

    fn task_list<T: RtosTrace>(&self, trace: &mut T) {
        let ghost base: Seq<TraceEvent> = trace.events();
        let mut k: usize = 0;
        while k < self.entries.len()
            invariant
                0 <= k <= self.entries@.len(),
                trace.events() =~= base + snapshot_events(self.entries@.take(k as int)),
            decreases self.entries@.len() - k,
        {
            let (id, info) = self.entries[k];
            trace.task_new(id);
            trace.task_send_info(id, info);
            proof {
                lemma_snapshot_take_step(self.entries@, k as int);
            }
            k += 1;
        }
        proof {
            assert(self.entries@.take(self.entries@.len() as int) =~= self.entries@);
        }
    }

    fn time(&mut self) -> (t: u64) {
        self.clock
    }
}

} // verus!
