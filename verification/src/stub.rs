//! Zero-cost defaults for the two pull-callback interfaces.  A program that
//! binds a backend but no kernel or application callbacks binds these
//! instead, so the backend's pull calls become harmless no-ops rather than
//! unresolved references.

use vstd::prelude::*;

use crate::RtosTrace;
use crate::RtosTraceApplicationCallbacks;
use crate::RtosTraceOSCallbacks;
use crate::TaskInfo;
use crate::events::TraceEvent;
use crate::events::snapshot_events;

verus! {

/// The OS-callback default: no live tasks to enumerate, a clock stuck at zero.
pub struct StubOsCallbacks;

impl RtosTraceOSCallbacks for StubOsCallbacks {
    open spec fn tasks(&self) -> Seq<(u32, TaskInfo)> {
        Seq::empty()
    }

    open spec fn time_floor(&self) -> u64 {
        0
    }

    fn task_list<T: RtosTrace>(&self, trace: &mut T) {
        proof {
            assert(old(trace).events() + snapshot_events(Seq::<(u32, TaskInfo)>::empty()) =~= old(
                trace,
            ).events());
        }
    }

    fn time(&mut self) -> (t: u64) {
        0
    }
}

/// The application-callback default: an empty description, a clock frequency
/// of zero.
pub struct StubApplicationCallbacks;

impl RtosTraceApplicationCallbacks for StubApplicationCallbacks {
    open spec fn description(&self) -> Seq<u8> {
        Seq::empty()
    }

    open spec fn clock_hz(&self) -> u32 {
        0
    }

    fn system_description(&self, out: &mut Vec<u8>) {
        proof {
            assert(old(out)@ + Seq::<u8>::empty() =~= old(out)@);
        }
    }

    fn sysclock(&self) -> (hz: u32) {
        0
    }
}

} // verus!
