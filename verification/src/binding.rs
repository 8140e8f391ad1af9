//! The binding registry: one backend, one set of OS callbacks, one set of
//! application callbacks, each bound exactly once.
//!
//! The three slots are type parameters fixed when the composition root names
//! a [`TraceSystem`] type, so a second binding for the same interface is a
//! second type for the same parameter — a build-time contradiction, not a
//! runtime error — and every dispatch is a direct, monomorphized call.  The
//! slots are private and no operation replaces them: once bound, a system is
//! bound for the process's lifetime.
//!
//! A program that has no kernel or application callbacks to offer binds the
//! defaults from [`crate::stub`] via [`TraceSystem::bind_backend_only`].

use vstd::prelude::*;

use crate::RtosTrace;
use crate::RtosTraceApplicationCallbacks;
use crate::RtosTraceOSCallbacks;
use crate::events::snapshot_events;
use crate::stub::StubApplicationCallbacks;
use crate::stub::StubOsCallbacks;

verus! {

/// A process's bound tracing configuration: the backend that observes the
/// push events, and the two callback implementations the backend pulls from.
pub struct TraceSystem<T, O, A> {
    backend: T,
    os: O,
    app: A,
}

impl<T: RtosTrace, O: RtosTraceOSCallbacks, A: RtosTraceApplicationCallbacks> TraceSystem<
    T,
    O,
    A,
> {
    /// The bound backend.
    pub closed spec fn backend(&self) -> T {
        self.backend
    }

    /// The bound OS callbacks.
    pub closed spec fn os(&self) -> O {
        self.os
    }

    /// The bound application callbacks.
    pub closed spec fn app(&self) -> A {
        self.app
    }

    /// Bind one implementer to each of the three interfaces.  There is no
    /// unbind and no rebind.
    pub fn bind(backend: T, os: O, app: A) -> (s: TraceSystem<T, O, A>)
        ensures
            s.backend() == backend,
            s.os() == os,
            s.app() == app,
    {
        TraceSystem { backend, os, app }
    }

    /// The backend slot, for the kernel's push events.  Whatever the caller
    /// does through the borrow happens to the bound backend and to nothing
    /// else.
    pub fn backend_mut(&mut self) -> (r: &mut T)
        ensures
            *r == old(self).backend(),
            final(self).backend() == *final(r),
            final(self).os() == old(self).os(),
            final(self).app() == old(self).app(),
    {
        &mut self.backend
    }

    /// A read-only view of the bound backend.
    pub fn backend_ref(&self) -> (r: &T)
        ensures
            *r == self.backend(),
    {
        &self.backend
    }

    /// The backend pulls a task snapshot: the bound OS callbacks re-enter
    /// the event channel and emit one creation and one info event per live
    /// task into the bound backend.
    pub fn pull_task_list(&mut self)
        ensures
            final(self).backend().events() == old(self).backend().events() + snapshot_events(
                old(self).os().tasks(),
            ),
            final(self).os() == old(self).os(),
            final(self).app() == old(self).app(),
    {
        self.os.task_list(&mut self.backend);
    }

    /// The backend pulls the kernel's monotonic time in microseconds.
    pub fn pull_time(&mut self) -> (t: u64)
        ensures
            t >= old(self).os().time_floor(),
            final(self).os().time_floor() == t,
            final(self).os().tasks() == old(self).os().tasks(),
            final(self).backend() == old(self).backend(),
            final(self).app() == old(self).app(),
    {
        self.os.time()
    }

    /// The backend pulls the application's system description into its sink.
    pub fn pull_system_description(&self, out: &mut Vec<u8>)
        ensures
            final(out)@ == old(out)@ + self.app().description(),
    {
        self.app.system_description(out)
    }

    /// The backend pulls the application's clock frequency in Hertz.
    pub fn pull_sysclock(&self) -> (hz: u32)
        ensures
            hz == self.app().clock_hz(),
    {
        self.app.sysclock()
    }
}

impl<T: RtosTrace> TraceSystem<T, StubOsCallbacks, StubApplicationCallbacks> {
    /// Bind a backend alone: the two callback interfaces fall back to the
    /// no-op defaults, so the backend's pull calls stay harmless.
    pub fn bind_backend_only(backend: T) -> (s: TraceSystem<
        T,
        StubOsCallbacks,
        StubApplicationCallbacks,
    >)
        ensures
            s.backend() == backend,
    {
        TraceSystem { backend, os: StubOsCallbacks, app: StubApplicationCallbacks }
    }
}

} // verus!
