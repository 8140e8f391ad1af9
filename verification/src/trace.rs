//! The call surface instrumented code uses.
//!
//! Exactly one backend is bound per process.  The binding is the type
//! parameter `T`: the composition root picks one [`RtosTrace`] implementation
//! and threads it through the kernel, so every function here monomorphizes to
//! a direct call into that implementation — no runtime registry, no lookup,
//! no indirection.  Attempting to bind two backends is attempting to
//! instantiate the kernel at two types at once, which the type system refuses
//! before the program exists.
//!
//! Each forwarder hands its notification on unchanged: the backend observes
//! exactly the events of the calls made, in call order.

use vstd::prelude::*;

use crate::RtosTrace;
use crate::TaskInfo;
use crate::events::TraceEvent;
use crate::events::info_events;
use crate::events::lifecycle_events;

verus! {

/// A new task with `id` was created.
pub fn task_new<T: RtosTrace>(t: &mut T, id: u32)
    ensures
        final(t).events() == old(t).events().push(TraceEvent::TaskNew(id)),
{
    t.task_new(id);
}

/// The task with `id` has `info` attributes.
pub fn task_send_info<T: RtosTrace>(t: &mut T, id: u32, info: TaskInfo)
    ensures
        final(t).events() == old(t).events().push(TraceEvent::TaskSendInfo(id, info)),
{
    t.task_send_info(id, info);
}

/// The task with `id` has been terminated.
pub fn task_terminate<T: RtosTrace>(t: &mut T, id: u32)
    ensures
        final(t).events() == old(t).events().push(TraceEvent::TaskTerminate(id)),
{
    t.task_terminate(id);
}

/// The task with `id` will start to run on the CPU now.
pub fn task_exec_begin<T: RtosTrace>(t: &mut T, id: u32)
    ensures
        final(t).events() == old(t).events().push(TraceEvent::TaskExecBegin(id)),
{
    t.task_exec_begin(id);
}

/// Execution of the current task has ended.
pub fn task_exec_end<T: RtosTrace>(t: &mut T)
    ensures
        final(t).events() == old(t).events().push(TraceEvent::TaskExecEnd),
{
    t.task_exec_end();
}

/// The task with `id` is ready to run.
pub fn task_ready_begin<T: RtosTrace>(t: &mut T, id: u32)
    ensures
        final(t).events() == old(t).events().push(TraceEvent::TaskReadyBegin(id)),
{
    t.task_ready_begin(id);
}

/// The task with `id` is being blocked or suspended.
pub fn task_ready_end<T: RtosTrace>(t: &mut T, id: u32)
    ensures
        final(t).events() == old(t).events().push(TraceEvent::TaskReadyEnd(id)),
{
    t.task_ready_end(id);
}

/// The RTOS enters idle mode.
pub fn system_idle<T: RtosTrace>(t: &mut T)
    ensures
        final(t).events() == old(t).events().push(TraceEvent::SystemIdle),
{
    t.system_idle();
}

/// Enter an interrupt service routine.
pub fn isr_enter<T: RtosTrace>(t: &mut T)
    ensures
        final(t).events() == old(t).events().push(TraceEvent::IsrEnter),
{
    t.isr_enter();
}

/// Exit an interrupt service routine.
pub fn isr_exit<T: RtosTrace>(t: &mut T)
    ensures
        final(t).events() == old(t).events().push(TraceEvent::IsrExit),
{
    t.isr_exit();
}

/// Exit an interrupt service routine into a scheduling decision.
pub fn isr_exit_to_scheduler<T: RtosTrace>(t: &mut T)
    ensures
        final(t).events() == old(t).events().push(TraceEvent::IsrExitToScheduler),
{
    t.isr_exit_to_scheduler();
}

/// Create an instantaneous marker with `id`.
pub fn marker<T: RtosTrace>(t: &mut T, id: u32)
    ensures
        final(t).events() == old(t).events().push(TraceEvent::Marker(id)),
{
    t.marker(id);
}

/// Begin event of the interval marker with `id`.
pub fn marker_begin<T: RtosTrace>(t: &mut T, id: u32)
    ensures
        final(t).events() == old(t).events().push(TraceEvent::MarkerBegin(id)),
{
    t.marker_begin(id);
}

/// End event of the interval marker with `id`.
pub fn marker_end<T: RtosTrace>(t: &mut T, id: u32)
    ensures
        final(t).events() == old(t).events().push(TraceEvent::MarkerEnd(id)),
{
    t.marker_end(id);
}

/// The descriptor a stackless task announces: a name and a priority, with no
/// stack region tracked.
pub open spec fn stackless_info(name: &'static str, priority: u32) -> TaskInfo {
    TaskInfo { name, priority, stack_base: 0, stack_size: 0 }
}

/// Announce a stackless task in one step: its creation immediately followed
/// by its attributes, with no stack region.
pub fn task_new_stackless<T: RtosTrace>(t: &mut T, id: u32, name: &'static str, priority: u32)
    ensures
        final(t).events() == old(t).events().push(TraceEvent::TaskNew(id)).push(
            TraceEvent::TaskSendInfo(id, stackless_info(name, priority)),
        ),
{
    t.task_new(id);
    t.task_send_info(id, TaskInfo { name, priority, stack_base: 0, stack_size: 0 });
}

/// Report one complete task lifecycle: creation, the given info events, then
/// termination.  The backend observes exactly one creation and one
/// termination of `id`, with every descriptor of `infos` strictly between
/// them, in order — see [`crate::events::lemma_lifecycle_well_formed`].
pub fn task_lifecycle<T: RtosTrace>(t: &mut T, id: u32, infos: &Vec<TaskInfo>)
    ensures
        final(t).events() == old(t).events() + lifecycle_events(id, infos@),
{
    let ghost base: Seq<TraceEvent> = t.events();
    t.task_new(id);
    let mut k: usize = 0;
    while k < infos.len()
        invariant
            0 <= k <= infos@.len(),
            t.events() =~= base + seq![TraceEvent::TaskNew(id)] + info_events(id, infos@.take(k as int)),
        decreases infos@.len() - k,
    {
        t.task_send_info(id, infos[k]);
        proof {
            assert(infos@.take(k + 1) =~= infos@.take(k as int).push(infos@[k as int]));
            assert(info_events(id, infos@.take(k + 1)) =~= info_events(
                id,
                infos@.take(k as int),
            ).push(TraceEvent::TaskSendInfo(id, infos@[k as int])));
        }
        k += 1;
    }
    proof {
        assert(infos@.take(infos@.len() as int) =~= infos@);
    }
    t.task_terminate(id);
    proof {
        assert(t.events() =~= base + lifecycle_events(id, infos@));
    }
}

} // verus!
