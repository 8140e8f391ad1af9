//! The closed taxonomy of trace events, and the stream-level facts that give
//! it its meaning: counting functions over event sequences, the shape of a
//! task lifecycle, the snapshot a kernel emits on enumeration, and the
//! discipline properly instrumented code observes around task execution and
//! interrupt entry.

use vstd::prelude::*;

use crate::TaskInfo;

verus! {

/// One discrete notification reported through the trace event interface.
///
/// Events are totally ordered by call sequence on the issuing core; a backend
/// timestamps them at the moment of the call.
#[derive(Clone, Copy, PartialEq, Eq, Debug)]
pub enum TraceEvent {
    /// A task with this identity now exists, pre-scheduling.
    TaskNew(u32),
    /// Descriptive attributes for a live task; may repeat.
    TaskSendInfo(u32, TaskInfo),
    /// The identity is permanently destroyed (until a fresh `TaskNew` reuses it).
    TaskTerminate(u32),
    /// The task begins running on the core.
    TaskExecBegin(u32),
    /// The running task stops executing; at most one runs per core, so no argument.
    TaskExecEnd,
    /// The task enters the ready-to-run set.
    TaskReadyBegin(u32),
    /// The task leaves the ready-to-run set.
    TaskReadyEnd(u32),
    /// The core entered an idle, no-task state.
    SystemIdle,
    /// An interrupt service routine was entered.
    IsrEnter,
    /// The interrupt service routine exited, resuming what ran before.
    IsrExit,
    /// The interrupt service routine exited into a scheduling decision.
    IsrExitToScheduler,
    /// A user-defined instantaneous marker.
    Marker(u32),
    /// Begin of a user-defined interval marker.
    MarkerBegin(u32),
    /// End of a user-defined interval marker.
    MarkerEnd(u32),
}

/// How many events of `s` satisfy `p`.
pub open spec fn count_where(s: Seq<TraceEvent>, p: spec_fn(TraceEvent) -> bool) -> nat
    decreases s.len(),
{
    if s.len() == 0 {
        0
    } else {
        count_where(s.drop_last(), p) + (if p(s.last()) {
            1nat
        } else {
            0nat
        })
    }
}

pub open spec fn is_task_new(e: TraceEvent, id: u32) -> bool {
    e == TraceEvent::TaskNew(id)
}

pub open spec fn is_task_terminate(e: TraceEvent, id: u32) -> bool {
    e == TraceEvent::TaskTerminate(id)
}

pub open spec fn is_task_send_info(e: TraceEvent, id: u32) -> bool {
    e matches TraceEvent::TaskSendInfo(i, _) && i == id
}

pub open spec fn is_exec_begin(e: TraceEvent) -> bool {
    e matches TraceEvent::TaskExecBegin(_)
}

pub open spec fn is_exec_end(e: TraceEvent) -> bool {
    e == TraceEvent::TaskExecEnd
}

pub open spec fn is_isr_enter(e: TraceEvent) -> bool {
    e == TraceEvent::IsrEnter
}

/// Either way out of an interrupt service routine.
pub open spec fn is_isr_exit_any(e: TraceEvent) -> bool {
    e == TraceEvent::IsrExit || e == TraceEvent::IsrExitToScheduler
}

/// Creations of `id` in `s`.
pub open spec fn new_count(s: Seq<TraceEvent>, id: u32) -> nat {
    count_where(s, |e: TraceEvent| is_task_new(e, id))
}

/// Terminations of `id` in `s`.
pub open spec fn terminate_count(s: Seq<TraceEvent>, id: u32) -> nat {
    count_where(s, |e: TraceEvent| is_task_terminate(e, id))
}

/// Info events for `id` in `s`.
pub open spec fn info_count(s: Seq<TraceEvent>, id: u32) -> nat {
    count_where(s, |e: TraceEvent| is_task_send_info(e, id))
}

proof fn lemma_count_where_add(a: Seq<TraceEvent>, b: Seq<TraceEvent>, p: spec_fn(
    TraceEvent,
) -> bool)
    ensures
        count_where(a + b, p) == count_where(a, p) + count_where(b, p),
    decreases b.len(),
{
    if b.len() == 0 {
        assert(a + b =~= a);
    } else {
        lemma_count_where_add(a, b.drop_last(), p);
        assert((a + b).drop_last() =~= a + b.drop_last());
    }
}

proof fn lemma_count_where_none(s: Seq<TraceEvent>, p: spec_fn(TraceEvent) -> bool)
    requires
        forall|i: int| 0 <= i < s.len() ==> !p(s[i]),
    ensures
        count_where(s, p) == 0,
    decreases s.len(),
{
    if s.len() > 0 {
        lemma_count_where_none(s.drop_last(), p);
    }
}

proof fn lemma_count_where_all(s: Seq<TraceEvent>, p: spec_fn(TraceEvent) -> bool)
    requires
        forall|i: int| 0 <= i < s.len() ==> p(s[i]),
    ensures
        count_where(s, p) == s.len(),
    decreases s.len(),
{
    if s.len() > 0 {
        lemma_count_where_all(s.drop_last(), p);
    }
}

/// The info events that associate each descriptor of `infos` with `id`, in order.
pub open spec fn info_events(id: u32, infos: Seq<TaskInfo>) -> Seq<TraceEvent> {
    infos.map_values(|info: TaskInfo| TraceEvent::TaskSendInfo(id, info))
}

/// A complete lifecycle of one identity: creation, the given info events, and
/// termination, in that order and with nothing else in between.
pub open spec fn lifecycle_events(id: u32, infos: Seq<TaskInfo>) -> Seq<TraceEvent> {
    seq![TraceEvent::TaskNew(id)] + info_events(id, infos) + seq![TraceEvent::TaskTerminate(id)]
}

/// A task lifecycle stream is exactly one creation and one termination of its
/// identity — of any other identity, none — with the info events strictly
/// between the two: the creation stands first, the termination last, and
/// every position in between carries one descriptor of `infos`, in order.
pub proof fn lemma_lifecycle_well_formed(id: u32, infos: Seq<TaskInfo>)
    ensures
        lifecycle_events(id, infos).len() == infos.len() + 2,
        lifecycle_events(id, infos).first() == TraceEvent::TaskNew(id),
        lifecycle_events(id, infos).last() == TraceEvent::TaskTerminate(id),
        forall|k: int|
            1 <= k <= infos.len() ==> lifecycle_events(id, infos)[k] == TraceEvent::TaskSendInfo(
                id,
                infos[k - 1],
            ),
        forall|j: u32| #[trigger] new_count(lifecycle_events(id, infos), j) == (if j == id {
            1nat
        } else {
            0nat
        }),
        forall|j: u32| #[trigger] terminate_count(lifecycle_events(id, infos), j) == (if j == id {
            1nat
        } else {
            0nat
        }),
        info_count(lifecycle_events(id, infos), id) == infos.len(),
{
    let s = lifecycle_events(id, infos);
    let mid = info_events(id, infos);
    assert forall|j: u32| #[trigger] new_count(s, j) == (if j == id {
        1nat
    } else {
        0nat
    }) by {
        let p = |e: TraceEvent| is_task_new(e, j);
        lemma_count_where_add(seq![TraceEvent::TaskNew(id)] + mid, seq![TraceEvent::TaskTerminate(id)], p);
        lemma_count_where_add(seq![TraceEvent::TaskNew(id)], mid, p);
        lemma_count_where_none(mid, p);
        reveal_with_fuel(count_where, 2);
    }
    assert forall|j: u32| #[trigger] terminate_count(s, j) == (if j == id {
        1nat
    } else {
        0nat
    }) by {
        let p = |e: TraceEvent| is_task_terminate(e, j);
        lemma_count_where_add(seq![TraceEvent::TaskNew(id)] + mid, seq![TraceEvent::TaskTerminate(id)], p);
        lemma_count_where_add(seq![TraceEvent::TaskNew(id)], mid, p);
        lemma_count_where_none(mid, p);
        reveal_with_fuel(count_where, 2);
    }
    let q = |e: TraceEvent| is_task_send_info(e, id);
    lemma_count_where_add(seq![TraceEvent::TaskNew(id)] + mid, seq![TraceEvent::TaskTerminate(id)], q);
    lemma_count_where_add(seq![TraceEvent::TaskNew(id)], mid, q);
    lemma_count_where_all(mid, q);
    reveal_with_fuel(count_where, 2);
}

/// The two events that introduce one live task during an enumeration.
pub open spec fn task_pair_events(id: u32, info: TaskInfo) -> Seq<TraceEvent> {
    seq![TraceEvent::TaskNew(id), TraceEvent::TaskSendInfo(id, info)]
}

/// The consistent snapshot a kernel emits for its live tasks: one creation
/// immediately followed by one info event per task, in table order.
pub open spec fn snapshot_events(tasks: Seq<(u32, TaskInfo)>) -> Seq<TraceEvent>
    decreases tasks.len(),
{
    if tasks.len() == 0 {
        Seq::empty()
    } else {
        snapshot_events(tasks.drop_last()) + task_pair_events(
            tasks.last().0,
            tasks.last().1,
        )
    }
}

/// Growing the enumerated prefix by one task appends exactly that task's pair.
pub proof fn lemma_snapshot_take_step(tasks: Seq<(u32, TaskInfo)>, k: int)
    requires
        0 <= k < tasks.len(),
    ensures
        snapshot_events(tasks.take(k + 1)) == snapshot_events(tasks.take(k)) + task_pair_events(
            tasks[k].0,
            tasks[k].1,
        ),
{
    assert(tasks.take(k + 1).drop_last() =~= tasks.take(k));
    assert(tasks.take(k + 1).last() == tasks[k]);
}

/// A snapshot is two events per live task — the creation at the even index,
/// its info event right after — and terminates nobody.
pub proof fn lemma_snapshot_shape(tasks: Seq<(u32, TaskInfo)>)
    ensures
        snapshot_events(tasks).len() == 2 * tasks.len(),
        forall|k: int|
            0 <= k < tasks.len() ==> snapshot_events(tasks)[2 * k] == TraceEvent::TaskNew(
                (#[trigger] tasks[k]).0,
            ) && snapshot_events(tasks)[2 * k + 1] == TraceEvent::TaskSendInfo(
                tasks[k].0,
                tasks[k].1,
            ),
        forall|j: u32| #[trigger] terminate_count(snapshot_events(tasks), j) == 0,
    decreases tasks.len(),
{
    let s = snapshot_events(tasks);
    if tasks.len() == 0 {
        assert forall|j: u32| #[trigger] terminate_count(s, j) == 0 by {
            lemma_count_where_none(s, |e: TraceEvent| is_task_terminate(e, j));
        }
    } else {
        let front = tasks.drop_last();
        lemma_snapshot_shape(front);
        assert forall|k: int|
            0 <= k < tasks.len() implies s[2 * k] == TraceEvent::TaskNew(
            (#[trigger] tasks[k]).0,
        ) && s[2 * k + 1] == TraceEvent::TaskSendInfo(tasks[k].0, tasks[k].1) by {
            if k < tasks.len() - 1 {
                assert(front[k] == tasks[k]);
                assert(s[2 * k] == snapshot_events(front)[2 * k]);
                assert(s[2 * k + 1] == snapshot_events(front)[2 * k + 1]);
            }
        }
        assert forall|j: u32| #[trigger] terminate_count(s, j) == 0 by {
            let p = |e: TraceEvent| is_task_terminate(e, j);
            assert(terminate_count(snapshot_events(front), j) == 0);
            lemma_count_where_add(
                snapshot_events(front),
                task_pair_events(tasks.last().0, tasks.last().1),
                p,
            );
            lemma_count_where_none(task_pair_events(tasks.last().0, tasks.last().1), p);
        }
    }
}

/// When the enumerated identities are unique — as a kernel's live-task set
/// is — the snapshot introduces each live identity exactly once and an
/// identity not in the set not at all.
pub proof fn lemma_snapshot_counts(tasks: Seq<(u32, TaskInfo)>, j: u32)
    requires
        forall|a: int, b: int|
            0 <= a < b < tasks.len() ==> (#[trigger] tasks[a]).0 != (#[trigger] tasks[b]).0,
    ensures
        new_count(snapshot_events(tasks), j) == (if exists|i: int|
            0 <= i < tasks.len() && (#[trigger] tasks[i]).0 == j {
            1nat
        } else {
            0nat
        }),
    decreases tasks.len(),
{
    let p = |e: TraceEvent| is_task_new(e, j);
    if tasks.len() == 0 {
    } else {
        let front = tasks.drop_last();
        let last = tasks.last();
        lemma_snapshot_counts(front, j);
        assert(new_count(snapshot_events(front), j) == count_where(snapshot_events(front), p));
        lemma_count_where_add(snapshot_events(front), task_pair_events(last.0, last.1), p);
        reveal_with_fuel(count_where, 3);
        if last.0 == j {
            // Uniqueness keeps `j` out of the front, so the pair's single
            // creation is the only one.
            assert(forall|i: int|
                0 <= i < front.len() ==> (#[trigger] front[i]) == tasks[i]);
            assert(!(exists|i: int| 0 <= i < front.len() && (#[trigger] front[i]).0 == j));
            assert(tasks[tasks.len() - 1].0 == j);
        } else {
            if exists|i: int| 0 <= i < tasks.len() && (#[trigger] tasks[i]).0 == j {
                let w = choose|i: int| 0 <= i < tasks.len() && (#[trigger] tasks[i]).0 == j;
                assert(w < tasks.len() - 1);
                assert(front[w].0 == j);
            }
        }
    }
}

/// Which task is executing on the core after the stream `s`: the backend's
/// per-core "currently executing" state, driven by the begin and end events
/// alone.
pub open spec fn running_after(s: Seq<TraceEvent>) -> Option<u32>
    decreases s.len(),
{
    if s.len() == 0 {
        None
    } else {
        match s.last() {
            TraceEvent::TaskExecBegin(id) => Some(id),
            TraceEvent::TaskExecEnd => None,
            _ => running_after(s.drop_last()),
        }
    }
}

/// Properly instrumented code never begins executing a task while another
/// execution is still active, and never ends an execution that never began:
/// begin and end events alternate strictly.
pub open spec fn exec_disciplined(s: Seq<TraceEvent>) -> bool {
    forall|i: int|
        0 <= i < s.len() ==> {
            &&& (is_exec_begin(#[trigger] s[i]) ==> running_after(s.take(i)) is None)
            &&& (is_exec_end(s[i]) ==> running_after(s.take(i)) is Some)
        }
}

/// Executions begun, over the whole stream regardless of identity.
pub open spec fn exec_begin_count(s: Seq<TraceEvent>) -> nat {
    count_where(s, |e: TraceEvent| is_exec_begin(e))
}

/// Executions ended.
pub open spec fn exec_end_count(s: Seq<TraceEvent>) -> nat {
    count_where(s, |e: TraceEvent| is_exec_end(e))
}

/// In a disciplined stream at most one task executes at a time: every begin
/// is answered by an end before the next begin, so the begins never get more
/// than one ahead of the ends, and exactly one ahead precisely while a task
/// is running.
pub proof fn lemma_exec_discipline_counts(s: Seq<TraceEvent>)
    requires
        exec_disciplined(s),
    ensures
        exec_begin_count(s) == exec_end_count(s) + (if running_after(s) is Some {
            1nat
        } else {
            0nat
        }),
        exec_end_count(s) <= exec_begin_count(s) <= exec_end_count(s) + 1,
    decreases s.len(),
{
    if s.len() > 0 {
        let front = s.drop_last();
        assert(exec_disciplined(front)) by {
            assert forall|i: int| 0 <= i < front.len() implies {
                &&& (is_exec_begin(#[trigger] front[i]) ==> running_after(front.take(i)) is None)
                &&& (is_exec_end(front[i]) ==> running_after(front.take(i)) is Some)
            } by {
                assert(front[i] == s[i]);
                assert(front.take(i) =~= s.take(i));
            }
        }
        lemma_exec_discipline_counts(front);
        assert(s.take(s.len() - 1) =~= front);
        assert(s[s.len() - 1] == s.last());
    }
}

/// Discipline is closed under prefixes, so the alternation holds at every
/// point of the stream, not only at its end: nowhere have more begins than
/// ends-plus-one been observed.
pub proof fn lemma_exec_discipline_prefix(s: Seq<TraceEvent>, i: int)
    requires
        exec_disciplined(s),
        0 <= i <= s.len(),
    ensures
        exec_end_count(s.take(i)) <= exec_begin_count(s.take(i)) <= exec_end_count(s.take(i)) + 1,
{
    let front = s.take(i);
    assert(exec_disciplined(front)) by {
        assert forall|k: int| 0 <= k < front.len() implies {
            &&& (is_exec_begin(#[trigger] front[k]) ==> running_after(front.take(k)) is None)
            &&& (is_exec_end(front[k]) ==> running_after(front.take(k)) is Some)
        } by {
            assert(front[k] == s[k]);
            assert(front.take(k) =~= s.take(k));
        }
    }
    lemma_exec_discipline_counts(front);
}

/// Interrupt nesting depth after the stream `s`: enters minus exits, where
/// either exit kind closes the innermost enter.
pub open spec fn isr_depth(s: Seq<TraceEvent>) -> int
    decreases s.len(),
{
    if s.len() == 0 {
        0
    } else {
        isr_depth(s.drop_last()) + (if is_isr_enter(s.last()) {
            1int
        } else if is_isr_exit_any(s.last()) {
            -1int
        } else {
            0int
        })
    }
}

/// No exit event ever runs ahead of its enter.
pub open spec fn isr_disciplined(s: Seq<TraceEvent>) -> bool {
    forall|i: int| 0 <= i <= s.len() ==> isr_depth(#[trigger] s.take(i)) >= 0
}

/// Every entered interrupt service routine has also been left again.
pub open spec fn isr_balanced(s: Seq<TraceEvent>) -> bool {
    isr_disciplined(s) && isr_depth(s) == 0
}

pub open spec fn isr_enter_count(s: Seq<TraceEvent>) -> nat {
    count_where(s, |e: TraceEvent| is_isr_enter(e))
}

/// Exits of either kind, counted together: an enter is closed by one exit or
/// by one exit-to-scheduler, never by both.
pub open spec fn isr_exit_count(s: Seq<TraceEvent>) -> nat {
    count_where(s, |e: TraceEvent| is_isr_exit_any(e))
}

/// The nesting depth is exactly the surplus of enters over exits of either kind.
pub proof fn lemma_isr_depth_counts(s: Seq<TraceEvent>)
    ensures
        isr_depth(s) == isr_enter_count(s) - isr_exit_count(s),
    decreases s.len(),
{
    if s.len() > 0 {
        lemma_isr_depth_counts(s.drop_last());
    }
}

/// In a balanced stream the enters are exactly paired with the exits: each
/// `IsrEnter` is answered by exactly one of the two exit events — never both,
/// never neither — so the counts agree.
pub proof fn lemma_isr_balanced_pairing(s: Seq<TraceEvent>)
    requires
        isr_balanced(s),
    ensures
        isr_enter_count(s) == isr_exit_count(s),
{
    lemma_isr_depth_counts(s);
}

} // verus!
