//! The SystemView backend's verified half.
//!
//! The vendor recorder itself — timestamping, buffering, transport to the
//! host viewer — is an external collaborator reached over unsafe foreign
//! calls, and stays outside this crate.  What belongs to this layer is the
//! shape of the data handed across: the task record a `task_send_info`
//! notification turns into before it is sent, with an empty task name turned
//! into "no name" and the stack fields narrowed to the transport's width.

use vstd::prelude::*;

use crate::TaskInfo;

verus! {

/// The SystemView backend handle.  It carries no state of its own: the
/// recorder's state lives in the vendor library behind the foreign boundary.
pub struct SystemView;

/// One task's attributes in the form the SystemView transport receives.
#[derive(Clone, Copy, PartialEq, Eq, Debug)]
pub struct TaskRecord {
    /// The task's identity.
    pub task_id: u32,
    /// The task's name, or nothing for an unnamed task.
    pub name: Option<&'static str>,
    /// The task's priority number.
    pub prio: u32,
    /// Start address of the stack, narrowed to the transport's width.
    pub stack_base: u32,
    /// Size of the stack in bytes, narrowed likewise.
    pub stack_size: u32,
}

impl SystemView {
    /// A new backend handle.
    pub fn new() -> SystemView {
        SystemView
    }

    /// The record a `task_send_info` notification for `id` with `info` turns
    /// into: an empty name becomes no name at all, and the stack address and
    /// size are truncated to the transport's 32-bit fields.
    pub fn task_record(id: u32, info: &TaskInfo) -> (r: TaskRecord)
        ensures
            r.task_id == id,
            r.prio == info.priority,
            r.stack_base == info.stack_base as u32,
            r.stack_size == info.stack_size as u32,
            info.name@.len() == 0 ==> r.name is None,
            info.name@.len() > 0 ==> r.name == Some(info.name),
    {
        let name = if info.name.is_empty() {
            None
        } else {
            Some(info.name)
        };
        TaskRecord {
            task_id: id,
            name,
            prio: info.priority,
            stack_base: info.stack_base as u32,
            stack_size: info.stack_size as u32,
        }
    }
}

} // verus!
