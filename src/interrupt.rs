//! Trap dispatch: what each interrupt or exception does to the interrupted
//! register state.
use vstd::prelude::*;
use crate::process::{ProcessTable, switch_to_process1};
use crate::trap::TrapFrame;

verus! {

/// Vector of the breakpoint exception.
pub const BREAKPOINT_VECTOR: u64 = 3;

/// Vector of the double-fault exception.
pub const DOUBLE_FAULT_VECTOR: u64 = 8;

/// Vector of the page-fault exception.
pub const PAGE_FAULT_VECTOR: u64 = 14;

/// Vector of the timer interrupt, which drives scheduling.
pub const TIMER_VECTOR: u64 = 32;

/// Id of the process that every enabled timer tick switches to.
pub const SCHEDULE_TARGET: usize = 1;

/// What the kernel does after reporting an exception.
#[derive(Clone, Copy, Debug, PartialEq, Eq, Structural)]
pub enum FaultAction {
    /// Diagnostic only: return to the interrupted code.
    Resume,
    /// Fatal: halt the processor.
    Halt,
}

/// The register state that dispatch leaves for the return from interrupt
/// `vector`, given the outcome `schedule` of the non-blocking read of the
/// scheduling flag (`None` when a writer held it).
pub open spec fn dispatch_result(
    vector: u64,
    schedule: Option<bool>,
    table: Map<usize, crate::process::Process>,
    frame: TrapFrame,
) -> TrapFrame {
    if vector == TIMER_VECTOR && schedule == Some(true) {
        table[SCHEDULE_TARGET].ctx
    } else {
        frame
    }
}

/// Handles interrupt `vector` on the saved register state `frame`. On a
/// timer tick with scheduling enabled, the whole frame is overwritten with the
/// saved state of the scheduling target, so that the return from interrupt
/// resumes that process; in every other case, including a tick on which the
/// flag could not be read, the frame is left as it was. The scheduling target
/// must exist once scheduling is enabled.
pub fn dispatch(vector: u64, schedule: Option<bool>, table: &ProcessTable, frame: &mut TrapFrame)
    requires
        vector == TIMER_VECTOR && schedule == Some(true) ==> table@.contains_key(SCHEDULE_TARGET),
    ensures
        *final(frame) == dispatch_result(vector, schedule, table@, *old(frame)),
{
    if vector == TIMER_VECTOR {
        match schedule {
            Some(true) => {
                *frame = switch_to_process1(table);
            },
            _ => {},
        }
    }
}

/// What follows an exception with vector `vector`: a breakpoint resumes,
/// a double fault or a page fault halts.
pub fn exception_action(vector: u64) -> (r: FaultAction)
    requires
        vector == BREAKPOINT_VECTOR || vector == DOUBLE_FAULT_VECTOR || vector
            == PAGE_FAULT_VECTOR,
    ensures
        r == (if vector == BREAKPOINT_VECTOR {
            FaultAction::Resume
        } else {
            FaultAction::Halt
        }),
{
    if vector == BREAKPOINT_VECTOR {
        FaultAction::Resume
    } else {
        FaultAction::Halt
    }
}

/// Turns the scheduling flag on, provided the scheduling target exists;
/// says whether the flag is on afterwards. Records are never removed, so the
/// target keeps existing while the flag is on.
pub fn enable_scheduling(table: &ProcessTable, flag: &mut bool) -> (r: bool)
    ensures
        r == (*old(flag) || table@.contains_key(SCHEDULE_TARGET)),
        *final(flag) == r,
{
    if table.contains(SCHEDULE_TARGET) {
        *flag = true;
    }
    *flag
}

} // verus!
