//! The trap frame: the register state saved at interrupt entry.
use vstd::prelude::*;

verus! {

/// Every register that the interrupt entry sequence saves, listed in the
/// order in which that sequence lays them out in memory: the fault-address
/// register first, the instruction pointer last.
#[derive(Clone, Copy, Debug, PartialEq, Eq)]
pub struct TrapFrame {
    pub cr2: u64,
    pub r15: u64,
    pub r14: u64,
    pub r13: u64,
    pub r12: u64,
    pub r11: u64,
    pub r10: u64,
    pub r9: u64,
    pub r8: u64,
    pub rbp: u64,
    pub rdi: u64,
    pub rsi: u64,
    pub rdx: u64,
    pub rcx: u64,
    pub rbx: u64,
    pub rax: u64,
    pub rsp: u64,
    pub ip: u64,
}

/// The frame with every register zero.
pub open spec fn zero_frame() -> TrapFrame {
    TrapFrame {
        cr2: 0,
        r15: 0,
        r14: 0,
        r13: 0,
        r12: 0,
        r11: 0,
        r10: 0,
        r9: 0,
        r8: 0,
        rbp: 0,
        rdi: 0,
        rsi: 0,
        rdx: 0,
        rcx: 0,
        rbx: 0,
        rax: 0,
        rsp: 0,
        ip: 0,
    }
}

impl Default for TrapFrame {
    /// The frame with every register zero.
    fn default() -> (r: TrapFrame)
        ensures
            r == zero_frame(),
    {
        TrapFrame {
            cr2: 0,
            r15: 0,
            r14: 0,
            r13: 0,
            r12: 0,
            r11: 0,
            r10: 0,
            r9: 0,
            r8: 0,
            rbp: 0,
            rdi: 0,
            rsi: 0,
            rdx: 0,
            rcx: 0,
            rbx: 0,
            rax: 0,
            rsp: 0,
            ip: 0,
        }
    }
}

impl TrapFrame {
    /// A frame that starts executing at `ip` on the stack `rsp`, with every
    /// other register zero.
    pub fn with_entry(ip: u64, rsp: u64) -> (r: TrapFrame)
        ensures
            r == (TrapFrame { ip, rsp, ..zero_frame() }),
    {
        TrapFrame { ip, rsp, ..TrapFrame::default() }
    }
}

} // verus!
