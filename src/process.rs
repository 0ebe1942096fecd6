//! The process table: process records keyed by process id.
use vstd::prelude::*;
use std::collections::BTreeMap;
use crate::addr::{PAGE_SIZE, PHYSICAL_MEMORY_OFFSET, phys_to_virt};
use crate::bitalloc::{FrameAllocator, alloc_spec};
use crate::trap::{TrapFrame, zero_frame};

verus! {

broadcast use vstd::laws_cmp::group_laws_cmp, vstd::std_specs::btree::group_btree_axioms;

/// Id of the idle process, created first and never removed.
pub const IDLE_PID: usize = 0;

/// Lifecycle state of a process.
#[derive(Clone, Copy, Debug, PartialEq, Eq, Structural)]
pub enum ProcessState {
    Busy,
    Wait,
    Running,
}

/// One process record: its saved register state, its id, its lifecycle
/// state, and whether it runs in kernel mode.
#[derive(Clone, Copy, Debug, PartialEq, Eq)]
pub struct Process {
    pub ctx: TrapFrame,
    pub pid: usize,
    pub state: ProcessState,
    pub is_kernel: bool,
}

impl Process {
    /// Replaces the saved register state.
    pub fn set_ctx(&mut self, ctx: TrapFrame)
        ensures
            *final(self) == (Process { ctx, ..*old(self) }),
    {
        self.ctx = ctx;
    }
}

/// The record that `create(id, ctx, is_kernel)` stores.
pub open spec fn new_record(id: usize, ctx: TrapFrame, is_kernel: bool) -> Process {
    Process { ctx, pid: id, state: ProcessState::Running, is_kernel }
}

/// Every record sits under its own id.
pub open spec fn keyed_by_pid(m: Map<usize, Process>) -> bool {
    forall|k: usize| #[trigger] m.contains_key(k) ==> m[k].pid == k
}

/// The table of all processes, keyed by process id.
pub struct ProcessTable {
    procs: BTreeMap<usize, Process>,
}

impl View for ProcessTable {
    type V = Map<usize, Process>;

    closed spec fn view(&self) -> Map<usize, Process> {
        self.procs@
    }
}

impl ProcessTable {
    /// An empty table.
    pub fn new() -> (r: ProcessTable)
        ensures
            r@ == Map::<usize, Process>::empty(),
            keyed_by_pid(r@),
    {
        ProcessTable { procs: BTreeMap::new() }
    }

    /// Inserts a running record for `id` with saved state `ctx`. A record
    /// already stored under `id` is replaced.
    pub fn create(&mut self, id: usize, ctx: TrapFrame, is_kernel: bool)
        ensures
            final(self)@ == old(self)@.insert(id, new_record(id, ctx, is_kernel)),
            keyed_by_pid(old(self)@) ==> keyed_by_pid(final(self)@),
    {
        let p = Process { ctx, pid: id, state: ProcessState::Running, is_kernel };
        self.procs.insert(id, p);
    }

    /// The record stored under `id`, if any.
    pub fn get(&self, id: usize) -> (r: Option<&Process>)
        ensures
            match r {
                Some(p) => self@.contains_key(id) && *p == self@[id],
                None => !self@.contains_key(id),
            },
    {
        self.procs.get(&id)
    }

    /// Whether a record is stored under `id`.
    pub fn contains(&self, id: usize) -> (r: bool)
        ensures
            r == self@.contains_key(id),
    {
        self.procs.contains_key(&id)
    }

    /// The saved register state of process `id`, if it exists.
    pub fn context_of(&self, id: usize) -> (r: Option<TrapFrame>)
        ensures
            match r {
                Some(c) => self@.contains_key(id) && c == self@[id].ctx,
                None => !self@.contains_key(id),
            },
    {
        match self.procs.get(&id) {
            Some(p) => Some(p.ctx),
            None => None,
        }
    }

    /// Number of processes in the table.
    pub fn len(&self) -> (r: usize)
        ensures
            r == self@.len(),
    {
        self.procs.len()
    }
}

/// Creates the idle process, id 0, with an all-zero saved state.
pub fn init_kernel_process(table: &mut ProcessTable)
    ensures
        final(table)@ == old(table)@.insert(IDLE_PID, new_record(IDLE_PID, zero_frame(), true)),
{
    create_kernel_process(table, IDLE_PID);
}

/// Creates kernel process `pid` with an all-zero saved state.
pub fn create_kernel_process(table: &mut ProcessTable, pid: usize)
    ensures
        final(table)@ == old(table)@.insert(pid, new_record(pid, zero_frame(), true)),
{
    table.create(pid, TrapFrame::default(), true);
}

/// Creates kernel process `pid` with saved state `ctx`.
pub fn create_kernel_process2(table: &mut ProcessTable, pid: usize, ctx: TrapFrame)
    ensures
        final(table)@ == old(table)@.insert(pid, new_record(pid, ctx, true)),
{
    table.create(pid, ctx, true);
}

/// The saved register state of process 1, the fixed scheduling target.
pub fn switch_to_process1(table: &ProcessTable) -> (r: TrapFrame)
    requires
        table@.contains_key(1),
    ensures
        r == table@[1].ctx,
{
    match table.get(1) {
        Some(p) => p.ctx,
        None => TrapFrame::default(),
    }
}

/// Creates kernel process `pid` that starts executing at `entry` on a fresh
/// one-frame stack: a frame is taken from the allocator and the stack pointer
/// set to the top of that frame, seen through the physical-memory window.
/// Returns the stack frame and the saved state given to the process; `None`,
/// with the table unchanged, when no frame is free.
pub fn spawn_kernel_process(
    frames: &mut FrameAllocator,
    table: &mut ProcessTable,
    pid: usize,
    entry: u64,
) -> (r: Option<(usize, TrapFrame)>)
    requires
        old(frames)@.len() * 0x1000 + PHYSICAL_MEMORY_OFFSET <= u64::MAX,
    ensures
        match r {
            None => {
                &&& alloc_spec(old(frames)@, final(frames)@, None)
                &&& final(table)@ == old(table)@
            },
            Some((f, ctx)) => {
                &&& alloc_spec(old(frames)@, final(frames)@, Some(f))
                &&& ctx == (TrapFrame {
                    ip: entry,
                    rsp: (PHYSICAL_MEMORY_OFFSET + (f + 1) * 0x1000) as u64,
                    ..zero_frame()
                })
                &&& final(table)@ == old(table)@.insert(pid, new_record(pid, ctx, true))
            },
        },
{
    match frames.allocate() {
        None => None,
        Some(f) => {
            proof {
                let len = old(frames)@.len();
                assert((f + 1) * 0x1000 <= len * 0x1000) by (nonlinear_arith)
                    requires
                        f < len,
                ;
            }
            let top: u64 = (f as u64 + 1) * PAGE_SIZE;
            let ctx = TrapFrame::with_entry(entry, phys_to_virt(top));
            create_kernel_process2(table, pid, ctx);
            Some((f, ctx))
        },
    }
}

/// A lookup right after `create(id, ctx, is_kernel)` finds a running record
/// for `id` whose saved state is `ctx` exactly, and every other record is
/// as it was.
pub proof fn lemma_create_then_lookup(
    m: Map<usize, Process>,
    id: usize,
    ctx: TrapFrame,
    is_kernel: bool,
    other: usize,
)
    ensures
        ({
            let after = m.insert(id, new_record(id, ctx, is_kernel));
            &&& after.contains_key(id)
            &&& after[id].ctx == ctx
            &&& after[id].pid == id
            &&& after[id].state == ProcessState::Running
            &&& after[id].is_kernel == is_kernel
            &&& other != id ==> (after.contains_key(other) == m.contains_key(other))
            &&& other != id && m.contains_key(other) ==> after[other] == m[other]
        }),
{
}

} // verus!
