use vstd::prelude::*;
use crate::proc::context::ProcessContext;
use x86_64::structures::idt::InterruptStackFrame;
use x86_64::structures::paging::OffsetPageTable;

pub mod context;

verus! {

/// The identifier of a process.
#[derive(Debug, Clone, Copy, PartialEq, Eq, PartialOrd, Ord, Structural)]
pub struct ProcessId(pub u64);

/// Hands out process identifiers in increasing order, starting from zero and
/// wrapping around after `u64::MAX`.
pub struct ProcessIdCounter {
    next: u64,
}

/// The counter value after `n` more identifiers have been handed out from `start`.
pub open spec fn counter_after(start: u64, n: nat) -> u64 {
    ((start + n) % 0x1_0000_0000_0000_0000) as u64
}

impl ProcessIdCounter {
    /// The identifier the counter hands out next.
    pub closed spec fn next_id(self) -> u64 {
        self.next
    }

    /// A counter that starts at zero.
    pub fn new() -> (r: Self)
        ensures
            r.next_id() == 0,
    {
        ProcessIdCounter { next: 0 }
    }
}

impl ProcessId {
    /// Takes the next identifier from `ids` and advances it by one, wrapping around.
    pub fn new(ids: &mut ProcessIdCounter) -> (r: Self)
        ensures
            r.0 == old(ids).next_id(),
            final(ids).next_id() == counter_after(old(ids).next_id(), 1),
    {
        let id = ids.next;
        ids.next = ids.next.wrapping_add(1);
        ProcessId(id)
    }
}

/// Identifiers handed out by one counter repeat only after 2^64 of them: the `i`-th
/// and the `j`-th identifier after the same start differ when `i < j < 2^64`.
pub proof fn lemma_ids_distinct(start: u64, i: nat, j: nat)
    requires
        i < j < 0x1_0000_0000_0000_0000,
    ensures
        counter_after(start, i) != counter_after(start, j),
{
}

/// Taking `m` identifiers and then `n` more advances a counter as taking `m + n` at once,
/// so the `k`-th identifier after `start` is `counter_after(start, k)`.
pub proof fn lemma_counter_after_add(start: u64, m: nat, n: nat)
    ensures
        counter_after(counter_after(start, m), n) == counter_after(start, m + n),
{
    vstd::arithmetic::div_mod::lemma_add_mod_noop_right(n as int, start + m, 0x1_0000_0000_0000_0000);
}

/// The life-cycle state of a process.
#[derive(Debug, Clone, Copy, PartialEq, Eq, PartialOrd, Ord, Structural)]
pub enum ProcessStatus {
    Created,
    Ready,
    Running,
    Blocked,
    Waiting,
    Dead,
}

/// A hardware privilege ring.
#[derive(Debug, Clone, Copy, PartialEq, Eq, Structural)]
pub enum Privilege {
    /// Kernel mode.
    Ring0,
    Ring1,
    Ring2,
    /// User mode.
    Ring3,
}

/// The control block of a process.
pub struct Process {
    id: ProcessId,
    context: ProcessContext,
    status: ProcessStatus,
    father: ProcessId,
    privilege: Privilege,
}

impl Process {
    /// A freshly created kernel process: it takes the next identifier from `ids`, is its
    /// own father, runs in ring 0 and starts with zeroed registers.
    pub fn init(
        ids: &mut ProcessIdCounter,
        page_table: OffsetPageTable<'static>,
        stack_frame: InterruptStackFrame,
    ) -> (r: Self)
        ensures
            r.id().0 == old(ids).next_id(),
            final(ids).next_id() == counter_after(old(ids).next_id(), 1),
            r.father() == r.id(),
            r.status() == ProcessStatus::Created,
            r.privilege() == Privilege::Ring0,
            r.context().page_table == page_table,
            r.context().stack_frame == stack_frame,
            r.context().registers.is_zeroed(),
    {
        let id = ProcessId::new(ids);
        Self {
            id,
            context: ProcessContext::new(page_table, stack_frame),
            father: id,
            privilege: Privilege::Ring0,
            status: ProcessStatus::Created,
        }
    }

    /// The process identifier.
    pub closed spec fn id(self) -> ProcessId {
        self.id
    }

    /// The identifier of the process that created this one.
    pub closed spec fn father(self) -> ProcessId {
        self.father
    }

    /// The life-cycle state.
    pub closed spec fn status(self) -> ProcessStatus {
        self.status
    }

    /// The privilege ring the process runs in.
    pub closed spec fn privilege(self) -> Privilege {
        self.privilege
    }

    /// The saved execution context.
    pub closed spec fn context(self) -> ProcessContext {
        self.context
    }
}

} // verus!
