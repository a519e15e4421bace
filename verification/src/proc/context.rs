use vstd::prelude::*;
use x86_64::structures::idt::InterruptStackFrame;
use x86_64::structures::paging::OffsetPageTable;

verus! {

#[verifier::external_type_specification]
#[verifier::external_body]
pub struct ExOffsetPageTable<'a>(OffsetPageTable<'a>);

#[verifier::external_type_specification]
#[verifier::external_body]
pub struct ExInterruptStackFrame(InterruptStackFrame);

/// What is saved of a process when the CPU switches away from it: its address
/// space, the frame the interrupt pushed, and its general-purpose registers.
pub struct ProcessContext {
    pub page_table: OffsetPageTable<'static>,
    pub stack_frame: InterruptStackFrame,
    pub registers: Registers,
}

impl ProcessContext {
    /// A context over the given address space and interrupt frame, with all registers zero.
    pub fn new(page_table: OffsetPageTable<'static>, stack_frame: InterruptStackFrame) -> (r: Self)
        ensures
            r.page_table == page_table,
            r.stack_frame == stack_frame,
            r.registers.is_zeroed(),
    {
        Self { page_table, stack_frame, registers: Registers::default() }
    }
}

/// The saved general-purpose registers of a process, by width.
pub struct Registers {
    // 64 bits
    pub rax: u64,
    pub rbx: u64,
    pub rcx: u64,
    pub rdx: u64,
    // 32 bits
    pub eax: u32,
    pub ebx: u32,
    pub ecx: u32,
    pub edx: u32,
    // 16 bits
    pub ax: u16,
    pub bx: u16,
    pub cx: u16,
    pub dx: u16,
    // 8 bits
    pub ah: u8,
    pub al: u8,
    pub bh: u8,
    pub bl: u8,
    pub ch: u8,
    pub cl: u8,
    pub dh: u8,
    pub dl: u8,
}

impl Registers {
    /// Every saved register holds zero.
    pub open spec fn is_zeroed(&self) -> bool {
        &&& self.rax == 0 && self.rbx == 0 && self.rcx == 0 && self.rdx == 0
        &&& self.eax == 0 && self.ebx == 0 && self.ecx == 0 && self.edx == 0
        &&& self.ax == 0 && self.bx == 0 && self.cx == 0 && self.dx == 0
        &&& self.ah == 0 && self.al == 0 && self.bh == 0 && self.bl == 0
        &&& self.ch == 0 && self.cl == 0 && self.dh == 0 && self.dl == 0
    }
}

impl Default for Registers {
    /// All registers zero.
    fn default() -> (r: Self)
        ensures
            r.is_zeroed(),
    {
        Registers {
            rax: 0,
            rbx: 0,
            rcx: 0,
            rdx: 0,
            eax: 0,
            ebx: 0,
            ecx: 0,
            edx: 0,
            ax: 0,
            bx: 0,
            cx: 0,
            dx: 0,
            ah: 0,
            al: 0,
            bh: 0,
            bl: 0,
            ch: 0,
            cl: 0,
            dh: 0,
            dl: 0,
        }
    }
}

} // verus!
