use vstd::prelude::*;

verus! {

/// Vector offset of the primary PIC: its IRQs land on vectors 32..40.
pub const PIC_1_OFFSET: u8 = 32;

/// Vector offset of the secondary PIC, right after the primary one.
pub const PIC_2_OFFSET: u8 = 40;

/// Vector used for software interrupts (system calls).
pub const SOFTWARE_OFFSET: u8 = 0x80;

/// The hardware and software interrupts the kernel installs handlers for.
#[derive(Debug, Clone, Copy, PartialEq, Eq)]
pub enum InterruptIndex {
    /// Timer IRQ 0 of the primary PIC.
    Timer,
    /// Keyboard IRQ 1 of the primary PIC.
    Keyboard,
    /// The `int 0x80` system call vector.
    Software,
}

/// The interrupt vector number of each index.
pub open spec fn vector_of(index: InterruptIndex) -> u8 {
    match index {
        InterruptIndex::Timer => PIC_1_OFFSET,
        InterruptIndex::Keyboard => (PIC_1_OFFSET + 1) as u8,
        InterruptIndex::Software => SOFTWARE_OFFSET,
    }
}

impl InterruptIndex {
    /// The interrupt vector number of this index.
    pub fn as_u8(self) -> (r: u8)
        ensures
            r == vector_of(self),
    {
        match self {
            InterruptIndex::Timer => PIC_1_OFFSET,
            InterruptIndex::Keyboard => PIC_1_OFFSET + 1,
            InterruptIndex::Software => SOFTWARE_OFFSET,
        }
    }

    /// The interrupt vector number of this index, as a table position.
    pub fn as_usize(self) -> (r: usize)
        ensures
            r == vector_of(self) as usize,
    {
        self.as_u8() as usize
    }
}

/// Distinct indices are installed on distinct vectors, and the timer and keyboard
/// vectors belong to the primary PIC.
pub proof fn lemma_vectors_distinct(a: InterruptIndex, b: InterruptIndex)
    ensures
        a != b ==> vector_of(a) != vector_of(b),
        PIC_1_OFFSET <= vector_of(InterruptIndex::Timer) < PIC_2_OFFSET,
        PIC_1_OFFSET <= vector_of(InterruptIndex::Keyboard) < PIC_2_OFFSET,
{
}

} // verus!
