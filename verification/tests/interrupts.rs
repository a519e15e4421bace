use kfs_v2::interrupts::{InterruptIndex, PIC_1_OFFSET, PIC_2_OFFSET, SOFTWARE_OFFSET};

#[test]
fn interrupt_vectors() {
    assert_eq!(InterruptIndex::Timer.as_u8(), 32);
    assert_eq!(InterruptIndex::Keyboard.as_u8(), 33);
    assert_eq!(InterruptIndex::Software.as_u8(), 0x80);
    assert_eq!(InterruptIndex::Keyboard.as_usize(), 33usize);
    assert_eq!(PIC_1_OFFSET, 32);
    assert_eq!(PIC_2_OFFSET, PIC_1_OFFSET + 8);
    assert_eq!(SOFTWARE_OFFSET, 0x80);
}
