//! Verified core of a small x86_64 hobby kernel: the VGA text console model,
//! interrupt vector numbering, process records, the four-level page-table walk
//! and the keyboard/console input handling.
pub mod interrupts;
pub mod vga_buffer;
pub mod proc;
pub mod memory;
pub mod task;
