//! Keyboard input: the scancode queue between the interrupt handler and the input
//! task, key decoding, the line editor and the debug console commands.
pub mod console;
pub mod keyboard;
