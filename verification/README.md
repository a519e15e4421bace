# kfs_v2

The verified core of a small x86_64 hobby kernel.

`src/` is the library, verified with Verus:

- `vga_buffer`: the 25 x 80 VGA text console as a model (scrolling, backspace,
  placeholder glyphs, the blinking timer dot, the cursor port writes), with its
  behaviour stated as functions on the screen cells.
- `interrupts`: the interrupt vector numbering.
- `proc`: process identifiers, process control blocks and saved registers.
- `memory`: the four-level page-table walk, one table read at a time.
- `task`: the scancode queue between the keyboard interrupt and the input task,
  key decoding, the line editor and the debug console commands.

`app/` is the kernel binary around it: boot entry, the interrupt table and handlers,
port and memory-mapped I/O, and the async input task. It needs a nightly compiler,
for the `x86-interrupt` calling convention of the handlers.
