# fluorite

A Game Boy Advance emulator core whose logic is verified with Verus: the ARM7TDMI
instruction semantics, the display timing and bitmap rendering, timers, interrupts,
sound registers and FIFOs, the memory-mapped I/O registers, the BIOS open-bus latch,
cartridge headers and backup memories (static RAM, flash, the real-time clock).

## Layout

- `src/` — the verified library.
  - `arm/` — registers and banking (`registers`), the ALU and barrel shifter (`alu`),
    ARM data processing, branches, PSR transfer and IRQ entry (`arm`), single and block
    data transfers (`transfer`), and the Thumb instruction set (`thumb`). Instructions
    are functions on the register file that return the bus work they ask for; loads
    take the values the bus returned.
  - `armcore/` — the status register with its mode and flag bits, and Thumb decoding
    helpers.
  - `gpu/` — display registers, windows, affine points, and the scan-line state
    machine with bitmap-mode rendering.
  - `io/` — the memory map, wait states and prefetch, DMA runs (`dma`: the units a
    channel copies and how its latches move on), keypad, interrupt controller,
    mGBA debug port, the display registers of the byte-wise bus, the event queue, and
    the game pak (GPIO clock, static RAM, flash).
  - `timer.rs`, `sched.rs`, `interrupt.rs`, `sound.rs`, `iodev.rs`, `bios.rs`,
    `cartridge.rs`, `gamepak/`, `sysbus.rs`, `fps.rs` — timers, the scheduler,
    interrupt requests, the sound unit, the I/O register file and register names, the BIOS, cartridge
    parsing and backup, ROM loading, wait-state tables and the frame counter.
- `tests/` — tests on concrete values.
- `app/` — a command-line front end: file I/O, argument handling, audio resampling
  and frame pacing.

Public proof functions named `law_*` state properties that hold across calls (what a
read gives back of a write, what one operation undoes, what stays unchanged).
