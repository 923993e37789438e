//! Verified core of a Game Boy Advance emulator: the ARM7TDMI register file and
//! arithmetic unit, memory-mapped I/O registers, the picture processing unit,
//! the game pak (save memories and real-time clock) and the event scheduler.

pub mod arm;
pub mod armcore;
pub mod bios;
pub mod bits;
pub mod bytes;
pub mod cartridge;
pub mod consts;
pub mod dma;
pub mod fps;
pub mod gamepak;
pub mod gpu;
pub mod interrupt;
pub mod io;
pub mod iodev;
pub mod sched;
pub mod sound;
pub mod sysbus;
pub mod timer;

use vstd::prelude::*;

verus! {

/// Where the sound samples go: one left and one right sample at a time.
pub trait AudioInterface {
    fn write(&mut self, samples: [i16; 2]);
}

} // verus!
