use vstd::prelude::*;

verus! {

/// Frequency of the system clock in Hz (2^24).
pub const CLOCK_FREQ: usize = 0x100_0000;

/// Panels of the debugger window.
#[derive(Clone, Copy, Debug, PartialEq, Eq, Structural)]
pub enum PanelMode {
    Cpu,
    Io,
    Audio,
}

/// A field of a memory-mapped register: first bit, width and name.
#[derive(Copy, Clone)]
pub struct MmioRegBit {
    pub start: u8,
    pub size: u8,
    pub name: &'static str,
}

/// A memory-mapped register: address, name and up to sixteen fields.
pub struct MmioReg {
    pub addr: u32,
    pub name: &'static str,
    pub bits: [Option<MmioRegBit>; 16],
}

/// Pages (address bits 24 to 27) of the memory map.
pub const PAGE_BIOS: usize = 0x0;
pub const PAGE_EWRAM: usize = 0x2;
pub const PAGE_IWRAM: usize = 0x3;
pub const PAGE_IOMEM: usize = 0x4;
pub const PAGE_PALRAM: usize = 0x5;
pub const PAGE_VRAM: usize = 0x6;
pub const PAGE_OAM: usize = 0x7;
pub const PAGE_GAMEPAK_WS0: usize = 0x8;
pub const PAGE_GAMEPAK_WS1: usize = 0xA;
pub const PAGE_GAMEPAK_WS2: usize = 0xC;
pub const PAGE_SRAM_LO: usize = 0xE;
pub const PAGE_SRAM_HI: usize = 0xF;

} // verus!
