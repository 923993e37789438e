use vstd::prelude::*;

verus! {

/// Widths of a memory access: bytes, half-words and words.
pub trait MemoryValue {
}

impl MemoryValue for u8 {
}

impl MemoryValue for u16 {
}

impl MemoryValue for u32 {
}

/// Regions of the memory map.
#[derive(Clone, Copy, Debug, PartialEq, Eq, Structural)]
pub enum MemoryRegion {
    Bios,
    Ewram,
    Iwram,
    Io,
    Palette,
    Vram,
    Oam,
    Rom0L,
    Rom0H,
    Rom1L,
    Rom1H,
    Rom2L,
    Rom2H,
    Sram,
    Unused,
}

/// The region of `addr`, by its top byte; the BIOS occupies only its first 16 KiB.
pub open spec fn region_of(addr: u32) -> MemoryRegion {
    let page = addr >> 24u32;
    if page == 0 {
        if addr < 0x4000 { MemoryRegion::Bios } else { MemoryRegion::Unused }
    } else if page == 2 {
        MemoryRegion::Ewram
    } else if page == 3 {
        MemoryRegion::Iwram
    } else if page == 4 {
        MemoryRegion::Io
    } else if page == 5 {
        MemoryRegion::Palette
    } else if page == 6 {
        MemoryRegion::Vram
    } else if page == 7 {
        MemoryRegion::Oam
    } else if page == 8 {
        MemoryRegion::Rom0L
    } else if page == 9 {
        MemoryRegion::Rom0H
    } else if page == 0xA {
        MemoryRegion::Rom1L
    } else if page == 0xB {
        MemoryRegion::Rom1H
    } else if page == 0xC {
        MemoryRegion::Rom2L
    } else if page == 0xD {
        MemoryRegion::Rom2H
    } else if page == 0xE || page == 0xF {
        MemoryRegion::Sram
    } else {
        MemoryRegion::Unused
    }
}

impl MemoryRegion {
    pub fn get_region(addr: u32) -> (r: MemoryRegion)
        ensures
            r == region_of(addr),
    {
        match addr >> 24 {
            0x00 => if addr < 0x4000 { MemoryRegion::Bios } else { MemoryRegion::Unused },
            0x02 => MemoryRegion::Ewram,
            0x03 => MemoryRegion::Iwram,
            0x04 => MemoryRegion::Io,
            0x05 => MemoryRegion::Palette,
            0x06 => MemoryRegion::Vram,
            0x07 => MemoryRegion::Oam,
            0x08 => MemoryRegion::Rom0L,
            0x09 => MemoryRegion::Rom0H,
            0x0A => MemoryRegion::Rom1L,
            0x0B => MemoryRegion::Rom1H,
            0x0C => MemoryRegion::Rom2L,
            0x0D => MemoryRegion::Rom2H,
            0x0E | 0x0F => MemoryRegion::Sram,
            _ => MemoryRegion::Unused,
        }
    }
}

} // verus!
