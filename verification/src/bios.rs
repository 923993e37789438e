use vstd::prelude::*;

verus! {

/// Size of the BIOS ROM.
pub const SIZE: usize = 16 * 1024;

/// The BIOS ROM and the last word fetched from it, which reads give back once the
/// program runs outside the BIOS.
pub struct Bios {
    data: Vec<u8>,
    latch: u32,
}

/// Little-endian word at `addr` of the ROM.
pub open spec fn word_at(data: Seq<u8>, addr: int) -> u32 {
    (data[addr] as u32 | (data[addr + 1] as u32) << 8u32 | (data[addr + 2] as u32) << 16u32 | (data[addr + 3] as u32) << 24u32) as u32
}

impl Bios {
    /// The ROM contents.
    pub closed spec fn rom(&self) -> Seq<u8> {
        self.data@
    }

    /// The last word fetched.
    pub closed spec fn latch_value(&self) -> u32 {
        self.latch
    }

    /// A BIOS holding `image` (16K), with the latch at the value the boot code leaves.
    pub fn new(image: Vec<u8>) -> (r: Self)
        requires
            image.len() == SIZE,
        ensures
            r.rom() == image@,
            r.latch_value() == 0xE129F000,
    {
        Self { data: image, latch: 0xE129F000 }
    }

    /// Replaces the start of the ROM with `bytes` (at most its size).
    pub fn load(&mut self, bytes: &Vec<u8>)
        requires
            old(self).rom().len() == SIZE,
        ensures
            final(self).rom().len() == SIZE,
            final(self).latch_value() == old(self).latch_value(),
            forall|i: int|
                0 <= i < SIZE ==> #[trigger] final(self).rom()[i] == if i < bytes.len() { bytes@[i] } else { old(self).rom()[i] },
    {
        let mut i: usize = 0;
        while i < bytes.len() && i < SIZE
            invariant
                self.data.len() == SIZE,
                i <= SIZE,
                i <= bytes.len(),
                self.latch == old(self).latch,
                forall|j: int|
                    0 <= j < SIZE ==> #[trigger] self.data@[j] == if j < i { bytes@[j] } else { old(self).data@[j] },
            decreases SIZE - i,
        {
            self.data.set(i, bytes[i]);
            i += 1;
        }
    }

    /// A read of `size` bytes (1, 2 or 4) at `addr` aligned down to the size: inside the
    /// BIOS (the PC below 0x4000) the word containing it is fetched into the latch; the
    /// latch shifted to the address's byte is the value.
    fn read(&mut self, pc: u32, addr: u32, size: u32) -> (r: u32)
        requires
            old(self).rom().len() == SIZE,
            size == 1 || size == 2 || size == 4,
            pc < 0x4000 ==> (addr & !3u32) + 3 < SIZE,
        ensures
            final(self).rom() == old(self).rom(),
            final(self).latch_value() == bios_latch(old(self).rom(), old(self).latch_value(), pc, addr),
            r == bios_latch(old(self).rom(), old(self).latch_value(), pc, addr) >> (8 * ((addr & !((size - 1) as u32)) & 3)) as u32,
    {
        let aligned = addr & !(size - 1);
        proof {
            crate::bits::lemma_u32_bits(addr, 0);
            assert(((addr & !((size - 1) as u32)) & !3u32) == addr & !3u32);
        }
        if pc < 0x4000 {
            let a = (aligned & !0x3) as usize;
            self.latch = self.data[a] as u32 | (self.data[a + 1] as u32) << 8 | (self.data[a + 2] as u32) << 16 | (self.data[a + 3] as u32) << 24;
        }
        proof {
            crate::bits::lemma_u32_bits(aligned, 0);
        }
        self.latch >> (8 * (aligned & 0x3))
    }

    /// A byte read; the shifted latch must fit in a byte.
    pub fn read_byte(&mut self, pc: u32, addr: u32) -> (r: u8)
        requires
            old(self).rom().len() == SIZE,
            pc < 0x4000 ==> (addr & !3u32) + 3 < SIZE,
            bios_latch(old(self).rom(), old(self).latch_value(), pc, addr) >> (8 * (addr & 3)) as u32 <= 0xFF,
        ensures
            final(self).rom() == old(self).rom(),
            final(self).latch_value() == bios_latch(old(self).rom(), old(self).latch_value(), pc, addr),
            r == bios_latch(old(self).rom(), old(self).latch_value(), pc, addr) >> (8 * (addr & 3)) as u32,
    {
        proof {
            crate::bits::lemma_u32_bits(addr, 0);
        }
        self.read(pc, addr, 1) as u8
    }

    /// A halfword read at `addr` aligned down to two; the shifted latch must fit in a
    /// halfword.
    pub fn read_half(&mut self, pc: u32, addr: u32) -> (r: u16)
        requires
            old(self).rom().len() == SIZE,
            pc < 0x4000 ==> (addr & !3u32) + 3 < SIZE,
            bios_latch(old(self).rom(), old(self).latch_value(), pc, addr) >> (8 * (addr & 2)) as u32 <= 0xFFFF,
        ensures
            final(self).rom() == old(self).rom(),
            final(self).latch_value() == bios_latch(old(self).rom(), old(self).latch_value(), pc, addr),
            r == bios_latch(old(self).rom(), old(self).latch_value(), pc, addr) >> (8 * (addr & 2)) as u32,
    {
        proof {
            crate::bits::lemma_u32_bits(addr, 0);
        }
        self.read(pc, addr, 2) as u16
    }

    /// A word read at `addr` aligned down to four.
    pub fn read_word(&mut self, pc: u32, addr: u32) -> (r: u32)
        requires
            old(self).rom().len() == SIZE,
            pc < 0x4000 ==> (addr & !3u32) + 3 < SIZE,
        ensures
            final(self).rom() == old(self).rom(),
            final(self).latch_value() == bios_latch(old(self).rom(), old(self).latch_value(), pc, addr),
            r == bios_latch(old(self).rom(), old(self).latch_value(), pc, addr),
    {
        proof {
            crate::bits::lemma_u32_bits(addr, 0);
            crate::bits::lemma_u32_bits(bios_latch(self.rom(), self.latch_value(), pc, addr), 0);
        }
        self.read(pc, addr, 4)
    }
}

/// The latch after a read at `addr` with the PC at `pc`: the aligned word of the ROM
/// when the PC is inside the BIOS, the old latch otherwise.
pub open spec fn bios_latch(rom: Seq<u8>, latch: u32, pc: u32, addr: u32) -> u32 {
    if pc < 0x4000 { word_at(rom, (addr & !3u32) as int) } else { latch }
}

/// Once the program has left the BIOS, every read gives back the word that the last
/// read from inside the BIOS fetched, whatever address it names: a word read from
/// inside, then one from outside, return the same value.
pub proof fn law_outside_reads_last_fetch(rom: Seq<u8>, latch: u32, pc_in: u32, a: u32, pc_out: u32, b: u32)
    requires
        pc_in < 0x4000,
        pc_out >= 0x4000,
    ensures
        bios_latch(rom, bios_latch(rom, latch, pc_in, a), pc_out, b) == word_at(rom, (a & !3u32) as int),
        bios_latch(rom, bios_latch(rom, latch, pc_in, a), pc_out, b) == bios_latch(rom, latch, pc_in, a),
{
}

} // verus!
