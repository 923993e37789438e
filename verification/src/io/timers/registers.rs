use vstd::prelude::*;
use crate::bits::bool_u8;

verus! {

/// Timer control register.
#[derive(Clone, Copy)]
pub struct TmCnt {
    pub prescaler: u8,
    pub count_up: bool,
    pub irq: bool,
    pub start: bool,
}

impl TmCnt {
    pub fn new() -> (r: TmCnt)
        ensures
            r.prescaler == 0 && !r.count_up && !r.irq && !r.start,
    {
        TmCnt { prescaler: 0, count_up: false, irq: false, start: false }
    }

    /// Byte 0: start (bit 7), interrupt (bit 6), count-up (bit 2), prescaler (bits 0
    /// and 1); byte 1 reads 0.
    pub fn read(&self, byte: u8) -> (r: u8)
        requires
            byte < 2,
        ensures
            r == (if byte == 0 {
                (bool_u8(self.start) << 7u8) | (bool_u8(self.irq) << 6u8) | (bool_u8(self.count_up) << 2u8)
                    | self.prescaler
            } else {
                0
            }),
    {
        match byte {
            0 => {
                let s: u8 = if self.start { 1 } else { 0 };
                let i: u8 = if self.irq { 1 } else { 0 };
                let c: u8 = if self.count_up { 1 } else { 0 };
                (s << 7) | (i << 6) | (c << 2) | self.prescaler
            },
            _ => 0,
        }
    }

    pub fn write<const BYTE: u8>(&mut self, value: u8)
        requires
            BYTE < 2,
        ensures
            BYTE == 0 ==> *final(self) == (TmCnt {
                start: (value >> 7u8) & 1 != 0,
                irq: (value >> 6u8) & 1 != 0,
                count_up: (value >> 2u8) & 1 != 0,
                prescaler: value & 3,
            }),
            BYTE == 1 ==> *final(self) == *old(self),
    {
        if BYTE == 0 {
            self.start = (value >> 7) & 0x1 != 0;
            self.irq = (value >> 6) & 0x1 != 0;
            self.count_up = (value >> 2) & 0x1 != 0;
            self.prescaler = value & 0x3;
        }
    }
}

/// Reading the control register gives back the bits that a write set.
pub proof fn law_tmcnt_read_after_write(value: u8)
    ensures
        ({
            let t = TmCnt {
                start: (value >> 7u8) & 1 != 0,
                irq: (value >> 6u8) & 1 != 0,
                count_up: (value >> 2u8) & 1 != 0,
                prescaler: value & 3,
            };
            (bool_u8(t.start) << 7u8) | (bool_u8(t.irq) << 6u8) | (bool_u8(t.count_up) << 2u8) | t.prescaler
                == value & 0xC7
        }),
{
    assert((bool_u8((value >> 7u8) & 1 != 0) << 7u8) | (bool_u8((value >> 6u8) & 1 != 0) << 6u8) | (bool_u8(
        (value >> 2u8) & 1 != 0,
    ) << 2u8) | (value & 3u8) == value & 0xC7u8) by (bit_vector);
}

} // verus!
