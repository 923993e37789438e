use vstd::prelude::*;

verus! {

/// Bit numbers of the interrupt sources in IE and IF.
pub const IRQ_VBLANK: u16 = 0;
pub const IRQ_HBLANK: u16 = 1;
pub const IRQ_VCOUNTER_MATCH: u16 = 2;
pub const IRQ_TIMER0_OVERFLOW: u16 = 3;
pub const IRQ_TIMER1_OVERFLOW: u16 = 4;
pub const IRQ_TIMER2_OVERFLOW: u16 = 5;
pub const IRQ_TIMER3_OVERFLOW: u16 = 6;
pub const IRQ_SERIAL: u16 = 7;
pub const IRQ_DMA0: u16 = 8;
pub const IRQ_DMA1: u16 = 9;
pub const IRQ_DMA2: u16 = 10;
pub const IRQ_DMA3: u16 = 11;
pub const IRQ_KEYPAD: u16 = 12;
pub const IRQ_GAMEPAK: u16 = 13;

/// Interrupt enable register (IE): one bit per interrupt source, bits 0 to 13.
pub struct InterruptEnable(pub u16);

impl InterruptEnable {
    pub fn new() -> (r: Self)
        ensures
            r.0 == 0,
    {
        Self(0)
    }

    pub fn raw(&self) -> (r: u16)
        ensures
            r == self.0,
    {
        self.0
    }

    pub fn read<const BYTE: u8>(&self) -> (r: u8)
        requires
            BYTE < 2,
        ensures
            r == (if BYTE == 0 { self.0 as u8 } else { (self.0 >> 8u16) as u8 }),
    {
        match BYTE {
            0 => self.0 as u8,
            _ => (self.0 >> 8) as u8,
        }
    }

    /// Writes one byte; only the fourteen source bits are kept.
    pub fn write<const BYTE: u8>(&mut self, value: u8)
        requires
            BYTE < 2,
        ensures
            BYTE == 0 ==> final(self).0 == (old(self).0 & !0x00FFu16) | ((value as u16) & 0x3FFFu16),
            BYTE == 1 ==> final(self).0 == (old(self).0 & !0xFF00u16) | (((value as u16) << 8u16) & 0x3FFFu16),
    {
        self.0 = match BYTE {
            0 => (self.0 & !0x00FF) | ((value as u16) & 0x3FFF),
            _ => (self.0 & !0xFF00) | (((value as u16) << 8) & 0x3FFF),
        }
    }
}

/// Interrupt master enable register (IME): only bit 0 is meaningful.
pub struct InterruptMasterEnable(pub u16);

impl InterruptMasterEnable {
    pub fn new() -> (r: Self)
        ensures
            r.0 == 0,
    {
        Self(0)
    }

    pub fn enabled(&self) -> (r: bool)
        ensures
            r == (self.0 & 1 == 1),
    {
        self.0 & 1 == 1
    }

    pub fn read<const BYTE: u8>(&self) -> (r: u8)
        requires
            BYTE < 2,
        ensures
            r == (if BYTE == 0 { self.0 as u8 } else { (self.0 >> 8u16) as u8 }),
    {
        match BYTE {
            0 => self.0 as u8,
            _ => (self.0 >> 8) as u8,
        }
    }

    /// Writes one byte; only bit 0 of byte 0 is kept, a write of byte 1 clears it.
    pub fn write<const BYTE: u8>(&mut self, val: u8)
        requires
            BYTE < 2,
        ensures
            BYTE == 0 ==> final(self).0 == (old(self).0 & !0x00FFu16) | ((val as u16) & 1u16),
            BYTE == 1 ==> final(self).0 == (old(self).0 & !0xFF00u16) | (((val as u16) << 8u16) & 1u16),
    {
        self.0 = match BYTE {
            0 => (self.0 & !0x00FF) | ((val as u16) & 1),
            _ => (self.0 & !0xFF00) | (((val as u16) << 8) & 1),
        }
    }
}

/// Interrupt request register (IF): one bit per pending interrupt.
#[derive(Clone, Copy)]
pub struct InterruptRequest(pub u16);

impl InterruptRequest {
    pub open spec fn flag(self, i: u16) -> bool {
        (self.0 >> i) & 1 == 1
    }

    pub fn new() -> (r: Self)
        ensures
            r.0 == 0,
    {
        Self(0)
    }

    /// No interrupt requested.
    pub fn empty() -> (r: Self)
        ensures
            r.0 == 0,
    {
        Self(0)
    }

    pub fn bits(&self) -> (r: u16)
        ensures
            r == self.0,
    {
        self.0
    }

    /// Requests interrupt source `i`.
    pub fn insert(&mut self, i: u16)
        requires
            i < 16,
        ensures
            final(self).0 == old(self).0 | (1u16 << i),
    {
        self.0 = self.0 | (1u16 << i);
    }

    pub fn read<const BYTE: u8>(&self) -> (r: u8)
        requires
            BYTE < 2,
        ensures
            r == (if BYTE == 0 { self.0 as u8 } else { (self.0 >> 8u16) as u8 }),
    {
        match BYTE {
            0 => self.0 as u8,
            _ => (self.0 >> 8) as u8,
        }
    }

    /// Acknowledges interrupts: every bit written as 1 is cleared, the others stay.
    pub fn write<const BYTE: u8>(&mut self, value: u8)
        requires
            BYTE < 2,
        ensures
            BYTE == 0 ==> final(self).0 == old(self).0 & !(value as u16),
            BYTE == 1 ==> final(self).0 == old(self).0 & !((value as u16) << 8u16),
    {
        self.0 = self.0 & match BYTE {
            0 => !(value as u16),
            _ => !((value as u16) << 8),
        }
    }

    /// Adds the requests of `rhs`.
    pub fn bitor_assign(&mut self, rhs: Self)
        ensures
            final(self).0 == old(self).0 | rhs.0,
    {
        self.0 = self.0 | rhs.0
    }
}

/// The interrupt controller: enable, master enable and request registers.
pub struct InterruptController {
    pub enable: InterruptEnable,
    pub master_enable: InterruptMasterEnable,
    pub request: InterruptRequest,
}

impl InterruptController {
    pub fn new() -> (r: InterruptController)
        ensures
            r.enable.0 == 0 && r.master_enable.0 == 0 && r.request.0 == 0,
    {
        InterruptController {
            enable: InterruptEnable::new(),
            master_enable: InterruptMasterEnable::new(),
            request: InterruptRequest::new(),
        }
    }

    /// Whether an interrupt is raised: the master enable is on and a requested
    /// interrupt is enabled.
    pub fn interrupts_requested(&self) -> (r: bool)
        ensures
            r == (self.master_enable.0 != 0 && self.request.0 & self.enable.0 != 0),
    {
        self.master_enable.0 != 0 && (self.request.0 & self.enable.0) != 0
    }
}

} // verus!
