use vstd::prelude::*;
use crate::arm::registers::{bit_of, with_bit};

verus! {

/// Instruction set state.
#[derive(Copy, Clone, Debug, PartialEq, Eq, Structural)]
pub enum CpuState {
    ARM,
    THUMB,
}

/// Processor modes.
#[derive(Copy, Clone, Debug, PartialEq, Eq, Structural)]
pub enum CpuMode {
    User,
    Fiq,
    Irq,
    Supervisor,
    Abort,
    Undefined,
    System,
}

/// Mode bits (0 to 4) of a processor mode.
pub open spec fn cpu_mode_bits(m: CpuMode) -> u32 {
    match m {
        CpuMode::User => 0b10000,
        CpuMode::Fiq => 0b10001,
        CpuMode::Irq => 0b10010,
        CpuMode::Supervisor => 0b10011,
        CpuMode::Abort => 0b10111,
        CpuMode::Undefined => 0b11011,
        CpuMode::System => 0b11111,
    }
}

/// The mode that mode bits name.
pub open spec fn cpu_mode_of(bits: u32) -> Option<CpuMode> {
    if bits == 0b10000 {
        Some(CpuMode::User)
    } else if bits == 0b10001 {
        Some(CpuMode::Fiq)
    } else if bits == 0b10010 {
        Some(CpuMode::Irq)
    } else if bits == 0b10011 {
        Some(CpuMode::Supervisor)
    } else if bits == 0b10111 {
        Some(CpuMode::Abort)
    } else if bits == 0b11011 {
        Some(CpuMode::Undefined)
    } else if bits == 0b11111 {
        Some(CpuMode::System)
    } else {
        None
    }
}

proof fn lemma_mode_field(x: u32, m: u32)
    by (bit_vector)
    requires
        m < 32,
    ensures
        ((x & !0x1Fu32) | m) & 0x1Fu32 == m,
        ((x & !0x1Fu32) | m) & !0x1Fu32 == x & !0x1Fu32,
{
}

/// A program status register as a 32-bit word: mode in bits 0 to 4, state in bit 5,
/// FIQ and IRQ disable in bits 6 and 7, and the V, C, Z, N flags in bits 28 to 31.
#[derive(Clone, Copy, Debug)]
pub struct StatusRegister(pub u32);

impl Default for StatusRegister {
    fn default() -> (r: Self)
        ensures
            r.0 == 0,
    {
        StatusRegister(0)
    }
}

impl StatusRegister {
    /// The register word.
    pub fn raw(&self) -> (r: u32)
        ensures
            r == self.0,
    {
        self.0
    }

    /// The processor mode.
    pub fn mode(&self) -> (r: CpuMode)
        requires
            cpu_mode_of(self.0 & 0x1F) is Some,
        ensures
            Some(r) == cpu_mode_of(self.0 & 0x1F),
    {
        let bits = self.0 & 0x1F;
        if bits == 0b10000 {
            CpuMode::User
        } else if bits == 0b10001 {
            CpuMode::Fiq
        } else if bits == 0b10010 {
            CpuMode::Irq
        } else if bits == 0b10011 {
            CpuMode::Supervisor
        } else if bits == 0b10111 {
            CpuMode::Abort
        } else if bits == 0b11011 {
            CpuMode::Undefined
        } else {
            CpuMode::System
        }
    }

    /// Sets the mode bits, keeping the rest.
    pub fn set_mode(&mut self, mode: CpuMode)
        ensures
            final(self).0 == (old(self).0 & !0x1Fu32) | cpu_mode_bits(mode),
            final(self).0 & 0x1F == cpu_mode_bits(mode),
            final(self).0 & !0x1Fu32 == old(self).0 & !0x1Fu32,
    {
        let bits: u32 = match mode {
            CpuMode::User => 0b10000,
            CpuMode::Fiq => 0b10001,
            CpuMode::Irq => 0b10010,
            CpuMode::Supervisor => 0b10011,
            CpuMode::Abort => 0b10111,
            CpuMode::Undefined => 0b11011,
            CpuMode::System => 0b11111,
        };
        proof {
            lemma_mode_field(self.0, bits);
        }
        self.0 = (self.0 & !0x1F) | bits;
    }

    /// The same register with mode `mode`.
    pub fn with_mode(self, mode: CpuMode) -> (r: Self)
        ensures
            r.0 == (self.0 & !0x1Fu32) | cpu_mode_bits(mode),
    {
        let mut r = self;
        r.set_mode(mode);
        r
    }

    /// The instruction set state (bit 5).
    pub fn state(&self) -> (r: CpuState)
        ensures
            r == (if bit_of(self.0, 5) { CpuState::THUMB } else { CpuState::ARM }),
    {
        if (self.0 >> 5) & 1 == 1 { CpuState::THUMB } else { CpuState::ARM }
    }

    pub fn set_state(&mut self, state: CpuState)
        ensures
            final(self).0 == with_bit(old(self).0, 5, state == CpuState::THUMB),
    {
        self.set_bit(5, state == CpuState::THUMB);
    }

    fn set_bit(&mut self, i: u32, b: bool)
        requires
            i < 32,
        ensures
            final(self).0 == with_bit(old(self).0, i, b),
    {
        if b {
            self.0 = self.0 | (1u32 << i);
        } else {
            self.0 = self.0 & !(1u32 << i);
        }
    }

    pub fn fiq_disable(&self) -> (r: bool)
        ensures
            r == bit_of(self.0, 6),
    {
        (self.0 >> 6) & 1 == 1
    }

    pub fn set_fiq_disable(&mut self, value: bool)
        ensures
            final(self).0 == with_bit(old(self).0, 6, value),
    {
        self.set_bit(6, value);
    }

    pub fn irq_disable(&self) -> (r: bool)
        ensures
            r == bit_of(self.0, 7),
    {
        (self.0 >> 7) & 1 == 1
    }

    pub fn set_irq_disable(&mut self, value: bool)
        ensures
            final(self).0 == with_bit(old(self).0, 7, value),
    {
        self.set_bit(7, value);
    }

    pub fn v(&self) -> (r: bool)
        ensures
            r == bit_of(self.0, 28),
    {
        (self.0 >> 28) & 1 == 1
    }

    pub fn set_v(&mut self, value: bool)
        ensures
            final(self).0 == with_bit(old(self).0, 28, value),
    {
        self.set_bit(28, value);
    }

    pub fn c(&self) -> (r: bool)
        ensures
            r == bit_of(self.0, 29),
    {
        (self.0 >> 29) & 1 == 1
    }

    pub fn set_c(&mut self, value: bool)
        ensures
            final(self).0 == with_bit(old(self).0, 29, value),
    {
        self.set_bit(29, value);
    }

    pub fn z(&self) -> (r: bool)
        ensures
            r == bit_of(self.0, 30),
    {
        (self.0 >> 30) & 1 == 1
    }

    pub fn set_z(&mut self, value: bool)
        ensures
            final(self).0 == with_bit(old(self).0, 30, value),
    {
        self.set_bit(30, value);
    }

    pub fn n(&self) -> (r: bool)
        ensures
            r == bit_of(self.0, 31),
    {
        (self.0 >> 31) & 1 == 1
    }

    pub fn set_n(&mut self, value: bool)
        ensures
            final(self).0 == with_bit(old(self).0, 31, value),
    {
        self.set_bit(31, value);
    }
}

/// Setting the mode and then reading it gives that mode back.
pub proof fn law_mode_read_after_set(x: u32, m: CpuMode)
    ensures
        cpu_mode_of(((x & !0x1Fu32) | cpu_mode_bits(m)) & 0x1F) == Some(m),
{
    lemma_mode_field(x, cpu_mode_bits(m));
}

} // verus!
