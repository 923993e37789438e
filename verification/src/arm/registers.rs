use vstd::prelude::*;

verus! {

/// Value of bit `i` of `x`.
pub open spec fn bit_of(x: u32, i: u32) -> bool {
    (x >> i) & 1u32 == 1u32
}

/// `x` with bit `i` set to `b`.
pub open spec fn with_bit(x: u32, i: u32, b: bool) -> u32 {
    if b {
        x | (1u32 << i)
    } else {
        x & !(1u32 << i)
    }
}

/// `x` with its five low bits replaced by `m`.
pub open spec fn with_low5(x: u32, m: u32) -> u32 {
    (x & !0x1Fu32) | m
}

/// Bit facts behind the flag and mode accessors of the status register.
pub proof fn lemma_status_bits(x: u32, i: u32, j: u32, b: bool, m: u32)
    by (bit_vector)
    requires
        i < 32,
        j < 32,
        m < 32,
    ensures
        bit_of(with_bit(x, i, b), i) == b,
        j != i ==> bit_of(with_bit(x, i, b), j) == bit_of(x, j),
        i >= 5 ==> with_bit(x, i, b) & 0x1Fu32 == x & 0x1Fu32,
        with_low5(x, m) & 0x1Fu32 == m,
        j >= 5 ==> bit_of(with_low5(x, m), j) == bit_of(x, j),
        x >> 24u32 < 256,
        m & 0x1Fu32 == m,
        0x5Fu32 & 0x1Fu32 == 0x1Fu32,
        with_bit(with_bit(x, i, b), i, j == 0) == with_bit(x, i, j == 0),
        with_bit(x, i, bit_of(x, i)) == x,
{
}

/// The registers an instruction can name.
#[derive(Clone, Copy, Debug, PartialEq, Eq, Structural)]
pub enum Reg {
    R0,
    R1,
    R2,
    R3,
    R4,
    R5,
    R6,
    R7,
    R8,
    R9,
    R10,
    R11,
    R12,
    R13,
    R14,
    R15,
    Cpsr,
    Spsr,
}

/// Number of a register: 0 to 15 for the general registers, 16 for CPSR, 17 for SPSR.
pub open spec fn reg_index(reg: Reg) -> nat {
    match reg {
        Reg::R0 => 0,
        Reg::R1 => 1,
        Reg::R2 => 2,
        Reg::R3 => 3,
        Reg::R4 => 4,
        Reg::R5 => 5,
        Reg::R6 => 6,
        Reg::R7 => 7,
        Reg::R8 => 8,
        Reg::R9 => 9,
        Reg::R10 => 10,
        Reg::R11 => 11,
        Reg::R12 => 12,
        Reg::R13 => 13,
        Reg::R14 => 14,
        Reg::R15 => 15,
        Reg::Cpsr => 16,
        Reg::Spsr => 17,
    }
}

/// The general register with number `i` (below 16).
pub open spec fn reg_from_index(i: nat) -> Reg {
    if i == 0 { Reg::R0 }
    else if i == 1 { Reg::R1 }
    else if i == 2 { Reg::R2 }
    else if i == 3 { Reg::R3 }
    else if i == 4 { Reg::R4 }
    else if i == 5 { Reg::R5 }
    else if i == 6 { Reg::R6 }
    else if i == 7 { Reg::R7 }
    else if i == 8 { Reg::R8 }
    else if i == 9 { Reg::R9 }
    else if i == 10 { Reg::R10 }
    else if i == 11 { Reg::R11 }
    else if i == 12 { Reg::R12 }
    else if i == 13 { Reg::R13 }
    else if i == 14 { Reg::R14 }
    else { Reg::R15 }
}

impl Reg {
    /// Number of the register (see `reg_index`).
    pub fn index(self) -> (r: usize)
        ensures
            r == reg_index(self),
    {
        match self {
            Reg::R0 => 0,
            Reg::R1 => 1,
            Reg::R2 => 2,
            Reg::R3 => 3,
            Reg::R4 => 4,
            Reg::R5 => 5,
            Reg::R6 => 6,
            Reg::R7 => 7,
            Reg::R8 => 8,
            Reg::R9 => 9,
            Reg::R10 => 10,
            Reg::R11 => 11,
            Reg::R12 => 12,
            Reg::R13 => 13,
            Reg::R14 => 14,
            Reg::R15 => 15,
            Reg::Cpsr => 16,
            Reg::Spsr => 17,
        }
    }
}

/// Processor modes, each with the value of the CPSR mode bits.
#[derive(Clone, Copy, Debug, PartialEq, Eq, Structural)]
pub enum Mode {
    User,
    Fiq,
    Irq,
    Supervisor,
    Abort,
    System,
    Undefined,
}

/// The five mode bits of the CPSR for a mode.
pub open spec fn mode_bits(m: Mode) -> u32 {
    match m {
        Mode::User => 0x10,
        Mode::Fiq => 0x11,
        Mode::Irq => 0x12,
        Mode::Supervisor => 0x13,
        Mode::Abort => 0x17,
        Mode::System => 0x1F,
        Mode::Undefined => 0x1B,
    }
}

/// The mode encoded by five mode bits, if any.
pub open spec fn mode_of_bits(bits: u32) -> Option<Mode> {
    if bits == 0x10 { Some(Mode::User) }
    else if bits == 0x11 { Some(Mode::Fiq) }
    else if bits == 0x12 { Some(Mode::Irq) }
    else if bits == 0x13 { Some(Mode::Supervisor) }
    else if bits == 0x17 { Some(Mode::Abort) }
    else if bits == 0x1F { Some(Mode::System) }
    else if bits == 0x1B { Some(Mode::Undefined) }
    else { None }
}

impl Mode {
    /// The mode bits of this mode.
    pub fn bits(self) -> (r: u8)
        ensures
            r == mode_bits(self),
    {
        match self {
            Mode::User => 0x10,
            Mode::Fiq => 0x11,
            Mode::Irq => 0x12,
            Mode::Supervisor => 0x13,
            Mode::Abort => 0x17,
            Mode::System => 0x1F,
            Mode::Undefined => 0x1B,
        }
    }
}

/// Every mode's CPSR bits decode back to that mode, and fit the five-bit field.
pub proof fn law_mode_bits_decode(m: Mode)
    ensures
        mode_of_bits(mode_bits(m)) == Some(m),
        mode_bits(m) < 32,
{
}

/// Program status register: mode in bits 0-4, T bit 5, F bit 6, I bit 7,
/// V bit 28, C bit 29, Z bit 30, N bit 31.
#[derive(Clone, Copy)]
pub struct StatusRegister(pub u32);

impl StatusRegister {
    /// The mode encoded in the register, if its mode bits name one.
    pub open spec fn mode_spec(self) -> Option<Mode> {
        mode_of_bits(self.0 & 0x1F)
    }

    /// The register after reset: System mode, all flags clear.
    pub fn reset() -> (r: Self)
        ensures
            r.0 == 0x1F,
            r.mode_spec() == Some(Mode::System),
    {
        proof {
            lemma_status_bits(0, 0, 0, false, 0x1F);
        }
        StatusRegister(0x1F)
    }

    pub fn raw(&self) -> (r: u32)
        ensures
            r == self.0,
    {
        self.0
    }

    /// The processor mode.
    pub fn mode(&self) -> (r: Mode)
        requires
            self.mode_spec() is Some,
        ensures
            Some(r) == self.mode_spec(),
    {
        let bits = self.0 & 0x1F;
        if bits == 0x10 {
            Mode::User
        } else if bits == 0x11 {
            Mode::Fiq
        } else if bits == 0x12 {
            Mode::Irq
        } else if bits == 0x13 {
            Mode::Supervisor
        } else if bits == 0x17 {
            Mode::Abort
        } else if bits == 0x1F {
            Mode::System
        } else {
            Mode::Undefined
        }
    }

    pub fn set_mode(&mut self, mode: Mode)
        ensures
            final(self).0 == with_low5(old(self).0, mode_bits(mode)),
            final(self).mode_spec() == Some(mode),
    {
        let bits = mode.bits() as u32;
        proof {
            lemma_status_bits(self.0, 0, 0, false, bits);
        }
        self.0 = (self.0 & !0x1F) | bits;
    }

    fn get_bit(&self, i: u32) -> (r: bool)
        requires
            i < 32,
        ensures
            r == bit_of(self.0, i),
    {
        (self.0 >> i) & 1 == 1
    }

    fn set_bit(&mut self, i: u32, value: bool)
        requires
            i >= 5,
            i < 32,
        ensures
            final(self).0 == with_bit(old(self).0, i, value),
            final(self).mode_spec() == old(self).mode_spec(),
    {
        proof {
            lemma_status_bits(self.0, i, 0, value, 0);
        }
        if value {
            self.0 = self.0 | (1u32 << i);
        } else {
            self.0 = self.0 & !(1u32 << i);
        }
    }

    pub fn thumb_state(&self) -> (r: bool)
        ensures
            r == bit_of(self.0, 5),
    {
        self.get_bit(5)
    }

    pub fn fiq_disabled(&self) -> (r: bool)
        ensures
            r == bit_of(self.0, 6),
    {
        self.get_bit(6)
    }

    pub fn irq_disabled(&self) -> (r: bool)
        ensures
            r == bit_of(self.0, 7),
    {
        self.get_bit(7)
    }

    pub fn overflow(&self) -> (r: bool)
        ensures
            r == bit_of(self.0, 28),
    {
        self.get_bit(28)
    }

    pub fn carry(&self) -> (r: bool)
        ensures
            r == bit_of(self.0, 29),
    {
        self.get_bit(29)
    }

    pub fn zero(&self) -> (r: bool)
        ensures
            r == bit_of(self.0, 30),
    {
        self.get_bit(30)
    }

    pub fn negative(&self) -> (r: bool)
        ensures
            r == bit_of(self.0, 31),
    {
        self.get_bit(31)
    }

    pub fn set_thumb_state(&mut self, value: bool)
        ensures
            final(self).0 == with_bit(old(self).0, 5, value),
    {
        self.set_bit(5, value)
    }

    pub fn set_fiq_disabled(&mut self, value: bool)
        ensures
            final(self).0 == with_bit(old(self).0, 6, value),
    {
        self.set_bit(6, value)
    }

    pub fn set_irq_disabled(&mut self, value: bool)
        ensures
            final(self).0 == with_bit(old(self).0, 7, value),
    {
        self.set_bit(7, value)
    }

    pub fn set_overflow(&mut self, value: bool)
        ensures
            final(self).0 == with_bit(old(self).0, 28, value),
    {
        self.set_bit(28, value)
    }

    pub fn set_carry(&mut self, value: bool)
        ensures
            final(self).0 == with_bit(old(self).0, 29, value),
    {
        self.set_bit(29, value)
    }

    pub fn set_zero(&mut self, value: bool)
        ensures
            final(self).0 == with_bit(old(self).0, 30, value),
    {
        self.set_bit(30, value)
    }

    pub fn set_negative(&mut self, value: bool)
        ensures
            final(self).0 == with_bit(old(self).0, 31, value),
    {
        self.set_bit(31, value)
    }
}


/// Abstract state of the register file: the banked registers of every mode.
#[verifier::ext_equal]
pub struct RegFile {
    pub usr: Seq<u32>,
    pub fiq: Seq<u32>,
    pub svc: Seq<u32>,
    pub abt: Seq<u32>,
    pub irq: Seq<u32>,
    pub und: Seq<u32>,
    pub pc: u32,
    pub cpsr: u32,
    pub spsr: Seq<u32>,
}

/// Index into the SPSR bank of a mode that has one.
pub open spec fn spsr_slot(m: Mode) -> Option<int> {
    match m {
        Mode::Fiq => Some(0),
        Mode::Supervisor => Some(1),
        Mode::Abort => Some(2),
        Mode::Irq => Some(3),
        Mode::Undefined => Some(4),
        _ => None,
    }
}

impl RegFile {
    pub open spec fn mode(self) -> Option<Mode> {
        mode_of_bits(self.cpsr & 0x1F)
    }

    pub open spec fn wf(self) -> bool {
        &&& self.usr.len() == 15
        &&& self.fiq.len() == 7
        &&& self.svc.len() == 2
        &&& self.abt.len() == 2
        &&& self.irq.len() == 2
        &&& self.und.len() == 2
        &&& self.spsr.len() == 5
    }

    /// The value that register `reg` holds in the current mode.
    pub open spec fn read(self, reg: Reg) -> u32 {
        let i = reg_index(reg) as int;
        let m = self.mode();
        if i < 8 {
            self.usr[i]
        } else if i < 13 {
            if m == Some(Mode::Fiq) { self.fiq[i - 8] } else { self.usr[i] }
        } else if i < 15 {
            match m {
                Some(Mode::Fiq) => self.fiq[i - 8],
                Some(Mode::Supervisor) => self.svc[i - 13],
                Some(Mode::Abort) => self.abt[i - 13],
                Some(Mode::Irq) => self.irq[i - 13],
                Some(Mode::Undefined) => self.und[i - 13],
                _ => self.usr[i],
            }
        } else if i == 15 {
            self.pc
        } else if i == 16 {
            self.cpsr
        } else {
            match m {
                Some(md) => match spsr_slot(md) {
                    Some(k) => self.spsr[k],
                    None => self.cpsr,
                },
                None => self.cpsr,
            }
        }
    }

    /// The register file after writing `value` to register `reg` in the current mode.
    /// A write of the SPSR in a mode without one changes nothing.
    pub open spec fn write(self, reg: Reg, value: u32) -> RegFile {
        let i = reg_index(reg) as int;
        let m = self.mode();
        if i < 8 {
            RegFile { usr: self.usr.update(i, value), ..self }
        } else if i < 13 {
            if m == Some(Mode::Fiq) {
                RegFile { fiq: self.fiq.update(i - 8, value), ..self }
            } else {
                RegFile { usr: self.usr.update(i, value), ..self }
            }
        } else if i < 15 {
            match m {
                Some(Mode::Fiq) => RegFile { fiq: self.fiq.update(i - 8, value), ..self },
                Some(Mode::Supervisor) => RegFile { svc: self.svc.update(i - 13, value), ..self },
                Some(Mode::Abort) => RegFile { abt: self.abt.update(i - 13, value), ..self },
                Some(Mode::Irq) => RegFile { irq: self.irq.update(i - 13, value), ..self },
                Some(Mode::Undefined) => RegFile { und: self.und.update(i - 13, value), ..self },
                _ => RegFile { usr: self.usr.update(i, value), ..self },
            }
        } else if i == 15 {
            RegFile { pc: value, ..self }
        } else if i == 16 {
            RegFile { cpsr: value, ..self }
        } else {
            match m {
                Some(md) => match spsr_slot(md) {
                    Some(k) => RegFile { spsr: self.spsr.update(k, value), ..self },
                    None => self,
                },
                None => self,
            }
        }
    }

    /// The register file after entering mode `m`: the old CPSR goes to the SPSR of `m`.
    pub open spec fn enter_mode(self, m: Mode) -> RegFile {
        (RegFile { cpsr: with_low5(self.cpsr, mode_bits(m)), ..self }).write(Reg::Spsr, self.cpsr)
    }

    /// The register file after copying the current SPSR into the CPSR.
    pub open spec fn restore(self) -> RegFile {
        RegFile { cpsr: self.read(Reg::Spsr), ..self }
    }

    /// Whether the current mode has a saved program status register.
    pub open spec fn has_spsr(self) -> bool {
        match self.mode() {
            Some(md) => spsr_slot(md) is Some,
            None => false,
        }
    }
}

/// The ARM7TDMI register file with the banked registers of every mode.
#[derive(Clone, Copy)]
pub struct Registers {
    usr: [u32; 15],
    fiq: [u32; 7],
    svc: [u32; 2],
    abt: [u32; 2],
    irq: [u32; 2],
    und: [u32; 2],
    pub pc: u32,
    cpsr: StatusRegister,
    spsr: [StatusRegister; 5],
}

impl View for Registers {
    type V = RegFile;

    closed spec fn view(&self) -> RegFile {
        RegFile {
            usr: self.usr@,
            fiq: self.fiq@,
            svc: self.svc@,
            abt: self.abt@,
            irq: self.irq@,
            und: self.und@,
            pc: self.pc,
            cpsr: self.cpsr.0,
            spsr: self.spsr@.map_values(|s: StatusRegister| s.0),
        }
    }
}


/// General register number `reg` (below 16).
pub fn reg_from_u32(reg: u32) -> (r: Reg)
    requires
        reg < 16,
    ensures
        r == reg_from_index(reg as nat),
        reg_index(r) == reg,
{
    match reg {
        0 => Reg::R0,
        1 => Reg::R1,
        2 => Reg::R2,
        3 => Reg::R3,
        4 => Reg::R4,
        5 => Reg::R5,
        6 => Reg::R6,
        7 => Reg::R7,
        8 => Reg::R8,
        9 => Reg::R9,
        10 => Reg::R10,
        11 => Reg::R11,
        12 => Reg::R12,
        13 => Reg::R13,
        14 => Reg::R14,
        _ => Reg::R15,
    }
}

impl Registers {
    /// Whether the CPSR names a valid mode.
    pub open spec fn wf(&self) -> bool {
        self@.mode() is Some
    }

    pub closed spec fn status(&self) -> StatusRegister {
        self.cpsr
    }

    pub proof fn lemma_view(&self)
        ensures
            self@.wf(),
            self@.cpsr == self.status().0,
    {
    }

    /// Registers after power-on: System mode, the user, IRQ and supervisor stack
    /// pointers at their BIOS values, every other register zero.
    pub fn new() -> (r: Self)
        ensures
            r@.wf(),
            r@.usr == seq![0u32, 0, 0, 0, 0, 0, 0, 0, 0, 0, 0, 0, 0, 0x03007F00u32, 0],
            r@.fiq == seq![0u32, 0, 0, 0, 0, 0, 0],
            r@.svc == seq![0x03007FE0u32, 0],
            r@.abt == seq![0u32, 0],
            r@.irq == seq![0x03007FA0u32, 0],
            r@.und == seq![0u32, 0],
            r@.pc == 0,
            r@.cpsr == 0x1F,
            r@.spsr == seq![0x1Fu32, 0x1F, 0x1F, 0x1F, 0x1F],
            r@.mode() == Some(Mode::System),
    {
        let mut ret = Self {
            usr: [0;15],
            fiq: [0;7],
            abt: [0;2],
            svc: [0;2],
            irq: [0;2],
            und: [0;2],
            pc: 0,
            cpsr: StatusRegister::reset(),
            spsr: [StatusRegister::reset(), StatusRegister::reset(), StatusRegister::reset(),
                StatusRegister::reset(), StatusRegister::reset()],
        };
        ret.usr[13] = 0x03007F00;
        ret.irq[0] = 0x03007FA0;
        ret.svc[0] = 0x03007FE0;
        proof {
            lemma_status_bits(0, 0, 0, false, 0x1F);
        }
        assert(ret@.usr =~= seq![0u32, 0, 0, 0, 0, 0, 0, 0, 0, 0, 0, 0, 0, 0x03007F00u32, 0]);
        assert(ret@.fiq =~= seq![0u32, 0, 0, 0, 0, 0, 0]);
        assert(ret@.svc =~= seq![0x03007FE0u32, 0]);
        assert(ret@.abt =~= seq![0u32, 0]);
        assert(ret@.irq =~= seq![0x03007FA0u32, 0]);
        assert(ret@.und =~= seq![0u32, 0]);
        assert(ret@.spsr =~= seq![0x1Fu32, 0x1F, 0x1F, 0x1F, 0x1F]);
        ret
    }

    /// State after the BIOS has run: PC at the start of the game pak, user stack
    /// pointer set, CPSR 0x5F (System mode, ARM state, interrupts enabled).
    pub fn skip_bios(&mut self)
        ensures
            final(self)@ == (RegFile {
                pc: 0x08000000,
                usr: old(self)@.usr.update(13, 0x03007F00),
                cpsr: 0x5F,
                ..old(self)@
            }),
            final(self)@.mode() == Some(Mode::System),
    {
        self.pc = 0x08000000;
        self.usr[13] = 0x0300_7F00;
        self.cpsr.0 = 0x5F;
        proof {
            lemma_status_bits(0x5F, 0, 0, false, 0);
        }
        assert(self@.usr =~= old(self)@.usr.update(13, 0x03007F00));
    }

    /// Value of `reg` in the current mode.
    pub fn get_reg(&self, reg: Reg) -> (r: u32)
        requires
            self.wf(),
        ensures
            r == self@.read(reg),
    {
        let mode = self.cpsr.mode();
        let i = reg.index();
        if i < 8 {
            self.usr[i]
        } else if i < 13 {
            match mode {
                Mode::Fiq => self.fiq[i - 8],
                _ => self.usr[i],
            }
        } else if i < 15 {
            match mode {
                Mode::Fiq => self.fiq[i - 8],
                Mode::Supervisor => self.svc[i - 13],
                Mode::Abort => self.abt[i - 13],
                Mode::Irq => self.irq[i - 13],
                Mode::Undefined => self.und[i - 13],
                _ => self.usr[i],
            }
        } else if i == 15 {
            self.pc
        } else if i == 16 {
            self.cpsr.raw()
        } else {
            match mode {
                Mode::Fiq => self.spsr[0].raw(),
                Mode::Supervisor => self.spsr[1].raw(),
                Mode::Abort => self.spsr[2].raw(),
                Mode::Irq => self.spsr[3].raw(),
                Mode::Undefined => self.spsr[4].raw(),
                _ => self.cpsr.raw(),
            }
        }
    }

    /// Writes `value` to `reg` in the current mode.
    pub fn set_reg(&mut self, reg: Reg, value: u32)
        requires
            old(self).wf(),
        ensures
            final(self)@ == old(self)@.write(reg, value),
    {
        let mode = self.cpsr.mode();
        let i = reg.index();
        if i < 8 {
            self.usr[i] = value;
            assert(self@.usr =~= old(self)@.usr.update(i as int, value));
        } else if i < 13 {
            match mode {
                Mode::Fiq => {
                    self.fiq[i - 8] = value;
                    assert(self@.fiq =~= old(self)@.fiq.update(i - 8, value));
                },
                _ => {
                    self.usr[i] = value;
                    assert(self@.usr =~= old(self)@.usr.update(i as int, value));
                },
            }
        } else if i < 15 {
            match mode {
                Mode::Fiq => {
                    self.fiq[i - 8] = value;
                    assert(self@.fiq =~= old(self)@.fiq.update(i - 8, value));
                },
                Mode::Supervisor => {
                    self.svc[i - 13] = value;
                    assert(self@.svc =~= old(self)@.svc.update(i - 13, value));
                },
                Mode::Abort => {
                    self.abt[i - 13] = value;
                    assert(self@.abt =~= old(self)@.abt.update(i - 13, value));
                },
                Mode::Irq => {
                    self.irq[i - 13] = value;
                    assert(self@.irq =~= old(self)@.irq.update(i - 13, value));
                },
                Mode::Undefined => {
                    self.und[i - 13] = value;
                    assert(self@.und =~= old(self)@.und.update(i - 13, value));
                },
                _ => {
                    self.usr[i] = value;
                    assert(self@.usr =~= old(self)@.usr.update(i as int, value));
                },
            }
        } else if i == 15 {
            self.pc = value;
        } else if i == 16 {
            self.cpsr.0 = value;
        } else {
            let k: usize = match mode {
                Mode::Fiq => 0,
                Mode::Supervisor => 1,
                Mode::Abort => 2,
                Mode::Irq => 3,
                Mode::Undefined => 4,
                _ => 5,
            };
            if k < 5 {
                self.spsr[k] = StatusRegister(value);
                assert(self@.spsr =~= old(self)@.spsr.update(k as int, value));
            }
        }
    }

    /// Copies the SPSR of the current mode into the CPSR.
    pub fn restore_cpsr(&mut self)
        requires
            old(self).wf(),
        ensures
            final(self)@ == old(self)@.restore(),
    {
        self.cpsr.0 = self.get_reg(Reg::Spsr);
    }

    /// Enters `mode`, saving the old CPSR in the SPSR of the new mode.
    pub fn change_mode(&mut self, mode: Mode)
        requires
            old(self).wf(),
        ensures
            final(self)@ == old(self)@.enter_mode(mode),
            final(self)@.mode() == Some(mode),
    {
        let cpsr = self.get_reg(Reg::Cpsr);
        self.set_mode(mode);
        self.set_reg(Reg::Spsr, cpsr);
    }

    /// The program counter.
    pub fn get_pc(&self) -> (r: u32)
        ensures
            r == self@.pc,
    {
        self.pc
    }

    /// Sets the program counter.
    pub fn set_pc(&mut self, value: u32)
        ensures
            final(self)@ == (RegFile { pc: value, ..old(self)@ }),
    {
        self.pc = value;
    }

    /// Value of general register number `reg`.
    pub fn get_reg_i(&self, reg: u32) -> (r: u32)
        requires
            self.wf(),
            reg < 16,
        ensures
            r == self@.read(reg_from_index(reg as nat)),
    {
        self.get_reg(reg_from_u32(reg))
    }

    /// Writes general register number `reg`.
    pub fn set_reg_i(&mut self, reg: u32, value: u32)
        requires
            old(self).wf(),
            reg < 16,
        ensures
            final(self)@ == old(self)@.write(reg_from_index(reg as nat), value),
    {
        self.set_reg(reg_from_u32(reg), value);
    }

    pub fn get_status(&self) -> (r: StatusRegister)
        ensures
            r.0 == self@.cpsr,
    {
        self.cpsr
    }

    /// The condition flags N, Z, C and V as bits 3 to 0.
    pub fn get_flags(&self) -> (r: u32)
        ensures
            r == self@.cpsr >> 24,
            r < 256,
    {
        proof {
            lemma_status_bits(self.cpsr.0, 0, 0, false, 0);
        }
        self.cpsr.raw() >> 24
    }

    pub fn get_mode(&self) -> (r: Mode)
        requires
            self.wf(),
        ensures
            Some(r) == self@.mode(),
    {
        self.cpsr.mode()
    }

    pub fn set_mode(&mut self, mode: Mode)
        ensures
            final(self)@ == (RegFile { cpsr: with_low5(old(self)@.cpsr, mode_bits(mode)), ..old(self)@ }),
            final(self)@.mode() == Some(mode),
    {
        self.cpsr.set_mode(mode)
    }

    pub fn get_n(&self) -> (r: bool)
        ensures
            r == bit_of(self@.cpsr, 31),
    {
        self.cpsr.negative()
    }

    pub fn set_n(&mut self, value: bool)
        ensures
            final(self)@ == (RegFile { cpsr: with_bit(old(self)@.cpsr, 31, value), ..old(self)@ }),
            final(self)@.mode() == old(self)@.mode(),
    {
        self.cpsr.set_negative(value);
        proof {
            lemma_status_bits(old(self).cpsr.0, 31, 0, value, 0);
        }
    }

    pub fn get_z(&self) -> (r: bool)
        ensures
            r == bit_of(self@.cpsr, 30),
    {
        self.cpsr.zero()
    }

    pub fn set_z(&mut self, value: bool)
        ensures
            final(self)@ == (RegFile { cpsr: with_bit(old(self)@.cpsr, 30, value), ..old(self)@ }),
            final(self)@.mode() == old(self)@.mode(),
    {
        self.cpsr.set_zero(value);
        proof {
            lemma_status_bits(old(self).cpsr.0, 30, 0, value, 0);
        }
    }

    pub fn get_c(&self) -> (r: bool)
        ensures
            r == bit_of(self@.cpsr, 29),
    {
        self.cpsr.carry()
    }

    pub fn set_c(&mut self, value: bool)
        ensures
            final(self)@ == (RegFile { cpsr: with_bit(old(self)@.cpsr, 29, value), ..old(self)@ }),
            final(self)@.mode() == old(self)@.mode(),
    {
        self.cpsr.set_carry(value);
        proof {
            lemma_status_bits(old(self).cpsr.0, 29, 0, value, 0);
        }
    }

    pub fn get_v(&self) -> (r: bool)
        ensures
            r == bit_of(self@.cpsr, 28),
    {
        self.cpsr.overflow()
    }

    pub fn set_v(&mut self, value: bool)
        ensures
            final(self)@ == (RegFile { cpsr: with_bit(old(self)@.cpsr, 28, value), ..old(self)@ }),
            final(self)@.mode() == old(self)@.mode(),
    {
        self.cpsr.set_overflow(value);
        proof {
            lemma_status_bits(old(self).cpsr.0, 28, 0, value, 0);
        }
    }

    pub fn get_i(&self) -> (r: bool)
        ensures
            r == bit_of(self@.cpsr, 7),
    {
        self.cpsr.irq_disabled()
    }

    pub fn set_i(&mut self, value: bool)
        ensures
            final(self)@ == (RegFile { cpsr: with_bit(old(self)@.cpsr, 7, value), ..old(self)@ }),
            final(self)@.mode() == old(self)@.mode(),
    {
        self.cpsr.set_irq_disabled(value);
        proof {
            lemma_status_bits(old(self).cpsr.0, 7, 0, value, 0);
        }
    }

    pub fn get_f(&self) -> (r: bool)
        ensures
            r == bit_of(self@.cpsr, 6),
    {
        self.cpsr.fiq_disabled()
    }

    pub fn set_f(&mut self, value: bool)
        ensures
            final(self)@ == (RegFile { cpsr: with_bit(old(self)@.cpsr, 6, value), ..old(self)@ }),
            final(self)@.mode() == old(self)@.mode(),
    {
        self.cpsr.set_fiq_disabled(value);
        proof {
            lemma_status_bits(old(self).cpsr.0, 6, 0, value, 0);
        }
    }

    pub fn get_t(&self) -> (r: bool)
        ensures
            r == bit_of(self@.cpsr, 5),
    {
        self.cpsr.thumb_state()
    }

    pub fn set_t(&mut self, value: bool)
        ensures
            final(self)@ == (RegFile { cpsr: with_bit(old(self)@.cpsr, 5, value), ..old(self)@ }),
            final(self)@.mode() == old(self)@.mode(),
    {
        self.cpsr.set_thumb_state(value);
        proof {
            lemma_status_bits(old(self).cpsr.0, 5, 0, value, 0);
        }
    }
}


/// A write to a general register, to the CPSR, or to the SPSR of a mode that has
/// one, is what a following read of that register gives back.
pub proof fn law_read_after_write(rf: RegFile, reg: Reg, value: u32)
    requires
        rf.wf(),
        rf.mode() is Some,
        reg_index(reg) <= 16 || rf.has_spsr(),
    ensures
        rf.write(reg, value).read(reg) == value,
{
}

/// Writing one general register leaves every other register, as read in the same
/// mode, unchanged.
pub proof fn law_write_preserves_others(rf: RegFile, written: Reg, other: Reg, value: u32)
    requires
        rf.wf(),
        rf.mode() is Some,
        reg_index(written) < 16,
        written != other,
    ensures
        rf.write(written, value).read(other) == rf.read(other),
        rf.write(written, value).mode() == rf.mode(),
{
}

/// Entering an exception mode and then restoring the CPSR from its SPSR gives back
/// the old CPSR; the only lasting change is the saved copy in that mode's SPSR.
pub proof fn law_enter_then_restore(rf: RegFile, m: Mode)
    requires
        rf.wf(),
        spsr_slot(m) is Some,
    ensures
        rf.enter_mode(m).mode() == Some(m),
        rf.enter_mode(m).read(Reg::Spsr) == rf.cpsr,
        rf.enter_mode(m).restore() == (RegFile {
            spsr: rf.spsr.update(spsr_slot(m).unwrap(), rf.cpsr),
            ..rf
        }),
{
    lemma_status_bits(rf.cpsr, 0, 0, false, mode_bits(m));
}


/// Writing a general register the value it holds changes nothing.
pub proof fn lemma_write_same(rf: RegFile, reg: Reg)
    requires
        rf.wf(),
        reg_index(reg) < 15,
    ensures
        rf.write(reg, rf.read(reg)) == rf,
{
    let i = reg_index(reg) as int;
    assert(rf.usr.update(i, rf.usr[i]) =~= rf.usr);
    if 8 <= i {
        assert(rf.fiq.update(i - 8, rf.fiq[i - 8]) =~= rf.fiq);
    }
    if 13 <= i {
        assert(rf.svc.update(i - 13, rf.svc[i - 13]) =~= rf.svc);
        assert(rf.abt.update(i - 13, rf.abt[i - 13]) =~= rf.abt);
        assert(rf.irq.update(i - 13, rf.irq[i - 13]) =~= rf.irq);
        assert(rf.und.update(i - 13, rf.und[i - 13]) =~= rf.und);
    }
    assert(rf.write(reg, rf.read(reg)) =~= rf);
}

/// A second write of the same general register replaces the first.
pub proof fn lemma_write_twice(rf: RegFile, reg: Reg, a: u32, b: u32)
    requires
        rf.wf(),
        reg_index(reg) < 15,
    ensures
        rf.write(reg, a).write(reg, b) == rf.write(reg, b),
{
    let i = reg_index(reg) as int;
    assert(rf.usr.update(i, a).update(i, b) =~= rf.usr.update(i, b));
    if 8 <= i {
        assert(rf.fiq.update(i - 8, a).update(i - 8, b) =~= rf.fiq.update(i - 8, b));
    }
    if 13 <= i {
        assert(rf.svc.update(i - 13, a).update(i - 13, b) =~= rf.svc.update(i - 13, b));
        assert(rf.abt.update(i - 13, a).update(i - 13, b) =~= rf.abt.update(i - 13, b));
        assert(rf.irq.update(i - 13, a).update(i - 13, b) =~= rf.irq.update(i - 13, b));
        assert(rf.und.update(i - 13, a).update(i - 13, b) =~= rf.und.update(i - 13, b));
    }
    assert(rf.write(reg, a).write(reg, b) =~= rf.write(reg, b));
}

} // verus!
