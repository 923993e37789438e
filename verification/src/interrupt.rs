use vstd::prelude::*;

verus! {

/// Interrupt sources, in the order of their bits in IE and IF.
#[allow(non_camel_case_types)]
#[derive(Debug, Copy, Clone, PartialEq, Eq, Structural)]
pub enum Interrupt {
    LCD_VBlank,
    LCD_HBlank,
    LCD_VCounterMatch,
    Timer0_Overflow,
    Timer1_Overflow,
    Timer2_Overflow,
    Timer3_Overflow,
    SerialCommunication,
    DMA0,
    DMA1,
    DMA2,
    DMA3,
    Keypad,
    GamePak,
}

/// Bit number of an interrupt source.
pub open spec fn interrupt_bit(i: Interrupt) -> u32 {
    match i {
        Interrupt::LCD_VBlank => 0,
        Interrupt::LCD_HBlank => 1,
        Interrupt::LCD_VCounterMatch => 2,
        Interrupt::Timer0_Overflow => 3,
        Interrupt::Timer1_Overflow => 4,
        Interrupt::Timer2_Overflow => 5,
        Interrupt::Timer3_Overflow => 6,
        Interrupt::SerialCommunication => 7,
        Interrupt::DMA0 => 8,
        Interrupt::DMA1 => 9,
        Interrupt::DMA2 => 10,
        Interrupt::DMA3 => 11,
        Interrupt::Keypad => 12,
        Interrupt::GamePak => 13,
    }
}

impl Interrupt {
    /// Bit number of this source.
    pub fn bit(self) -> (r: u32)
        ensures
            r == interrupt_bit(self),
            r < 14,
    {
        match self {
            Interrupt::LCD_VBlank => 0,
            Interrupt::LCD_HBlank => 1,
            Interrupt::LCD_VCounterMatch => 2,
            Interrupt::Timer0_Overflow => 3,
            Interrupt::Timer1_Overflow => 4,
            Interrupt::Timer2_Overflow => 5,
            Interrupt::Timer3_Overflow => 6,
            Interrupt::SerialCommunication => 7,
            Interrupt::DMA0 => 8,
            Interrupt::DMA1 => 9,
            Interrupt::DMA2 => 10,
            Interrupt::DMA3 => 11,
            Interrupt::Keypad => 12,
            Interrupt::GamePak => 13,
        }
    }

    /// The overflow interrupt of timer `id` (below 4).
    pub fn timer_overflow(id: usize) -> (r: Interrupt)
        requires
            id < 4,
        ensures
            interrupt_bit(r) == id + 3,
    {
        if id == 0 {
            Interrupt::Timer0_Overflow
        } else if id == 1 {
            Interrupt::Timer1_Overflow
        } else if id == 2 {
            Interrupt::Timer2_Overflow
        } else {
            Interrupt::Timer3_Overflow
        }
    }
}

/// A set of interrupt sources as the sixteen bits of IE or IF (bits 14 and 15 unused).
#[derive(Debug, Default, Clone, Copy, PartialEq, Eq, Structural)]
pub struct IrqBitMask(pub u16);

/// The interrupt controller: the master enable (IME), the enabled sources (IE) and the
/// requested ones (IF).
#[derive(Debug, Clone, Copy)]
pub struct InterruptController {
    pub master_enable: bool,
    pub enable: IrqBitMask,
    pub flags: IrqBitMask,
}

impl InterruptController {
    pub fn new() -> (r: Self)
        ensures
            !r.master_enable,
            r.enable.0 == 0,
            r.flags.0 == 0,
    {
        Self { master_enable: false, enable: IrqBitMask(0), flags: IrqBitMask(0) }
    }

    /// Whether an interrupt is due: IME is set and some requested source is enabled.
    pub fn irq_pending(&self) -> (r: bool)
        ensures
            r == (self.master_enable && self.flags.0 & self.enable.0 != 0),
    {
        self.master_enable && (self.flags.0 & self.enable.0) != 0
    }
}

/// Requests interrupt `i`: sets its bit in the flags, keeping the others.
pub fn signal_irq(interrupt_flags: &mut IrqBitMask, i: Interrupt)
    ensures
        final(interrupt_flags).0 == old(interrupt_flags).0 | (1u16 << interrupt_bit(i)),
{
    let bit = i.bit();
    interrupt_flags.0 = interrupt_flags.0 | (1u16 << bit);
}

/// A requested source stays requested, and the signalled one is requested, whatever
/// was requested before.
pub proof fn law_signal_sets_bit(flags: u16, i: Interrupt, j: u32)
    requires
        j < 16,
    ensures
        (flags | (1u16 << interrupt_bit(i))) >> interrupt_bit(i) & 1 == 1,
        (flags >> j) & 1 == 1 ==> ((flags | (1u16 << interrupt_bit(i))) >> j) & 1 == 1,
{
    let b = interrupt_bit(i);
    assert(b < 14);
    assert((flags | (1u16 << b)) >> b & 1 == 1 && ((flags >> j) & 1 == 1 ==> ((flags | (1u16 << b)) >> j) & 1
        == 1)) by (bit_vector)
        requires
            b < 14,
            j < 16,
    ;
}

} // verus!
