use vstd::prelude::*;

verus! {

/// Key state register: a bit per key, clear while the key is pressed.
#[derive(Clone, Copy)]
pub struct KEYINPUT(pub u16);

/// Bits of the keys (bits 0 to 9: A, B, Select, Start, Right, Left, Up, Down, R, L).
pub const KEY_ALL: u16 = 0x03FF;
/// Interrupt enable and AND-condition bits of the key control register.
pub const KEYCNT_IRQ_ENABLE: u16 = 0x4000;
pub const KEYCNT_IRQ_COND_AND: u16 = 0x8000;
/// All defined bits of the key control register.
pub const KEYCNT_ALL: u16 = 0xC3FF;

impl KEYINPUT {
    pub fn read<const BYTE: u8>(&self) -> (r: u8)
        requires
            BYTE < 2,
        ensures
            r == (if BYTE == 0 { self.0 as u8 } else { (self.0 >> 8u16) as u8 }),
    {
        match BYTE {
            0 => self.0 as u8,
            _ => (self.0 >> 8) as u8,
        }
    }
}

/// Key interrupt control register: the keys that raise the interrupt, the enable bit
/// and the AND condition.
#[derive(Clone, Copy)]
pub struct KEYCNT(pub u16);

impl KEYCNT {
    pub fn read<const BYTE: u8>(&self) -> (r: u8)
        requires
            BYTE < 2,
        ensures
            r == (if BYTE == 0 { self.0 as u8 } else { (self.0 >> 8u16) as u8 }),
    {
        match BYTE {
            0 => self.0 as u8,
            _ => (self.0 >> 8) as u8,
        }
    }

    /// Writes byte `byte`, keeping only the defined bits.
    pub fn write(&mut self, byte: u8, value: u8)
        requires
            byte < 2,
        ensures
            byte == 0 ==> final(self).0 == (old(self).0 & !0x00FFu16) | ((value as u16) & KEYCNT_ALL),
            byte == 1 ==> final(self).0 == (old(self).0 & !0xFF00u16) | (((value as u16) << 8u16) & KEYCNT_ALL),
    {
        if byte == 0 {
            self.0 = (self.0 & !0x00FF) | ((value as u16) & KEYCNT_ALL);
        } else {
            self.0 = (self.0 & !0xFF00) | (((value as u16) << 8) & KEYCNT_ALL);
        }
    }
}

/// The keypad: key state and interrupt control.
pub struct Keypad {
    pub keyinput: KEYINPUT,
    pub keycnt: KEYCNT,
}

/// The keypad interrupt condition: enabled, and either all selected keys pressed
/// (AND condition) or any of them.
pub open spec fn key_interrupt(keyinput: u16, keycnt: u16) -> bool {
    let irq_keys = keycnt & !(KEYCNT_IRQ_ENABLE | KEYCNT_IRQ_COND_AND);
    if keycnt & KEYCNT_IRQ_ENABLE == KEYCNT_IRQ_ENABLE {
        if keycnt & KEYCNT_IRQ_COND_AND == KEYCNT_IRQ_COND_AND {
            irq_keys & !keyinput == irq_keys
        } else {
            irq_keys & !keyinput != 0
        }
    } else {
        false
    }
}

impl Keypad {
    /// No key pressed, no interrupt selected.
    pub fn new() -> (r: Self)
        ensures
            r.keyinput.0 == KEY_ALL,
            r.keycnt.0 == 0,
    {
        Self { keyinput: KEYINPUT(KEY_ALL), keycnt: KEYCNT(0) }
    }

    pub fn reset(&mut self)
        ensures
            final(self).keyinput.0 == KEY_ALL,
            final(self).keycnt.0 == 0,
    {
        self.keyinput = KEYINPUT(KEY_ALL);
        self.keycnt = KEYCNT(0);
    }

    /// Takes a key event: the bits of `key` clear while pressed, set once released.
    pub fn poll_event(&mut self, key: KEYINPUT, pressed: bool)
        ensures
            final(self).keycnt.0 == old(self).keycnt.0,
            final(self).keyinput.0 == (if pressed {
                old(self).keyinput.0 & !(key.0 & KEY_ALL)
            } else {
                old(self).keyinput.0 | (key.0 & KEY_ALL)
            }),
    {
        if pressed {
            self.keyinput = KEYINPUT(self.keyinput.0 & !(key.0 & KEY_ALL));
        } else {
            self.keyinput = KEYINPUT(self.keyinput.0 | (key.0 & KEY_ALL));
        }
    }

    /// Whether the keypad interrupt condition holds.
    pub fn interrupt_requested(&self) -> (r: bool)
        ensures
            r == key_interrupt(self.keyinput.0, self.keycnt.0),
    {
        if self.keycnt.0 & KEYCNT_IRQ_ENABLE == KEYCNT_IRQ_ENABLE {
            let irq_keys = self.keycnt.0 & !(KEYCNT_IRQ_ENABLE | KEYCNT_IRQ_COND_AND);
            if self.keycnt.0 & KEYCNT_IRQ_COND_AND == KEYCNT_IRQ_COND_AND {
                irq_keys & !self.keyinput.0 == irq_keys
            } else {
                irq_keys & !self.keyinput.0 != 0
            }
        } else {
            false
        }
    }
}

/// Pressing every selected key raises the keypad interrupt under either condition,
/// once it is enabled and some key is selected (the register's unused bits clear).
pub proof fn law_all_selected_pressed_interrupts(keyinput: u16, keycnt: u16)
    requires
        keycnt & KEYCNT_IRQ_ENABLE == KEYCNT_IRQ_ENABLE,
        keycnt & 0x3C00 == 0,
        keycnt & 0x3FF != 0,
        keyinput & (keycnt & 0x3FF) == 0,
    ensures
        key_interrupt(keyinput, keycnt),
{
    assert(keycnt & 0x3C00u16 == 0 && keycnt & 0x3FFu16 != 0 && keyinput & (keycnt & 0x3FFu16) == 0 ==> {
        let irq_keys = keycnt & !(0x4000u16 | 0x8000u16);
        &&& irq_keys & !keyinput == irq_keys
        &&& irq_keys & !keyinput != 0
    }) by (bit_vector);
}

/// Pressing keys that were released and then releasing them again leaves the key
/// state as it was.
pub proof fn law_press_then_release(keyinput: u16, key: u16)
    requires
        keyinput & (key & KEY_ALL) == key & KEY_ALL,
    ensures
        (keyinput & !(key & KEY_ALL)) | (key & KEY_ALL) == keyinput,
        (keyinput & !(key & KEY_ALL)) & (key & KEY_ALL) == 0,
{
    assert((keyinput & !(key & 0x03FFu16)) | (key & 0x03FFu16) == keyinput && (keyinput & !(key & 0x03FFu16)) & (key
        & 0x03FFu16) == 0) by (bit_vector)
        requires
            keyinput & (key & 0x03FFu16) == key & 0x03FFu16,
    ;
}

} // verus!
