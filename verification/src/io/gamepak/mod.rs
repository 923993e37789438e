pub mod gpio;
pub mod save;

use vstd::prelude::*;
use crate::gamepak::rom::Rom;
use crate::io::gamepak::gpio::rtc::Rtc;
use crate::io::gamepak::gpio::{zeroed_gpio, Gpio, GpioDevice};
use crate::io::gamepak::save::{detected_type, SaveDevice, SaveType, Saves};
use std::path::PathBuf;

verus! {

/// A game pak: its ROM, the device on its I/O port and its backup memory.
pub struct Gamepak {
    pub rom: Rom,
    pub gpio: Gpio,
    pub save: Saves,
}

impl Gamepak {
    /// An empty game pak: no ROM, an unused clock with every field zero, and an empty
    /// static RAM.
    pub fn new() -> (r: Self)
        ensures
            r.rom.data@.len() == 0,
            r.gpio == zeroed_gpio(),
            r.save matches Saves::Sram(s) && s.data@.len() == 0 && !s.is_dirty,
    {
        Self { rom: Rom::default(), gpio: Gpio::default(), save: Saves::default() }
    }

    /// Puts the ROM `rom` in: the backup memory that it names, for the save file
    /// `save_file` whose bytes were read as `saved`, and its clock.
    pub fn load(&mut self, rom: Rom, save_file: PathBuf, saved: Option<Vec<u8>>, force_rtc: bool)
        requires
            rom.data.len() >= 8,
            detected_type(rom.data@, rom.data.len() as int) != Some(SaveType::Eeprom),
        ensures
            final(self).rom.data@ == rom.data@,
            final(self).rom.title@ == rom.title@ && final(self).rom.code@ == rom.code@,
            final(self).gpio matches Gpio::Rtc(rtc) && rtc == Rtc::new_spec(rom.data@, force_rtc, rtc.date_time)
                && rtc.date_time.fresh(),
            detected_type(rom.data@, rom.data.len() as int) is None
                || detected_type(rom.data@, rom.data.len() as int) == Some(SaveType::Sram)
                <==> final(self).save is Sram,
    {
        self.save = Saves::new(rom.data.as_slice(), save_file, saved);
        self.gpio = Gpio::new(rom.data.as_slice(), force_rtc);
        self.rom = rom;
    }

    /// Reads the backup memory.
    pub fn read_save(&self, addr: u32) -> (r: u8)
        requires
            self.save.save_wf(),
            self.save.read_ok(addr),
        ensures
            r == self.save.read_spec(addr),
    {
        self.save.read(addr)
    }

    /// Writes the backup memory.
    pub fn write_save(&mut self, addr: u32, val: u8)
        requires
            old(self).save.save_wf(),
            old(self).save.write_ok(addr, val),
        ensures
            final(self).save.save_wf(),
            old(self).save.written_to(addr, val, &final(self).save),
            final(self).rom == old(self).rom,
            final(self).gpio == old(self).gpio,
    {
        self.save.write(addr, val)
    }

    /// The game uses the real-time clock.
    pub fn is_rtc_used(&self) -> (r: bool)
        ensures
            r == (self.gpio matches Gpio::Rtc(rtc) && rtc.is_used),
    {
        match &self.gpio {
            Gpio::Rtc(rtc) => rtc.is_used(),
        }
    }

    /// The backup memory is an EEPROM; static RAM and flash are not.
    pub fn is_eeprom(&self) -> (r: bool)
        ensures
            !r,
    {
        match self.save {
            Saves::Sram(_) => false,
            Saves::Flash(_) => false,
        }
    }
}

} // verus!
