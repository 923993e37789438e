pub mod rtc;

use vstd::prelude::*;
use crate::io::gamepak::gpio::rtc::{Bcd, Control, DateTime, Mode, Rtc};

verus! {

/// A device on the general-purpose I/O port of a game pak.
pub trait GpioDevice: Sized {
    /// The device state is consistent.
    spec fn device_wf(&self) -> bool;

    /// A tick of the system clock can be taken.
    spec fn clock_ok(&self) -> bool;

    /// The protocol step after a change of the pins can be taken.
    spec fn write_step_ok(&self) -> bool;

    /// Value of the port register at `byte`.
    spec fn register_spec(&self, byte: u8) -> u8;

    /// A write of `value` to the port register at `byte` can be carried out.
    spec fn write_allowed(&self, byte: u8, value: u8) -> bool;

    /// `after` is a state after writing `value` to the port register at `byte`.
    spec fn written_to(&self, byte: u8, value: u8, after: &Self) -> bool;

    /// One tick of the system clock.
    fn clock(&mut self)
        requires
            old(self).device_wf(),
            old(self).clock_ok(),
        ensures
            final(self).device_wf(),
    ;

    /// Reacts to a change of the pins.
    fn process_write(&mut self)
        requires
            old(self).device_wf(),
            old(self).write_step_ok(),
        ensures
            final(self).device_wf(),
    ;

    /// Reads the port register at `byte` (data 0, direction 2, control 4).
    fn read(&self, byte: u8) -> (r: u8)
        ensures
            r == self.register_spec(byte),
    ;

    /// Writes the port register at `byte` (data 0, direction 2, control 4).
    fn write(&mut self, byte: u8, value: u8)
        requires
            old(self).device_wf(),
            old(self).write_allowed(byte, value),
        ensures
            final(self).device_wf(),
            old(self).written_to(byte, value, final(self)),
    ;

    fn is_used(&self) -> bool;

    fn write_mask(&self) -> u8;

    fn can_write(&self, bit: u8) -> bool
        requires
            bit < 8,
    ;

    fn set_write_mask(&mut self, value: u8);

    fn write_only(&self) -> bool;

    fn set_write_only(&mut self, value: bool);
}

/// The device on the port of a game pak.
pub enum Gpio {
    Rtc(Rtc),
}

/// A counter with every byte zero.
pub open spec fn zero_bcd() -> Bcd {
    Bcd { initial: 0, value: 0, max: 0 }
}

/// A clock with every field zero: pins low, unused, no pins driven, the protocol at
/// its start and every date and time counter zero.
pub open spec fn zeroed_gpio() -> Gpio {
    Gpio::Rtc(Rtc {
        prev_sck: false,
        sck: false,
        sio: false,
        cs: false,
        is_used: false,
        write_only: false,
        write_mask: 0,
        mode: Mode::Start { done: false },
        last_byte: false,
        counter: 0,
        date_time: DateTime {
            control: Control { is_24h: false, per_min_irq: false },
            year: zero_bcd(),
            month: zero_bcd(),
            day: zero_bcd(),
            day_of_week: zero_bcd(),
            is_pm: false,
            hour: zero_bcd(),
            minute: zero_bcd(),
            second: zero_bcd(),
        },
    })
}

impl Default for Gpio {
    fn default() -> (r: Self)
        ensures
            r == zeroed_gpio(),
    {
        Gpio::Rtc(Rtc {
            prev_sck: false,
            sck: false,
            sio: false,
            cs: false,
            is_used: false,
            write_only: false,
            write_mask: 0,
            mode: Mode::Start { done: false },
            last_byte: false,
            counter: 0,
            date_time: DateTime {
                control: Control { is_24h: false, per_min_irq: false },
                year: Bcd::new(0, 0),
                month: Bcd::new(0, 0),
                day: Bcd::new(0, 0),
                day_of_week: Bcd::new(0, 0),
                is_pm: false,
                hour: Bcd::new(0, 0),
                minute: Bcd::new(0, 0),
                second: Bcd::new(0, 0),
            },
        })
    }
}

impl Gpio {
    /// The port of a game pak whose ROM is `rom`: a real-time clock, used when the ROM
    /// names one or `force_rtc` asks for it.
    pub fn new(rom: &[u8], force_rtc: bool) -> (r: Self)
        requires
            rom.len() >= 8,
        ensures
            r matches Gpio::Rtc(rtc) && rtc == Rtc::new_spec(rom@, force_rtc, rtc.date_time) && rtc.date_time.fresh(),
    {
        Gpio::Rtc(Rtc::new(rom, force_rtc))
    }

    /// Reads the port register at the low byte of `offset` of `device`.
    pub fn read_register<D: GpioDevice>(device: &D, offset: u32) -> (r: u8)
        ensures
            r == device.register_spec(offset as u8),
    {
        device.read(offset as u8)
    }

    /// Writes `val` to the port register at the low byte of `offset` of `device`.
    pub fn write_register<D: GpioDevice>(device: &mut D, offset: u32, val: u8)
        requires
            old(device).device_wf(),
            old(device).write_allowed(offset as u8, val),
        ensures
            final(device).device_wf(),
            old(device).written_to(offset as u8, val, final(device)),
    {
        device.write(offset as u8, val)
    }
}

} // verus!
