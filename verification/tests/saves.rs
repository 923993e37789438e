use fluorite::io::gamepak::gpio::rtc::{Bcd, ClockReading, Control, DateTime, Mode as ClockMode, Rtc};
use fluorite::io::gamepak::gpio::{Gpio, GpioDevice};
use fluorite::io::gamepak::save::flash::{Command, Flash, Mode, DEVICE_ID, MANUFACTURER_ID};
use fluorite::io::gamepak::save::sram::{Sram, SRAM_SIZE};
use fluorite::gamepak::rom::Rom;
use fluorite::io::gamepak::save::{SaveDevice, SaveType, Saves};
use fluorite::io::gamepak::Gamepak;
use std::path::PathBuf;

fn empty_path() -> PathBuf {
    PathBuf::new()
}

fn rom_with(id: &[u8]) -> Vec<u8> {
    let mut rom = vec![0u8; 0x200];
    rom[0x100..0x100 + id.len()].copy_from_slice(id);
    rom
}

#[test]
fn save_type_numbers() {
    assert_eq!(SaveType::from(0), SaveType::Eeprom);
    assert_eq!(SaveType::from(1), SaveType::Sram);
    assert_eq!(SaveType::from(4), SaveType::Flash1M);
}

#[test]
fn save_type_is_found_in_the_rom() {
    assert_eq!(Saves::get_type(&rom_with(b"SRAM_V113")), Some(SaveType::Sram));
    assert_eq!(Saves::get_type(&rom_with(b"FLASH_V126")), Some(SaveType::Flash));
    assert_eq!(Saves::get_type(&rom_with(b"FLASH512_V131")), Some(SaveType::Flash512));
    assert_eq!(Saves::get_type(&rom_with(b"FLASH1M_V103")), Some(SaveType::Flash1M));
    assert_eq!(Saves::get_type(&rom_with(b"EEPROM_V124")), Some(SaveType::Eeprom));
    assert_eq!(Saves::get_type(&rom_with(b"NOTHING")), None);
}

#[test]
fn initial_data_uses_saved_bytes_of_the_right_size() {
    assert_eq!(Saves::get_initial_data(Some(vec![1, 2, 3]), 0xFF, 3), vec![1, 2, 3]);
    assert_eq!(Saves::get_initial_data(Some(vec![1, 2]), 0xFF, 3), vec![0xFF; 3]);
    assert_eq!(Saves::get_initial_data(None, 0, 2), vec![0, 0]);
}

#[test]
fn saves_pick_the_device() {
    match Saves::new(&rom_with(b"FLASH1M_V103"), empty_path(), None) {
        Saves::Flash(f) => {
            assert_eq!(f.data.len(), 0x20000);
            assert!(f.data.iter().all(|b| *b == 0xFF));
        },
        _ => panic!("expected flash"),
    }
    match Saves::new(&rom_with(b"FLASH_V126"), empty_path(), None) {
        Saves::Flash(f) => assert_eq!(f.data.len(), 0x10000),
        _ => panic!("expected flash"),
    }
    match Saves::new(&rom_with(b"SRAM_V113"), empty_path(), Some(vec![7u8; SRAM_SIZE])) {
        Saves::Sram(s) => assert_eq!(s.data[5], 7),
        _ => panic!("expected sram"),
    }
}

#[test]
fn sram_write_then_read() {
    let mut s = Sram::new(empty_path(), None);
    assert_eq!(s.read(0x10), 0);
    s.write(0x10, 0xAB);
    assert_eq!(s.read(0x10), 0xAB);
    assert!(s.is_dirty);
    // Beyond 32 KiB: ignored, reads 0.
    s.write(0x9000, 0x11);
    assert_eq!(s.read(0x9000), 0);
}

fn command(f: &mut Flash, cmd: u8) {
    f.write(0x5555, 0xAA);
    f.write(0x2AAA, 0x55);
    f.write(0x5555, cmd);
}

#[test]
fn flash_save_write_then_read() {
    let mut f = Flash::new(empty_path(), 0x20000, None);
    assert_eq!(f.read(0x1234), 0xFF);
    command(&mut f, 0xA0);
    assert_eq!(f.mode, Mode::Write);
    f.write(0x1234, 0x5A);
    assert_eq!(f.mode, Mode::Ready);
    assert_eq!(f.read(0x1234), 0x5A);
    assert!(f.is_dirty);
    assert_eq!(f.command, Command::Command0);
}

#[test]
fn flash_save_identification_and_bank() {
    let mut f = Flash::new(empty_path(), 0x20000, None);
    command(&mut f, 0x90);
    assert_eq!(f.read(0), MANUFACTURER_ID);
    assert_eq!(f.read(1), DEVICE_ID);
    command(&mut f, 0xF0);
    assert!(!f.in_chip_ident);
    command(&mut f, 0xB0);
    f.write(0, 1);
    assert_eq!(f.bank, 1);
    command(&mut f, 0xA0);
    f.write(0x20, 0x66);
    assert_eq!(f.data[0x10020], 0x66);
    assert_eq!(f.read(0x20), 0x66);
}

#[test]
fn flash_save_erase_sector_and_chip() {
    let mut f = Flash::new(empty_path(), 0x10000, Some(vec![0u8; 0x10000]));
    command(&mut f, 0x80);
    f.write(0x5555, 0xAA);
    f.write(0x2AAA, 0x55);
    f.write(0x1000, 0x30);
    assert_eq!(f.read(0x1000), 0xFF);
    assert_eq!(f.read(0x1FFF), 0xFF);
    assert_eq!(f.read(0x2000), 0);
    command(&mut f, 0x80);
    f.write(0x5555, 0xAA);
    f.write(0x2AAA, 0x55);
    f.write(0x5555, 0x10);
    assert!(f.data.iter().all(|b| *b == 0xFF));
}

#[test]
fn bcd_counter_counts_in_decimal_and_wraps() {
    let mut b = Bcd::new(0x58, 0x59);
    assert!(!b.inc());
    assert_eq!(b.value(), 0x59);
    assert!(b.inc());
    assert_eq!(b.value(), 0x58);
    let mut b = Bcd::new(0x09, 0x59);
    assert!(!b.inc());
    assert_eq!(b.value(), 0x10);
}

#[test]
fn clock_control_reads_back_written_bits() {
    let mut c = Control::new();
    assert_eq!(c.read(), 0);
    c.write(0xFF);
    assert_eq!(c.read(), 0x48);
    c.write(0x08);
    assert!(c.per_min_irq && !c.is_24h);
}

#[test]
fn date_time_from_a_reading_is_bcd() {
    let t = ClockReading { year: 2024, month: 12, day: 31, weekday: 2, is_pm: true, hour12: 11, minute: 59, second: 7 };
    let d = DateTime::from_reading(&t);
    assert_eq!(d.read(0), 0x24);
    assert_eq!(d.read(1), 0x12);
    assert_eq!(d.read(2), 0x31);
    assert_eq!(d.read(3), 0x02);
    assert_eq!(d.read(4), 0x40 | 0x11);
    assert_eq!(d.read(5), 0x59);
    assert_eq!(d.read(6), 0x07);
}

#[test]
fn date_time_now_is_in_range() {
    let d = DateTime::new();
    let month = d.read(1);
    assert!(month >= 1 && month <= 0x12);
    let minute = d.read(5);
    assert!(minute <= 0x59 && (minute & 0xF) <= 9);
    let year = d.read(0);
    assert!((year & 0xF) <= 9);
}

#[test]
fn gamepak_backup_follows_the_rom() {
    let mut g = Gamepak::new();
    assert!(!g.is_eeprom());
    let mut rom = Rom::default();
    rom.data = rom_with(b"SRAM_V113");
    g.load(rom, empty_path(), None, false);
    assert!(!g.is_rtc_used());
    assert!(!g.is_eeprom());
    assert_eq!(g.read_save(0x20), 0);
    g.write_save(0x20, 0x9C);
    assert_eq!(g.read_save(0x20), 0x9C);
    let mut rom = Rom::default();
    rom.data = rom_with(b"FLASH_V126");
    g.load(rom, empty_path(), None, false);
    assert_eq!(g.read_save(0x20), 0xFF);
}

fn pins(rtc: &mut Rtc, sck: bool, sio: bool, cs: bool) {
    rtc.write(0, (sck as u8) | ((sio as u8) << 1) | ((cs as u8) << 2));
}

fn send_command(rtc: &mut Rtc, c: u8) {
    pins(rtc, true, false, false);
    pins(rtc, true, false, true);
    for i in 0..8 {
        let b = (c >> i) & 1 == 1;
        pins(rtc, false, b, true);
        pins(rtc, true, b, true);
    }
}

fn receive_bytes(rtc: &mut Rtc, n: usize) -> Vec<u8> {
    // The console reads SIO: make it an input.
    rtc.write(2, 0b101);
    let mut out = Vec::new();
    for _ in 0..n {
        let mut byte = 0u8;
        for bit in 0..8 {
            pins(rtc, false, false, true);
            let sio = (rtc.read(0) >> 1) & 1;
            byte |= sio << bit;
            pins(rtc, true, false, true);
        }
        out.push(byte);
    }
    out
}

fn rom_with_clock() -> Vec<u8> {
    let mut rom = vec![0u8; 0x200];
    rom[0x40..0x48].copy_from_slice(b"SIIRTC_V");
    rom
}

#[test]
fn clock_is_found_in_the_rom() {
    assert!(Rtc::new(&rom_with_clock(), false).is_used());
    assert!(!Rtc::new(&vec![0u8; 0x200], false).is_used());
    assert!(Rtc::new(&vec![0u8; 0x200], true).is_used());
}

#[test]
fn clock_serial_read_of_control_and_date_time() {
    let mut rtc = Rtc::new(&rom_with_clock(), false);
    // Read the control register (command 4 with the read bit, code in the low nibble).
    send_command(&mut rtc, 0xC6);
    assert_eq!(receive_bytes(&mut rtc, 1), vec![0]);
    assert!(matches!(rtc.mode, ClockMode::End));
    // Deselect: back to the start of the protocol.
    rtc.write(2, 0b111);
    pins(&mut rtc, true, false, false);
    assert!(matches!(rtc.mode, ClockMode::Start { done: false }));
    // Read the seven date and time registers.
    let expected: Vec<u8> = (0..7).map(|k| rtc.date_time.read(k)).collect();
    send_command(&mut rtc, 0xA6);
    assert_eq!(receive_bytes(&mut rtc, 7), expected);
    assert!(matches!(rtc.mode, ClockMode::End));
}

#[test]
fn clock_port_registers() {
    let mut rtc = Rtc::new(&rom_with_clock(), false);
    assert_eq!(rtc.read(2), 0b111);
    assert_eq!(rtc.read(4), 1);
    rtc.write(4, 1);
    assert_eq!(rtc.read(4), 0);
    rtc.write(2, 0b001);
    assert_eq!(rtc.read(2), 0b001);
    assert!(rtc.can_write(0) && !rtc.can_write(1));
}

#[test]
fn port_register_offsets_use_their_low_byte() {
    let rtc = Rtc::new(&rom_with_clock(), false);
    assert_eq!(Gpio::read_register(&rtc, 0x104), rtc.read(4));
    assert_eq!(Gpio::read_register(&rtc, 0x102), 0b111);
    assert_eq!(Gpio::read_register(&rtc, 7), 0);
}
