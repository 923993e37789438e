use fluorite::cartridge::{
    detect_backup_type, is_gpio_access, read_unused, BackupFile, BackupMemoryInterface, BackupType, CartridgeHeader,
    Flash, FlashCommand, FlashMode, FlashSize, FlashWriteSequence, Gpio, GpioDevice, GpioDirection, GpioPortControl,
    HeaderError, GPIO_PORT_CONTROL, GPIO_PORT_DATA, GPIO_PORT_DIRECTION, MACRONIX_128K_CHIP_ID, MACRONIX_64K_CHIP_ID,
};

fn rom_with(text: &[u8], at: usize) -> Vec<u8> {
    let mut rom = vec![0u8; 0x400];
    rom[at..at + text.len()].copy_from_slice(text);
    rom
}

#[test]
fn backup_type_is_found_by_marker() {
    assert_eq!(detect_backup_type(&rom_with(b"SRAM_V113", 0x200)), Some(BackupType::Sram));
    assert_eq!(detect_backup_type(&rom_with(b"EEPROM_V122", 0x300)), Some(BackupType::Eeprom));
    assert_eq!(detect_backup_type(&rom_with(b"FLASH_V126", 0x100)), Some(BackupType::Flash));
    assert_eq!(detect_backup_type(&rom_with(b"FLASH512_V131", 0x100)), Some(BackupType::Flash512));
    assert_eq!(detect_backup_type(&rom_with(b"FLASH1M_V103", 0x100)), Some(BackupType::Flash1M));
    assert_eq!(detect_backup_type(&vec![0u8; 0x100]), None);
}

#[test]
fn backup_type_prefers_the_first_kind() {
    let mut rom = rom_with(b"FLASH_V126", 0x100);
    rom[0x200..0x204].copy_from_slice(b"SRAM");
    assert_eq!(detect_backup_type(&rom), Some(BackupType::Sram));
}

#[test]
fn gpio_registers_and_unused_rom_reads() {
    assert!(is_gpio_access(0x0800_00C4));
    assert!(is_gpio_access(0x0A00_00C6));
    assert!(is_gpio_access(0x0C00_00C8));
    assert!(!is_gpio_access(0x0800_00CA));
    assert_eq!(read_unused(0x0800_0000), 0x00);
    assert_eq!(read_unused(0x0800_0246), 0x23);
    assert_eq!(read_unused(0x0800_2469), 0x12);
}

fn header_rom(title: &[u8]) -> Vec<u8> {
    let mut rom = vec![0u8; 0xC0];
    rom[0xA0..0xA0 + title.len()].copy_from_slice(title);
    rom[0xAC..0xB0].copy_from_slice(b"AXVE");
    rom[0xB0..0xB2].copy_from_slice(b"01");
    rom[0xBC] = 1;
    rom[0xBD] = 0x5A;
    rom
}

#[test]
fn header_parses_text_fields() {
    let h = CartridgeHeader::parse(&header_rom(b"POKEMON RUBY")).unwrap();
    assert_eq!(h.game_title, "POKEMON RUBY");
    assert_eq!(h.game_code, "AXVE");
    assert_eq!(h.maker_code, "01");
    assert_eq!(h.software_version, 1);
    assert_eq!(h.checksum, 0x5A);
}

#[test]
fn header_drops_control_characters() {
    let h = CartridgeHeader::parse(&header_rom(b"ABC")).unwrap();
    assert_eq!(h.game_title, "ABC");
}

#[test]
fn header_errors() {
    assert_eq!(CartridgeHeader::parse(&vec![0u8; 0xBF]).unwrap_err(), HeaderError::Incomplete);
    let mut rom = header_rom(b"TITLE");
    rom[0xA0] = 0xFF;
    assert_eq!(CartridgeHeader::parse(&rom).unwrap_err(), HeaderError::InvalidTitle);
    let mut rom = header_rom(b"TITLE");
    rom[0xAC] = 0xC3;
    assert_eq!(CartridgeHeader::parse(&rom).unwrap_err(), HeaderError::InvalidCode);
    let mut rom = header_rom(b"TITLE");
    rom[0xB1] = 0x80;
    assert_eq!(CartridgeHeader::parse(&rom).unwrap_err(), HeaderError::InvalidMaker);
    assert_eq!(HeaderError::InvalidTitle.message(), "invalid game title");
    assert_eq!(HeaderError::Incomplete.message(), "incomplete cartridge header");
}

#[test]
fn flash_commands_decode() {
    assert_eq!(FlashCommand::from_u8(0x90), Some(FlashCommand::EnterIdMode));
    assert_eq!(FlashCommand::from_u8(0xA0), Some(FlashCommand::WriteByte));
    assert_eq!(FlashCommand::from_u8(0xB0), Some(FlashCommand::SelectBank));
    assert_eq!(FlashCommand::from_u8(0x11), None);
    assert_eq!(usize::from(FlashSize::Flash64k), 0x10000);
    assert_eq!(usize::from(FlashSize::Flash128k), 0x20000);
}

fn command(flash: &mut Flash, cmd: u8) {
    flash.write(0x0E00_5555, 0xAA);
    flash.write(0x0E00_2AAA, 0x55);
    flash.write(0x0E00_5555, cmd);
}

#[test]
fn flash_byte_written_reads_back() {
    let mut flash = Flash::new(None, FlashSize::Flash64k);
    assert_eq!(flash.read(0x0E00_0123), 0xFF);
    command(&mut flash, 0xA0);
    assert_eq!(flash.mode, FlashMode::Write);
    assert_eq!(flash.wrseq, FlashWriteSequence::Argument);
    flash.write(0x0E00_0123, 0x42);
    assert_eq!(flash.mode, FlashMode::Initial);
    assert_eq!(flash.read(0x0E00_0123), 0x42);
}

#[test]
fn flash_chip_id_and_erase() {
    let mut flash = Flash::new(None, FlashSize::Flash128k);
    command(&mut flash, 0x90);
    assert_eq!(flash.read(0x0E00_0000), (MACRONIX_128K_CHIP_ID & 0xFF) as u8);
    assert_eq!(flash.read(0x0E00_0001), (MACRONIX_128K_CHIP_ID >> 8) as u8);
    command(&mut flash, 0xF0);
    command(&mut flash, 0xA0);
    flash.write(0x0E00_1010, 0x33);
    assert_eq!(flash.read(0x0E00_1010), 0x33);
    // Erase the sector holding it.
    command(&mut flash, 0x80);
    flash.write(0x0E00_5555, 0xAA);
    flash.write(0x0E00_2AAA, 0x55);
    flash.write(0x0E00_1000, 0x30);
    assert_eq!(flash.read(0x0E00_1010), 0xFF);
    let small = Flash::new(None, FlashSize::Flash64k);
    assert_eq!(small.chip_id, MACRONIX_64K_CHIP_ID);
}

#[test]
fn flash_bank_select() {
    let mut flash = Flash::new(None, FlashSize::Flash128k);
    command(&mut flash, 0xB0);
    flash.write(0x0E00_0000, 1);
    assert_eq!(flash.bank, 1);
    command(&mut flash, 0xA0);
    flash.write(0x0E00_0010, 0x77);
    assert_eq!(flash.memory.buffer[0x10010], 0x77);
    assert_eq!(flash.memory.buffer[0x10], 0xFF);
}

#[test]
fn backup_file_resizes_with_erased_bytes() {
    let mut f = BackupFile::new(4, None);
    f.write(1, 9);
    assert_eq!(f.read(1), 9);
    f.resize(6);
    assert_eq!(f.buffer, vec![0xFF, 9, 0xFF, 0xFF, 0xFF, 0xFF]);
    f.resize(2);
    assert_eq!(f.buffer, vec![0xFF, 9]);
}

#[derive(Debug)]
struct Pins(u16);

impl GpioDevice for Pins {
    fn pins(&self, _gpio_state: [GpioDirection; 4]) -> u16 {
        self.0
    }
    fn write(&mut self, _gpio_state: &[GpioDirection; 4], data: u16) {
        self.0 = data;
    }
    fn read(&self, _gpio_state: &[GpioDirection; 4]) -> u16 {
        self.0
    }
}

#[test]
fn gpio_port_registers() {
    let mut gpio = Gpio::new(Some(Pins(0)));
    assert!(!gpio.is_readable());
    gpio.write(GPIO_PORT_CONTROL, 1);
    assert_eq!(gpio.control, GpioPortControl::ReadWrite);
    assert!(gpio.is_readable());
    gpio.write(GPIO_PORT_DIRECTION, 0b0101);
    assert_eq!(gpio.direction, [GpioDirection::Out, GpioDirection::In, GpioDirection::Out, GpioDirection::In]);
    gpio.write(GPIO_PORT_DATA, 0b0011);
    assert_eq!(gpio.read(GPIO_PORT_DATA), 0b0011);
    let empty: Gpio<Pins> = Gpio::new(None);
    assert_eq!(empty.read(GPIO_PORT_DATA), 0);
}
