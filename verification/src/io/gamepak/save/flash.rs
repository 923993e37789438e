use vstd::prelude::*;
use crate::io::gamepak::save::{initial_data, SaveDevice, Saves};
use std::path::PathBuf;

verus! {

/// Manufacturer identification of the emulated chip (Sanyo).
pub const MANUFACTURER_ID: u8 = 0x62;
/// Device identification of the emulated chip.
pub const DEVICE_ID: u8 = 0x13;
/// Address of the first and third byte of a command sequence.
pub const COMMAND_ADDR: u32 = 0x5555;
/// Address of the second byte of a command sequence.
pub const COMMAND1_ADDR: u32 = 0x2AAA;

/// Progress through the three-byte command sequence (0xAA, 0x55, command).
#[derive(Clone, Copy, Debug, PartialEq, Eq, Structural)]
pub enum Command {
    Command0,
    Command1,
    Command2,
}

/// What the next write does.
#[derive(Clone, Copy, Debug, PartialEq, Eq, Structural)]
pub enum Mode {
    Ready,
    Erase,
    Write,
    SetBank,
}

/// Flash backup memory: 64 KiB banks driven by command sequences.
pub struct Flash {
    pub data: Vec<u8>,
    pub save_file: PathBuf,
    pub is_dirty: bool,
    pub command: Command,
    pub mode: Mode,
    pub bank: usize,
    pub in_chip_ident: bool,
}

/// The contents and state of a flash memory: data, dirty flag, command progress,
/// mode, bank and identification mode.
pub type FlashState = (Seq<u8>, bool, Command, Mode, usize, bool);

impl Flash {
    /// A flash memory of `size` bytes for the save file `save_file`, holding the bytes
    /// read from it (`saved`) when they have that size, else erased (0xFF).
    pub fn new(save_file: PathBuf, size: usize, saved: Option<Vec<u8>>) -> (r: Flash)
        ensures
            r.data@ == initial_data(
                match saved {
                    Some(d) => Some(d@),
                    None => None,
                },
                0xFF,
                size as nat,
            ),
            r.save_file == save_file,
            !r.is_dirty,
            r.command == Command::Command0,
            r.mode == Mode::Ready,
            r.bank == 0,
            !r.in_chip_ident,
    {
        Flash {
            data: Saves::get_initial_data(saved, 0xFF, size),
            save_file,
            is_dirty: false,
            command: Command::Command0,
            mode: Mode::Ready,
            bank: 0,
            in_chip_ident: false,
        }
    }

    pub open spec fn state(&self) -> FlashState {
        (self.data@, self.is_dirty, self.command, self.mode, self.bank, self.in_chip_ident)
    }

    /// Offset in the data of address `addr` of the current bank.
    pub open spec fn offset(&self, addr: u32) -> int {
        self.bank * 0x10000 + addr
    }

    /// The state after writing `value` at `addr`: a pending byte write or bank switch
    /// is carried out; otherwise the byte advances the command sequence, and its
    /// third byte enters or leaves the identification mode, arms an erase, a byte
    /// write or a bank switch, or, when an erase is armed, erases the chip (0x10) or
    /// the 4 KiB sector at `addr` (0x30).
    pub open spec fn written(&self, addr: u32, value: u8) -> FlashState {
        let (data, dirty, command, mode, bank, ident) = self.state();
        if mode == Mode::Write {
            (data.update(self.offset(addr), value), true, command, Mode::Ready, bank, ident)
        } else if mode == Mode::SetBank {
            (data, dirty, command, Mode::Ready, value as usize, ident)
        } else if command == Command::Command0 {
            (data, dirty, if value == 0xAA { Command::Command1 } else { Command::Command0 }, mode, bank, ident)
        } else if command == Command::Command1 {
            (data, dirty, Command::Command2, mode, bank, ident)
        } else if mode == Mode::Ready {
            if value == 0x90 {
                (data, dirty, Command::Command0, Mode::Ready, bank, true)
            } else if value == 0xF0 {
                (data, dirty, Command::Command0, Mode::Ready, bank, false)
            } else if value == 0x80 {
                (data, dirty, Command::Command0, Mode::Erase, bank, ident)
            } else if value == 0xA0 {
                (data, dirty, Command::Command0, Mode::Write, bank, ident)
            } else {
                (data, dirty, Command::Command0, Mode::SetBank, bank, ident)
            }
        } else if value == 0x10 {
            (Seq::new(data.len(), |_i: int| 0xFFu8), true, Command::Command0, Mode::Ready, bank, ident)
        } else {
            (
                Seq::new(data.len(), |i: int| if addr <= i < addr + 0x1000 { 0xFFu8 } else { data[i] }),
                true,
                Command::Command0,
                Mode::Ready,
                bank,
                ident,
            )
        }
    }

    /// Erases `len` bytes from `start`.
    fn erase(&mut self, start: usize, len: usize)
        requires
            start + len <= old(self).data.len(),
        ensures
            final(self).data@ == Seq::new(old(self).data@.len(), |i: int|
                if start <= i < start + len { 0xFFu8 } else { old(self).data@[i] }),
            final(self).save_file == old(self).save_file,
            final(self).is_dirty == old(self).is_dirty,
            final(self).command == old(self).command,
            final(self).mode == old(self).mode,
            final(self).bank == old(self).bank,
            final(self).in_chip_ident == old(self).in_chip_ident,
    {
        let mut i: usize = start;
        while i < start + len
            invariant
                start <= i <= start + len,
                start + len <= self.data.len(),
                self.data.len() == old(self).data.len(),
                forall|j: int| 0 <= j < self.data.len() ==> self.data@[j] == if start <= j < i {
                    0xFFu8
                } else {
                    old(self).data@[j]
                },
                self.save_file == old(self).save_file,
                self.is_dirty == old(self).is_dirty,
                self.command == old(self).command,
                self.mode == old(self).mode,
                self.bank == old(self).bank,
                self.in_chip_ident == old(self).in_chip_ident,
            decreases start + len - i,
        {
            self.data.set(i, 0xFF);
            i = i + 1;
        }
    }
}

impl SaveDevice for Flash {
    /// The bank number is 0 or 1.
    open spec fn save_wf(&self) -> bool {
        self.bank <= 1
    }

    open spec fn mem(&self) -> Seq<u8> {
        self.data@
    }

    open spec fn read_ok(&self, addr: u32) -> bool {
        !(self.in_chip_ident && addr < 2) ==> self.offset(addr) < self.data.len()
    }

    /// In identification mode addresses 0 and 1 give the manufacturer and device
    /// codes; everything else reads the current bank.
    open spec fn read_spec(&self, addr: u32) -> u8 {
        if self.in_chip_ident && addr == 0 {
            MANUFACTURER_ID
        } else if self.in_chip_ident && addr == 1 {
            DEVICE_ID
        } else {
            self.data@[self.offset(addr)]
        }
    }

    /// The write follows the command protocol: addresses and bytes as the chip
    /// expects them, and data addresses within the memory.
    open spec fn write_ok(&self, addr: u32, value: u8) -> bool {
        if self.mode == Mode::Write {
            self.offset(addr) < self.data.len()
        } else if self.mode == Mode::SetBank {
            addr == 0 && (value == 0 || value == 1)
        } else if self.command == Command::Command0 {
            addr == COMMAND_ADDR
        } else if self.command == Command::Command1 {
            addr == COMMAND1_ADDR && value == 0x55
        } else if self.mode == Mode::Ready {
            addr == COMMAND_ADDR && (value == 0x90 || value == 0xF0 || value == 0x80 || value == 0xA0
                || value == 0xB0)
        } else {
            (value == 0x10 && addr == COMMAND_ADDR) || (value == 0x30 && addr & !0xF000u32 == 0 && addr
                + 0x1000 <= self.data.len())
        }
    }

    open spec fn written_to(&self, addr: u32, value: u8, after: &Self) -> bool {
        after.state() == self.written(addr, value) && after.save_file == self.save_file
    }

    open spec fn tracks_file(&self) -> bool {
        true
    }

    open spec fn dirty(&self) -> bool {
        self.is_dirty
    }

    open spec fn save_file(&self) -> PathBuf {
        self.save_file
    }

    fn read(&self, addr: u32) -> (r: u8) {
        if self.in_chip_ident {
            if addr == 0 {
                MANUFACTURER_ID
            } else if addr == 1 {
                DEVICE_ID
            } else {
                self.data[self.bank * 0x10000 + addr as usize]
            }
        } else {
            self.data[self.bank * 0x10000 + addr as usize]
        }
    }

    fn write(&mut self, addr: u32, value: u8) {
        if self.mode == Mode::Write {
            self.is_dirty = true;
            self.data.set(self.bank * 0x10000 + addr as usize, value);
            self.mode = Mode::Ready;
            return;
        } else if self.mode == Mode::SetBank {
            self.bank = value as usize;
            self.mode = Mode::Ready;
            return;
        }
        match self.command {
            Command::Command0 => {
                if value != 0xAA {
                    return;
                }
                self.command = Command::Command1;
                return;
            },
            Command::Command1 => {
                self.command = Command::Command2;
                return;
            },
            Command::Command2 => {
                self.command = Command::Command0;
            },
        }
        match self.mode {
            Mode::Ready => {
                if value == 0x90 {
                    self.in_chip_ident = true;
                    self.mode = Mode::Ready;
                } else if value == 0xF0 {
                    self.in_chip_ident = false;
                    self.mode = Mode::Ready;
                } else if value == 0x80 {
                    self.mode = Mode::Erase;
                } else if value == 0xA0 {
                    self.mode = Mode::Write;
                } else {
                    self.mode = Mode::SetBank;
                }
            },
            _ => {
                if value == 0x10 {
                    self.is_dirty = true;
                    let len = self.data.len();
                    self.erase(0, len);
                } else {
                    let sector = addr as usize;
                    self.is_dirty = true;
                    self.erase(sector, 0x1000);
                }
                assert(self.data@ =~= old(self).written(addr, value).0);
                self.mode = Mode::Ready;
            },
        }
    }

    fn is_dirty(&mut self) -> (r: bool) {
        let is_dirty = self.is_dirty;
        self.is_dirty = false;
        is_dirty
    }

    fn get_save_file(&self) -> (r: &PathBuf) {
        &self.save_file
    }

    fn get_mem(&self) -> (r: &[u8]) {
        self.data.as_slice()
    }
}

/// After a byte write in write mode, reading that address of the current bank gives
/// back the byte (outside the identification codes).
pub proof fn law_flash_read_after_write(before: Flash, after: Flash, addr: u32, value: u8)
    requires
        before.mode == Mode::Write,
        before.offset(addr) < before.data.len(),
        before.written_to(addr, value, &after),
        after.bank == before.bank,
        !(before.in_chip_ident && addr < 2),
    ensures
        after.read_spec(addr) == value,
{
}

} // verus!
