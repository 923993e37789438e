use vstd::prelude::*;
use crate::io::gamepak::save::{initial_data, SaveDevice, Saves};
use std::path::PathBuf;

verus! {

/// Size of the static RAM backup, 32 KiB.
pub const SRAM_SIZE: usize = 0x8000;

/// Static RAM backup memory: plain bytes.
pub struct Sram {
    pub data: Vec<u8>,
    pub _save_file: PathBuf,
    pub is_dirty: bool,
}

impl Sram {
    /// A 32 KiB static RAM for the save file `save_file`, holding the bytes read from
    /// it (`saved`) when they have that size, else zeros.
    pub fn new(save_file: PathBuf, saved: Option<Vec<u8>>) -> (r: Self)
        ensures
            r.data@ == initial_data(
                match saved {
                    Some(d) => Some(d@),
                    None => None,
                },
                0,
                SRAM_SIZE as nat,
            ),
            r._save_file == save_file,
            !r.is_dirty,
    {
        Self { data: Saves::get_initial_data(saved, 0, SRAM_SIZE), _save_file: save_file, is_dirty: false }
    }
}

impl SaveDevice for Sram {
    open spec fn save_wf(&self) -> bool {
        true
    }

    open spec fn mem(&self) -> Seq<u8> {
        self.data@
    }

    open spec fn read_ok(&self, addr: u32) -> bool {
        addr < SRAM_SIZE ==> addr < self.data.len()
    }

    /// The byte at `addr` within the 32 KiB, and 0 beyond.
    open spec fn read_spec(&self, addr: u32) -> u8 {
        if addr < SRAM_SIZE { self.data@[addr as int] } else { 0 }
    }

    open spec fn write_ok(&self, addr: u32, value: u8) -> bool {
        addr < SRAM_SIZE ==> addr < self.data.len()
    }

    /// A write within the 32 KiB stores the byte and marks the memory dirty; beyond,
    /// it is ignored.
    open spec fn written_to(&self, addr: u32, value: u8, after: &Self) -> bool {
        if addr < SRAM_SIZE {
            &&& after.data@ == self.data@.update(addr as int, value)
            &&& after.is_dirty
            &&& after._save_file == self._save_file
        } else {
            &&& after.data@ == self.data@
            &&& after.is_dirty == self.is_dirty
            &&& after._save_file == self._save_file
        }
    }

    /// The static RAM does not track its file.
    open spec fn tracks_file(&self) -> bool {
        false
    }

    open spec fn dirty(&self) -> bool {
        self.is_dirty
    }

    open spec fn save_file(&self) -> PathBuf {
        self._save_file
    }

    fn read(&self, addr: u32) -> (r: u8) {
        let addr = addr as usize;
        if addr < SRAM_SIZE {
            self.data[addr]
        } else {
            0
        }
    }

    fn write(&mut self, addr: u32, value: u8) {
        let addr = addr as usize;
        if addr < SRAM_SIZE {
            self.is_dirty = true;
            self.data.set(addr, value);
        }
    }

    fn is_dirty(&mut self) -> (r: bool) {
        self.is_dirty
    }

    fn get_save_file(&self) -> (r: &PathBuf) {
        &self._save_file
    }

    fn get_mem(&self) -> (r: &[u8]) {
        self.data.as_slice()
    }
}

/// Reading static RAM gives back the byte last written at that address.
pub proof fn law_sram_read_after_write(before: Sram, after: Sram, addr: u32, value: u8)
    requires
        addr < SRAM_SIZE,
        addr < before.data.len(),
        before.written_to(addr, value, &after),
    ensures
        after.read_spec(addr) == value,
{
}

} // verus!
