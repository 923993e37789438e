pub mod rom;

use vstd::prelude::*;
use crate::gamepak::rom::{code_bytes, header_valid, title_bytes, Rom};

verus! {

/// A game pak of the bare front end: its ROM only.
pub struct Gamepak {
    pub rom: Rom,
}

impl Gamepak {
    pub fn new() -> (r: Self)
        ensures
            r.rom.data@.len() == 0,
            r.rom.mask == 0,
            r.rom.code@.len() == 0,
            r.rom.title@.len() == 0,
    {
        Self { rom: Rom::default() }
    }

    /// Loads the ROM bytes `rom` read from its file: the names in its header.
    pub fn load(&mut self, rom: Vec<u8>)
        requires
            Rom::load_ok(rom@),
        ensures
            final(self).rom.data@ == old(self).rom.data@,
            final(self).rom.mask == old(self).rom.mask,
            header_valid(rom@) ==> final(self).rom.title@ == vstd::utf8::decode_utf8(title_bytes(rom@))
                && final(self).rom.code@ == vstd::utf8::decode_utf8(code_bytes(rom@)),
            !header_valid(rom@) ==> final(self).rom.title@ == old(self).rom.title@ && final(self).rom.code@
                == old(self).rom.code@,
    {
        self.rom.load(rom)
    }

    /// A ROM is loaded.
    pub fn ready(&self) -> (r: bool)
        ensures
            r == (self.rom.data.len() > 0),
    {
        self.rom.data.len() != 0
    }
}

} // verus!
