pub mod flash;
pub mod sram;

use vstd::prelude::*;
use crate::bytes::{matches_at, occurs_at};
use crate::io::gamepak::save::flash::Flash;
use crate::io::gamepak::save::sram::Sram;
use std::path::PathBuf;

verus! {

/// A file path, carried through as it is.
#[verifier::external_type_specification]
#[verifier::external_body]
pub struct ExPathBuf(PathBuf);

/// An empty path (`PathBuf::new`).
#[verifier::external_body]
pub(crate) fn empty_path() -> PathBuf {
    PathBuf::new()
}

/// Kinds of backup memory that a game pak can have.
#[derive(Clone, Copy, Debug, PartialEq, Eq, Structural)]
pub enum SaveType {
    Eeprom,
    Sram,
    Flash,
    Flash512,
    Flash1M,
}

/// The backup kind with number `value` (0 to 4, in declaration order).
pub open spec fn save_type_of(value: nat) -> SaveType {
    if value == 0 {
        SaveType::Eeprom
    } else if value == 1 {
        SaveType::Sram
    } else if value == 2 {
        SaveType::Flash
    } else if value == 3 {
        SaveType::Flash512
    } else {
        SaveType::Flash1M
    }
}

impl SaveType {
    pub fn from(value: usize) -> (r: SaveType)
        requires
            value < 5,
        ensures
            r == save_type_of(value as nat),
    {
        match value {
            0 => SaveType::Eeprom,
            1 => SaveType::Sram,
            2 => SaveType::Flash,
            3 => SaveType::Flash512,
            _ => SaveType::Flash1M,
        }
    }
}

/// The identification string of backup kind `k`: "EEPROM_V", "SRAM_V", "FLASH_V",
/// "FLASH512_V", "FLASH1M_V".
pub open spec fn id_string(k: nat) -> Seq<u8> {
    if k == 0 {
        seq![0x45u8, 0x45, 0x50, 0x52, 0x4F, 0x4D, 0x5F, 0x56]
    } else if k == 1 {
        seq![0x53u8, 0x52, 0x41, 0x4D, 0x5F, 0x56]
    } else if k == 2 {
        seq![0x46u8, 0x4C, 0x41, 0x53, 0x48, 0x5F, 0x56]
    } else if k == 3 {
        seq![0x46u8, 0x4C, 0x41, 0x53, 0x48, 0x35, 0x31, 0x32, 0x5F, 0x56]
    } else {
        seq![0x46u8, 0x4C, 0x41, 0x53, 0x48, 0x31, 0x4D, 0x5F, 0x56]
    }
}

fn id_bytes(k: usize) -> (r: Vec<u8>)
    requires
        k < 5,
    ensures
        r@ == id_string(k as nat),
{
    let r: Vec<u8> = match k {
        0 => vec![0x45u8, 0x45, 0x50, 0x52, 0x4F, 0x4D, 0x5F, 0x56],
        1 => vec![0x53u8, 0x52, 0x41, 0x4D, 0x5F, 0x56],
        2 => vec![0x46u8, 0x4C, 0x41, 0x53, 0x48, 0x5F, 0x56],
        3 => vec![0x46u8, 0x4C, 0x41, 0x53, 0x48, 0x35, 0x31, 0x32, 0x5F, 0x56],
        _ => vec![0x46u8, 0x4C, 0x41, 0x53, 0x48, 0x31, 0x4D, 0x5F, 0x56],
    };
    assert(r@ == id_string(k as nat));
    r
}

/// The first of the identification strings with number below `k` that occurs at
/// position `p` of `rom`.
pub open spec fn first_id_at(rom: Seq<u8>, p: int, k: nat) -> Option<nat>
    decreases k,
{
    if k == 0 {
        None
    } else {
        match first_id_at(rom, p, (k - 1) as nat) {
            Some(j) => Some(j),
            None => if occurs_at(rom, p, id_string((k - 1) as nat)) { Some((k - 1) as nat) } else { None },
        }
    }
}

/// The backup kind named at the last position below `n` of `rom` where an
/// identification string starts (the first such string there).
pub open spec fn detected_type(rom: Seq<u8>, n: int) -> Option<SaveType>
    decreases n,
{
    if n <= 0 {
        None
    } else {
        match first_id_at(rom, n - 1, 5) {
            Some(k) => Some(save_type_of(k)),
            None => detected_type(rom, n - 1),
        }
    }
}

/// The bytes that initialize a backup memory of `size` bytes: the saved bytes when
/// they were read and have that size, else `size` copies of `default_val`.
pub open spec fn initial_data(saved: Option<Seq<u8>>, default_val: u8, size: nat) -> Seq<u8> {
    match saved {
        Some(d) => if d.len() == size { d } else { Seq::new(size, |_i: int| default_val) },
        None => Seq::new(size, |_i: int| default_val),
    }
}

/// A backup memory of a game pak.
pub trait SaveDevice: Sized {
    /// The device state is consistent.
    spec fn save_wf(&self) -> bool;

    /// The backup bytes.
    spec fn mem(&self) -> Seq<u8>;

    /// A read at `addr` can be carried out.
    spec fn read_ok(&self, addr: u32) -> bool;

    /// The byte that a read at `addr` gives.
    spec fn read_spec(&self, addr: u32) -> u8;

    /// A write at `addr` can be carried out.
    spec fn write_ok(&self, addr: u32, value: u8) -> bool;

    /// `after` is the state after writing `value` at `addr`.
    spec fn written_to(&self, addr: u32, value: u8, after: &Self) -> bool;

    /// The device keeps the path of its save file and the dirty indication.
    spec fn tracks_file(&self) -> bool;

    /// Whether the backup changed since the last call.
    spec fn dirty(&self) -> bool;

    /// The path of the save file.
    spec fn save_file(&self) -> PathBuf;

    fn read(&self, addr: u32) -> (r: u8)
        requires
            self.save_wf(),
            self.read_ok(addr),
        ensures
            r == self.read_spec(addr),
    ;

    fn write(&mut self, addr: u32, value: u8)
        requires
            old(self).save_wf(),
            old(self).write_ok(addr, value),
        ensures
            final(self).save_wf(),
            old(self).written_to(addr, value, final(self)),
    ;

    /// Whether the backup changed since the last call; clears the indication.
    fn is_dirty(&mut self) -> (r: bool)
        requires
            old(self).tracks_file(),
        ensures
            r == old(self).dirty(),
            !final(self).dirty(),
            final(self).mem() == old(self).mem(),
    ;

    fn get_save_file(&self) -> (r: &PathBuf)
        requires
            self.tracks_file(),
        ensures
            *r == self.save_file(),
    ;

    fn get_mem(&self) -> (r: &[u8])
        requires
            self.tracks_file(),
        ensures
            r@ == self.mem(),
    ;
}

/// The backup memory of a game pak.
pub enum Saves {
    Sram(Sram),
    Flash(Flash),
}

impl Default for Saves {
    /// An empty static RAM with an empty path.
    fn default() -> (r: Saves)
        ensures
            r matches Saves::Sram(s) && s.data@.len() == 0 && !s.is_dirty,
    {
        Saves::Sram(Sram { data: Vec::new(), _save_file: empty_path(), is_dirty: false })
    }
}

impl SaveDevice for Saves {
    open spec fn save_wf(&self) -> bool {
        match self {
            Saves::Sram(s) => s.save_wf(),
            Saves::Flash(f) => f.save_wf(),
        }
    }

    open spec fn mem(&self) -> Seq<u8> {
        match self {
            Saves::Sram(s) => s.mem(),
            Saves::Flash(f) => f.mem(),
        }
    }

    open spec fn read_ok(&self, addr: u32) -> bool {
        match self {
            Saves::Sram(s) => s.read_ok(addr),
            Saves::Flash(f) => f.read_ok(addr),
        }
    }

    open spec fn read_spec(&self, addr: u32) -> u8 {
        match self {
            Saves::Sram(s) => s.read_spec(addr),
            Saves::Flash(f) => f.read_spec(addr),
        }
    }

    open spec fn write_ok(&self, addr: u32, value: u8) -> bool {
        match self {
            Saves::Sram(s) => s.write_ok(addr, value),
            Saves::Flash(f) => f.write_ok(addr, value),
        }
    }

    open spec fn written_to(&self, addr: u32, value: u8, after: &Self) -> bool {
        match (self, after) {
            (Saves::Sram(s), Saves::Sram(a)) => s.written_to(addr, value, a),
            (Saves::Flash(f), Saves::Flash(a)) => f.written_to(addr, value, a),
            _ => false,
        }
    }

    open spec fn tracks_file(&self) -> bool {
        match self {
            Saves::Sram(s) => s.tracks_file(),
            Saves::Flash(f) => f.tracks_file(),
        }
    }

    open spec fn dirty(&self) -> bool {
        match self {
            Saves::Sram(s) => s.dirty(),
            Saves::Flash(f) => f.dirty(),
        }
    }

    open spec fn save_file(&self) -> PathBuf {
        match self {
            Saves::Sram(s) => s.save_file(),
            Saves::Flash(f) => f.save_file(),
        }
    }

    fn read(&self, addr: u32) -> (r: u8) {
        match self {
            Saves::Sram(s) => s.read(addr),
            Saves::Flash(f) => f.read(addr),
        }
    }

    fn write(&mut self, addr: u32, value: u8) {
        match self {
            Saves::Sram(s) => s.write(addr, value),
            Saves::Flash(f) => f.write(addr, value),
        }
    }

    fn is_dirty(&mut self) -> (r: bool) {
        match self {
            Saves::Sram(s) => s.is_dirty(),
            Saves::Flash(f) => f.is_dirty(),
        }
    }

    fn get_save_file(&self) -> (r: &PathBuf) {
        match self {
            Saves::Sram(s) => s.get_save_file(),
            Saves::Flash(f) => f.get_save_file(),
        }
    }

    fn get_mem(&self) -> (r: &[u8]) {
        match self {
            Saves::Sram(s) => s.get_mem(),
            Saves::Flash(f) => f.get_mem(),
        }
    }
}

impl Saves {
    /// The backup memory that the ROM names, for the save file `save_file` whose
    /// bytes were read as `saved`: static RAM when none is named, flash of 64 KiB
    /// ("FLASH_V", "FLASH512_V") or 128 KiB ("FLASH1M_V").
    pub fn new(rom: &[u8], save_file: PathBuf, saved: Option<Vec<u8>>) -> (r: Self)
        requires
            detected_type(rom@, rom.len() as int) != Some(SaveType::Eeprom),
        ensures
            ({
                let init = |default_val: u8, size: nat| initial_data(
                    match saved {
                        Some(d) => Some(d@),
                        None => None,
                    },
                    default_val,
                    size,
                );
                match detected_type(rom@, rom.len() as int) {
                    Some(SaveType::Flash) | Some(SaveType::Flash512) => r matches Saves::Flash(f)
                        && f.data@ == init(0xFF, 0x10000) && f.save_file == save_file && f.command
                        == flash::Command::Command0 && f.mode == flash::Mode::Ready && f.bank == 0
                        && !f.in_chip_ident && !f.is_dirty,
                    Some(SaveType::Flash1M) => r matches Saves::Flash(f) && f.data@ == init(0xFF, 0x20000)
                        && f.save_file == save_file && f.command == flash::Command::Command0 && f.mode
                        == flash::Mode::Ready && f.bank == 0 && !f.in_chip_ident && !f.is_dirty,
                    _ => r matches Saves::Sram(s) && s.data@ == init(0, sram::SRAM_SIZE as nat)
                        && s._save_file == save_file && !s.is_dirty,
                }
            }),
    {
        match Self::get_type(rom) {
            Some(SaveType::Flash) => Saves::Flash(Flash::new(save_file, 0x10000, saved)),
            Some(SaveType::Flash512) => Saves::Flash(Flash::new(save_file, 0x10000, saved)),
            Some(SaveType::Flash1M) => Saves::Flash(Flash::new(save_file, 0x20000, saved)),
            _ => Saves::Sram(Sram::new(save_file, saved)),
        }
    }

    /// The kind of backup that the ROM names: the identification string that starts
    /// at the last position where one does.
    pub fn get_type(rom: &[u8]) -> (r: Option<SaveType>)
        ensures
            r == detected_type(rom@, rom.len() as int),
    {
        let mut ty: Option<SaveType> = None;
        let mut rom_start: usize = 0;
        while rom_start < rom.len()
            invariant
                rom_start <= rom.len(),
                ty == detected_type(rom@, rom_start as int),
            decreases rom.len() - rom_start,
        {
            let mut id_str_i: usize = 0;
            let ghost p = rom_start as int;
            while id_str_i < 5
                invariant_except_break
                    id_str_i <= 5,
                    first_id_at(rom@, p, id_str_i as nat) is None,
                    ty == detected_type(rom@, p),
                invariant
                    p == rom_start,
                    rom_start < rom.len(),
                ensures
                    ty == detected_type(rom@, p + 1),
                decreases 5 - id_str_i,
            {
                let id_str = id_bytes(id_str_i);
                if matches_at(rom, rom_start, id_str.as_slice()) {
                    ty = Some(SaveType::from(id_str_i));
                    proof {
                        assert(first_id_at(rom@, p, (id_str_i + 1) as nat) == Some(id_str_i as nat));
                        lemma_first_id_grows(rom@, p, (id_str_i + 1) as nat, 5);
                    }
                    break;
                }
                id_str_i = id_str_i + 1;
            }
            rom_start = rom_start + 1;
        }
        ty
    }

    /// The initial contents of a backup memory of `size` bytes, from the bytes read
    /// from the save file (`None` when it could not be read).
    pub fn get_initial_data(saved: Option<Vec<u8>>, default_val: u8, size: usize) -> (r: Vec<u8>)
        ensures
            r@ == initial_data(
                match saved {
                    Some(d) => Some(d@),
                    None => None,
                },
                default_val,
                size as nat,
            ),
    {
        if let Some(data) = saved {
            if data.len() == size {
                return data;
            }
        }
        let r = crate::io::gpu::vec_filled_u8(default_val, size);
        assert(r@ == Seq::new(size as nat, |_i: int| default_val));
        r
    }
}

/// Once an identification string is found, the first match among more strings stays.
proof fn lemma_first_id_grows(rom: Seq<u8>, p: int, k: nat, n: nat)
    requires
        k <= n,
        first_id_at(rom, p, k) is Some,
    ensures
        first_id_at(rom, p, n) == first_id_at(rom, p, k),
    decreases n - k,
{
    if k < n {
        lemma_first_id_grows(rom, p, k, (n - 1) as nat);
    }
}

} // verus!
