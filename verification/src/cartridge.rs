use vstd::prelude::*;
use crate::bytes::occurs_at;
use memmem::Searcher;
use std::path::PathBuf;

verus! {

/// Searches `haystack` for `needle` with memmem's two-way searcher
/// (`TwoWaySearcher::new(needle).search_in(haystack)`): a result is a position where
/// the needle starts, and there is none exactly when the needle does not occur.
#[verifier::external_body]
fn find_bytes(haystack: &[u8], needle: &[u8]) -> (r: Option<usize>)
    requires
        needle.len() > 0,
    ensures
        r matches Some(i) ==> occurs_at(haystack@, i as int, needle@),
        r is None <==> !exists|i: int| occurs_at(haystack@, i, needle@),
{
    memmem::TwoWaySearcher::new(needle).search_in(haystack)
}

/// Kinds of backup memory.
#[derive(Debug, Clone, Copy, PartialEq, Eq, Structural)]
pub enum BackupType {
    Eeprom,
    Sram,
    Flash,
    Flash512,
    Flash1M,
    AutoDetect,
}

/// The marker of backup kind `k`: "EEPROM", "SRAM", "FLASH_", "FLASH512_", "FLASH1M_".
pub open spec fn backup_marker(k: nat) -> Seq<u8> {
    if k == 0 {
        seq![0x45u8, 0x45, 0x50, 0x52, 0x4F, 0x4D]
    } else if k == 1 {
        seq![0x53u8, 0x52, 0x41, 0x4D]
    } else if k == 2 {
        seq![0x46u8, 0x4C, 0x41, 0x53, 0x48, 0x5F]
    } else if k == 3 {
        seq![0x46u8, 0x4C, 0x41, 0x53, 0x48, 0x35, 0x31, 0x32, 0x5F]
    } else {
        seq![0x46u8, 0x4C, 0x41, 0x53, 0x48, 0x31, 0x4D, 0x5F]
    }
}

/// The backup kind with number `k` below 5.
pub open spec fn backup_type_of(k: nat) -> BackupType {
    if k == 0 {
        BackupType::Eeprom
    } else if k == 1 {
        BackupType::Sram
    } else if k == 2 {
        BackupType::Flash
    } else if k == 3 {
        BackupType::Flash512
    } else {
        BackupType::Flash1M
    }
}

/// The marker of kind `k` occurs anywhere in `bytes`.
pub open spec fn has_marker(bytes: Seq<u8>, k: nat) -> bool {
    exists|i: int| occurs_at(bytes, i, backup_marker(k))
}

/// The first kind among those below `n`, in the order EEPROM, SRAM, FLASH, FLASH512,
/// FLASH1M, whose marker occurs in `bytes`.
pub open spec fn detected_backup(bytes: Seq<u8>, n: nat) -> Option<BackupType>
    decreases n,
{
    if n == 0 {
        None
    } else {
        match detected_backup(bytes, (n - 1) as nat) {
            Some(t) => Some(t),
            None => if has_marker(bytes, (n - 1) as nat) { Some(backup_type_of((n - 1) as nat)) } else { None },
        }
    }
}

fn marker_bytes(k: usize) -> (r: Vec<u8>)
    requires
        k < 5,
    ensures
        r@ == backup_marker(k as nat),
{
    let r: Vec<u8> = match k {
        0 => vec![0x45u8, 0x45, 0x50, 0x52, 0x4F, 0x4D],
        1 => vec![0x53u8, 0x52, 0x41, 0x4D],
        2 => vec![0x46u8, 0x4C, 0x41, 0x53, 0x48, 0x5F],
        3 => vec![0x46u8, 0x4C, 0x41, 0x53, 0x48, 0x35, 0x31, 0x32, 0x5F],
        _ => vec![0x46u8, 0x4C, 0x41, 0x53, 0x48, 0x31, 0x4D, 0x5F],
    };
    assert(r@ == backup_marker(k as nat));
    r
}

/// The kind of backup that the ROM names: the first marker in the order EEPROM, SRAM,
/// FLASH, FLASH512, FLASH1M that occurs anywhere in it.
pub fn detect_backup_type(bytes: &[u8]) -> (r: Option<BackupType>)
    ensures
        r == detected_backup(bytes@, 5),
{
    let mut i: usize = 0;
    while i < 5
        invariant
            i <= 5,
            detected_backup(bytes@, i as nat) is None,
        decreases 5 - i,
    {
        let marker = marker_bytes(i);
        match find_bytes(bytes, marker.as_slice()) {
            Some(_) => {
                let t = match i {
                    0 => BackupType::Eeprom,
                    1 => BackupType::Sram,
                    2 => BackupType::Flash,
                    3 => BackupType::Flash512,
                    _ => BackupType::Flash1M,
                };
                proof {
                    lemma_detected_stays(bytes@, (i + 1) as nat, 5);
                }
                return Some(t);
            },
            None => {},
        }
        i = i + 1;
    }
    None
}

proof fn lemma_detected_stays(bytes: Seq<u8>, k: nat, n: nat)
    requires
        k <= n,
        detected_backup(bytes, k) is Some,
    ensures
        detected_backup(bytes, n) == detected_backup(bytes, k),
    decreases n - k,
{
    if k < n {
        lemma_detected_stays(bytes, k, (n - 1) as nat);
    }
}

/// Offsets of the general-purpose I/O port registers in the ROM space.
pub const GPIO_PORT_DATA: u32 = 0xC4;
pub const GPIO_PORT_DIRECTION: u32 = 0xC6;
pub const GPIO_PORT_CONTROL: u32 = 0xC8;
/// Start of the EEPROM window of large ROMs.
pub const EEPROM_BASE_ADDR: u32 = 0x0DFF_FF00;

/// Whether `addr` names one of the port registers (in any mirror of the ROM space).
pub fn is_gpio_access(addr: u32) -> (r: bool)
    ensures
        r == (addr & 0x1FF_FFFF == GPIO_PORT_DATA || addr & 0x1FF_FFFF == GPIO_PORT_DIRECTION || addr
            & 0x1FF_FFFF == GPIO_PORT_CONTROL),
{
    let a = addr & 0x1ff_ffff;
    a == GPIO_PORT_DATA || a == GPIO_PORT_DIRECTION || a == GPIO_PORT_CONTROL
}

/// Value read from the ROM space past the end of the ROM: the low half-word of the
/// address divided by two, byte by byte.
pub fn read_unused(addr: u32) -> (r: u8)
    ensures
        r == (if addr & 1 != 0 { (((addr / 2) & 0xFFFF) >> 8u32) as u8 } else { ((addr / 2) & 0xFFFF) as u8 }),
{
    let x = (addr / 2) & 0xffff;
    if addr & 1 != 0 {
        (x >> 8) as u8
    } else {
        x as u8
    }
}

/// The header fields of a cartridge.
#[derive(Clone, Debug)]
pub struct CartridgeHeader {
    pub game_title: String,
    pub game_code: String,
    pub maker_code: String,
    pub software_version: u8,
    pub checksum: u8,
}

/// Whether a byte is an ASCII control character.
pub open spec fn is_control(b: u8) -> bool {
    b < 0x20 || b == 0x7F
}

/// `s` without its ASCII control bytes.
pub open spec fn without_controls(s: Seq<u8>) -> Seq<u8> {
    s.filter(|b: u8| !is_control(b))
}

/// Errors of header parsing.
#[derive(Clone, Copy, Debug, PartialEq, Eq, Structural)]
pub enum HeaderError {
    Incomplete,
    InvalidTitle,
    InvalidCode,
    InvalidMaker,
}

impl HeaderError {
    /// The message of the error.
    pub fn message(&self) -> (r: String)
        ensures
            r@ == match self {
                HeaderError::Incomplete => "incomplete cartridge header"@,
                HeaderError::InvalidTitle => "invalid game title"@,
                HeaderError::InvalidCode => "invalid game code"@,
                HeaderError::InvalidMaker => "invalid marker code"@,
            },
    {
        match self {
            HeaderError::Incomplete => String::from_str("incomplete cartridge header"),
            HeaderError::InvalidTitle => String::from_str("invalid game title"),
            HeaderError::InvalidCode => String::from_str("invalid game code"),
            HeaderError::InvalidMaker => String::from_str("invalid marker code"),
        }
    }
}

proof fn lemma_filter_push(s: Seq<u8>, b: u8)
    ensures
        without_controls(s.push(b)) == if !is_control(b) { without_controls(s).push(b) } else { without_controls(s) },
{
    reveal(Seq::filter);
    assert(s.push(b).drop_last() =~= s);
}

/// The bytes `data[start..end]` without ASCII control bytes.
fn without_control_bytes(data: &[u8], start: usize, end: usize) -> (r: Vec<u8>)
    requires
        start <= end <= data.len(),
    ensures
        r@ == without_controls(data@.subrange(start as int, end as int)),
{
    let mut r: Vec<u8> = Vec::new();
    let mut i = start;
    while i < end
        invariant
            start <= i <= end <= data.len(),
            r@ == without_controls(data@.subrange(start as int, i as int)),
        decreases end - i,
    {
        let b = data[i];
        proof {
            let s = data@.subrange(start as int, i as int);
            assert(data@.subrange(start as int, i + 1) == s.push(b));
            lemma_filter_push(s, b);
        }
        if !(b < 0x20 || b == 0x7F) {
            r.push(b);
        }
        i = i + 1;
    }
    r
}

/// A text field `data[start..end]`: `None` unless it is valid UTF-8, else its text
/// without control characters (`None` too should that not decode).
fn header_text(data: &[u8], start: usize, end: usize) -> (r: Option<String>)
    requires
        start <= end <= data.len(),
    ensures
        r is Some <==> vstd::utf8::valid_utf8(data@.subrange(start as int, end as int))
            && vstd::utf8::valid_utf8(without_controls(data@.subrange(start as int, end as int))),
        r matches Some(s) ==> s@ == vstd::utf8::decode_utf8(without_controls(data@.subrange(start as int, end as int))),
{
    let raw = crate::gamepak::rom::slice_bytes(data, start, end);
    match crate::gamepak::rom::utf8_string(raw) {
        None => None,
        Some(_) => crate::gamepak::rom::utf8_string(without_control_bytes(data, start, end)),
    }
}

impl CartridgeHeader {
    /// Parses the header at the start of the ROM: title (0xA0 to 0xAB), game code
    /// (0xAC to 0xAF) and maker code (0xB0, 0xB1), each UTF-8 without its control
    /// characters, the software version (0xBC) and the complement check (0xBD).
    pub fn parse(bytes: &[u8]) -> (r: Result<Self, HeaderError>)
        ensures
            bytes.len() < 0xC0 ==> r == Err::<Self, HeaderError>(HeaderError::Incomplete),
            bytes.len() >= 0xC0 ==> {
                let title = bytes@.subrange(0xA0, 0xAC);
                let code = bytes@.subrange(0xAC, 0xB0);
                let maker = bytes@.subrange(0xB0, 0xB2);
                let ok = |s: Seq<u8>| vstd::utf8::valid_utf8(s) && vstd::utf8::valid_utf8(without_controls(s));
                &&& !ok(title) ==> r == Err::<Self, HeaderError>(HeaderError::InvalidTitle)
                &&& ok(title) && !ok(code) ==> r == Err::<Self, HeaderError>(HeaderError::InvalidCode)
                &&& ok(title) && ok(code) && !ok(maker) ==> r == Err::<Self, HeaderError>(HeaderError::InvalidMaker)
                &&& ok(title) && ok(code) && ok(maker) ==> (r matches Ok(h)
                    && h.game_title@ == vstd::utf8::decode_utf8(without_controls(title))
                    && h.game_code@ == vstd::utf8::decode_utf8(without_controls(code))
                    && h.maker_code@ == vstd::utf8::decode_utf8(without_controls(maker))
                    && h.software_version == bytes@[0xBC] && h.checksum == bytes@[0xBD])
            },
    {
        if bytes.len() < 0xC0 {
            return Err(HeaderError::Incomplete);
        }
        let checksum = bytes[0xbd];
        let game_title = match header_text(bytes, 0xa0, 0xac) {
            Some(s) => s,
            None => return Err(HeaderError::InvalidTitle),
        };
        let game_code = match header_text(bytes, 0xac, 0xb0) {
            Some(s) => s,
            None => return Err(HeaderError::InvalidCode),
        };
        let maker_code = match header_text(bytes, 0xb0, 0xb2) {
            Some(s) => s,
            None => return Err(HeaderError::InvalidMaker),
        };
        Ok(Self { game_title, game_code, maker_code, software_version: bytes[0xBC], checksum })
    }
}

/// Sizes of a flash backup.
#[derive(Debug, Clone, Copy, PartialEq, Eq, Structural)]
pub enum FlashSize {
    Flash64k,
    Flash128k,
}

impl From<FlashSize> for usize {
    fn from(size: FlashSize) -> (r: usize) {
        match size {
            FlashSize::Flash64k => 64 * 1024,
            FlashSize::Flash128k => 128 * 1024,
        }
    }
}

impl vstd::std_specs::convert::FromSpecImpl<FlashSize> for usize {
    open spec fn obeys_from_spec() -> bool {
        true
    }

    open spec fn from_spec(size: FlashSize) -> usize {
        match size {
            FlashSize::Flash64k => 0x10000,
            FlashSize::Flash128k => 0x20000,
        }
    }
}

/// Storage of a backup memory.
pub trait BackupMemoryInterface: Sized {
    /// The stored bytes.
    spec fn bytes(&self) -> Seq<u8>;

    fn write(&mut self, offset: usize, value: u8)
        requires
            offset < old(self).bytes().len(),
        ensures
            final(self).bytes() == old(self).bytes().update(offset as int, value),
    ;

    fn read(&self, offset: usize) -> (r: u8)
        requires
            offset < self.bytes().len(),
        ensures
            r == self.bytes()[offset as int],
    ;

    fn resize(&mut self, new_size: usize)
        ensures
            final(self).bytes().len() == new_size,
            final(self).bytes().subrange(0, vstd::math::min(new_size as int, old(self).bytes().len() as int))
                == old(self).bytes().subrange(0, vstd::math::min(new_size as int, old(self).bytes().len() as int)),
    ;
}

/// A backup memory held in RAM (no file behind it).
#[derive(Debug)]
pub struct BackupFile {
    pub size: usize,
    pub path: Option<PathBuf>,
    pub buffer: Vec<u8>,
}

impl BackupFile {
    /// `size` erased bytes (0xFF).
    pub fn new(size: usize, path: Option<PathBuf>) -> (r: Self)
        requires
            path is None,
        ensures
            r.size == size,
            r.path is None,
            r.buffer@ == Seq::new(size as nat, |_i: int| 0xFFu8),
    {
        let buffer = crate::io::gpu::vec_filled_u8(0xff, size);
        assert(buffer@ == Seq::new(size as nat, |_i: int| 0xFFu8));
        Self { size, path, buffer }
    }
}

impl BackupMemoryInterface for BackupFile {
    open spec fn bytes(&self) -> Seq<u8> {
        self.buffer@
    }

    fn write(&mut self, offset: usize, value: u8) {
        self.buffer.set(offset, value);
    }

    fn read(&self, offset: usize) -> (r: u8) {
        self.buffer[offset]
    }

    /// Truncates, or extends with erased bytes (0xFF).
    fn resize(&mut self, new_size: usize)
        ensures
            final(self).size == new_size,
            new_size > old(self).bytes().len() ==> forall|i: int| old(self).bytes().len() <= i < new_size
                ==> #[trigger] final(self).bytes()[i] == 0xFF,
    {
        self.size = new_size;
        self.buffer.resize(new_size, 0xff);
    }
}

/// Chip identifications of the emulated Macronix flash chips.
pub const MACRONIX_64K_CHIP_ID: u16 = 0x1CC2;
pub const MACRONIX_128K_CHIP_ID: u16 = 0x09c2;
/// Size of an erasable sector and of a bank.
pub const SECTOR_SIZE: usize = 0x1000;
pub const BANK_SIZE: usize = 0x10000;
/// Address of the command bytes.
pub const FLASH_COMMAND_ADDR: u32 = 0x0E00_5555;

/// Commands of the flash chip.
#[derive(Debug, Clone, Copy, PartialEq, Eq, Structural)]
pub enum FlashCommand {
    EnterIdMode,
    TerminateIdMode,
    Erase,
    EraseEntireChip,
    EraseSector,
    WriteByte,
    SelectBank,
}

/// The command with code `val`.
pub open spec fn flash_command_of(val: u8) -> Option<FlashCommand> {
    if val == 0x90 {
        Some(FlashCommand::EnterIdMode)
    } else if val == 0xF0 {
        Some(FlashCommand::TerminateIdMode)
    } else if val == 0x80 {
        Some(FlashCommand::Erase)
    } else if val == 0x10 {
        Some(FlashCommand::EraseEntireChip)
    } else if val == 0x30 {
        Some(FlashCommand::EraseSector)
    } else if val == 0xA0 {
        Some(FlashCommand::WriteByte)
    } else if val == 0xB0 {
        Some(FlashCommand::SelectBank)
    } else {
        None
    }
}

impl FlashCommand {
    pub fn from_u8(val: u8) -> (r: Option<Self>)
        ensures
            r == flash_command_of(val),
    {
        match val {
            0x90 => Some(FlashCommand::EnterIdMode),
            0xf0 => Some(FlashCommand::TerminateIdMode),
            0x80 => Some(FlashCommand::Erase),
            0x10 => Some(FlashCommand::EraseEntireChip),
            0x30 => Some(FlashCommand::EraseSector),
            0xa0 => Some(FlashCommand::WriteByte),
            0xb0 => Some(FlashCommand::SelectBank),
            _ => None,
        }
    }
}

/// What the chip is doing.
#[derive(Clone, Copy, Debug, PartialEq, Eq, Structural)]
pub enum FlashMode {
    Initial,
    ChipId,
    Erase,
    Write,
    Select,
}

/// Progress through a command sequence.
#[derive(Clone, Copy, Debug, PartialEq, Eq, Structural)]
pub enum FlashWriteSequence {
    Initial,
    Magic,
    Command,
    Argument,
}

/// A flash backup memory of 64 or 128 KiB in banks of 64 KiB.
#[derive(Debug)]
pub struct Flash {
    pub chip_id: u16,
    pub size: usize,
    pub wrseq: FlashWriteSequence,
    pub mode: FlashMode,
    pub bank: usize,
    pub memory: BackupFile,
}

/// Contents, sequence, mode and bank of a flash memory.
pub type FlashView = (Seq<u8>, FlashWriteSequence, FlashMode, usize);

impl Flash {
    /// The memory holds `size` bytes.
    pub open spec fn wf(&self) -> bool {
        self.memory.buffer@.len() == self.size
    }

    pub open spec fn view(&self) -> FlashView {
        (self.memory.buffer@, self.wrseq, self.mode, self.bank)
    }

    /// An erased flash memory of the given size with the matching chip.
    pub fn new(flash_path: Option<PathBuf>, flash_size: FlashSize) -> (r: Flash)
        requires
            flash_path is None,
        ensures
            r.wf(),
            r.chip_id == (if flash_size == FlashSize::Flash64k { MACRONIX_64K_CHIP_ID } else { MACRONIX_128K_CHIP_ID }),
            r.size == (if flash_size == FlashSize::Flash64k { 0x10000usize } else { 0x20000usize }),
            r.view() == (Seq::new(r.size as nat, |_i: int| 0xFFu8), FlashWriteSequence::Initial, FlashMode::Initial, 0usize),
    {
        let chip_id = match flash_size {
            FlashSize::Flash64k => MACRONIX_64K_CHIP_ID,
            FlashSize::Flash128k => MACRONIX_128K_CHIP_ID,
        };
        let size: usize = usize::from(flash_size);
        let memory = BackupFile::new(size, flash_path);
        Flash { chip_id, wrseq: FlashWriteSequence::Initial, mode: FlashMode::Initial, size, bank: 0, memory }
    }

    /// Offset in the memory of `offset` in the current bank.
    pub open spec fn offset_spec(&self, offset: usize) -> int {
        self.bank * BANK_SIZE + (offset & 0xffff)
    }

    fn flash_offset(&self, offset: usize) -> (r: usize)
        requires
            self.bank * BANK_SIZE + 0xffff <= usize::MAX,
        ensures
            r == self.offset_spec(offset),
    {
        proof {
            assert(offset & 0xffffusize <= 0xffff) by (bit_vector);
        }
        let offset = offset & 0xffff;
        self.bank * BANK_SIZE + offset
    }

    /// Reading can be carried out: in identification mode only the two code bytes.
    pub open spec fn read_ok(&self, addr: u32) -> bool {
        let offset = (addr & 0xffff) as usize;
        if self.mode == FlashMode::ChipId {
            offset < 2
        } else {
            self.offset_spec(offset) < self.memory.buffer@.len()
        }
    }

    /// The identification code bytes, or the byte of the current bank.
    pub open spec fn read_spec(&self, addr: u32) -> u8 {
        let offset = (addr & 0xffff) as usize;
        if self.mode == FlashMode::ChipId {
            if offset == 0 { (self.chip_id & 0xff) as u8 } else { (self.chip_id >> 8u16) as u8 }
        } else {
            self.memory.buffer@[self.offset_spec(offset)]
        }
    }

    pub fn read(&self, addr: u32) -> (r: u8)
        requires
            self.read_ok(addr),
            self.bank * BANK_SIZE + 0xffff <= usize::MAX,
        ensures
            r == self.read_spec(addr),
    {
        let offset = (addr & 0xffff) as usize;
        if self.mode == FlashMode::ChipId {
            if offset == 0 {
                (self.chip_id & 0xff) as u8
            } else {
                (self.chip_id >> 8) as u8
            }
        } else {
            self.memory.read(self.flash_offset(offset))
        }
    }

    /// A command byte can be carried out: a known command, at the command address
    /// unless it erases a sector, which lies in the memory.
    pub open spec fn command_ok(&self, addr: u32, value: u8) -> bool {
        match flash_command_of(value) {
            None => false,
            Some(FlashCommand::EraseSector) => self.offset_spec((addr & 0xf000) as usize) + SECTOR_SIZE
                <= self.memory.buffer@.len(),
            Some(_) => addr == FLASH_COMMAND_ADDR,
        }
    }

    /// The state after command byte `value` at `addr`.
    pub open spec fn commanded(&self, addr: u32, value: u8) -> FlashView {
        let (mem, _seq, mode, bank) = self.view();
        match flash_command_of(value) {
            Some(FlashCommand::EnterIdMode) => (mem, FlashWriteSequence::Initial, FlashMode::ChipId, bank),
            Some(FlashCommand::TerminateIdMode) => (mem, FlashWriteSequence::Initial, FlashMode::Initial, bank),
            Some(FlashCommand::Erase) => (mem, FlashWriteSequence::Initial, FlashMode::Erase, bank),
            Some(FlashCommand::EraseEntireChip) => (
                if mode == FlashMode::Erase {
                    Seq::new(mem.len(), |i: int| if i < self.size { 0xFFu8 } else { mem[i] })
                } else {
                    mem
                },
                FlashWriteSequence::Initial,
                FlashMode::Initial,
                bank,
            ),
            Some(FlashCommand::EraseSector) => {
                let start = self.offset_spec((addr & 0xf000) as usize);
                (
                    Seq::new(mem.len(), |i: int| if start <= i < start + SECTOR_SIZE { 0xFFu8 } else { mem[i] }),
                    FlashWriteSequence::Initial,
                    FlashMode::Initial,
                    bank,
                )
            },
            Some(FlashCommand::WriteByte) => (mem, FlashWriteSequence::Argument, FlashMode::Write, bank),
            _ => (mem, FlashWriteSequence::Argument, FlashMode::Select, bank),
        }
    }

    /// Erases `len` bytes from `start`.
    fn fill_erased(&mut self, start: usize, len: usize)
        requires
            start + len <= old(self).memory.buffer@.len(),
        ensures
            final(self).memory.buffer@ == Seq::new(old(self).memory.buffer@.len(), |i: int|
                if start <= i < start + len { 0xFFu8 } else { old(self).memory.buffer@[i] }),
            final(self).wrseq == old(self).wrseq && final(self).mode == old(self).mode,
            final(self).bank == old(self).bank && final(self).size == old(self).size,
            final(self).chip_id == old(self).chip_id,
    {
        let mut i: usize = 0;
        while i < len
            invariant
                i <= len,
                start + len <= self.memory.buffer.len(),
                self.memory.buffer@.len() == old(self).memory.buffer@.len(),
                forall|j: int| 0 <= j < self.memory.buffer@.len() ==> self.memory.buffer@[j] == if start <= j < start + i {
                    0xFFu8
                } else {
                    old(self).memory.buffer@[j]
                },
                self.wrseq == old(self).wrseq && self.mode == old(self).mode,
                self.bank == old(self).bank && self.size == old(self).size,
                self.chip_id == old(self).chip_id,
            decreases len - i,
        {
            self.memory.write(start + i, 0xff);
            i = i + 1;
        }
        assert(self.memory.buffer@ =~= Seq::new(old(self).memory.buffer@.len(), |j: int|
            if start <= j < start + len { 0xFFu8 } else { old(self).memory.buffer@[j] }));
    }

    fn command(&mut self, addr: u32, value: u8)
        requires
            old(self).wf(),
            old(self).command_ok(addr, value),
            old(self).bank * BANK_SIZE + 0xffff <= usize::MAX,
        ensures
            final(self).wf(),
            final(self).view() == old(self).commanded(addr, value),
            final(self).chip_id == old(self).chip_id && final(self).size == old(self).size,
    {
        let command = FlashCommand::from_u8(value);
        match command {
            Some(FlashCommand::EraseSector) => {
                let sector_offset = self.flash_offset((addr & 0xf000) as usize);
                self.fill_erased(sector_offset, SECTOR_SIZE);
                self.wrseq = FlashWriteSequence::Initial;
                self.mode = FlashMode::Initial;
            },
            Some(FlashCommand::EnterIdMode) => {
                self.mode = FlashMode::ChipId;
                self.wrseq = FlashWriteSequence::Initial;
            },
            Some(FlashCommand::TerminateIdMode) => {
                self.mode = FlashMode::Initial;
                self.wrseq = FlashWriteSequence::Initial;
            },
            Some(FlashCommand::Erase) => {
                self.mode = FlashMode::Erase;
                self.wrseq = FlashWriteSequence::Initial;
            },
            Some(FlashCommand::EraseEntireChip) => {
                if self.mode == FlashMode::Erase {
                    let size = self.size;
                    self.fill_erased(0, size);
                    assert(self.memory.buffer@ =~= old(self).commanded(addr, value).0);
                }
                self.wrseq = FlashWriteSequence::Initial;
                self.mode = FlashMode::Initial;
            },
            Some(FlashCommand::WriteByte) => {
                self.mode = FlashMode::Write;
                self.wrseq = FlashWriteSequence::Argument;
            },
            _ => {
                self.mode = FlashMode::Select;
                self.wrseq = FlashWriteSequence::Argument;
            },
        }
    }

    /// A write can be carried out.
    pub open spec fn write_ok(&self, addr: u32, value: u8) -> bool {
        match self.wrseq {
            FlashWriteSequence::Command => self.command_ok(addr, value),
            FlashWriteSequence::Argument => if self.mode == FlashMode::Write {
                self.offset_spec((addr & 0xffff) as usize) < self.memory.buffer@.len()
            } else {
                self.mode == FlashMode::Select
            },
            _ => true,
        }
    }

    /// The state after a write of `value` at `addr`: the bytes 0xAA at 0x0E005555 and
    /// 0x55 at 0x0E002AAA open a command, the next byte is the command, and the byte
    /// after a write or bank command is its argument.
    pub open spec fn written(&self, addr: u32, value: u8) -> FlashView {
        let (mem, seq, mode, bank) = self.view();
        match seq {
            FlashWriteSequence::Initial => (
                mem,
                if addr == 0x0E00_5555 && value == 0xAA { FlashWriteSequence::Magic } else { seq },
                mode,
                bank,
            ),
            FlashWriteSequence::Magic => (
                mem,
                if addr == 0x0E00_2AAA && value == 0x55 { FlashWriteSequence::Command } else { seq },
                mode,
                bank,
            ),
            FlashWriteSequence::Command => self.commanded(addr, value),
            FlashWriteSequence::Argument => if mode == FlashMode::Write {
                (
                    mem.update(self.offset_spec((addr & 0xffff) as usize), value),
                    FlashWriteSequence::Initial,
                    FlashMode::Initial,
                    bank,
                )
            } else {
                (
                    mem,
                    FlashWriteSequence::Initial,
                    FlashMode::Initial,
                    if addr == 0x0E00_0000 { value as usize } else { bank },
                )
            },
        }
    }

    pub fn write(&mut self, addr: u32, value: u8)
        requires
            old(self).wf(),
            old(self).write_ok(addr, value),
            old(self).bank * BANK_SIZE + 0xffff <= usize::MAX,
        ensures
            final(self).wf(),
            final(self).view() == old(self).written(addr, value),
            final(self).chip_id == old(self).chip_id && final(self).size == old(self).size,
    {
        match self.wrseq {
            FlashWriteSequence::Initial => {
                if addr == 0x0E00_5555 && value == 0xAA {
                    self.wrseq = FlashWriteSequence::Magic;
                }
            },
            FlashWriteSequence::Magic => {
                if addr == 0xE00_2AAA && value == 0x55 {
                    self.wrseq = FlashWriteSequence::Command;
                }
            },
            FlashWriteSequence::Command => {
                self.command(addr, value);
            },
            FlashWriteSequence::Argument => {
                if self.mode == FlashMode::Write {
                    let offset = self.flash_offset((addr & 0xffff) as usize);
                    self.memory.write(offset, value);
                } else if addr == 0x0E00_0000 {
                    self.bank = value as usize;
                }
                self.mode = FlashMode::Initial;
                self.wrseq = FlashWriteSequence::Initial;
            },
        }
    }
}

/// A byte written through the write command reads back at the same address.
pub proof fn law_cartridge_flash_write_then_read(f: Flash, after: Flash, addr: u32, value: u8)
    requires
        f.wrseq == FlashWriteSequence::Argument,
        f.mode == FlashMode::Write,
        f.offset_spec((addr & 0xffff) as usize) < f.memory.buffer@.len(),
        after.view() == f.written(addr, value),
        after.chip_id == f.chip_id,
    ensures
        after.mode == FlashMode::Initial,
        after.read_spec(addr) == value,
{
}

/// A sector erase leaves every byte of the 4 KiB sector reading 0xFF, in the bank
/// that is selected, and ends the command.
pub proof fn law_cartridge_flash_erase_sector(f: Flash, after: Flash, addr: u32, other: u32)
    requires
        f.wrseq == FlashWriteSequence::Command,
        f.command_ok(addr, 0x30),
        after.view() == f.written(addr, 0x30),
        after.chip_id == f.chip_id,
        f.offset_spec((addr & 0xf000) as usize) <= f.offset_spec((other & 0xffff) as usize) < f.offset_spec(
            (addr & 0xf000) as usize,
        ) + SECTOR_SIZE,
    ensures
        after.mode == FlashMode::Initial,
        after.read_spec(other) == 0xFF,
{
}

/// Direction of a pin of the port.
#[derive(Debug, Clone, Copy, PartialEq, Eq, Structural)]
pub enum GpioDirection {
    In,
    Out,
}

/// Whether the console can read the port.
#[derive(Debug, Clone, Copy, PartialEq, Eq, Structural)]
pub enum GpioPortControl {
    WriteOnly,
    ReadWrite,
}

/// A device behind the port of a cartridge, driven through the pin directions.
pub trait GpioDevice: Sized {
    /// The pins that the device presents on the data register, for the given pin
    /// directions.
    spec fn pins(&self, gpio_state: [GpioDirection; 4]) -> u16;

    fn write(&mut self, gpio_state: &[GpioDirection; 4], data: u16);

    fn read(&self, gpio_state: &[GpioDirection; 4]) -> (r: u16)
        ensures
            r == self.pins(*gpio_state),
    ;
}

/// The general-purpose I/O port of a cartridge: an optional device (the clock), the
/// pin directions and the read enable.
#[derive(Debug)]
pub struct Gpio<D: GpioDevice> {
    pub rtc: Option<D>,
    pub direction: [GpioDirection; 4],
    pub control: GpioPortControl,
}

impl<D: GpioDevice> Gpio<D> {
    /// All pins outputs, write-only.
    pub fn new(rtc: Option<D>) -> (r: Self)
        ensures
            r.rtc == rtc,
            forall|i: int| 0 <= i < 4 ==> r.direction[i] == GpioDirection::Out,
            r.control == GpioPortControl::WriteOnly,
    {
        Self { rtc, direction: [GpioDirection::Out, GpioDirection::Out, GpioDirection::Out, GpioDirection::Out], control: GpioPortControl::WriteOnly }
    }

    pub fn is_readable(&self) -> (r: bool)
        ensures
            r == (self.control != GpioPortControl::WriteOnly),
    {
        self.control != GpioPortControl::WriteOnly
    }

    /// Reads the data register: the device's pins, or 0 without a device.
    pub fn read(&self, addr: u32) -> (r: u16)
        requires
            addr == GPIO_PORT_DATA,
        ensures
            r == match self.rtc {
                Some(d) => d.pins(self.direction),
                None => 0,
            },
    {
        match &self.rtc {
            Some(rtc) => rtc.read(&self.direction),
            None => 0,
        }
    }

    /// Writes a port register: the data register goes to the device, the direction
    /// register sets each pin's direction from its bit, the control register enables
    /// reads when nonzero.
    pub fn write(&mut self, addr: u32, value: u16)
        requires
            addr == GPIO_PORT_DATA || addr == GPIO_PORT_DIRECTION || addr == GPIO_PORT_CONTROL,
        ensures
            addr == GPIO_PORT_DATA ==> final(self).direction == old(self).direction && final(self).control
                == old(self).control && (old(self).rtc is None <==> final(self).rtc is None),
            addr == GPIO_PORT_DIRECTION ==> final(self).rtc == old(self).rtc && final(self).control == old(
                self,
            ).control && forall|i: int| 0 <= i < 4 ==> #[trigger] final(self).direction[i] == if (value >> i as u16)
                & 1 == 1 {
                GpioDirection::Out
            } else {
                GpioDirection::In
            },
            addr == GPIO_PORT_CONTROL ==> final(self).rtc == old(self).rtc && final(self).direction == old(
                self,
            ).direction && final(self).control == if value != 0 {
                GpioPortControl::ReadWrite
            } else {
                GpioPortControl::WriteOnly
            },
    {
        if addr == GPIO_PORT_DATA {
            let direction = self.direction;
            match &mut self.rtc {
                Some(rtc) => rtc.write(&direction, value),
                None => {},
            }
        } else if addr == GPIO_PORT_DIRECTION {
            let mut idx: usize = 0;
            while idx < 4
                invariant
                    idx <= 4,
                    self.rtc == old(self).rtc,
                    self.control == old(self).control,
                    forall|i: int| 0 <= i < idx ==> #[trigger] self.direction[i] == if (value >> i as u16) & 1 == 1 {
                        GpioDirection::Out
                    } else {
                        GpioDirection::In
                    },
                decreases 4 - idx,
            {
                self.direction[idx] = if (value >> idx as u16) & 1 == 1 {
                    GpioDirection::Out
                } else {
                    GpioDirection::In
                };
                idx = idx + 1;
            }
        } else {
            self.control = if value != 0 {
                GpioPortControl::ReadWrite
            } else {
                GpioPortControl::WriteOnly
            };
        }
    }
}

} // verus!
