use vstd::prelude::*;

verus! {

/// Largest ROM, 32 MiB.
pub const MAX_SIZE: usize = 0x200_0000;
/// Size of the cartridge header at the start of the ROM.
pub const HEADER_SIZE: usize = 192;

/// Sum of the first `n` bytes of `data`, modulo 256.
pub open spec fn byte_sum(data: Seq<u8>, n: int) -> u8
    decreases n,
{
    if n <= 0 { 0 } else { ((byte_sum(data, n - 1) + data[n - 1]) % 256) as u8 }
}

/// The header's fixed byte (0xB2) holds 0x96.
pub open spec fn has_fixed_byte(data: Seq<u8>) -> bool {
    data[0xB2] == 0x96
}

/// The complement check of the header: the sum of its 192 bytes plus 0x19 (which
/// must not pass 255), negated as a signed byte (which must not be -128).
pub open spec fn complement_computable(data: Seq<u8>) -> bool {
    byte_sum(data, 192) + 0x19 <= 0xFF && byte_sum(data, 192) + 0x19 != 0x80
}

/// The computed complement.
pub open spec fn computed_complement(data: Seq<u8>) -> u8 {
    ((256 - (byte_sum(data, 192) + 0x19)) % 256) as u8
}

/// The header is recognized: fixed byte and complement match.
pub open spec fn header_valid(data: Seq<u8>) -> bool {
    has_fixed_byte(data) && data[0xBD] == computed_complement(data)
}

/// The game title bytes (0xA0 to 0xAB) and game code bytes (0xAC to 0xAF).
pub open spec fn title_bytes(data: Seq<u8>) -> Seq<u8> {
    data.subrange(0xA0, 0xAC)
}

pub open spec fn code_bytes(data: Seq<u8>) -> Seq<u8> {
    data.subrange(0xAC, 0xB0)
}

/// Decodes UTF-8 with `String::from_utf8`, which gives text exactly for valid UTF-8,
/// holding the characters that the bytes encode.
#[verifier::external_body]
pub(crate) fn utf8_string(bytes: Vec<u8>) -> (r: Option<String>)
    ensures
        r is Some == vstd::utf8::valid_utf8(bytes@),
        r matches Some(s) ==> s@ == vstd::utf8::decode_utf8(bytes@),
{
    String::from_utf8(bytes).ok()
}

/// The ROM of a game pak and the title and code from its header.
pub struct Rom {
    pub data: Vec<u8>,
    pub mask: usize,
    pub code: String,
    pub title: String,
}

impl Default for Rom {
    fn default() -> (r: Rom)
        ensures
            r.data@.len() == 0,
            r.mask == 0,
            r.code@.len() == 0,
            r.title@.len() == 0,
    {
        Rom { data: Vec::new(), mask: 0, code: String::new(), title: String::new() }
    }
}

impl Rom {
    /// Whether loading `data` can go on: a size above the header and up to 32 MiB, a
    /// computable complement when the fixed byte is there, and UTF-8 title and code
    /// when the header is recognized.
    pub open spec fn load_ok(data: Seq<u8>) -> bool {
        &&& HEADER_SIZE < data.len() <= MAX_SIZE
        &&& has_fixed_byte(data) ==> complement_computable(data)
        &&& header_valid(data) ==> vstd::utf8::valid_utf8(title_bytes(data))
            && vstd::utf8::valid_utf8(code_bytes(data))
    }

    /// Reads the header of the ROM bytes `data` read from its file; when the header
    /// is recognized, the title and game code are taken from it. The bytes are not
    /// kept: `self.data` stays as it was.
    pub fn load(&mut self, data: Vec<u8>)
        requires
            Rom::load_ok(data@),
        ensures
            final(self).data@ == old(self).data@,
            final(self).mask == old(self).mask,
            header_valid(data@) ==> final(self).title@ == vstd::utf8::decode_utf8(title_bytes(data@))
                && final(self).code@ == vstd::utf8::decode_utf8(code_bytes(data@)),
            !header_valid(data@) ==> final(self).title@ == old(self).title@ && final(self).code@
                == old(self).code@,
    {
        if data[0xB2] == 0x96 {
            let complement = calc_complement(&data);
            if data[0xBD] == complement {
                let title = utf8_string(slice_bytes(data.as_slice(), 0xA0, 0xAC));
                let code = utf8_string(slice_bytes(data.as_slice(), 0xAC, 0xB0));
                match (title, code) {
                    (Some(t), Some(c)) => {
                        self.title = t;
                        self.code = c;
                    },
                    _ => {},
                }
            }
        }
    }
}

/// The bytes `data[start..end]`.
pub(crate) fn slice_bytes(data: &[u8], start: usize, end: usize) -> (r: Vec<u8>)
    requires
        start <= end <= data.len(),
    ensures
        r@ == data@.subrange(start as int, end as int),
{
    let mut r: Vec<u8> = Vec::new();
    let mut i = start;
    while i < end
        invariant
            start <= i <= end <= data.len(),
            r@ == data@.subrange(start as int, i as int),
        decreases end - i,
    {
        r.push(data[i]);
        i = i + 1;
    }
    r
}

/// The header complement computed from the 192 header bytes.
fn calc_complement(data: &Vec<u8>) -> (r: u8)
    requires
        data.len() >= HEADER_SIZE,
        complement_computable(data@),
    ensures
        r == computed_complement(data@),
{
    let mut acc: u8 = 0;
    let mut i: usize = 0;
    while i < HEADER_SIZE
        invariant
            i <= HEADER_SIZE <= data.len(),
            acc == byte_sum(data@, i as int),
        decreases HEADER_SIZE - i,
    {
        acc = acc.wrapping_add(data[i]);
        i = i + 1;
    }
    let val: u8 = acc + 0x19;
    if val == 0 {
        0
    } else {
        256u16.wrapping_sub(val as u16) as u8
    }
}

} // verus!
