use vstd::prelude::*;

verus! {

/// Masks, alignments and shifts of a word.
pub proof fn lemma_u32_bits(x: u32, m: u32)
    by (bit_vector)
    ensures
        x & m <= m,
        x & m <= x,
        (x & m) & m == x & m,
        x >> 0u32 == x,
        x & !0u32 == x,
        x & !1u32 <= x,
        (x & !3u32) & 3u32 == 0,
        (x & !1u32) & 3u32 == x & 2u32,
        (x & !3u32) & !3u32 == x & !3u32,
        (x & !1u32) & !3u32 == x & !3u32,
        (x & !1u32) & !1u32 == x & !1u32,
        (x & 3u32) * 8 < 32,
        (x & 1u32) * 8 < 32,
        (x >> m) & 1u32 != 1 ==> (x >> m) & 1u32 == 0,
        (0u32 >> m) & 1u32 == 0,
        x < 0x0400_0000u32 ==> (x & !1u32) | 0x0400_0000u32 == (x & !1u32) + 0x0400_0000u32,
        0xFFFF_FF00u32 << 8u32 == 0xFFFF_0000u32,
        0xFFFF_0000u32 << 8u32 == 0xFF00_0000u32,
        0xFF00_0000u32 << 8u32 == 0u32,
        (x & !0x1Fu32) | (x & 0x1Fu32) == x,
        x & 3u32 == x % 4,
        x <= 0x7FFFu32 ==> (x >> 15u32) & 1u32 == 0,
{
}

/// A mask bounds what it keeps.
pub proof fn lemma_and_le_u32(x: u32, m: u32)
    ensures
        x & m <= m,
{
    lemma_u32_bits(x, m);
}

/// Masks and shifts of a halfword.
pub proof fn lemma_u16_bits(v: u16, s: u16, m: u16)
    by (bit_vector)
    ensures
        v & m <= m,
        (v >> s) & m <= m,
        (v & m) & m == v & m,
        ((v >> s) & m) & m == (v >> s) & m,
        v >> 8u16 <= 0xFFu16,
        v >> 0u16 == v,
        v >> 4u16 == v / 16,
        1u16 << 7u16 == 0x80u16,
        (0x80u16 >> 7u16) & 1u16 == 1,
{
}

/// Setting or clearing bit `i` leaves every other bit as it was.
pub proof fn lemma_with_bit16(d: u16, i: u16, j: u16, b: bool)
    by (bit_vector)
    requires
        i < 16,
        j < 16,
        i != j,
    ensures
        ((if b { d | (1u16 << i) } else { d & !(1u16 << i) }) >> j) & 1u16 == (d >> j) & 1u16,
        (((if b { d | (1u16 << i) } else { d & !(1u16 << i) }) >> i) & 1u16 == 1u16) == b,
{
}

/// Bit facts behind the overflow flag of an addition, and bitwise complement.
pub proof fn lemma_overflow_bits(a: u32, b: u32, r: u32)
    by (bit_vector)
    ensures
        ((!(a ^ b)) & (a ^ r) & 0x8000_0000u32 != 0) == ((a >= 0x8000_0000u32) == (b >= 0x8000_0000u32)
            && (r >= 0x8000_0000u32) != (a >= 0x8000_0000u32)),
        !b == 0xFFFF_FFFFu32 - b,
        (r & 0x8000_0000u32 != 0) == (r >= 0x8000_0000u32),
{
}


/// The successive masks of the multiplier's early-termination check.
pub proof fn lemma_mul_masks()
    ensures
        0xFFFF_FF00u32 << 8u32 == 0xFFFF_0000u32,
        0xFFFF_0000u32 << 8u32 == 0xFF00_0000u32,
        0xFF00_0000u32 << 8u32 == 0u32,
{
    lemma_u32_bits(0, 0);
}


/// Bit fields of a byte.
pub proof fn lemma_u8_fields(v: u8)
    by (bit_vector)
    ensures
        v & 0x3u8 < 4,
        (v >> 2u8) & 0x3u8 < 4,
        (v >> 6u8) & 0x3u8 < 4,
        v & 0x1Fu8 < 32,
        v & 0xFu8 < 16,
        v >> 4u8 < 16,
        v & 0x7u8 < 8,
        v >> 6u8 < 4,
        (v >> 5u8) & 0x3u8 < 4,
        (v >> 4u8) & 0xFu8 < 16,
        (v >> 0u8) & 0xFu8 < 16,
        v >> 0u8 == v,
        (v & 0xFu8) >> 1u8 < 8,
{
}


/// Shifting a byte by zero leaves it unchanged.
pub proof fn lemma_shift_zero_u8(v: u8)
    ensures
        v >> 0u8 == v,
{
    lemma_u8_fields(v);
}

/// `x` reduced into the range of `i32` by wrapping.
pub open spec fn wrap_i32(x: int) -> int {
    let m = ((x + 0x8000_0000) % 0x1_0000_0000) - 0x8000_0000;
    m
}


/// 1 for `true`, 0 for `false`, as a byte.
pub open spec fn bool_u8(b: bool) -> u8 {
    if b { 1 } else { 0 }
}

/// Byte-lane facts behind the read-back of the display registers.
pub proof fn lemma_register_lanes(x: u16, v: u8)
    by (bit_vector)
    ensures
        ((((x & !0x00FFu16) | ((v as u16) & 0xFFF8u16)) as u8) | (v & 7u8)) == v,
        ((((x & !0xFF00u16) | (((v as u16) << 8u16) & 0xFFF8u16)) >> 8u16) as u8) == v,
        (((x & !0xFF00u16) | (((v as u16) << 8u16) & 0xFFF8u16)) as u8) == x as u8,
        (((x & !0x00FFu16) | ((v as u16) & 0xFFF8u16)) >> 8u16) == x >> 8u16,
        (bool_u8((v >> 7u8) & 1u8 != 0) << 7u8) | (bool_u8((v >> 6u8) & 1u8 != 0) << 6u8)
            | (((v >> 2u8) & 3u8) << 2u8) | (v & 3u8) == v & 0xCFu8,
        (((v >> 6u8) & 3u8) << 6u8) | (bool_u8((v >> 5u8) & 1u8 != 0) << 5u8) | (v & 0x1Fu8) == v,
        (bool_u8((v >> 5u8) & 1u8 != 0) << 5u8) | (bool_u8((v >> 4u8) & 1u8 != 0) << 4u8)
            | (bool_u8((v >> 3u8) & 1u8 != 0) << 3u8) | (bool_u8((v >> 2u8) & 1u8 != 0) << 2u8)
            | (bool_u8((v >> 1u8) & 1u8 != 0) << 1u8) | bool_u8(v & 1u8 != 0) == v & 0x3Fu8,
        (((x & !0xFFu16) | (v as u16)) as u8) == v,
        x < 0x200u16 ==> ((((x & !0x100u16) | (((v as u16) << 8u16) & 0x100u16)) >> 8u16) as u8) == v & 1u8,
{
}


/// Video RAM offsets stay below 96 KiB.
pub proof fn lemma_vram_addr(addr: u32)
    by (bit_vector)
    ensures
        addr & 0x1FFFFu32 <= 0x1FFFFu32,
        (addr & 0x1FFFFu32) & 0x17FFFu32 < 0x18000u32,
{
}


/// Fields of a tile map entry.
pub proof fn lemma_entry_fields(e: u16)
    ensures
        e & 0x3FFu16 < 0x400,
        (e >> 12u16) & 0xFu16 < 16,
{
    lemma_u16_bits(e, 0, 0x3FF);
    lemma_u16_bits(e, 12, 0xF);
}


/// Five-bit color channels and the shift used by the blending arithmetic.
pub proof fn lemma_color_channels(c: u16, k: u16, x: u16)
    ensures
        (c >> k) & 0x1Fu16 <= 0x1Fu16,
        x >> 4u16 == x / 16,
        x & 0x1Fu16 <= 0x1Fu16,
{
    lemma_u16_bits(c, k, 0x1F);
    lemma_u16_bits(x, k, 0x1F);
}

} // verus!
