use vstd::prelude::*;
use crate::bits::{lemma_and_le_u32, lemma_mul_masks, lemma_overflow_bits};
use crate::arm::registers::{bit_of, with_bit, lemma_status_bits, RegFile, Registers};

verus! {

/// `x` rotated right by `n` bits (any `n`; only `n % 32` matters).
pub open spec fn rotr(x: u32, n: u32) -> u32 {
    let k = n % 32;
    if k == 0 { x } else { (x >> k) | (x << ((32 - k) as u32)) }
}

/// Rotates `x` right by `n` bits.
pub fn rotate_right(x: u32, n: u32) -> (r: u32)
    ensures
        r == rotr(x, n),
{
    let k = n % 32;
    if k == 0 { x } else { (x >> k) | (x << (32 - k)) }
}

/// Arithmetic shift right of `x` read as a two's complement number, by `n` below
/// 32: the vacated high bits are copies of bit 31.
pub open spec fn asr(x: u32, n: u32) -> u32 {
    if x >> 31 != 0 { (x >> n) | !(0xFFFF_FFFFu32 >> n) } else { x >> n }
}

/// Arithmetic shift right by `n` below 32.
pub fn arith_shift_right(x: u32, n: u32) -> (r: u32)
    requires
        n < 32,
    ensures
        r == asr(x, n),
{
    if x >> 31 != 0 { (x >> n) | !(0xFFFF_FFFFu32 >> n) } else { x >> n }
}

/// Result of the barrel shifter: shift type 0 LSL, 1 LSR, 2 ASR, 3 ROR (RRX for an
/// immediate amount of 0); `carry` is the carry flag before the shift.
pub open spec fn shifter_result(shift_type: u32, operand: u32, shift: u32, immediate: bool, carry: bool) -> u32 {
    if immediate && shift == 0 {
        if shift_type == 0 {
            operand
        } else if shift_type == 1 {
            0
        } else if shift_type == 2 {
            if operand >> 31 != 0 { 0xFFFF_FFFF } else { 0 }
        } else {
            ((if carry { 1u32 } else { 0u32 }) << 31) | (operand >> 1)
        }
    } else if shift > 31 {
        if shift_type == 0 || shift_type == 1 {
            0
        } else if shift_type == 2 {
            if operand & 0x8000_0000 != 0 { 0xFFFF_FFFF } else { 0 }
        } else {
            rotr(operand, shift & 0x1F)
        }
    } else {
        if shift_type == 0 {
            operand << shift
        } else if shift_type == 1 {
            operand >> shift
        } else if shift_type == 2 {
            asr(operand, shift)
        } else {
            rotr(operand, shift)
        }
    }
}

/// Carry out of the barrel shifter, when the operation produces one.
pub open spec fn shifter_carry(shift_type: u32, operand: u32, shift: u32, immediate: bool, carry: bool) -> Option<bool> {
    if immediate && shift == 0 {
        if shift_type == 0 {
            None
        } else if shift_type == 1 || shift_type == 2 {
            Some(operand >> 31 != 0)
        } else {
            Some(operand & 1 != 0)
        }
    } else if shift > 31 {
        if shift_type == 0 {
            Some(shift == 32 && (operand << ((shift - 1) as u32)) & 0x8000_0000 != 0)
        } else if shift_type == 1 {
            Some(shift == 32 && (operand >> ((shift - 1) as u32)) & 1 != 0)
        } else if shift_type == 2 {
            Some(operand & 0x8000_0000 != 0)
        } else {
            let s = if shift & 0x1F == 0 { 0x20u32 } else { shift & 0x1F };
            Some((operand >> ((s - 1) as u32)) & 1 != 0)
        }
    } else if shift == 0 {
        None
    } else {
        if shift_type == 0 {
            Some((operand << ((shift - 1) as u32)) & 0x8000_0000 != 0)
        } else if shift_type == 1 {
            Some((operand >> ((shift - 1) as u32)) & 1 != 0)
        } else if shift_type == 2 {
            Some(asr(operand, (shift - 1) as u32) & 1 != 0)
        } else {
            Some((operand >> ((shift - 1) as u32)) & 1 != 0)
        }
    }
}

/// The register file with the carry flag set to `c` when the operation updates flags
/// and produces a carry.
pub open spec fn with_shift_carry(rf: RegFile, change_status: bool, c: Option<bool>) -> RegFile {
    if change_status && c is Some {
        RegFile { cpsr: with_bit(rf.cpsr, 29, c.unwrap()), ..rf }
    } else {
        rf
    }
}

/// The ARM barrel shifter. Returns the shifted operand and whether the shift took
/// an internal cycle (a shift by a register amount does).
pub fn barrel_shift(
    regs: &mut Registers,
    shift_type: u32,
    operand: u32,
    shift: u32,
    immediate: bool,
    change_status: bool,
) -> (r: (u32, bool))
    requires
        shift_type < 4,
        immediate ==> shift < 32,
    ensures
        r.0 == shifter_result(shift_type, operand, shift, immediate, bit_of(old(regs)@.cpsr, 29)),
        r.1 == !immediate,
        final(regs)@ == with_shift_carry(
            old(regs)@,
            change_status,
            shifter_carry(shift_type, operand, shift, immediate, bit_of(old(regs)@.cpsr, 29)),
        ),
        final(regs)@.mode() == old(regs)@.mode(),
{
    if immediate && shift == 0 {
        if shift_type == 0 {
            (operand, false)
        } else if shift_type == 1 {
            if change_status {
                regs.set_c(operand >> 31 != 0)
            }
            (0, false)
        } else if shift_type == 2 {
            let bit = operand >> 31 != 0;
            if change_status {
                regs.set_c(bit);
            }
            (if bit { 0xFFFF_FFFF } else { 0 }, false)
        } else {
            let new_c = operand & 0x1 != 0;
            let op2 = ((regs.get_c() as u32) << 31) | (operand >> 1);
            if change_status {
                regs.set_c(new_c)
            }
            (op2, false)
        }
    } else if shift > 31 {
        if shift_type == 0 {
            if change_status {
                if shift == 32 {
                    regs.set_c((operand << (shift - 1)) & 0x8000_0000 != 0)
                } else {
                    regs.set_c(false)
                }
            }
            (0, true)
        } else if shift_type == 1 {
            if change_status {
                if shift == 32 {
                    regs.set_c((operand >> (shift - 1)) & 0x1 != 0)
                } else {
                    regs.set_c(false)
                }
            }
            (0, true)
        } else if shift_type == 2 {
            let c = operand & 0x8000_0000 != 0;
            if change_status {
                regs.set_c(c)
            }
            (if c { 0xFFFF_FFFF } else { 0 }, true)
        } else {
            proof {
                lemma_and_le_u32(shift, 0x1F);
            }
            let shift = shift & 0x1F;
            let shift = if shift == 0 { 0x20 } else { shift };
            if change_status {
                regs.set_c((operand >> (shift - 1)) & 0x1 != 0)
            }
            (rotate_right(operand, shift), true)
        }
    } else {
        let change_status = change_status && shift != 0;
        if shift_type == 0 {
            if change_status {
                regs.set_c((operand << (shift - 1)) & 0x8000_0000 != 0);
            }
            (operand << shift, !immediate)
        } else if shift_type == 1 {
            if change_status {
                regs.set_c((operand >> (shift - 1)) & 0x1 != 0);
            }
            (operand >> shift, !immediate)
        } else if shift_type == 2 {
            if change_status {
                regs.set_c(arith_shift_right(operand, shift - 1) & 0x1 != 0)
            };
            (arith_shift_right(operand, shift), !immediate)
        } else {
            if change_status {
                regs.set_c((operand >> (shift - 1)) & 0x1 != 0);
            }
            (rotate_right(operand, shift), !immediate)
        }
    }
}


/// Two's complement value of a 32-bit word.
pub open spec fn signed(x: u32) -> int {
    if x < 0x8000_0000 { x as int } else { x as int - 0x1_0000_0000 }
}

/// Sum of `a`, `b` and the carry `c`, modulo 2^32.
pub open spec fn adc_result(a: u32, b: u32, c: bool) -> u32 {
    ((a + b + (if c { 1int } else { 0int })) % 0x1_0000_0000) as u32
}

/// Carry out of `a + b + c`.
pub open spec fn adc_carry(a: u32, b: u32, c: bool) -> bool {
    a + b + (if c { 1int } else { 0int }) > 0xFFFF_FFFF
}

/// Overflow flag of `a + b + c`: the operands agree in sign and the result does not.
pub open spec fn adc_overflow(a: u32, b: u32, c: bool) -> bool {
    (!(a ^ b)) & (a ^ adc_result(a, b, c)) & 0x8000_0000u32 != 0
}

/// Whether the sum of two words overflows as a signed 32-bit addition.
pub open spec fn signed_add_overflows(a: u32, b: u32) -> bool {
    signed(a) + signed(b) > 0x7FFF_FFFF || signed(a) + signed(b) < -0x8000_0000
}

/// CPSR after an add with carry sets C, Z, N and V in that order.
pub open spec fn adc_flags(cpsr: u32, r: u32, c: bool, v: bool) -> u32 {
    with_bit(with_bit(with_bit(with_bit(cpsr, 29, c), 30, r == 0), 31, r & 0x8000_0000u32 != 0), 28, v)
}

/// CPSR after an add sets C, V, Z and N in that order.
pub open spec fn add_flags(cpsr: u32, r: u32, c: bool, v: bool) -> u32 {
    with_bit(with_bit(with_bit(with_bit(cpsr, 29, c), 28, v), 30, r == 0), 31, r & 0x8000_0000u32 != 0)
}

/// `op1 + op2`; with `change_status` the flags take the unsigned carry, the signed
/// overflow, and whether the result is zero or negative.
pub fn add_op(regs: &mut Registers, op1: u32, op2: u32, change_status: bool) -> (r: u32)
    ensures
        r == adc_result(op1, op2, false),
        final(regs)@ == if change_status {
            RegFile {
                cpsr: add_flags(old(regs)@.cpsr, r, adc_carry(op1, op2, false), signed_add_overflows(op1, op2)),
                ..old(regs)@
            }
        } else {
            old(regs)@
        },
        final(regs)@.mode() == old(regs)@.mode(),
{
    let result = op1.wrapping_add(op2);
    let carry = op1 as u64 + op2 as u64 > 0xFFFF_FFFF;
    if change_status {
        let s1: i64 = if op1 < 0x8000_0000 { op1 as i64 } else { op1 as i64 - 0x1_0000_0000 };
        let s2: i64 = if op2 < 0x8000_0000 { op2 as i64 } else { op2 as i64 - 0x1_0000_0000 };
        regs.set_c(carry);
        regs.set_v(s1 + s2 > 0x7FFF_FFFF || s1 + s2 < -0x8000_0000);
        regs.set_z(result == 0);
        regs.set_n(result & 0x8000_0000 != 0);
    }
    result
}

/// `op1 + op2 + C`; with `change_status` the flags take the carry out, zero,
/// negative and overflow of the sum.
pub fn adc(regs: &mut Registers, op1: u32, op2: u32, change_status: bool) -> (r: u32)
    ensures
        r == adc_result(op1, op2, bit_of(old(regs)@.cpsr, 29)),
        final(regs)@ == if change_status {
            RegFile {
                cpsr: adc_flags(
                    old(regs)@.cpsr,
                    r,
                    adc_carry(op1, op2, bit_of(old(regs)@.cpsr, 29)),
                    adc_overflow(op1, op2, bit_of(old(regs)@.cpsr, 29)),
                ),
                ..old(regs)@
            }
        } else {
            old(regs)@
        },
        final(regs)@.mode() == old(regs)@.mode(),
{
    let c_in: u32 = if regs.get_c() { 1 } else { 0 };
    let r1 = op1.wrapping_add(op2);
    let o1 = op1 as u64 + op2 as u64 > 0xFFFF_FFFF;
    let r2 = r1.wrapping_add(c_in);
    let o2 = r1 as u64 + c_in as u64 > 0xFFFF_FFFF;
    if change_status {
        regs.set_c(o1 || o2);
        regs.set_z(r2 == 0);
        regs.set_n(r2 & 0x8000_0000 != 0);
        regs.set_v((!(op1 ^ op2)) & (op1 ^ r2) & 0x8000_0000 != 0);
    }
    r2
}

/// `op1 - op2`, computed as `op1 + !op2 + 1`; with `change_status` the flags are those
/// of that addition, otherwise the carry flag is left as it was.
pub fn sub_op(regs: &mut Registers, op1: u32, op2: u32, change_status: bool) -> (r: u32)
    ensures
        r == adc_result(op1, !op2, true),
        final(regs)@ == if change_status {
            RegFile {
                cpsr: adc_flags(old(regs)@.cpsr, r, adc_carry(op1, !op2, true), adc_overflow(op1, !op2, true)),
                ..old(regs)@
            }
        } else {
            old(regs)@
        },
        final(regs)@.mode() == old(regs)@.mode(),
{
    let ghost c0 = old(regs)@.cpsr;
    let old_c = regs.get_c();
    regs.set_c(true);
    let result = adc(regs, op1, !op2, change_status);
    if !change_status {
        regs.set_c(old_c)
    }
    proof {
        lemma_status_bits(c0, 29, 0, true, 0);
        lemma_status_bits(c0, 29, 1, true, 0);
        lemma_status_bits(with_bit(c0, 29, true), 29, 0, adc_carry(op1, !op2, true), 0);
        lemma_status_bits(with_bit(c0, 29, true), 29, 1, adc_carry(op1, !op2, true), 0);
        if adc_carry(op1, !op2, true) {
            assert(with_bit(with_bit(c0, 29, true), 29, true) == with_bit(c0, 29, true));
        } else {
            assert(with_bit(with_bit(c0, 29, true), 29, false) == with_bit(c0, 29, false));
        }
        if old_c {
            assert(with_bit(with_bit(c0, 29, true), 29, true) == with_bit(c0, 29, true));
        } else {
            assert(with_bit(with_bit(c0, 29, true), 29, false) == with_bit(c0, 29, false));
        }
    }
    result
}

/// `op1 + !op2 + C`, subtraction with borrow.
pub fn sbc(regs: &mut Registers, op1: u32, op2: u32, change_status: bool) -> (r: u32)
    ensures
        r == adc_result(op1, !op2, bit_of(old(regs)@.cpsr, 29)),
        final(regs)@ == if change_status {
            RegFile {
                cpsr: adc_flags(
                    old(regs)@.cpsr,
                    r,
                    adc_carry(op1, !op2, bit_of(old(regs)@.cpsr, 29)),
                    adc_overflow(op1, !op2, bit_of(old(regs)@.cpsr, 29)),
                ),
                ..old(regs)@
            }
        } else {
            old(regs)@
        },
        final(regs)@.mode() == old(regs)@.mode(),
{
    adc(regs, op1, !op2, change_status)
}


/// The overflow flag of an addition with carry is set exactly when the sum of the
/// operands read as signed numbers leaves the signed 32-bit range.
pub proof fn law_adc_overflow(a: u32, b: u32, c: bool)
    ensures
        adc_overflow(a, b, c) == ({
            let s = signed(a) + signed(b) + (if c { 1int } else { 0int });
            s > 0x7FFF_FFFF || s < -0x8000_0000
        }),
        adc_carry(a, b, c) == (a + b + (if c { 1int } else { 0int }) >= 0x1_0000_0000),
{
    lemma_overflow_bits(a, b, adc_result(a, b, c));
}

/// Subtraction as computed by the arithmetic unit: the result is `a - b` modulo 2^32,
/// the carry flag means "no borrow" (`a >= b`), and the overflow flag is set exactly
/// when the signed difference leaves the signed 32-bit range.
pub proof fn law_sub_semantics(a: u32, b: u32)
    ensures
        adc_result(a, !b, true) as int == (a - b) % 0x1_0000_0000,
        adc_carry(a, !b, true) == (a >= b),
        adc_overflow(a, !b, true) == (signed(a) - signed(b) > 0x7FFF_FFFF || signed(a) - signed(b) < -0x8000_0000),
{
    lemma_overflow_bits(a, b, 0);
    lemma_overflow_bits(a, !b, adc_result(a, !b, true));
    lemma_overflow_bits(b, b, 0);
    assert(!b == 0xFFFF_FFFFu32 - b);
}


/// Whether the multiplier stops at mask `m`: the bits of `op1` under the mask are all
/// zero, or (for a signed multiply) all one.
pub open spec fn mul_done(op1: u32, m: u32, signed_mul: bool) -> bool {
    m == 0 || op1 & m == 0 || (signed_mul && op1 & m == m)
}

/// Internal cycles a multiply by `op1` takes: one for each byte of `op1` that the
/// early-termination check has to look at.
pub open spec fn mul_cycles(op1: u32, signed_mul: bool) -> u32 {
    if mul_done(op1, 0xFFFF_FF00, signed_mul) {
        1
    } else if mul_done(op1, 0xFFFF_0000, signed_mul) {
        2
    } else if mul_done(op1, 0xFF00_0000, signed_mul) {
        3
    } else {
        4
    }
}

/// Number of internal cycles that a multiplication with multiplier `op1` takes.
pub fn inc_mul_clocks(op1: u32, signed_mul: bool) -> (r: u32)
    ensures
        r == mul_cycles(op1, signed_mul),
        1 <= r <= 4,
{
    proof {
        lemma_mul_masks();
    }
    let mut mask: u32 = 0xFFFF_FF00;
    let mut cycles: u32 = 0;
    loop
        invariant_except_break
            (cycles == 0 && mask == 0xFFFF_FF00)
                || (cycles == 1 && mask == 0xFFFF_0000 && !mul_done(op1, 0xFFFF_FF00, signed_mul))
                || (cycles == 2 && mask == 0xFF00_0000 && !mul_done(op1, 0xFFFF_FF00, signed_mul)
                    && !mul_done(op1, 0xFFFF_0000, signed_mul))
                || (cycles == 3 && mask == 0 && !mul_done(op1, 0xFFFF_FF00, signed_mul)
                    && !mul_done(op1, 0xFFFF_0000, signed_mul) && !mul_done(op1, 0xFF00_0000, signed_mul)),
        ensures
            cycles == mul_cycles(op1, signed_mul),
        decreases 4 - cycles,
    {
        proof {
            lemma_mul_masks();
        }
        cycles = cycles + 1;
        let value = op1 & mask;
        if mask == 0 || value == 0 || signed_mul && value == mask {
            break;
        }
        mask = mask << 8;
    }
    cycles
}


proof fn lemma_shl_wraps(a: u32, n: u32)
    requires
        n < 32,
    ensures
        (a << n) as int == (a * vstd::arithmetic::power2::pow2(n as nat)) % 0x1_0000_0000,
{
    let p = vstd::arithmetic::power2::pow2(n as nat);
    vstd::bits::lemma_u32_pow2_no_overflow(n as nat);
    assert(a * p <= 0xFFFF_FFFF_FFFF_FFFF) by (nonlinear_arith)
        requires
            a <= 0xFFFF_FFFF,
            p <= 0xFFFF_FFFF,
    ;
    vstd::bits::lemma_u64_shl_is_mul(a as u64, n as u64);
    let x = (a as u64) << (n as u64);
    assert(x as u32 == a << n) by (bit_vector)
        requires
            x == (a as u64) << (n as u64),
            n < 32,
    ;
    assert((x as u32) as int == x % 0x1_0000_0000) by (bit_vector);
}

/// The barrel shifter by an amount `n` from 1 to 31: LSL multiplies by 2^n modulo 2^32,
/// LSR divides by 2^n, ASR divides by 2^n rounding down (an operand with bit 31 set,
/// `-(m + 1)` with `m = 0xFFFF_FFFF - a`, gives `-(m / 2^n + 1)`), and ROR moves the low
/// `n` bits to the top. With an immediate amount of 0, LSL leaves the operand, LSR
/// gives 0, ASR gives the sign in every bit, and ROR is RRX: the operand halved with
/// the carry flag in bit 31.
pub proof fn law_shifter(a: u32, n: u32, imm: bool, c: bool)
    ensures
        0 < n < 32 ==> {
            let p: int = vstd::arithmetic::power2::pow2(n as nat) as int;
            let q: int = vstd::arithmetic::power2::pow2((32 - n) as nat) as int;
            &&& shifter_result(0, a, n, imm, c) as int == (a * p) % 0x1_0000_0000
            &&& shifter_result(1, a, n, imm, c) as int == a as int / p
            &&& a < 0x8000_0000 ==> shifter_result(2, a, n, imm, c) as int == a as int / p
            &&& a >= 0x8000_0000 ==> shifter_result(2, a, n, imm, c) as int == 0xFFFF_FFFF - (0xFFFF_FFFF - a) / p
            &&& shifter_result(3, a, n, imm, c) as int == a as int / p + (a as int % p) * q
        },
        shifter_result(0, a, 0, true, c) == a,
        shifter_result(1, a, 0, true, c) == 0,
        shifter_result(2, a, 0, true, c) == (if a >= 0x8000_0000 { 0xFFFF_FFFFu32 } else { 0u32 }),
        shifter_result(3, a, 0, true, c) as int == (if c { 0x8000_0000int } else { 0int }) + a / 2,
{
    assert(a >> 31u32 != 0 <==> a >= 0x8000_0000) by (bit_vector);
    assert(((if c { 1u32 } else { 0u32 }) << 31u32) | (a >> 1u32) == (if c { 0x8000_0000u32 } else { 0u32 }) + a / 2)
        by (bit_vector);
    if 0 < n < 32 {
        let p = vstd::arithmetic::power2::pow2(n as nat);
        lemma_shl_wraps(a, n);
        vstd::bits::lemma_u32_shr_is_div(a, n);
        vstd::bits::lemma_u32_shr_is_div(!a, n);
        assert(!a == 0xFFFF_FFFFu32 - a) by (bit_vector);
        assert(a >> 31u32 != 0 ==> (a >> n) | !(0xFFFF_FFFFu32 >> n) == !((!a) >> n)) by (bit_vector);
        assert(a >> 31u32 != 0 ==> !((!a) >> n) == 0xFFFF_FFFFu32 - ((!a) >> n)) by (bit_vector);
        // ROR: the two halves do not overlap, and the low bits go to the top.
        let q = vstd::arithmetic::power2::pow2((32 - n) as nat);
        vstd::bits::lemma_u32_pow2_no_overflow(n as nat);
        vstd::bits::lemma_u32_shl_is_mul(1u32, n);
        let k = 1u32 << n;
        vstd::bits::lemma_u32_low_bits_mask_is_mod(a, n as nat);
        assert(vstd::bits::low_bits_mask(n as nat) == k - 1);
        let m = a & ((k - 1) as u32);
        assert(m == a % (k as u32));
        assert((a >> n) | (a << ((32 - n) as u32)) == (a >> n) + ((a & (((1u32 << n) - 1) as u32)) << ((32 - n) as u32)))
            by (bit_vector)
            requires
                0 < n < 32,
        ;
        assert(m < p);
        assert(m * q <= 0xFFFF_FFFF) by {
            vstd::arithmetic::power2::lemma_pow2_adds(n as nat, (32 - n) as nat);
            vstd::arithmetic::power2::lemma2_to64();
            assert(m * q <= (p - 1) * q) by (nonlinear_arith)
                requires
                    m <= p - 1,
                    q >= 0,
            ;
            assert((p - 1) * q == p * q - q) by (nonlinear_arith);
            vstd::arithmetic::power2::lemma_pow2_pos((32 - n) as nat);
        }
        vstd::bits::lemma_u32_shl_is_mul(m, (32 - n) as u32);
    }
}

} // verus!
