use vstd::prelude::*;
use crate::arm::alu::{
    add_op, adc, barrel_shift, inc_mul_clocks, mul_cycles, sbc, shifter_carry, shifter_result, sub_op,
    with_shift_carry,
};
use crate::arm::arm::{dp_alu, reg_i};
use crate::arm::registers::{bit_of, lemma_write_same, lemma_write_twice, reg_from_index, reg_index, with_bit, Mode, Reg, RegFile, Registers};
use crate::arm::alu::rotr;
use crate::arm::transfer::{
    access_values, lemma_list_regs, lemma_list_regs_of_zero, lemma_list_regs_zero, list_regs, rotate_word, sext16, sext8, sign_extend16, sign_extend8,
    BlockBus, DataAccess, TransferBus,
};
use crate::io::MemoryAccess;

verus! {

/// Bus work of a Thumb instruction without a data access.
#[derive(Clone, Copy, Debug, PartialEq, Eq, Structural)]
pub struct ThumbBus {
    /// Address of the prefetch of the next instruction.
    pub prefetch_addr: u32,
    /// The prefetch asks for a nonsequential access next; otherwise for a sequential
    /// one.
    pub prefetch_nonseq: bool,
    /// Internal cycles taken (a shift by a register, a multiply).
    pub internal_cycles: u32,
    /// The PC was written: the pipeline is refilled from the new PC, in the state that
    /// the T bit then shows.
    pub refill: bool,
}

/// Bits `lo` and up of a Thumb instruction, masked.
pub open spec fn tbits(instr: u16, lo: u32, mask: u32) -> u32 {
    ((instr as u32) >> lo) & mask
}

/// The low bits of a Thumb instruction, masked.
pub open spec fn tlow(instr: u16, mask: u32) -> u32 {
    (instr as u32) & mask
}

/// Register number from three bits given as booleans.
pub open spec fn reg3(b2: bool, b1: bool, b0: bool) -> u32 {
    ((if b2 { 4int } else { 0 }) + (if b1 { 2int } else { 0 }) + (if b0 { 1int } else { 0 })) as u32
}

/// Two-bit opcode from two bits given as booleans.
pub open spec fn op2(h: bool, l: bool) -> u32 {
    reg3(false, h, l)
}

fn reg3_exec(b2: bool, b1: bool, b0: bool) -> (r: u32)
    ensures
        r == reg3(b2, b1, b0),
        r < 8,
{
    (if b2 { 4u32 } else { 0 }) + (if b1 { 2u32 } else { 0 }) + (if b0 { 1u32 } else { 0 })
}

/// The CPSR with N then Z set from a result.
pub open spec fn with_nz(cpsr: u32, result: u32) -> u32 {
    with_bit(with_bit(cpsr, 31, result & 0x8000_0000 != 0), 30, result == 0)
}

/// The CPSR with Z then N set from a result.
pub open spec fn with_zn(cpsr: u32, result: u32) -> u32 {
    with_bit(with_bit(cpsr, 30, result == 0), 31, result & 0x8000_0000 != 0)
}

proof fn lemma_tfields(x: u32)
    by (bit_vector)
    ensures
        (x >> 3u32) & 7u32 < 8,
        (x >> 6u32) & 7u32 < 8,
        x & 7u32 < 8,
        (x >> 6u32) & 0x1Fu32 < 32,
        (x >> 6u32) & 0xFu32 < 16,
        (x >> 7u32) & 1u32 < 2,
        (x >> 6u32) & 1u32 < 2,
        x & 0xFFu32 < 256,
        x & 0x7Fu32 < 128,
        x & 0x7FFu32 < 2048,
{
}

/// The two fetches that refill the Thumb pipeline and the PC after them: the PC is
/// halfword-aligned, then moves one halfword on.
pub open spec fn thumb_refill(pc: u32) -> (u32, u32, u32) {
    let a = pc & !1u32;
    (a, a.wrapping_add(2) & !1u32, a.wrapping_add(2))
}

/// Refills the Thumb pipeline after a jump: aligns the PC and steps it past the first
/// fetch. Returns the addresses of the two sequential fetches.
pub fn fill_thumb_instr_buffer(regs: &mut Registers) -> (r: (u32, u32))
    ensures
        final(regs)@ == (RegFile { pc: thumb_refill(old(regs)@.pc).2, ..old(regs)@ }),
        r == (thumb_refill(old(regs)@.pc).0, thumb_refill(old(regs)@.pc).1),
{
    let pc = regs.get_pc() & !0x1;
    proof {
        crate::bits::lemma_u32_bits(old(regs)@.pc, 0);
    }
    let first = pc & !0x1;
    let pc = pc.wrapping_add(2);
    regs.set_pc(pc);
    (first, pc & !0x1)
}

/// THUMB.1, LSL, LSR or ASR by an immediate: shifts Rs into Rd and sets N, Z and (for
/// a nonzero amount or LSR/ASR) C.
pub open spec fn move_shifted_reg_spec(rf: RegFile, instr: u16, op: u32) -> (RegFile, ThumbBus) {
    let amount = tbits(instr, 6, 0x1F);
    let src = reg_i(rf, tbits(instr, 3, 7));
    let c = bit_of(rf.cpsr, 29);
    let result = shifter_result(op, src, amount, true, c);
    let rf1 = with_shift_carry(rf, true, shifter_carry(op, src, amount, true, c));
    let rf2 = RegFile { cpsr: with_nz(rf1.cpsr, result), ..rf1 };
    (
        rf2.write(reg_from_index(tlow(instr, 7) as nat), result),
        ThumbBus { prefetch_addr: rf.pc, prefetch_nonseq: false, internal_cycles: 0, refill: false },
    )
}

pub fn move_shifted_reg<const OP_H: bool, const OP_L: bool>(regs: &mut Registers, instr: u16) -> (r: ThumbBus)
    requires
        old(regs).wf(),
        (instr as u32) >> 13u32 == 0,
        !(OP_H && OP_L),
    ensures
        final(regs).wf(),
        (final(regs)@, r) == move_shifted_reg_spec(
            old(regs)@,
            instr,
            op2(OP_H, OP_L),
        ),
{
    let i = instr as u32;
    proof {
        lemma_tfields(i);
        regs.lemma_view();
    }
    let opcode = reg3_exec(false, OP_H, OP_L);
    let offset = i >> 6 & 0x1F;
    let src = regs.get_reg_i(i >> 3 & 0x7);
    let dest_reg = i & 0x7;
    let result = barrel_shift(regs, opcode, src, offset, true, true).0;
    regs.set_n(result & 0x8000_0000 != 0);
    regs.set_z(result == 0);
    proof {
        regs.lemma_view();
    }
    regs.set_reg_i(dest_reg, result);
    ThumbBus { prefetch_addr: regs.get_pc(), prefetch_nonseq: false, internal_cycles: 0, refill: false }
}

/// THUMB.2, ADD or SUB of a register or a 3-bit immediate, setting the flags.
pub open spec fn add_sub_spec(rf: RegFile, instr: u16, imm: bool, sub: bool) -> (RegFile, ThumbBus) {
    let field = tbits(instr, 6, 7);
    let operand = if imm { field } else { reg_i(rf, field) };
    let src = reg_i(rf, tbits(instr, 3, 7));
    let (rf1, result) = dp_alu(rf, if sub { 2 } else { 4 }, src, operand, true);
    (
        rf1.write(reg_from_index(tlow(instr, 7) as nat), result),
        ThumbBus { prefetch_addr: rf.pc, prefetch_nonseq: false, internal_cycles: 0, refill: false },
    )
}

pub fn add_sub<const IMM: bool, const SUB: bool>(regs: &mut Registers, instr: u16) -> (r: ThumbBus)
    requires
        old(regs).wf(),
        (instr as u32) >> 11u32 == 3,
    ensures
        final(regs).wf(),
        (final(regs)@, r) == add_sub_spec(old(regs)@, instr, IMM, SUB),
{
    let i = instr as u32;
    proof {
        lemma_tfields(i);
        regs.lemma_view();
    }
    let operand = i >> 6 & 0x7;
    let operand = if IMM { operand } else { regs.get_reg_i(operand) };
    let src = regs.get_reg_i(i >> 3 & 0x7);
    let dest_reg = i & 0x7;
    let result = if SUB { sub_op(regs, src, operand, true) } else { add_op(regs, src, operand, true) };
    proof {
        regs.lemma_view();
    }
    regs.set_reg_i(dest_reg, result);
    ThumbBus { prefetch_addr: regs.get_pc(), prefetch_nonseq: false, internal_cycles: 0, refill: false }
}

/// THUMB.3, MOV, CMP, ADD or SUB with an 8-bit immediate: Z and N from the result
/// (and C, V from CMP, ADD, SUB); all but CMP write Rd.
pub open spec fn immediate_spec(rf: RegFile, instr: u16, op: u32, rd: u32) -> (RegFile, ThumbBus) {
    let imm = tlow(instr, 0xFF);
    let op1 = reg_i(rf, rd);
    let (rf1, result) = if op == 0 { (rf, imm) } else { dp_alu(rf, if op == 2 { 4 } else { 2 }, op1, imm, true) };
    let rf2 = RegFile { cpsr: with_zn(rf1.cpsr, result), ..rf1 };
    (
        if op != 1 { rf2.write(reg_from_index(rd as nat), result) } else { rf2 },
        ThumbBus { prefetch_addr: rf.pc, prefetch_nonseq: false, internal_cycles: 0, refill: false },
    )
}

pub fn immediate<const OP_H: bool, const OP_L: bool, const RD2: bool, const RD1: bool, const RD0: bool>(
    regs: &mut Registers,
    instr: u16,
) -> (r: ThumbBus)
    requires
        old(regs).wf(),
        (instr as u32) >> 13u32 == 1,
    ensures
        final(regs).wf(),
        (final(regs)@, r) == immediate_spec(
            old(regs)@,
            instr,
            op2(OP_H, OP_L),
            reg3(RD2, RD1, RD0),
        ),
{
    let i = instr as u32;
    proof {
        lemma_tfields(i);
        regs.lemma_view();
    }
    let opcode = reg3_exec(false, OP_H, OP_L);
    let dest_reg = reg3_exec(RD2, RD1, RD0);
    let imm = i & 0xFF;
    let op1 = regs.get_reg_i(dest_reg);
    let result = if opcode == 0 {
        imm
    } else if opcode == 2 {
        add_op(regs, op1, imm, true)
    } else {
        sub_op(regs, op1, imm, true)
    };
    regs.set_z(result == 0);
    regs.set_n(result & 0x8000_0000 != 0);
    proof {
        regs.lemma_view();
    }
    if opcode != 1 {
        regs.set_reg_i(dest_reg, result);
    }
    ThumbBus { prefetch_addr: regs.get_pc(), prefetch_nonseq: false, internal_cycles: 0, refill: false }
}

/// THUMB.4, the sixteen ALU operations on Rd and Rs: N and Z from the result, shifts by
/// the low byte of Rs (one internal cycle), MUL with its multiply cycles; TST, CMP and
/// CMN write no register.
pub open spec fn thumb_alu_spec(rf: RegFile, instr: u16) -> (RegFile, ThumbBus) {
    let op = tbits(instr, 6, 0xF);
    let rd = tlow(instr, 7);
    let src = reg_i(rf, tbits(instr, 3, 7));
    let dest = reg_i(rf, rd);
    let c = bit_of(rf.cpsr, 29);
    let st: u32 = if op == 2 { 0 } else if op == 3 { 1 } else if op == 4 { 2 } else { 3 };
    let (rf1, result, cycles) = if op == 0 || op == 8 {
        (rf, dest & src, 0u32)
    } else if op == 1 {
        (rf, dest ^ src, 0u32)
    } else if op == 2 || op == 3 || op == 4 || op == 7 {
        (
            with_shift_carry(rf, true, shifter_carry(st, dest, src & 0xFF, false, c)),
            shifter_result(st, dest, src & 0xFF, false, c),
            1u32,
        )
    } else if op == 5 || op == 6 || op == 0xA || op == 0xB {
        let (r1, x) = dp_alu(rf, if op == 0xA { 2 } else if op == 0xB { 4 } else { op }, dest, src, true);
        (r1, x, 0u32)
    } else if op == 9 {
        let (r1, x) = dp_alu(rf, 2, 0, src, true);
        (r1, x, 0u32)
    } else if op == 0xC {
        (rf, dest | src, 0u32)
    } else if op == 0xD {
        (rf, dest.wrapping_mul(src), mul_cycles(dest, true))
    } else if op == 0xE {
        (rf, dest & !src, 0u32)
    } else {
        (rf, !src, 0u32)
    };
    let rf2 = RegFile { cpsr: with_nz(rf1.cpsr, result), ..rf1 };
    (
        if op == 8 || op == 0xA || op == 0xB { rf2 } else { rf2.write(reg_from_index(rd as nat), result) },
        ThumbBus { prefetch_addr: rf.pc, prefetch_nonseq: false, internal_cycles: cycles, refill: false },
    )
}

pub fn alu(regs: &mut Registers, instr: u16) -> (r: ThumbBus)
    requires
        old(regs).wf(),
        ((instr as u32) >> 10u32) & 0x3F == 0x10,
    ensures
        final(regs).wf(),
        (final(regs)@, r) == thumb_alu_spec(old(regs)@, instr),
{
    let i = instr as u32;
    proof {
        lemma_tfields(i);
        regs.lemma_view();
    }
    let prefetch_addr = regs.get_pc();
    let opcode = i >> 6 & 0xF;
    let src = regs.get_reg_i(i >> 3 & 0x7);
    let dest_reg = i & 0x7;
    let dest = regs.get_reg_i(dest_reg);
    let mut cycles: u32 = 0;
    let result = if opcode == 0x0 || opcode == 0x8 {
        dest & src
    } else if opcode == 0x1 {
        dest ^ src
    } else if opcode == 0x2 || opcode == 0x3 || opcode == 0x4 || opcode == 0x7 {
        let st: u32 = if opcode == 2 { 0 } else if opcode == 3 { 1 } else if opcode == 4 { 2 } else { 3 };
        cycles = 1;
        barrel_shift(regs, st, dest, src & 0xFF, false, true).0
    } else if opcode == 0x5 {
        adc(regs, dest, src, true)
    } else if opcode == 0x6 {
        sbc(regs, dest, src, true)
    } else if opcode == 0x9 {
        sub_op(regs, 0, src, true)
    } else if opcode == 0xA {
        sub_op(regs, dest, src, true)
    } else if opcode == 0xB {
        add_op(regs, dest, src, true)
    } else if opcode == 0xC {
        dest | src
    } else if opcode == 0xD {
        cycles = inc_mul_clocks(dest, true);
        dest.wrapping_mul(src)
    } else if opcode == 0xE {
        dest & !src
    } else {
        !src
    };
    regs.set_n(result & 0x8000_0000 != 0);
    regs.set_z(result == 0);
    proof {
        regs.lemma_view();
    }
    if !(opcode == 0x8 || opcode == 0xA || opcode == 0xB) {
        regs.set_reg_i(dest_reg, result);
    }
    ThumbBus { prefetch_addr, prefetch_nonseq: false, internal_cycles: cycles, refill: false }
}

/// THUMB.5 with a high register: ADD (no flags), CMP, MOV, or BX (opcode 3), which
/// jumps to Rs and enters ARM state when its bit 0 is clear. A write to the PC, or CMP
/// with the PC as Rd, refills the pipeline.
pub open spec fn hi_reg_bx_spec(rf: RegFile, instr: u16, op: u32) -> (RegFile, ThumbBus) {
    let src = reg_i(rf, (tbits(instr, 6, 1) * 8 + tbits(instr, 3, 7)) as u32);
    let rd = (tbits(instr, 7, 1) * 8 + tlow(instr, 7)) as u32;
    let dest = reg_i(rf, rd);
    if op == 3 {
        let rf1 = if src & 1 != 0 {
            RegFile { pc: src & !1u32, ..rf }
        } else {
            RegFile { pc: src & !2u32, cpsr: with_bit(rf.cpsr, 5, false), ..rf }
        };
        (rf1, ThumbBus { prefetch_addr: rf.pc, prefetch_nonseq: true, internal_cycles: 0, refill: true })
    } else {
        let (rf1, result) = if op == 0 {
            (rf, dest.wrapping_add(src))
        } else if op == 1 {
            dp_alu(rf, 2, dest, src, true)
        } else {
            (rf, src)
        };
        let rf2 = if op != 1 { rf1.write(reg_from_index(rd as nat), result) } else { rf1 };
        (rf2, ThumbBus { prefetch_addr: rf2.pc, prefetch_nonseq: rd == 15, internal_cycles: 0, refill: rd == 15 })
    }
}

pub fn hi_reg_bx<const OP_H: bool, const OP_L: bool>(regs: &mut Registers, instr: u16) -> (r: ThumbBus)
    requires
        old(regs).wf(),
        (instr as u32) >> 10u32 == 0x11,
        OP_H && OP_L ==> tbits(instr, 7, 1) == 0,
    ensures
        final(regs).wf(),
        (final(regs)@, r) == hi_reg_bx_spec(
            old(regs)@,
            instr,
            op2(OP_H, OP_L),
        ),
{
    let i = instr as u32;
    proof {
        lemma_tfields(i);
        regs.lemma_view();
    }
    let opcode = reg3_exec(false, OP_H, OP_L);
    let dest_reg_msb = i >> 7 & 0x1;
    let src_reg_msb = i >> 6 & 0x1;
    let src = regs.get_reg_i(src_reg_msb * 8 + (i >> 3 & 0x7));
    let dest_reg = dest_reg_msb * 8 + (i & 0x7);
    let dest = regs.get_reg_i(dest_reg);
    if opcode == 3 {
        let prefetch_addr = regs.get_pc();
        if src & 0x1 != 0 {
            regs.set_pc(src & !0x1);
        } else {
            regs.set_pc(src & !0x2);
            regs.set_t(false);
        }
        return ThumbBus { prefetch_addr, prefetch_nonseq: true, internal_cycles: 0, refill: true };
    }
    let result = if opcode == 0 {
        dest.wrapping_add(src)
    } else if opcode == 1 {
        sub_op(regs, dest, src, true)
    } else {
        src
    };
    proof {
        regs.lemma_view();
    }
    if opcode != 1 {
        regs.set_reg_i(dest_reg, result);
    }
    ThumbBus { prefetch_addr: regs.get_pc(), prefetch_nonseq: dest_reg == 15, internal_cycles: 0, refill: dest_reg == 15 }
}

/// THUMB.12, ADD Rd, PC or SP, #imm: the word-aligned PC (bit 1 cleared) or SP plus
/// four times an 8-bit immediate.
pub open spec fn get_rel_addr_spec(rf: RegFile, instr: u16, sp: bool, rd: u32) -> (RegFile, ThumbBus) {
    let src = if sp { rf.read(Reg::R13) } else { rf.pc & !2u32 };
    (
        rf.write(reg_from_index(rd as nat), src.wrapping_add((tlow(instr, 0xFF) * 4) as u32)),
        ThumbBus { prefetch_addr: rf.pc, prefetch_nonseq: false, internal_cycles: 0, refill: false },
    )
}

pub fn get_rel_addr<const SP: bool, const RD2: bool, const RD1: bool, const RD0: bool>(
    regs: &mut Registers,
    instr: u16,
) -> (r: ThumbBus)
    requires
        old(regs).wf(),
        ((instr as u32) >> 12u32) & 0xF == 0xA,
    ensures
        final(regs).wf(),
        (final(regs)@, r) == get_rel_addr_spec(old(regs)@, instr, SP, reg3(RD2, RD1, RD0)),
{
    let i = instr as u32;
    proof {
        lemma_tfields(i);
    }
    let dest_reg = reg3_exec(RD2, RD1, RD0);
    let src = if SP { regs.get_reg(Reg::R13) } else { regs.get_pc() & !0x2 };
    let offset = i & 0xFF;
    let prefetch_addr = regs.get_pc();
    regs.set_reg_i(dest_reg, src.wrapping_add(offset * 4));
    ThumbBus { prefetch_addr, prefetch_nonseq: false, internal_cycles: 0, refill: false }
}

/// THUMB.13, ADD SP, #±imm: four times a 7-bit immediate, subtracted when bit 7 is set.
pub open spec fn add_offset_sp_spec(rf: RegFile, instr: u16) -> (RegFile, ThumbBus) {
    let offset = tlow(instr, 0x7F) * 4;
    let sp = rf.read(Reg::R13);
    let value = if tbits(instr, 7, 1) != 0 { sp.wrapping_sub(offset as u32) } else { sp.wrapping_add(offset as u32) };
    (
        rf.write(Reg::R13, value),
        ThumbBus { prefetch_addr: rf.pc, prefetch_nonseq: false, internal_cycles: 0, refill: false },
    )
}

pub fn add_offset_sp(regs: &mut Registers, instr: u16) -> (r: ThumbBus)
    requires
        old(regs).wf(),
        ((instr as u32) >> 8u32) & 0xFF == 0xB0,
    ensures
        final(regs).wf(),
        (final(regs)@, r) == add_offset_sp_spec(old(regs)@, instr),
{
    let i = instr as u32;
    proof {
        lemma_tfields(i);
    }
    let sub = i >> 7 & 0x1 != 0;
    let offset = (i & 0x7F) * 4;
    let sp = regs.get_reg(Reg::R13);
    let value = if sub { sp.wrapping_sub(offset) } else { sp.wrapping_add(offset) };
    let prefetch_addr = regs.get_pc();
    regs.set_reg(Reg::R13, value);
    ThumbBus { prefetch_addr, prefetch_nonseq: false, internal_cycles: 0, refill: false }
}

/// Whether condition `cond` (below 14) holds for the flags of `cpsr`.
pub open spec fn condition_holds(cpsr: u32, cond: u32) -> bool {
    let n = bit_of(cpsr, 31);
    let z = bit_of(cpsr, 30);
    let c = bit_of(cpsr, 29);
    let v = bit_of(cpsr, 28);
    if cond == 0 { z }
    else if cond == 1 { !z }
    else if cond == 2 { c }
    else if cond == 3 { !c }
    else if cond == 4 { n }
    else if cond == 5 { !n }
    else if cond == 6 { v }
    else if cond == 7 { !v }
    else if cond == 8 { c && !z }
    else if cond == 9 { !c || z }
    else if cond == 10 { n == v }
    else if cond == 11 { n != v }
    else if cond == 12 { !z && n == v }
    else if cond == 13 { z || n != v }
    else { true }
}

/// Evaluates a condition code on the flags of the CPSR.
pub fn condition_passed(regs: &Registers, cond: u32) -> (r: bool)
    ensures
        r == condition_holds(regs@.cpsr, cond),
{
    let n = regs.get_n();
    let z = regs.get_z();
    let c = regs.get_c();
    let v = regs.get_v();
    if cond == 0 { z }
    else if cond == 1 { !z }
    else if cond == 2 { c }
    else if cond == 3 { !c }
    else if cond == 4 { n }
    else if cond == 5 { !n }
    else if cond == 6 { v }
    else if cond == 7 { !v }
    else if cond == 8 { c && !z }
    else if cond == 9 { !c || z }
    else if cond == 10 { n == v }
    else if cond == 11 { n != v }
    else if cond == 12 { !z && n == v }
    else if cond == 13 { z || n != v }
    else { true }
}

/// The 8-bit offset of a conditional branch, sign-extended.
pub open spec fn sext8_u32(x: u32) -> u32 {
    if x & 0x80 != 0 { x | 0xFFFF_FF00 } else { x }
}

/// THUMB.16: when the condition holds, the PC moves by twice the signed 8-bit offset,
/// with a refill.
pub open spec fn cond_branch_spec(rf: RegFile, instr: u16, cond: u32) -> (RegFile, ThumbBus) {
    if condition_holds(rf.cpsr, cond) {
        let offset = sext8_u32(tlow(instr, 0xFF));
        (
            RegFile { pc: rf.pc.wrapping_add(offset.wrapping_mul(2)), ..rf },
            ThumbBus { prefetch_addr: rf.pc, prefetch_nonseq: true, internal_cycles: 0, refill: true },
        )
    } else {
        (rf, ThumbBus { prefetch_addr: rf.pc, prefetch_nonseq: false, internal_cycles: 0, refill: false })
    }
}

pub fn cond_branch<const C3: bool, const C2: bool, const C1: bool, const C0: bool>(
    regs: &mut Registers,
    instr: u16,
) -> (r: ThumbBus)
    requires
        (instr as u32) >> 12u32 == 0xD,
        !(C3 && C2 && C1),
    ensures
        (final(regs)@, r) == cond_branch_spec(
            old(regs)@,
            instr,
            (reg3(C2, C1, C0) + if C3 { 8int } else { 0 }) as u32,
        ),
{
    let i = instr as u32;
    let condition = (if C3 { 8u32 } else { 0 }) + reg3_exec(C2, C1, C0);
    let b = i & 0xFF;
    let offset = if b & 0x80 != 0 { b | 0xFFFF_FF00 } else { b };
    let prefetch_addr = regs.get_pc();
    if condition_passed(regs, condition) {
        regs.set_pc(prefetch_addr.wrapping_add(offset.wrapping_mul(2)));
        ThumbBus { prefetch_addr, prefetch_nonseq: true, internal_cycles: 0, refill: true }
    } else {
        ThumbBus { prefetch_addr, prefetch_nonseq: false, internal_cycles: 0, refill: false }
    }
}

/// THUMB.17, SWI: enters supervisor mode (saving the CPSR), saves the return address
/// in R14, enters ARM state with IRQs disabled and jumps to the vector at 8.
pub open spec fn thumb_swi_spec(rf: RegFile) -> (RegFile, ThumbBus) {
    let rf1 = rf.enter_mode(Mode::Supervisor).write(Reg::R14, rf.pc.wrapping_sub(2));
    (
        RegFile { cpsr: with_bit(with_bit(rf1.cpsr, 5, false), 7, true), pc: 8, ..rf1 },
        ThumbBus { prefetch_addr: rf.pc, prefetch_nonseq: true, internal_cycles: 0, refill: true },
    )
}

pub fn thumb_software_interrupt(regs: &mut Registers, instr: u16) -> (r: ThumbBus)
    requires
        old(regs).wf(),
        ((instr as u32) >> 8u32) & 0xFF == 0xDF,
    ensures
        final(regs).wf(),
        (final(regs)@, r) == thumb_swi_spec(old(regs)@),
{
    let prefetch_addr = regs.get_pc();
    regs.change_mode(Mode::Supervisor);
    regs.set_reg(Reg::R14, prefetch_addr.wrapping_sub(2));
    regs.set_t(false);
    regs.set_i(true);
    regs.set_pc(8);
    ThumbBus { prefetch_addr, prefetch_nonseq: true, internal_cycles: 0, refill: true }
}

/// The 11-bit offset of B and BL, sign-extended.
pub open spec fn sext11(x: u32) -> u32 {
    if (x >> 10u32) & 1 != 0 { 0xFFFF_F800 | x } else { x }
}

/// THUMB.18, B: the PC moves by twice the signed 11-bit offset, with a refill.
pub open spec fn uncond_branch_spec(rf: RegFile, instr: u16) -> (RegFile, ThumbBus) {
    (
        RegFile { pc: rf.pc.wrapping_add(sext11(tlow(instr, 0x7FF)) << 1u32), ..rf },
        ThumbBus { prefetch_addr: rf.pc, prefetch_nonseq: true, internal_cycles: 0, refill: true },
    )
}

pub fn uncond_branch(regs: &mut Registers, instr: u16) -> (r: ThumbBus)
    requires
        (instr as u32) >> 11u32 == 0x1C,
    ensures
        (final(regs)@, r) == uncond_branch_spec(old(regs)@, instr),
{
    let i = instr as u32;
    let offset = i & 0x7FF;
    let offset = if offset >> 10 & 0x1 != 0 { 0xFFFF_F800 | offset } else { offset };
    let prefetch_addr = regs.get_pc();
    regs.set_pc(prefetch_addr.wrapping_add(offset << 1));
    ThumbBus { prefetch_addr, prefetch_nonseq: true, internal_cycles: 0, refill: true }
}

/// THUMB.19, BL in two halves: the first (`h` clear) puts the PC plus the signed upper
/// offset shifted by 12 in R14; the second jumps to R14 plus twice the lower offset and
/// leaves the return address, with bit 0 set, in R14.
pub open spec fn branch_with_link_spec(rf: RegFile, instr: u16, h: bool) -> (RegFile, ThumbBus) {
    let offset = tlow(instr, 0x7FF);
    if h {
        let next = rf.pc.wrapping_sub(2);
        let rf1 = RegFile { pc: rf.read(Reg::R14).wrapping_add(offset << 1u32), ..rf };
        (
            rf1.write(Reg::R14, next | 1),
            ThumbBus { prefetch_addr: rf.pc, prefetch_nonseq: true, internal_cycles: 0, refill: true },
        )
    } else {
        (
            rf.write(Reg::R14, rf.pc.wrapping_add(sext11(offset) << 12u32)),
            ThumbBus { prefetch_addr: rf.pc, prefetch_nonseq: false, internal_cycles: 0, refill: false },
        )
    }
}

pub fn branch_with_link<const H: bool>(regs: &mut Registers, instr: u16) -> (r: ThumbBus)
    requires
        old(regs).wf(),
        (instr as u32) >> 12u32 == 0xF,
        !H ==> (instr as u32) >> 11u32 == 0x1E,
    ensures
        final(regs).wf(),
        (final(regs)@, r) == branch_with_link_spec(old(regs)@, instr, H),
{
    let i = instr as u32;
    let offset = i & 0x7FF;
    let prefetch_addr = regs.get_pc();
    if H {
        let next_instr_pc = prefetch_addr.wrapping_sub(2);
        let lr = regs.get_reg(Reg::R14);
        regs.set_pc(lr.wrapping_add(offset << 1));
        regs.set_reg(Reg::R14, next_instr_pc | 0x1);
        ThumbBus { prefetch_addr, prefetch_nonseq: true, internal_cycles: 0, refill: true }
    } else {
        let offset = if offset >> 10 & 0x1 != 0 { 0xFFFF_F800 | offset } else { offset };
        regs.set_reg(Reg::R14, prefetch_addr.wrapping_add(offset << 12));
        ThumbBus { prefetch_addr, prefetch_nonseq: false, internal_cycles: 0, refill: false }
    }
}


/// A word read at `addr & !3`, rotated right by eight times the low address bits.
pub open spec fn word_load(loaded: u32, addr: u32) -> u32 {
    rotr(loaded, ((addr & 3) * 8) as u32)
}

/// A halfword read at `addr & !1` (in the low bits of `loaded`), rotated right by
/// eight times the low address bit.
pub open spec fn half_load(loaded: u32, addr: u32) -> u32 {
    rotr(loaded & 0xFFFF, ((addr & 1) * 8) as u32)
}

/// A load of `value` into Rd after a read, followed by an internal cycle.
pub open spec fn load_into(rf: RegFile, rd: u32, value: u32, access: DataAccess) -> (RegFile, TransferBus) {
    (
        rf.write(reg_from_index(rd as nat), value),
        TransferBus { prefetch_addr: rf.pc, data: access, internal_cycle: true, refill: false },
    )
}

/// A store, which leaves the registers.
pub open spec fn store_from(rf: RegFile, access: DataAccess) -> (RegFile, TransferBus) {
    (rf, TransferBus { prefetch_addr: rf.pc, data: access, internal_cycle: false, refill: false })
}

pub open spec fn read_access(addr: u32, size: u32, loaded: u32, access: MemoryAccess) -> DataAccess {
    DataAccess { addr, size, write: false, value: loaded, access }
}

pub open spec fn write_access(addr: u32, size: u32, value: u32) -> DataAccess {
    DataAccess { addr, size, write: true, value, access: MemoryAccess::N }
}

/// THUMB.6, LDR Rd, [PC, #imm]: a word from the word-aligned PC plus four times an
/// 8-bit immediate.
pub open spec fn load_pc_rel_spec(rf: RegFile, instr: u16, rd: u32, loaded: u32) -> (RegFile, TransferBus) {
    let addr = (rf.pc & !2u32).wrapping_add((tlow(instr, 0xFF) * 4) as u32);
    load_into(rf, rd, word_load(loaded, addr), read_access(addr & !3u32, 4, loaded, MemoryAccess::N))
}

/// Executes a Thumb LDR relative to the PC; `loaded` is what the bus returned for the
/// read. Returns the bus work.
pub fn load_pc_rel<const RD2: bool, const RD1: bool, const RD0: bool>(
    regs: &mut Registers,
    instr: u16,
    loaded: u32,
) -> (r: TransferBus)
    requires
        old(regs).wf(),
        (instr as u32) >> 11u32 == 9,
    ensures
        final(regs).wf(),
        (final(regs)@, r) == load_pc_rel_spec(old(regs)@, instr, reg3(RD2, RD1, RD0), loaded),
{
    let i = instr as u32;
    proof {
        lemma_tfields(i);
    }
    let dest_reg = reg3_exec(RD2, RD1, RD0);
    let offset = i & 0xFF;
    let prefetch_addr = regs.get_pc();
    let addr = (prefetch_addr & !0x2).wrapping_add(offset * 4);
    let value = rotate_word(loaded, addr);
    regs.set_reg_i(dest_reg, value);
    TransferBus {
        prefetch_addr,
        data: DataAccess { addr: addr & !0x3, size: 4, write: false, value: loaded, access: MemoryAccess::N },
        internal_cycle: true,
        refill: false,
    }
}

/// THUMB.7, LDR, LDRB, STR or STRB at Rb plus Ro (bit 11 for a load, bit 10 for a
/// byte).
pub open spec fn reg_offset_spec(rf: RegFile, instr: u16, op: u32, loaded: u32) -> (RegFile, TransferBus) {
    let addr = reg_i(rf, tbits(instr, 3, 7)).wrapping_add(reg_i(rf, tbits(instr, 6, 7)));
    let rd = tlow(instr, 7);
    if op == 3 {
        load_into(rf, rd, loaded & 0xFF, read_access(addr, 1, loaded, MemoryAccess::S))
    } else if op == 2 {
        load_into(rf, rd, word_load(loaded, addr), read_access(addr & !3u32, 4, loaded, MemoryAccess::S))
    } else if op == 1 {
        store_from(rf, write_access(addr, 1, reg_i(rf, rd) & 0xFF))
    } else {
        store_from(rf, write_access(addr & !3u32, 4, reg_i(rf, rd)))
    }
}

/// Executes a Thumb load or store with a register offset; `loaded` is what the bus
/// returned for a read (ignored by a store). Returns the bus work.
pub fn load_store_reg_offset<const OP_H: bool, const OP_L: bool>(
    regs: &mut Registers,
    instr: u16,
    loaded: u32,
) -> (r: TransferBus)
    requires
        old(regs).wf(),
        (instr as u32) >> 12u32 == 5,
        tbits(instr, 9, 1) == 0,
    ensures
        final(regs).wf(),
        (final(regs)@, r) == reg_offset_spec(old(regs)@, instr, op2(OP_H, OP_L), loaded),
{
    let i = instr as u32;
    proof {
        lemma_tfields(i);
    }
    let offset_reg = i >> 6 & 0x7;
    let base_reg = i >> 3 & 0x7;
    let addr = regs.get_reg_i(base_reg).wrapping_add(regs.get_reg_i(offset_reg));
    let src_dest_reg = i & 0x7;
    let prefetch_addr = regs.get_pc();
    if OP_H {
        let (value, data) = if OP_L {
            (loaded & 0xFF, DataAccess { addr, size: 1, write: false, value: loaded, access: MemoryAccess::S })
        } else {
            (rotate_word(loaded, addr), DataAccess { addr: addr & !0x3, size: 4, write: false, value: loaded, access: MemoryAccess::S })
        };
        regs.set_reg_i(src_dest_reg, value);
        TransferBus { prefetch_addr, data, internal_cycle: true, refill: false }
    } else {
        let value = regs.get_reg_i(src_dest_reg);
        let data = if OP_L {
            DataAccess { addr, size: 1, write: true, value: value & 0xFF, access: MemoryAccess::N }
        } else {
            DataAccess { addr: addr & !0x3, size: 4, write: true, value, access: MemoryAccess::N }
        };
        TransferBus { prefetch_addr, data, internal_cycle: false, refill: false }
    }
}

/// THUMB.8, STRH, LDSB, LDRH or LDSH at Rb plus Ro.
pub open spec fn sign_ext_spec(rf: RegFile, instr: u16, op: u32, loaded: u32) -> (RegFile, TransferBus) {
    let addr = reg_i(rf, tbits(instr, 3, 7)).wrapping_add(reg_i(rf, tbits(instr, 6, 7)));
    let rd = tlow(instr, 7);
    if op == 0 {
        store_from(rf, write_access(addr & !1u32, 2, reg_i(rf, rd) & 0xFFFF))
    } else if op == 1 || (op == 3 && addr & 1 == 1) {
        load_into(rf, rd, sext8(loaded), read_access(addr, 1, loaded, MemoryAccess::S))
    } else if op == 2 {
        load_into(rf, rd, half_load(loaded, addr), read_access(addr & !1u32, 2, loaded, MemoryAccess::S))
    } else {
        load_into(rf, rd, sext16(loaded), read_access(addr, 2, loaded, MemoryAccess::S))
    }
}

/// Executes a Thumb halfword or sign-extended transfer with a register offset;
/// `loaded` is what the bus returned for a read (ignored by a store).
pub fn load_store_sign_ext<const OP_H: bool, const OP_L: bool>(
    regs: &mut Registers,
    instr: u16,
    loaded: u32,
) -> (r: TransferBus)
    requires
        old(regs).wf(),
        (instr as u32) >> 12u32 == 5,
        tbits(instr, 9, 1) == 1,
    ensures
        final(regs).wf(),
        (final(regs)@, r) == sign_ext_spec(old(regs)@, instr, op2(OP_H, OP_L), loaded),
{
    let i = instr as u32;
    proof {
        lemma_tfields(i);
    }
    let opcode = reg3_exec(false, OP_H, OP_L);
    let offset_reg = i >> 6 & 0x7;
    let base_reg = i >> 3 & 0x7;
    let src_dest_reg = i & 0x7;
    let addr = regs.get_reg_i(base_reg).wrapping_add(regs.get_reg_i(offset_reg));
    let prefetch_addr = regs.get_pc();
    if opcode == 0 {
        let value = regs.get_reg_i(src_dest_reg);
        let data = DataAccess { addr: addr & !0x1, size: 2, write: true, value: value & 0xFFFF, access: MemoryAccess::N };
        TransferBus { prefetch_addr, data, internal_cycle: false, refill: false }
    } else {
        let (value, bus_addr, size) = if opcode == 1 || (opcode == 3 && addr & 0x1 == 1) {
            (sign_extend8(loaded), addr, 1u32)
        } else if opcode == 2 {
            proof {
                crate::bits::lemma_u32_bits(addr, 0);
            }
            (crate::arm::alu::rotate_right(loaded & 0xFFFF, (addr & 0x1) * 8), addr & !0x1, 2u32)
        } else {
            (sign_extend16(loaded), addr, 2u32)
        };
        regs.set_reg_i(src_dest_reg, value);
        TransferBus {
            prefetch_addr,
            data: DataAccess { addr: bus_addr, size, write: false, value: loaded, access: MemoryAccess::S },
            internal_cycle: true,
            refill: false,
        }
    }
}

/// THUMB.9, LDR, STR (offset times four) or LDRB, STRB at Rb plus a 5-bit offset.
pub open spec fn imm_offset_spec(rf: RegFile, instr: u16, byte: bool, load: bool, loaded: u32) -> (RegFile, TransferBus) {
    let offset = tbits(instr, 6, 0x1F);
    let base = reg_i(rf, tbits(instr, 3, 7));
    let rd = tlow(instr, 7);
    let addr = if byte { base.wrapping_add(offset) } else { base.wrapping_add(offset << 2u32) };
    if load {
        if byte {
            load_into(rf, rd, loaded & 0xFF, read_access(addr, 1, loaded, MemoryAccess::S))
        } else {
            load_into(rf, rd, word_load(loaded, addr), read_access(addr & !3u32, 4, loaded, MemoryAccess::S))
        }
    } else if byte {
        store_from(rf, write_access(addr, 1, reg_i(rf, rd) & 0xFF))
    } else {
        store_from(rf, write_access(addr & !3u32, 4, reg_i(rf, rd)))
    }
}

/// Executes a Thumb load or store with an immediate offset; `loaded` is what the bus
/// returned for a read (ignored by a store).
pub fn load_store_imm_offset<const BYTE: bool, const LOAD: bool>(
    regs: &mut Registers,
    instr: u16,
    loaded: u32,
) -> (r: TransferBus)
    requires
        old(regs).wf(),
        (instr as u32) >> 13u32 == 3,
    ensures
        final(regs).wf(),
        (final(regs)@, r) == imm_offset_spec(old(regs)@, instr, BYTE, LOAD, loaded),
{
    let i = instr as u32;
    proof {
        lemma_tfields(i);
    }
    let offset = i >> 6 & 0x1F;
    let base = regs.get_reg_i(i >> 3 & 0x7);
    let src_dest_reg = i & 0x7;
    let prefetch_addr = regs.get_pc();
    let addr = if BYTE { base.wrapping_add(offset) } else { base.wrapping_add(offset << 2) };
    if LOAD {
        let (value, data) = if BYTE {
            (loaded & 0xFF, DataAccess { addr, size: 1, write: false, value: loaded, access: MemoryAccess::S })
        } else {
            (rotate_word(loaded, addr), DataAccess { addr: addr & !0x3, size: 4, write: false, value: loaded, access: MemoryAccess::S })
        };
        regs.set_reg_i(src_dest_reg, value);
        TransferBus { prefetch_addr, data, internal_cycle: true, refill: false }
    } else {
        let value = regs.get_reg_i(src_dest_reg);
        let data = if BYTE {
            DataAccess { addr, size: 1, write: true, value: value & 0xFF, access: MemoryAccess::N }
        } else {
            DataAccess { addr: addr & !0x3, size: 4, write: true, value, access: MemoryAccess::N }
        };
        TransferBus { prefetch_addr, data, internal_cycle: false, refill: false }
    }
}

/// THUMB.10, LDRH or STRH at Rb plus twice a 5-bit offset.
pub open spec fn halfword_spec(rf: RegFile, instr: u16, load: bool, loaded: u32) -> (RegFile, TransferBus) {
    let addr = (reg_i(rf, tbits(instr, 3, 7)) + tbits(instr, 6, 0x1F) * 2) as u32;
    let rd = tlow(instr, 7);
    if load {
        load_into(rf, rd, half_load(loaded, addr), read_access(addr & !1u32, 2, loaded, MemoryAccess::S))
    } else {
        store_from(rf, write_access(addr & !1u32, 2, reg_i(rf, rd) & 0xFFFF))
    }
}

/// Executes a Thumb halfword load or store with an immediate offset; `loaded` is what
/// the bus returned for a read (ignored by a store). The address must not pass 2^32.
pub fn load_store_halfword<const LOAD: bool>(regs: &mut Registers, instr: u16, loaded: u32) -> (r: TransferBus)
    requires
        old(regs).wf(),
        (instr as u32) >> 12u32 == 8,
        reg_i(old(regs)@, tbits(instr, 3, 7)) + tbits(instr, 6, 0x1F) * 2 <= u32::MAX,
    ensures
        final(regs).wf(),
        (final(regs)@, r) == halfword_spec(old(regs)@, instr, LOAD, loaded),
{
    let i = instr as u32;
    proof {
        lemma_tfields(i);
    }
    let offset = i >> 6 & 0x1F;
    let base = regs.get_reg_i(i >> 3 & 0x7);
    let src_dest_reg = i & 0x7;
    let addr = base + offset * 2;
    let prefetch_addr = regs.get_pc();
    if LOAD {
        proof {
            crate::bits::lemma_u32_bits(addr, 0);
        }
        let value = crate::arm::alu::rotate_right(loaded & 0xFFFF, (addr & 0x1) * 8);
        regs.set_reg_i(src_dest_reg, value);
        TransferBus {
            prefetch_addr,
            data: DataAccess { addr: addr & !0x1, size: 2, write: false, value: loaded, access: MemoryAccess::S },
            internal_cycle: true,
            refill: false,
        }
    } else {
        let value = regs.get_reg_i(src_dest_reg);
        TransferBus {
            prefetch_addr,
            data: DataAccess { addr: addr & !0x1, size: 2, write: true, value: value & 0xFFFF, access: MemoryAccess::N },
            internal_cycle: false,
            refill: false,
        }
    }
}

/// THUMB.11, LDR or STR at SP plus four times an 8-bit immediate.
pub open spec fn sp_rel_spec(rf: RegFile, instr: u16, load: bool, rd: u32, loaded: u32) -> (RegFile, TransferBus) {
    let addr = rf.read(Reg::R13).wrapping_add((tlow(instr, 0xFF) * 4) as u32);
    if load {
        load_into(rf, rd, word_load(loaded, addr), read_access(addr & !3u32, 4, loaded, MemoryAccess::S))
    } else {
        store_from(rf, write_access(addr & !3u32, 4, reg_i(rf, rd)))
    }
}

/// Executes a Thumb load or store relative to SP; `loaded` is what the bus returned for
/// a read (ignored by a store).
pub fn load_store_sp_rel<const LOAD: bool, const RD2: bool, const RD1: bool, const RD0: bool>(
    regs: &mut Registers,
    instr: u16,
    loaded: u32,
) -> (r: TransferBus)
    requires
        old(regs).wf(),
        ((instr as u32) >> 12u32) & 0xF == 9,
    ensures
        final(regs).wf(),
        (final(regs)@, r) == sp_rel_spec(old(regs)@, instr, LOAD, reg3(RD2, RD1, RD0), loaded),
{
    let i = instr as u32;
    proof {
        lemma_tfields(i);
    }
    let src_dest_reg = reg3_exec(RD2, RD1, RD0);
    let offset = (i & 0xFF) * 4;
    let addr = regs.get_reg(Reg::R13).wrapping_add(offset);
    let prefetch_addr = regs.get_pc();
    if LOAD {
        let value = rotate_word(loaded, addr);
        regs.set_reg_i(src_dest_reg, value);
        TransferBus {
            prefetch_addr,
            data: DataAccess { addr: addr & !0x3, size: 4, write: false, value: loaded, access: MemoryAccess::S },
            internal_cycle: true,
            refill: false,
        }
    } else {
        let value = regs.get_reg_i(src_dest_reg);
        TransferBus {
            prefetch_addr,
            data: DataAccess { addr: addr & !0x3, size: 4, write: true, value, access: MemoryAccess::N },
            internal_cycle: false,
            refill: false,
        }
    }
}


/// The low registers of a Thumb register list (bits 0 to 7), ascending.
pub fn low_list_regs(list: u32) -> (r: Vec<u32>)
    ensures
        r@ == list_regs(list, 8),
{
    let mut xregs: Vec<u32> = Vec::new();
    let mut i: u32 = 0;
    while i < 8
        invariant
            i <= 8,
            xregs@ == list_regs(list, i as nat),
        decreases 8 - i,
    {
        if (list >> i) & 1 == 1 {
            xregs.push(i);
        }
        i += 1;
    }
    xregs
}

/// The registers that PUSH or POP moves: the list, then R14 (PUSH) or R15 (POP) with
/// the extra bit.
pub open spec fn push_pop_list(instr: u16, pop: bool, pc_lr: bool) -> Seq<u32> {
    let l = list_regs(tlow(instr, 0xFF), 8);
    if pc_lr { l.push(if pop { 15u32 } else { 14u32 }) } else { l }
}

/// The register file after the first `k` pops: a popped PC has bit 0 cleared.
pub open spec fn pop_fold(rf: RegFile, regs: Seq<u32>, loaded: Seq<u32>, k: nat) -> RegFile
    decreases k,
{
    if k == 0 {
        rf
    } else {
        let j = (k - 1) as int;
        let v = if regs[j] == 15 { loaded[j] & !1u32 } else { loaded[j] };
        pop_fold(rf, regs, loaded, (k - 1) as nat).write(reg_from_index(regs[j] as nat), v)
    }
}

/// THUMB.14, PUSH or POP: POP reads ascending words from SP into the registers and
/// leaves SP past them; PUSH moves SP down first, then writes the registers (the last
/// write asking for a nonsequential access next).
pub open spec fn push_pop_spec(rf: RegFile, instr: u16, pop: bool, pc_lr: bool, loaded: Seq<u32>) -> (RegFile, Seq<DataAccess>) {
    let xr = push_pop_list(instr, pop, pc_lr);
    let n = xr.len();
    let sp = rf.read(Reg::R13);
    if pop {
        (
            pop_fold(rf, xr, loaded, n).write(Reg::R13, (sp + 4 * n) as u32),
            Seq::new(n, |k: int| DataAccess { addr: (sp + 4 * k) as u32, size: 4, write: false, value: loaded[k], access: MemoryAccess::S }),
        )
    } else {
        let new_sp = (sp - 4 * n) as u32;
        let rf1 = rf.write(Reg::R13, new_sp);
        (
            rf1,
            Seq::new(n, |k: int| DataAccess {
                addr: (new_sp + 4 * k) as u32,
                size: 4,
                write: true,
                value: rf1.read(reg_from_index(xr[k] as nat)),
                access: if k < n - 1 { MemoryAccess::S } else { MemoryAccess::N },
            }),
        )
    }
}

/// Whether PUSH or POP can be carried out: the fixed bits hold 1011 and 10, the stack
/// stays within the address space, and a POP is given one value per register.
pub open spec fn push_pop_ok(rf: RegFile, instr: u16, pop: bool, pc_lr: bool, loaded_len: nat) -> bool {
    let n = push_pop_list(instr, pop, pc_lr).len();
    let sp = rf.read(Reg::R13);
    &&& ((instr as u32) >> 12u32) & 0xF == 0xB
    &&& tbits(instr, 9, 3) == 2
    &&& pop ==> sp + 4 * n <= u32::MAX && loaded_len == n
    &&& !pop ==> sp >= 4 * n
}

/// Executes PUSH or POP (with `PC_LR`, also R14 or R15). For POP, `loaded` holds what the
/// bus returned for each read, in order; PUSH ignores it. Returns the bus work.
pub fn push_pop_regs<const POP: bool, const PC_LR: bool>(
    regs: &mut Registers,
    instr: u16,
    loaded: &Vec<u32>,
) -> (r: BlockBus)
    requires
        old(regs).wf(),
        push_pop_ok(old(regs)@, instr, POP, PC_LR, loaded@.len()),
    ensures
        final(regs).wf(),
        final(regs)@ == push_pop_spec(old(regs)@, instr, POP, PC_LR, loaded@).0,
        r.data@ == push_pop_spec(old(regs)@, instr, POP, PC_LR, loaded@).1,
        r.prefetch_addr == old(regs)@.pc,
        r.internal_cycle == (POP && push_pop_list(instr, POP, PC_LR).len() > 0),
        r.refill == (POP && PC_LR),
{
    let ghost rf = regs@;
    let i = instr as u32;
    proof {
        lemma_tfields(i);
        lemma_list_regs(i & 0xFF, 8);
    }
    let prefetch_addr = regs.get_pc();
    let mut xregs = low_list_regs(i & 0xFF);
    if PC_LR {
        xregs.push(if POP { 15 } else { 14 });
    }
    let ghost xr = xregs@;
    assert(xr == push_pop_list(instr, POP, PC_LR));
    let count = xregs.len();
    let sp = regs.get_reg(Reg::R13);
    let mut data: Vec<DataAccess> = Vec::new();
    if POP {
        let mut k: usize = 0;
        while k < count
            invariant
                count == xr.len(),
                xregs@ == xr,
                xr.len() <= 9,
                forall|a: int| 0 <= a < xr.len() ==> xr[a] < 16,
                k <= count,
                regs.wf(),
                regs@ == pop_fold(rf, xr, loaded@, k as nat),
                regs@.mode() == rf.mode(),
                data@ == Seq::new(k as nat, |j: int| DataAccess {
                    addr: (sp + 4 * j) as u32,
                    size: 4,
                    write: false,
                    value: loaded@[j],
                    access: MemoryAccess::S,
                }),
                loaded@.len() == count,
                sp + 4 * count <= u32::MAX,
            decreases count - k,
        {
            let reg = xregs[k];
            let value = loaded[k];
            let addr = sp + 4 * (k as u32);
            let value_in = if reg == 15 { value & !0x1 } else { value };
            regs.set_reg_i(reg, value_in);
            data.push(DataAccess { addr, size: 4, write: false, value, access: MemoryAccess::S });
            proof {
                assert(data@ =~= Seq::new((k + 1) as nat, |j: int| DataAccess {
                    addr: (sp + 4 * j) as u32,
                    size: 4,
                    write: false,
                    value: loaded@[j],
                    access: MemoryAccess::S,
                }));
            }
            k += 1;
        }
        regs.set_reg(Reg::R13, sp + 4 * (count as u32));
        proof {
            assert(data@ =~= push_pop_spec(rf, instr, POP, PC_LR, loaded@).1);
        }
        BlockBus { prefetch_addr, data, internal_cycle: count > 0, refill: PC_LR }
    } else {
        let new_sp = sp - 4 * (count as u32);
        regs.set_reg(Reg::R13, new_sp);
        let ghost rf1 = regs@;
        let mut k: usize = 0;
        while k < count
            invariant
                count == xr.len(),
                xregs@ == xr,
                xr.len() <= 9,
                forall|a: int| 0 <= a < xr.len() ==> xr[a] < 16,
                k <= count,
                regs.wf(),
                regs@ == rf1,
                data@ == Seq::new(k as nat, |j: int| DataAccess {
                    addr: (new_sp + 4 * j) as u32,
                    size: 4,
                    write: true,
                    value: rf1.read(reg_from_index(xr[j] as nat)),
                    access: if j < count - 1 { MemoryAccess::S } else { MemoryAccess::N },
                }),
                new_sp + 4 * count == sp,
            decreases count - k,
        {
            let reg = xregs[k];
            let value = regs.get_reg_i(reg);
            let addr = new_sp + 4 * (k as u32);
            let access = if k + 1 < count { MemoryAccess::S } else { MemoryAccess::N };
            data.push(DataAccess { addr, size: 4, write: true, value, access });
            proof {
                assert(data@ =~= Seq::new((k + 1) as nat, |j: int| DataAccess {
                    addr: (new_sp + 4 * j) as u32,
                    size: 4,
                    write: true,
                    value: rf1.read(reg_from_index(xr[j] as nat)),
                    access: if j < count - 1 { MemoryAccess::S } else { MemoryAccess::N },
                }));
            }
            k += 1;
        }
        proof {
            assert(data@ =~= push_pop_spec(rf, instr, POP, PC_LR, loaded@).1);
        }
        BlockBus { prefetch_addr, data, internal_cycle: false, refill: false }
    }
}


/// The registers that a Thumb LDMIA or STMIA moves: the low list, or R15 alone for an
/// empty list.
pub open spec fn ldm_stm_list(instr: u16) -> Seq<u32> {
    let list = tlow(instr, 0xFF);
    if list == 0 { seq![15u32] } else { list_regs(list, 8) }
}

/// The word-aligned base of a Thumb LDMIA or STMIA and the low bits dropped from it.
pub open spec fn ldm_stm_start(rf: RegFile, rb: u32) -> u32 {
    let full = reg_i(rf, rb);
    (full - (full & 3)) as u32
}

/// The register file after the first `k` transfers: a load writes the register; the
/// first store writes the final base (the aligned base past the block, plus the low
/// bits) into Rb.
pub open spec fn ldm_stm_fold(rf: RegFile, rb: u32, final_base: u32, load: bool, regs: Seq<u32>, loaded: Seq<u32>, k: nat) -> RegFile
    decreases k,
{
    if k == 0 {
        rf
    } else {
        let j = (k - 1) as int;
        let prev = ldm_stm_fold(rf, rb, final_base, load, regs, loaded, (k - 1) as nat);
        if load {
            prev.write(reg_from_index(regs[j] as nat), loaded[j])
        } else if j == 0 {
            prev.write(reg_from_index(rb as nat), final_base)
        } else {
            prev
        }
    }
}

/// The base written back at the end: the aligned base past the block plus the low
/// bits, or, for an empty list, past one word and 0x3C more, with the low bits added
/// twice.
pub open spec fn ldm_stm_end(rf: RegFile, rb: u32, instr: u16) -> int {
    let full = reg_i(rf, rb);
    let off = full & 3;
    let start = ldm_stm_start(rf, rb);
    if tlow(instr, 0xFF) == 0 {
        start.wrapping_add(4).wrapping_add((0x3C + off) as u32) + off
    } else {
        start.wrapping_add((4 * list_regs(tlow(instr, 0xFF), 8).len()) as u32) + off
    }
}

/// THUMB.15, LDMIA or STMIA Rb!: ascending words from the aligned base; a store sees
/// the PC two bytes further on, and Rb is written back at the end.
pub open spec fn ldm_stm_spec(rf: RegFile, instr: u16, load: bool, rb: u32, loaded: Seq<u32>) -> (RegFile, Seq<DataAccess>) {
    let xr = ldm_stm_list(instr);
    let n = xr.len();
    let full = reg_i(rf, rb);
    let start = ldm_stm_start(rf, rb);
    let final_base = (start.wrapping_add((4 * list_regs(tlow(instr, 0xFF), 8).len()) as u32) + (full & 3)) as u32;
    let rf0 = if load { rf } else { RegFile { pc: rf.pc.wrapping_add(2), ..rf } };
    let rf_n = ldm_stm_fold(rf0, rb, final_base, load, xr, loaded, n);
    let rf_e = if load { rf_n } else { RegFile { pc: rf_n.pc.wrapping_sub(2), ..rf_n } };
    (
        rf_e.write(reg_from_index(rb as nat), ldm_stm_end(rf, rb, instr) as u32),
        Seq::new(n, |k: int| DataAccess {
            addr: start.wrapping_add((4 * k) as u32),
            size: 4,
            write: !load,
            value: if load {
                loaded[k]
            } else {
                ldm_stm_fold(rf0, rb, final_base, load, xr, loaded, k as nat).read(reg_from_index(xr[k] as nat))
            },
            access: if load || k < n - 1 { MemoryAccess::S } else { MemoryAccess::N },
        }),
    )
}

/// Whether a Thumb LDMIA or STMIA can be carried out: the top bits hold 1100, the
/// final bases stay below 2^32, and a load is given one value per register.
pub open spec fn ldm_stm_ok(rf: RegFile, instr: u16, load: bool, rb: u32, loaded_len: nat) -> bool {
    let full = reg_i(rf, rb);
    let start = ldm_stm_start(rf, rb);
    &&& (instr as u32) >> 12u32 == 0xC
    &&& start.wrapping_add((4 * list_regs(tlow(instr, 0xFF), 8).len()) as u32) + (full & 3) <= u32::MAX
    &&& ldm_stm_end(rf, rb, instr) <= u32::MAX
    &&& load ==> loaded_len == ldm_stm_list(instr).len()
}

/// Executes a Thumb LDMIA or STMIA with base register `Rb`. For a load, `loaded` holds
/// what the bus returned for each read, in order; a store ignores it.
pub fn multiple_load_store<const LOAD: bool, const RB2: bool, const RB1: bool, const RB0: bool>(
    regs: &mut Registers,
    instr: u16,
    loaded: &Vec<u32>,
) -> (r: BlockBus)
    requires
        old(regs).wf(),
        ldm_stm_ok(old(regs)@, instr, LOAD, reg3(RB2, RB1, RB0), loaded@.len()),
    ensures
        final(regs).wf(),
        final(regs)@ == ldm_stm_spec(old(regs)@, instr, LOAD, reg3(RB2, RB1, RB0), loaded@).0,
        r.data@ == ldm_stm_spec(old(regs)@, instr, LOAD, reg3(RB2, RB1, RB0), loaded@).1,
        r.prefetch_addr == old(regs)@.pc,
        r.internal_cycle == LOAD,
        r.refill == (LOAD && tlow(instr, 0xFF) == 0),
{
    let ghost rf = regs@;
    let i = instr as u32;
    proof {
        lemma_tfields(i);
        lemma_list_regs(i & 0xFF, 8);
        if i & 0xFF == 0 {
            lemma_list_regs_of_zero(8);
        } else {
            crate::bits::lemma_u32_bits(i, 0xFF);
            lemma_low_list_nonempty(i & 0xFF);
        }
    }
    let base_reg = reg3_exec(RB2, RB1, RB0);
    let full = regs.get_reg_i(base_reg);
    let base_offset = full & 0x3;
    proof {
        crate::bits::lemma_u32_bits(full, 3);
    }
    let start = full - base_offset;
    let r_list = i & 0xFF;
    let prefetch_addr = regs.get_pc();
    let list = low_list_regs(r_list);
    let n = list.len() as u32;
    let final_base = start.wrapping_add(4 * n) + base_offset;
    let mut xregs = list;
    if r_list == 0 {
        xregs.push(15);
        assert(xregs@ =~= seq![15u32]);
    }
    let ghost xr = xregs@;
    assert(xr == ldm_stm_list(instr));
    if !LOAD {
        let pc = regs.get_pc();
        regs.set_pc(pc.wrapping_add(2));
    }
    let ghost rf0 = regs@;
    let count = xregs.len();
    let mut base = start;
    let mut data: Vec<DataAccess> = Vec::new();
    let mut k: usize = 0;
    while k < count
        invariant
            count == xr.len(),
            xregs@ == xr,
            1 <= xr.len() <= 8,
            forall|a: int| 0 <= a < xr.len() ==> xr[a] < 16,
            k <= count,
            regs.wf(),
            regs@ == ldm_stm_fold(rf0, base_reg, final_base, LOAD, xr, loaded@, k as nat),
            regs@.mode() == rf.mode(),
            base == start.wrapping_add((4 * k) as u32),
            data@ == Seq::new(k as nat, |j: int| DataAccess {
                addr: start.wrapping_add((4 * j) as u32),
                size: 4,
                write: !LOAD,
                value: if LOAD {
                    loaded@[j]
                } else {
                    ldm_stm_fold(rf0, base_reg, final_base, LOAD, xr, loaded@, j as nat).read(reg_from_index(xr[j] as nat))
                },
                access: if LOAD || j < count - 1 { MemoryAccess::S } else { MemoryAccess::N },
            }),
            LOAD ==> loaded@.len() == count,
            base_reg < 8,
        decreases count - k,
    {
        let reg = xregs[k];
        let addr = base;
        base = base.wrapping_add(4);
        if LOAD {
            let value = loaded[k];
            regs.set_reg_i(reg, value);
            data.push(DataAccess { addr, size: 4, write: false, value, access: MemoryAccess::S });
        } else {
            let value = regs.get_reg_i(reg);
            let access = if k + 1 < count { MemoryAccess::S } else { MemoryAccess::N };
            data.push(DataAccess { addr, size: 4, write: true, value, access });
            if k == 0 {
                regs.set_reg_i(base_reg, final_base);
            }
        }
        proof {
            assert(data@ =~= Seq::new((k + 1) as nat, |j: int| DataAccess {
                addr: start.wrapping_add((4 * j) as u32),
                size: 4,
                write: !LOAD,
                value: if LOAD {
                    loaded@[j]
                } else {
                    ldm_stm_fold(rf0, base_reg, final_base, LOAD, xr, loaded@, j as nat).read(reg_from_index(xr[j] as nat))
                },
                access: if LOAD || j < count - 1 { MemoryAccess::S } else { MemoryAccess::N },
            }));
        }
        k += 1;
    }
    if r_list == 0 {
        base = base.wrapping_add(0x3C + base_offset);
    }
    if !LOAD {
        let pc = regs.get_pc();
        regs.set_pc(pc.wrapping_sub(2));
    }
    regs.set_reg_i(base_reg, base + base_offset);
    proof {
        assert(data@ =~= ldm_stm_spec(rf, instr, LOAD, base_reg, loaded@).1);
    }
    BlockBus { prefetch_addr, data, internal_cycle: LOAD, refill: LOAD && r_list == 0 }
}


/// A nonzero low register list has a register.
proof fn lemma_low_list_nonempty(list: u32)
    requires
        list & 0xFF != 0,
    ensures
        list_regs(list, 8).len() > 0,
{
    if list_regs(list, 8).len() == 0 {
        lemma_list_regs_zero(list, 8);
        assert((list >> 0u32) & 1 == 0 && (list >> 1u32) & 1 == 0 && (list >> 2u32) & 1 == 0 && (list >> 3u32) & 1 == 0 && (list >> 4u32) & 1 == 0 && (list >> 5u32) & 1 == 0 && (list >> 6u32) & 1 == 0 && (list >> 7u32) & 1 == 0);
        assert((list >> 0u32) & 1 == 0 && (list >> 1u32) & 1 == 0 && (list >> 2u32) & 1 == 0 && (list >> 3u32) & 1 == 0 && (list >> 4u32) & 1 == 0 && (list >> 5u32) & 1 == 0 && (list >> 6u32) & 1 == 0 && (list >> 7u32) & 1 == 0 ==> list & 0xFF == 0) by (bit_vector);
    }
}


proof fn lemma_pop_fold_same(rf: RegFile, xr: Seq<u32>, vals: Seq<u32>, k: nat)
    requires
        rf.wf(),
        k <= xr.len(),
        k <= vals.len(),
        forall|j: int| 0 <= j < xr.len() ==> xr[j] < 8,
        forall|j: int| 0 <= j < k ==> vals[j] == rf.read(reg_from_index(xr[j] as nat)),
    ensures
        pop_fold(rf, xr, vals, k) == rf,
    decreases k,
{
    if k > 0 {
        let j = (k - 1) as int;
        lemma_pop_fold_same(rf, xr, vals, (k - 1) as nat);
        assert(reg_index(reg_from_index(xr[j] as nat)) == xr[j]);
        lemma_write_same(rf, reg_from_index(xr[j] as nat));
    }
}

/// POP of the registers that a PUSH of the same low registers stored, reading back
/// what it wrote, restores every register and SP, reading the addresses it wrote.
pub proof fn law_push_then_pop(rf: RegFile, list: u16)
    requires
        rf.wf(),
        rf.mode() is Some,
        list <= 0xFF,
        rf.read(Reg::R13) >= 4 * list_regs(list as u32, 8).len(),
    ensures
        ({
            let (rf1, pushed) = push_pop_spec(rf, (0xB400u16 | list) as u16, false, false, Seq::empty());
            let (rf2, popped) = push_pop_spec(rf1, (0xBC00u16 | list) as u16, true, false, access_values(pushed));
            &&& rf2 == rf
            &&& popped.len() == pushed.len()
            &&& forall|k: int| 0 <= k < popped.len() ==> #[trigger] popped[k].addr == pushed[k].addr
        }),
{
    let push = (0xB400u16 | list) as u16;
    let pop = (0xBC00u16 | list) as u16;
    assert(((push as u32) & 0xFFu32) == list as u32 && ((pop as u32) & 0xFFu32) == list as u32) by (bit_vector)
        requires
            list <= 0xFF,
            push == 0xB400u16 | list,
            pop == 0xBC00u16 | list,
    ;
    let xr = list_regs(list as u32, 8);
    lemma_list_regs(list as u32, 8);
    assert(push_pop_list(push, false, false) == xr);
    assert(push_pop_list(pop, true, false) == xr);
    let sp = rf.read(Reg::R13);
    let n = xr.len();
    let new_sp = (sp - 4 * n) as u32;
    let rf1 = rf.write(Reg::R13, new_sp);
    let (r1, pushed) = push_pop_spec(rf, push, false, false, Seq::empty());
    assert(r1 == rf1);
    let vals = access_values(pushed);
    assert forall|j: int| 0 <= j < n implies vals[j] == rf1.read(reg_from_index(xr[j] as nat)) by {}
    assert(rf1.wf());
    lemma_pop_fold_same(rf1, xr, vals, n);
    assert(rf1.read(Reg::R13) == new_sp);
    lemma_write_twice(rf, Reg::R13, new_sp, sp);
    lemma_write_same(rf, Reg::R13);
}


proof fn lemma_result_flags(cpsr: u32, r: u32, c: bool, v: bool)
    ensures
        bit_of(crate::arm::alu::adc_flags(cpsr, r, c, v), 31) == (r >= 0x8000_0000),
        bit_of(crate::arm::alu::adc_flags(cpsr, r, c, v), 30) == (r == 0),
        bit_of(crate::arm::alu::adc_flags(cpsr, r, c, v), 29) == c,
        bit_of(crate::arm::alu::adc_flags(cpsr, r, c, v), 28) == v,
{
    let z = r == 0;
    let n = r & 0x8000_0000u32 != 0;
    assert(n == (r >= 0x8000_0000)) by (bit_vector)
        requires
            n == (r & 0x8000_0000u32 != 0),
    ;
    let f = with_bit(with_bit(with_bit(with_bit(cpsr, 29, c), 30, z), 31, n), 28, v);
    assert(bit_of(f, 31) == n && bit_of(f, 30) == z && bit_of(f, 29) == c && bit_of(f, 28) == v) by (bit_vector)
        requires
            f == with_bit(with_bit(with_bit(with_bit(cpsr, 29, c), 30, z), 31, n), 28, v),
    ;
}

/// After a compare of `a` with `b` (the flags of `a - b`), the conditions read as the
/// comparisons they are named for: EQ `a == b`, NE `a != b`, CS `a >= b`, CC `a < b`,
/// HI `a > b`, LS `a <= b` (unsigned), GE, LT, GT and LE the same on the signed values;
/// and each odd condition below 14 is the negation of the even one before it, for any
/// flags.
pub proof fn law_conditions_after_compare(cpsr: u32, a: u32, b: u32)
    ensures
        ({
            let f = crate::arm::alu::adc_flags(
                cpsr,
                crate::arm::alu::adc_result(a, !b, true),
                crate::arm::alu::adc_carry(a, !b, true),
                crate::arm::alu::adc_overflow(a, !b, true),
            );
            let sa = crate::arm::alu::signed(a);
            let sb = crate::arm::alu::signed(b);
            &&& condition_holds(f, 0) == (a == b)
            &&& condition_holds(f, 1) == (a != b)
            &&& condition_holds(f, 2) == (a >= b)
            &&& condition_holds(f, 3) == (a < b)
            &&& condition_holds(f, 8) == (a > b)
            &&& condition_holds(f, 9) == (a <= b)
            &&& condition_holds(f, 10) == (sa >= sb)
            &&& condition_holds(f, 11) == (sa < sb)
            &&& condition_holds(f, 12) == (sa > sb)
            &&& condition_holds(f, 13) == (sa <= sb)
        }),
        forall|k: u32| k < 7 ==> condition_holds(cpsr, (2 * k + 1) as u32) == !#[trigger] condition_holds(cpsr, (2 * k) as u32),
{
    let r = crate::arm::alu::adc_result(a, !b, true);
    crate::arm::alu::law_sub_semantics(a, b);
    lemma_result_flags(
        cpsr,
        r,
        crate::arm::alu::adc_carry(a, !b, true),
        crate::arm::alu::adc_overflow(a, !b, true),
    );
    let sa = crate::arm::alu::signed(a);
    let sb = crate::arm::alu::signed(b);
    let m: int = 0x1_0000_0000;
    // The difference of the signed values agrees with `a - b` modulo 2^32.
    assert((a - b) == (sa - sb) + m * ((if a >= 0x8000_0000 { 1int } else { 0 }) - (if b >= 0x8000_0000 { 1int } else { 0 })));
    vstd::arithmetic::div_mod::lemma_mod_multiples_vanish(
        (if a >= 0x8000_0000 { 1int } else { 0 }) - (if b >= 0x8000_0000 { 1int } else { 0 }),
        sa - sb,
        m,
    );
    let d = sa - sb;
    if d >= 0 && d < m {
        vstd::arithmetic::div_mod::lemma_small_mod(d as nat, m as nat);
    } else if d < 0 && d >= -m {
        vstd::arithmetic::div_mod::lemma_mod_add_multiples_vanish(d, m);
        vstd::arithmetic::div_mod::lemma_small_mod((d + m) as nat, m as nat);
    }
    assert forall|k: u32| k < 7 implies condition_holds(cpsr, (2 * k + 1) as u32) == !#[trigger] condition_holds(cpsr, (2 * k) as u32) by {
        if k == 0 {} else if k == 1 {} else if k == 2 {} else if k == 3 {} else if k == 4 {} else if k == 5 {} else {}
    }
}

} // verus!
