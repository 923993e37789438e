use vstd::prelude::*;
use crate::arm::alu::{
    adc, add_op, adc_carry, adc_flags, adc_overflow, adc_result, add_flags, barrel_shift, rotate_right, rotr,
    sbc, shifter_carry, shifter_result, signed_add_overflows, sub_op, with_shift_carry,
};
use crate::arm::registers::{bit_of, mode_of_bits, reg_from_index, with_bit, Mode, Reg, RegFile, Registers};

verus! {

/// Bus work of a data processing instruction, after its register effects.
#[derive(Clone, Copy, Debug, PartialEq, Eq, Structural)]
pub struct DataProcBus {
    /// A shift by a register amount took an internal cycle.
    pub internal_cycle: bool,
    /// Address of the instruction prefetch.
    pub prefetch_addr: u32,
    /// The prefetch asks for a nonsequential access next (a write to the PC);
    /// otherwise for a sequential one.
    pub prefetch_nonseq: bool,
    /// The PC was written: the pipeline is refilled from the new PC.
    pub refill: bool,
}

/// The sixteen data processing operations, in opcode order.
#[derive(PartialEq, Eq, Structural, Clone, Copy, Debug)]
pub enum DataOp {
    And,
    Eor,
    Sub,
    Rsb,
    Add,
    Adc,
    Sbc,
    Rsc,
    Tst,
    Teq,
    Cmp,
    Cmn,
    Orr,
    Mov,
    Bic,
    Mvn,
}

/// Opcode (bits 21 to 24) and destination register (bits 12 to 15).
pub open spec fn dp_opcode(instr: u32) -> u32 {
    (instr >> 21u32) & 0xF
}

pub open spec fn dp_dest(instr: u32) -> u32 {
    (instr >> 12u32) & 0xF
}

/// Register `i` (below 16) of a register file.
pub open spec fn reg_i(rf: RegFile, i: u32) -> u32 {
    rf.read(reg_from_index(i as nat))
}

/// The second operand and the register file after the shifter: an 8-bit immediate
/// rotated right by twice bits 8 to 11, or register bits 0 to 3 shifted by an
/// immediate amount or by the low byte of register bits 8 to 11 (during which the PC
/// reads 4 further on). Returns the file, the operand and whether the shift was by a
/// register.
pub open spec fn dp_operand2(rf: RegFile, instr: u32, imm: bool, cs: bool) -> (RegFile, u32, bool) {
    let opcode = dp_opcode(instr);
    if imm {
        let shift = (instr >> 8u32) & 0xF;
        let operand = instr & 0xFF;
        if (opcode < 5 || opcode > 7) && shift != 0 {
            let c = bit_of(rf.cpsr, 29);
            (
                with_shift_carry(rf, cs, shifter_carry(3, operand, (shift * 2) as u32, true, c)),
                shifter_result(3, operand, (shift * 2) as u32, true, c),
                false,
            )
        } else {
            (rf, rotr(operand, (shift * 2) as u32), false)
        }
    } else {
        let by_reg = (instr >> 4u32) & 1 != 0;
        let amount = if by_reg { reg_i(rf, (instr >> 8u32) & 0xF) & 0xFF } else { (instr >> 7u32) & 0x1F };
        let rf0 = if by_reg { RegFile { pc: rf.pc.wrapping_add(4), ..rf } } else { rf };
        let operand = reg_i(rf0, instr & 0xF);
        let st = (instr >> 5u32) & 3;
        let c = bit_of(rf0.cpsr, 29);
        let cs2 = cs && (opcode < 5 || opcode > 7);
        (
            with_shift_carry(rf0, cs2, shifter_carry(st, operand, amount, !by_reg, c)),
            shifter_result(st, operand, amount, !by_reg, c),
            by_reg,
        )
    }
}

/// The result of the ALU operation `opcode` and the register file after it: logical
/// operations leave the flags, arithmetic ones set C, V, Z, N when `cs` holds.
pub open spec fn dp_alu(rf: RegFile, opcode: u32, op1: u32, op2: u32, cs: bool) -> (RegFile, u32) {
    let c = bit_of(rf.cpsr, 29);
    let minus = |a: u32, b: u32| {
        let r = adc_result(a, !b, true);
        (if cs { RegFile { cpsr: adc_flags(rf.cpsr, r, adc_carry(a, !b, true), adc_overflow(a, !b, true)), ..rf } } else { rf }, r)
    };
    let minus_c = |a: u32, b: u32| {
        let r = adc_result(a, !b, c);
        (if cs { RegFile { cpsr: adc_flags(rf.cpsr, r, adc_carry(a, !b, c), adc_overflow(a, !b, c)), ..rf } } else { rf }, r)
    };
    if opcode == 0 || opcode == 8 {
        (rf, op1 & op2)
    } else if opcode == 1 || opcode == 9 {
        (rf, op1 ^ op2)
    } else if opcode == 2 || opcode == 0xA {
        minus(op1, op2)
    } else if opcode == 3 {
        minus(op2, op1)
    } else if opcode == 4 || opcode == 0xB {
        let r = adc_result(op1, op2, false);
        (if cs { RegFile { cpsr: add_flags(rf.cpsr, r, adc_carry(op1, op2, false), signed_add_overflows(op1, op2)), ..rf } } else { rf }, r)
    } else if opcode == 5 {
        let r = adc_result(op1, op2, c);
        (if cs { RegFile { cpsr: adc_flags(rf.cpsr, r, adc_carry(op1, op2, c), adc_overflow(op1, op2, c)), ..rf } } else { rf }, r)
    } else if opcode == 6 {
        minus_c(op1, op2)
    } else if opcode == 7 {
        minus_c(op2, op1)
    } else if opcode == 0xC {
        (rf, op1 | op2)
    } else if opcode == 0xD {
        (rf, op2)
    } else if opcode == 0xE {
        (rf, op1 & !op2)
    } else {
        (rf, !op2)
    }
}

/// Whether the data processing instruction can be carried out: a register shift
/// amount has bit 7 clear, an instruction without S is no test, a restored status has
/// a valid mode, and a write to the PC stays in ARM state.
pub open spec fn data_proc_ok(rf: RegFile, instr: u32, imm: bool, set: bool) -> bool {
    let opcode = dp_opcode(instr);
    let dest = dp_dest(instr);
    &&& !imm && (instr >> 4u32) & 1 != 0 ==> (instr >> 7u32) & 1 == 0
    &&& !set ==> opcode & 0xC != 8
    &&& dest == 15 && set ==> rf.write(Reg::Cpsr, rf.read(Reg::Spsr)).mode() is Some
    &&& dest == 15 && opcode & 0xC != 8 ==> !bit_of(if set { rf.read(Reg::Spsr) } else { rf.cpsr }, 5)
}

/// The register file and the bus work after a data processing instruction: the
/// operands go through the shifter and the ALU, S sets Z and N (or, with the PC as
/// destination, restores the CPSR from the SPSR), and every operation but the tests
/// writes its result, to the PC with a pipeline refill.
pub open spec fn data_proc_spec(rf: RegFile, instr: u32, imm: bool, set: bool) -> (RegFile, DataProcBus) {
    let opcode = dp_opcode(instr);
    let dest = dp_dest(instr);
    let cs = set && dest != 15;
    let special = set && dest == 15;
    let (rf1, op2, by_reg) = dp_operand2(rf, instr, imm, cs);
    let op1 = reg_i(rf1, (instr >> 16u32) & 0xF);
    let (rf2, result) = dp_alu(rf1, opcode, op1, op2, cs);
    let rf3 = if cs {
        RegFile { cpsr: with_bit(with_bit(rf2.cpsr, 30, result == 0), 31, result & 0x8000_0000 != 0), ..rf2 }
    } else if special {
        rf2.write(Reg::Cpsr, rf2.read(Reg::Spsr))
    } else {
        rf2
    };
    if opcode & 0xC != 8 && dest == 15 {
        (
            RegFile { pc: result, ..rf3 },
            DataProcBus { internal_cycle: by_reg, prefetch_addr: rf3.pc, prefetch_nonseq: true, refill: true },
        )
    } else {
        let rf4 = if opcode & 0xC != 8 { rf3.write(reg_from_index(dest as nat), result) } else { rf3 };
        let rf5 = if by_reg { RegFile { pc: rf4.pc.wrapping_sub(4), ..rf4 } } else { rf4 };
        (rf5, DataProcBus { internal_cycle: by_reg, prefetch_addr: rf5.pc, prefetch_nonseq: false, refill: false })
    }
}

proof fn lemma_instr_fields(instr: u32)
    by (bit_vector)
    ensures
        (instr >> 8u32) & 0xFu32 < 16,
        (instr >> 12u32) & 0xFu32 < 16,
        (instr >> 16u32) & 0xFu32 < 16,
        (instr >> 21u32) & 0xFu32 < 16,
        instr & 0xFu32 < 16,
        (instr >> 5u32) & 0x3u32 < 4,
        (instr >> 7u32) & 0x1Fu32 < 32,
        instr & 0xFFu32 < 256,
{
}

/// Executes an ARM data processing instruction (AND to MVN) on the registers,
/// `IMM` for an immediate operand and `SET` for the S bit; returns the bus work that
/// follows.
#[verifier::spinoff_prover]
#[verifier::rlimit(40)]
pub fn data_proc<const IMM: bool, const SET: bool>(regs: &mut Registers, instr: u32) -> (r: DataProcBus)
    requires
        old(regs).wf(),
        data_proc_ok(old(regs)@, instr, IMM, SET),
    ensures
        final(regs).wf(),
        (final(regs)@, r) == data_proc_spec(old(regs)@, instr, IMM, SET),
{
    let ghost rf = regs@;
    proof {
        regs.lemma_view();
        lemma_instr_fields(instr);
    }
    let mut temp_inc_pc = false;
    let opcode = (instr >> 21) & 0xF;
    let dest_reg = (instr >> 12) & 0xF;
    let (change_status, special_change_status) = if dest_reg == 15 && SET { (false, true) } else { (SET, false) };
    let op2 = if IMM {
        let shift = (instr >> 8) & 0xF;
        let operand = instr & 0xFF;
        if (opcode < 0x5 || opcode > 0x7) && shift != 0 {
            barrel_shift(regs, 3, operand, shift * 2, true, change_status).0
        } else {
            rotate_right(operand, shift * 2)
        }
    } else {
        let shift_by_reg = (instr >> 4) & 0x1 != 0;
        let shift = if shift_by_reg {
            let shift = regs.get_reg_i((instr >> 8) & 0xF) & 0xFF;
            let pc = regs.get_pc();
            regs.set_pc(pc.wrapping_add(4));
            temp_inc_pc = true;
            shift
        } else {
            (instr >> 7) & 0x1F
        };
        let shift_type = (instr >> 5) & 0x3;
        let op2 = regs.get_reg_i(instr & 0xF);
        barrel_shift(regs, shift_type, op2, shift, !shift_by_reg, change_status && (opcode < 0x5 || opcode > 0x7)).0
    };
    let ghost rf1 = regs@;
    let op1 = regs.get_reg_i((instr >> 16) & 0xF);
    let result = if opcode == 0x0 || opcode == 0x8 {
        op1 & op2
    } else if opcode == 0x1 || opcode == 0x9 {
        op1 ^ op2
    } else if opcode == 0x2 || opcode == 0xA {
        sub_op(regs, op1, op2, change_status)
    } else if opcode == 0x3 {
        sub_op(regs, op2, op1, change_status)
    } else if opcode == 0x4 || opcode == 0xB {
        add_op(regs, op1, op2, change_status)
    } else if opcode == 0x5 {
        adc(regs, op1, op2, change_status)
    } else if opcode == 0x6 {
        sbc(regs, op1, op2, change_status)
    } else if opcode == 0x7 {
        sbc(regs, op2, op1, change_status)
    } else if opcode == 0xC {
        op1 | op2
    } else if opcode == 0xD {
        op2
    } else if opcode == 0xE {
        op1 & !op2
    } else {
        !op2
    };
    assert((regs@, result) == dp_alu(rf1, opcode, op1, op2, change_status));
    if change_status {
        regs.set_z(result == 0);
        regs.set_n(result & 0x8000_0000 != 0);
    } else if special_change_status {
        let spsr = regs.get_reg(Reg::Spsr);
        regs.set_reg(Reg::Cpsr, spsr);
    }
    proof {
        regs.lemma_view();
    }
    if opcode & 0xC != 0x8 {
        if dest_reg == 15 {
            let prefetch_addr = regs.get_pc();
            regs.set_pc(result);
            return DataProcBus { internal_cycle: temp_inc_pc, prefetch_addr, prefetch_nonseq: true, refill: true };
        } else {
            regs.set_reg_i(dest_reg, result);
        }
    }
    proof {
        regs.lemma_view();
    }
    if temp_inc_pc {
        let pc = regs.get_pc();
        regs.set_pc(pc.wrapping_sub(4));
    }
    let prefetch_addr = regs.get_pc();
    DataProcBus { internal_cycle: temp_inc_pc, prefetch_addr, prefetch_nonseq: false, refill: false }
}


/// The two fetches that refill the ARM pipeline and the PC after them: the PC is
/// word-aligned, then moves one word on.
pub open spec fn arm_refill(pc: u32) -> (u32, u32, u32) {
    let a = pc & !3u32;
    (a, a.wrapping_add(4) & !3u32, a.wrapping_add(4))
}

/// Refills the ARM pipeline after a jump: aligns the PC and steps it past the first
/// fetch. Returns the addresses of the two sequential fetches.
pub fn fill_arm_instr_buffer(regs: &mut Registers) -> (r: (u32, u32))
    ensures
        final(regs)@ == (RegFile { pc: arm_refill(old(regs)@.pc).2, ..old(regs)@ }),
        r == (arm_refill(old(regs)@.pc).0, arm_refill(old(regs)@.pc).1),
{
    let pc = regs.get_pc() & !0x3;
    regs.set_pc(pc);
    let first = pc & !0x3;
    proof {
        crate::bits::lemma_u32_bits(old(regs)@.pc, 0);
    }
    let pc = pc.wrapping_add(4);
    regs.set_pc(pc);
    proof {
        crate::bits::lemma_u32_bits(pc, 0);
    }
    (first, pc & !0x3)
}

/// The 24-bit offset of B and BL, sign-extended.
pub open spec fn branch_offset(instr: u32) -> u32 {
    let offset = instr & 0xFF_FFFF;
    if (offset >> 23u32) == 1 { 0xFF00_0000 | offset } else { offset }
}

/// The register file and bus work of B or BL: BL saves the address of the next
/// instruction in R14, and the PC moves by four times the offset, with a refill.
pub open spec fn branch_spec(rf: RegFile, instr: u32, link: bool) -> (RegFile, DataProcBus) {
    let rf1 = if link { rf.write(Reg::R14, rf.pc.wrapping_sub(4)) } else { rf };
    (
        RegFile { pc: rf.pc.wrapping_add(branch_offset(instr) << 2u32), ..rf1 },
        DataProcBus { internal_cycle: false, prefetch_addr: rf.pc, prefetch_nonseq: true, refill: true },
    )
}

/// Executes B or BL (`LINK`) on the registers; returns the bus work that follows.
pub fn branch_branch_with_link<const LINK: bool>(regs: &mut Registers, instr: u32) -> (r: DataProcBus)
    requires
        old(regs).wf(),
    ensures
        final(regs).wf(),
        (final(regs)@, r) == branch_spec(old(regs)@, instr, LINK),
{
    let offset = instr & 0xFF_FFFF;
    let offset = if (offset >> 23) == 1 { 0xFF00_0000 | offset } else { offset };
    let prefetch_addr = regs.get_pc();
    if LINK {
        regs.set_reg(Reg::R14, prefetch_addr.wrapping_sub(4));
    }
    regs.set_pc(prefetch_addr.wrapping_add(offset << 2));
    DataProcBus { internal_cycle: false, prefetch_addr, prefetch_nonseq: true, refill: true }
}

/// The field mask of MSR: flags (bit 19), status (18), extension (17) and, outside
/// user mode, control (16).
pub open spec fn msr_mask(instr: u32, user: bool) -> u32 {
    (if (instr >> 19u32) & 1 != 0 { 0xFF00_0000u32 } else { 0 })
        | (if (instr >> 18u32) & 1 != 0 { 0x00FF_0000u32 } else { 0 })
        | (if (instr >> 17u32) & 1 != 0 { 0x0000_FF00u32 } else { 0 })
        | (if !user && (instr >> 16u32) & 1 != 0 { 0x0000_00FFu32 } else { 0 })
}

/// The operand of MSR: an 8-bit immediate rotated right by twice bits 8 to 11, or
/// register bits 0 to 3.
pub open spec fn msr_operand(rf: RegFile, instr: u32, imm: bool) -> u32 {
    if imm { crate::arm::alu::rotr(instr & 0xFF, (((instr >> 8u32) & 0xF) * 2) as u32) } else { reg_i(rf, instr & 0xF) }
}

/// The value MSR gives the status register: the masked fields from the operand, the
/// others kept.
pub open spec fn msr_value(rf: RegFile, instr: u32, imm: bool, spsr: bool) -> u32 {
    let status = if spsr { Reg::Spsr } else { Reg::Cpsr };
    let mask = msr_mask(instr, rf.mode() == Some(Mode::User));
    rf.read(status) & !mask | msr_operand(rf, instr, imm) & mask
}

/// Whether MRS or MSR (`msr`) can be carried out: the fixed bits hold their values, MRS
/// has no immediate and its low twelve bits clear, MSR has bits 12 to 15 set and a
/// register operand with bits 4 to 11 clear, and a CPSR written by MSR keeps a valid
/// mode.
pub open spec fn psr_ok(rf: RegFile, instr: u32, imm: bool, spsr: bool, msr: bool) -> bool {
    &&& (instr >> 26u32) & 3 == 0
    &&& (instr >> 23u32) & 3 == 2
    &&& (instr >> 20u32) & 1 == 0
    &&& msr ==> (instr >> 12u32) & 0xF == 0xF
    &&& msr && !imm ==> (instr >> 4u32) & 0xFF == 0
    &&& msr && !spsr ==> mode_of_bits(msr_value(rf, instr, imm, spsr) & 0x1F) is Some
    &&& !msr ==> !imm && instr & 0xFFF == 0
}

/// The register file and bus work of MRS (copy the CPSR or SPSR into Rd) or MSR (write
/// the masked fields of the CPSR or SPSR).
pub open spec fn psr_spec(rf: RegFile, instr: u32, imm: bool, spsr: bool, msr: bool) -> (RegFile, DataProcBus) {
    let status = if spsr { Reg::Spsr } else { Reg::Cpsr };
    let rf1 = if msr {
        rf.write(status, msr_value(rf, instr, imm, spsr))
    } else {
        rf.write(reg_from_index(dp_dest(instr) as nat), rf.read(status))
    };
    (rf1, DataProcBus { internal_cycle: false, prefetch_addr: rf.pc, prefetch_nonseq: false, refill: false })
}

/// Executes MRS or MSR (`L`) on the CPSR, or the SPSR with `P`; returns the bus work.
pub fn psr_transfer<const IMM: bool, const P: bool, const L: bool>(regs: &mut Registers, instr: u32) -> (r: DataProcBus)
    requires
        old(regs).wf(),
        psr_ok(old(regs)@, instr, IMM, P, L),
    ensures
        final(regs).wf(),
        (final(regs)@, r) == psr_spec(old(regs)@, instr, IMM, P, L),
{
    proof {
        lemma_instr_fields(instr);
        regs.lemma_view();
    }
    let status_reg = if P { Reg::Spsr } else { Reg::Cpsr };
    let prefetch_addr = regs.get_pc();
    if L {
        let user = regs.get_mode() == Mode::User;
        let flags = if instr >> 19 & 0x1 != 0 { 0xFF00_0000u32 } else { 0 };
        let status = if instr >> 18 & 0x1 != 0 { 0x00FF_0000u32 } else { 0 };
        let extension = if instr >> 17 & 0x1 != 0 { 0x0000_FF00u32 } else { 0 };
        let control = if !user && instr >> 16 & 0x1 != 0 { 0x0000_00FFu32 } else { 0 };
        let mask = flags | status | extension | control;
        let operand = if IMM {
            let shift = instr >> 8 & 0xF;
            crate::arm::alu::rotate_right(instr & 0xFF, shift * 2)
        } else {
            regs.get_reg_i(instr & 0xF)
        };
        let value = regs.get_reg(status_reg) & !mask | operand & mask;
        regs.set_reg(status_reg, value);
    } else {
        let value = regs.get_reg(status_reg);
        regs.set_reg_i(instr >> 12 & 0xF, value);
    }
    proof {
        regs.lemma_view();
    }
    DataProcBus { internal_cycle: false, prefetch_addr, prefetch_nonseq: false, refill: false }
}


/// The register file and bus work of taking an interrupt: enter IRQ mode (saving the
/// CPSR), put the return address (the next instruction plus 4) in R14, enter ARM state
/// with IRQs disabled and jump to the vector at 0x18; the fetch at the PC is made and
/// dropped, then the pipeline is refilled.
pub open spec fn irq_spec(rf: RegFile) -> (RegFile, DataProcBus) {
    let rf1 = rf.enter_mode(Mode::Irq);
    let lr = if bit_of(rf.cpsr, 5) { rf.pc.wrapping_sub(2).wrapping_add(4) } else { rf.pc.wrapping_sub(4).wrapping_add(4) };
    let rf2 = rf1.write(Reg::R14, lr);
    (
        RegFile { cpsr: with_bit(with_bit(rf2.cpsr, 5, false), 7, true), pc: 0x18, ..rf2 },
        DataProcBus { internal_cycle: false, prefetch_addr: rf.pc, prefetch_nonseq: true, refill: true },
    )
}

/// Takes an interrupt when one is requested and IRQs are enabled (the I bit clear);
/// returns the bus work, or `None` and leaves the registers when none is taken.
pub fn handle_irq(regs: &mut Registers, requested: bool) -> (r: Option<DataProcBus>)
    requires
        old(regs).wf(),
    ensures
        final(regs).wf(),
        bit_of(old(regs)@.cpsr, 7) || !requested ==> r is None && final(regs)@ == old(regs)@,
        !bit_of(old(regs)@.cpsr, 7) && requested ==> r == Some(irq_spec(old(regs)@).1) && final(regs)@ == irq_spec(old(regs)@).0,
{
    if regs.get_i() || !requested {
        return None;
    }
    let thumb = regs.get_t();
    let pc = regs.get_pc();
    regs.change_mode(Mode::Irq);
    let lr = if thumb { pc.wrapping_sub(2).wrapping_add(4) } else { pc.wrapping_sub(4).wrapping_add(4) };
    regs.set_reg(Reg::R14, lr);
    regs.set_t(false);
    regs.set_i(true);
    regs.set_pc(0x18);
    Some(DataProcBus { internal_cycle: false, prefetch_addr: pc, prefetch_nonseq: true, refill: true })
}


proof fn lemma_not_is_complement(b: u32)
    ensures
        !b == 0xFFFF_FFFFu32 - b,
{
    assert(!b == 0xFFFF_FFFFu32 - b) by (bit_vector);
}

proof fn lemma_flags_carry(cpsr: u32, r: u32, c: bool, v: bool)
    ensures
        bit_of(adc_flags(cpsr, r, c, v), 29) == c,
        bit_of(add_flags(cpsr, r, c, v), 29) == c,
{
    let z = r == 0;
    let n = r & 0x8000_0000u32 != 0;
    assert(bit_of(with_bit(with_bit(with_bit(with_bit(cpsr, 29, c), 30, z), 31, n), 28, v), 29) == c) by (bit_vector);
    assert(bit_of(with_bit(with_bit(with_bit(with_bit(cpsr, 29, c), 28, v), 30, z), 31, n), 29) == c) by (bit_vector);
}

/// `a + b + c` as the adder computes it, with `b` inverted: `a - b - 1 + c` modulo 2^32.
proof fn lemma_adc_inverted(a: u32, b: u32, c: bool)
    ensures
        adc_result(a, !b, c) as int == (a - b - 1 + (if c { 1int } else { 0int })) % 0x1_0000_0000,
{
    lemma_not_is_complement(b);
    let k: int = if c { 1int } else { 0int };
    assert(a + (!b) + k == 0x1_0000_0000 + (a - b - 1 + k));
    vstd::arithmetic::div_mod::lemma_mod_add_multiples_vanish(a - b - 1 + k, 0x1_0000_0000);
}

/// The arithmetic of the data processing operations on `Rn = a` and `Operand2 = b`,
/// modulo 2^32, with `C` the carry flag before the instruction: SUB and CMP give
/// `a - b`, RSB gives `b - a`, ADD and CMN `a + b`, ADC `a + b + C`, SBC `a - b - 1 + C`
/// and RSC `b - a - 1 + C`. With the flags written, the carry of SUB, CMP and RSB is
/// "no borrow" (the minuend is at least the subtrahend), and that of ADD and CMN is the
/// unsigned overflow.
pub proof fn law_dp_arithmetic(rf: RegFile, opcode: u32, a: u32, b: u32, cs: bool)
    ensures
        ({
            let c: int = if bit_of(rf.cpsr, 29) { 1int } else { 0int };
            let (rf2, r) = dp_alu(rf, opcode, a, b, cs);
            &&& (opcode == 2 || opcode == 0xA) ==> r as int == (a - b) % 0x1_0000_0000
            &&& opcode == 3 ==> r as int == (b - a) % 0x1_0000_0000
            &&& (opcode == 4 || opcode == 0xB) ==> r as int == (a + b) % 0x1_0000_0000
            &&& opcode == 5 ==> r as int == (a + b + c) % 0x1_0000_0000
            &&& opcode == 6 ==> r as int == (a - b - 1 + c) % 0x1_0000_0000
            &&& opcode == 7 ==> r as int == (b - a - 1 + c) % 0x1_0000_0000
            &&& cs && (opcode == 2 || opcode == 0xA) ==> bit_of(rf2.cpsr, 29) == (a >= b)
            &&& cs && opcode == 3 ==> bit_of(rf2.cpsr, 29) == (b >= a)
            &&& cs && (opcode == 4 || opcode == 0xB) ==> bit_of(rf2.cpsr, 29) == (a + b >= 0x1_0000_0000)
            &&& cs && opcode == 5 ==> bit_of(rf2.cpsr, 29) == (a + b + c >= 0x1_0000_0000)
            &&& cs && opcode == 6 ==> bit_of(rf2.cpsr, 29) == (a - b - 1 + c >= 0)
            &&& cs && opcode == 7 ==> bit_of(rf2.cpsr, 29) == (b - a - 1 + c >= 0)
        }),
{
    let cb = bit_of(rf.cpsr, 29);
    crate::arm::alu::law_sub_semantics(a, b);
    crate::arm::alu::law_sub_semantics(b, a);
    crate::arm::alu::law_adc_overflow(a, b, false);
    lemma_adc_inverted(a, b, cb);
    lemma_adc_inverted(b, a, cb);
    lemma_flags_carry(rf.cpsr, adc_result(a, !b, true), adc_carry(a, !b, true), adc_overflow(a, !b, true));
    lemma_flags_carry(rf.cpsr, adc_result(b, !a, true), adc_carry(b, !a, true), adc_overflow(b, !a, true));
    lemma_flags_carry(rf.cpsr, adc_result(a, b, false), adc_carry(a, b, false), signed_add_overflows(a, b));
    lemma_flags_carry(rf.cpsr, adc_result(a, b, cb), adc_carry(a, b, cb), adc_overflow(a, b, cb));
    lemma_flags_carry(rf.cpsr, adc_result(a, !b, cb), adc_carry(a, !b, cb), adc_overflow(a, !b, cb));
    lemma_flags_carry(rf.cpsr, adc_result(b, !a, cb), adc_carry(b, !a, cb), adc_overflow(b, !a, cb));
    lemma_not_is_complement(a);
    lemma_not_is_complement(b);
}

/// The logical operations of data processing on `Rn = a` and `Operand2 = b`: AND and
/// TST give `a & b`, EOR and TEQ `a ^ b`, ORR `a | b`, MOV `b`, BIC `a & !b`, MVN `!b`;
/// none of them changes the register file (the shifter sets their carry).
pub proof fn law_dp_logical(rf: RegFile, opcode: u32, a: u32, b: u32, cs: bool)
    ensures
        ({
            let (rf2, r) = dp_alu(rf, opcode, a, b, cs);
            &&& (opcode == 0 || opcode == 8) ==> r == a & b && rf2 == rf
            &&& (opcode == 1 || opcode == 9) ==> r == a ^ b && rf2 == rf
            &&& opcode == 0xC ==> r == a | b && rf2 == rf
            &&& opcode == 0xD ==> r == b && rf2 == rf
            &&& opcode == 0xE ==> r == a & !b && rf2 == rf
            &&& opcode == 0xF ==> r == !b && rf2 == rf
        }),
{
}

} // verus!
