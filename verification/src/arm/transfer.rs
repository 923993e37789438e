use vstd::prelude::*;
use crate::arm::alu::{barrel_shift, rotr, shifter_result};
use crate::arm::arm::reg_i;
use crate::arm::registers::{
    bit_of, law_read_after_write, law_write_preserves_others, lemma_write_same, lemma_write_twice, mode_bits, reg_from_index,
    reg_index, with_low5, Mode, RegFile, Registers,
};
use crate::io::MemoryAccess;

verus! {

/// One data access of a load or store: the address the bus sees, its size in bytes,
/// whether it writes (and what), and the access kind that it sets for the bus access
/// after it.
#[derive(Clone, Copy, Debug, PartialEq, Eq, Structural)]
pub struct DataAccess {
    pub addr: u32,
    pub size: u32,
    pub write: bool,
    /// The value written; for a read, the value that the bus returned.
    pub value: u32,
    pub access: MemoryAccess,
}

/// Bus work of a single load or store instruction.
#[derive(Clone, Copy, Debug, PartialEq, Eq, Structural)]
pub struct TransferBus {
    /// Address of the prefetch of the next instruction, made first; it sets a
    /// nonsequential kind for the access after it.
    pub prefetch_addr: u32,
    /// The data access.
    pub data: DataAccess,
    /// A load ends with an internal cycle, after which the next access is
    /// nonsequential.
    pub internal_cycle: bool,
    /// The PC was loaded: the pipeline is refilled from the new PC.
    pub refill: bool,
}

/// Base register (bits 16 to 19) and source or destination register (bits 12 to 15).
pub open spec fn xfer_base(instr: u32) -> u32 {
    (instr >> 16u32) & 0xF
}

pub open spec fn xfer_rd(instr: u32) -> u32 {
    (instr >> 12u32) & 0xF
}

/// The offset of LDR and STR: a 12-bit immediate, or register bits 0 to 3 shifted by
/// an immediate amount.
pub open spec fn sdt_offset(rf: RegFile, instr: u32, shifted: bool) -> u32 {
    if shifted {
        shifter_result((instr >> 5u32) & 3, reg_i(rf, instr & 0xF), (instr >> 7u32) & 0x1F, true, bit_of(rf.cpsr, 29))
    } else {
        instr & 0xFFF
    }
}

/// The base with the offset added or subtracted.
pub open spec fn offset_base(base: u32, offset: u32, add: bool) -> u32 {
    if add { base.wrapping_add(offset) } else { base.wrapping_sub(offset) }
}

/// The address of the transfer: the offset base before the access (pre-indexed) or
/// the base itself (post-indexed).
pub open spec fn sdt_address(rf: RegFile, instr: u32, shifted: bool, pre: bool, add: bool) -> u32 {
    let base = reg_i(rf, xfer_base(instr));
    if pre { offset_base(base, sdt_offset(rf, instr, shifted), add) } else { base }
}

/// Whether an LDR or STR can be carried out: bits 26 and 27 hold 01, a register
/// offset has bit 4 clear and is not the PC, and a post-indexed transfer does not
/// ask for a user-mode access (bit 21).
pub open spec fn sdt_ok(instr: u32, shifted: bool, pre: bool) -> bool {
    &&& (instr >> 26u32) & 3 == 1
    &&& shifted ==> (instr >> 4u32) & 1 == 0 && instr & 0xF != 15
    &&& !pre ==> (instr >> 21u32) & 1 == 0
}

/// The register file and the bus work of LDR or STR (bit 20 for a load): a word load
/// reads the aligned word and rotates it by the low address bits, a byte load takes
/// the low byte of `loaded`; a store writes Rd (the PC plus 4 for R15). The offset
/// base is written back when post-indexed or with W, except by a load into the base.
pub open spec fn sdt_spec(
    rf: RegFile,
    instr: u32,
    shifted: bool,
    pre: bool,
    add: bool,
    byte: bool,
    wb: bool,
    loaded: u32,
) -> (RegFile, TransferBus) {
    let load = (instr >> 20u32) & 1 != 0;
    let rn = xfer_base(instr);
    let rd = xfer_rd(instr);
    let base = reg_i(rf, rn);
    let target = offset_base(base, sdt_offset(rf, instr, shifted), add);
    let addr = if pre { target } else { base };
    let bus_addr = if byte { addr } else { addr & !3u32 };
    let size: u32 = if byte { 1 } else { 4 };
    if load {
        let value = if byte { loaded & 0xFF } else { rotr(loaded, ((addr & 3) * 8) as u32) };
        let rf1 = rf.write(reg_from_index(rd as nat), value);
        let rf2 = if (wb || !pre) && rd != rn { rf1.write(reg_from_index(rn as nat), target) } else { rf1 };
        let access = if rd == 15 { MemoryAccess::N } else { MemoryAccess::S };
        (rf2, TransferBus {
            prefetch_addr: rf.pc,
            data: DataAccess { addr: bus_addr, size, write: false, value: loaded, access },
            internal_cycle: true,
            refill: rd == 15,
        })
    } else {
        let v = reg_i(rf, rd);
        let v1 = if rd == 15 { v.wrapping_add(4) } else { v };
        let stored = if byte { v1 & 0xFF } else { v1 };
        let rf2 = if wb || !pre { rf.write(reg_from_index(rn as nat), target) } else { rf };
        (rf2, TransferBus {
            prefetch_addr: rf.pc,
            data: DataAccess { addr: bus_addr, size, write: true, value: stored, access: MemoryAccess::N },
            internal_cycle: false,
            refill: false,
        })
    }
}

proof fn lemma_xfer_fields(instr: u32)
    by (bit_vector)
    ensures
        (instr >> 16u32) & 0xFu32 < 16,
        (instr >> 12u32) & 0xFu32 < 16,
        instr & 0xFu32 < 16,
        (instr >> 5u32) & 0x3u32 < 4,
        (instr >> 7u32) & 0x1Fu32 < 32,
        (instr >> 8u32) & 0xFu32 < 16,
{
}

/// The offset of LDR and STR, computed on a copy of the registers (the shifter sets no
/// flag here).
fn sdt_offset_exec(regs: &Registers, instr: u32, shifted: bool) -> (r: u32)
    requires
        regs.wf(),
    ensures
        r == sdt_offset(regs@, instr, shifted),
{
    proof {
        lemma_xfer_fields(instr);
    }
    if shifted {
        let shift = (instr >> 7) & 0x1F;
        let shift_type = (instr >> 5) & 0x3;
        let operand = regs.get_reg_i(instr & 0xF);
        let mut scratch = *regs;
        barrel_shift(&mut scratch, shift_type, operand, shift, true, false).0
    } else {
        instr & 0xFFF
    }
}

/// Executes LDR or STR on the registers. For a load, `loaded` is what the bus returned
/// for the data access (the aligned word, or the byte in its low bits); a store ignores
/// it. Returns the bus work.
pub fn single_data_transfer<
    const SHIFTED_REG_OFFSET: bool,
    const PRE_OFFSET: bool,
    const ADD_OFFSET: bool,
    const TRANSFER_BYTE: bool,
    const WRITEBACK: bool,
    const L: bool,
>(regs: &mut Registers, instr: u32, loaded: u32) -> (r: TransferBus)
    requires
        old(regs).wf(),
        sdt_ok(instr, SHIFTED_REG_OFFSET, PRE_OFFSET),
    ensures
        final(regs).wf(),
        (final(regs)@, r) == sdt_spec(
            old(regs)@,
            instr,
            SHIFTED_REG_OFFSET,
            PRE_OFFSET,
            ADD_OFFSET,
            TRANSFER_BYTE,
            WRITEBACK,
            loaded,
        ),
{
    proof {
        lemma_xfer_fields(instr);
        regs.lemma_view();
    }
    let ghost rf = regs@;
    let mut write_back = WRITEBACK || !PRE_OFFSET;
    let load = instr >> 20 & 0x1 != 0;
    let base_reg = instr >> 16 & 0xF;
    let base = regs.get_reg_i(base_reg);
    let src_dest_reg = instr >> 12 & 0xF;
    let prefetch_addr = regs.get_pc();
    let offset = sdt_offset_exec(regs, instr, SHIFTED_REG_OFFSET);
    let offset_applied = if ADD_OFFSET { base.wrapping_add(offset) } else { base.wrapping_sub(offset) };
    let addr = if PRE_OFFSET { offset_applied } else { base };
    let bus = if load {
        let access = if src_dest_reg == 15 { MemoryAccess::N } else { MemoryAccess::S };
        let (value, bus_addr, size) = if TRANSFER_BYTE {
            (loaded & 0xFF, addr, 1u32)
        } else {
            (rotate_word(loaded, addr), addr & !0x3, 4u32)
        };
        regs.set_reg_i(src_dest_reg, value);
        if src_dest_reg == base_reg {
            write_back = false;
        }
        TransferBus {
            prefetch_addr,
            data: DataAccess { addr: bus_addr, size, write: false, value: loaded, access },
            internal_cycle: true,
            refill: src_dest_reg == 15,
        }
    } else {
        let value = regs.get_reg_i(src_dest_reg);
        let value = if src_dest_reg == 15 { value.wrapping_add(4) } else { value };
        let data = if TRANSFER_BYTE {
            DataAccess { addr, size: 1, write: true, value: value & 0xFF, access: MemoryAccess::N }
        } else {
            DataAccess { addr: addr & !0x3, size: 4, write: true, value, access: MemoryAccess::N }
        };
        TransferBus { prefetch_addr, data, internal_cycle: false, refill: false }
    };
    proof {
        regs.lemma_view();
    }
    if write_back {
        regs.set_reg_i(base_reg, offset_applied);
    }
    bus
}

/// A word read at `addr & !3`, rotated right by eight times the low address bits.
pub fn rotate_word(word: u32, addr: u32) -> (r: u32)
    ensures
        r == rotr(word, ((addr & 3) * 8) as u32),
{
    proof {
        crate::bits::lemma_u32_bits(addr, 0);
    }
    crate::arm::alu::rotate_right(word, (addr & 0x3) * 8)
}


/// The low byte of `x` sign-extended to 32 bits.
pub open spec fn sext8(x: u32) -> u32 {
    if x & 0x80 != 0 { (x & 0xFF) | 0xFFFF_FF00 } else { x & 0xFF }
}

/// The low halfword of `x` sign-extended to 32 bits.
pub open spec fn sext16(x: u32) -> u32 {
    if x & 0x8000 != 0 { (x & 0xFFFF) | 0xFFFF_0000 } else { x & 0xFFFF }
}

pub fn sign_extend8(x: u32) -> (r: u32)
    ensures
        r == sext8(x),
{
    if x & 0x80 != 0 { (x & 0xFF) | 0xFFFF_FF00 } else { x & 0xFF }
}

pub fn sign_extend16(x: u32) -> (r: u32)
    ensures
        r == sext16(x),
{
    if x & 0x8000 != 0 { (x & 0xFFFF) | 0xFFFF_0000 } else { x & 0xFFFF }
}

/// The offset of LDRH, STRH, LDRSB and LDRSH: bits 8 to 11 and 0 to 3 as an 8-bit
/// immediate, or register bits 0 to 3.
pub open spec fn hdt_offset(rf: RegFile, instr: u32, imm: bool) -> u32 {
    if imm { ((instr >> 8u32) & 0xF) << 4u32 | instr & 0xF } else { reg_i(rf, instr & 0xF) }
}

/// The address that a halfword or signed transfer accesses.
pub open spec fn hdt_address(rf: RegFile, instr: u32, pre: bool, add: bool, imm: bool) -> u32 {
    let base = reg_i(rf, xfer_base(instr));
    if pre { offset_base(base, hdt_offset(rf, instr, imm), add) } else { base }
}

/// Whether a halfword or signed transfer can be carried out: bits 4 and 7 are set, a
/// register offset has bits 8 to 11 clear, a load is signed or of a halfword, a store
/// is of an unsigned halfword, and a post-indexed transfer has bit 24 clear.
pub open spec fn hdt_ok(instr: u32, pre: bool, imm: bool, load: bool, signed: bool, half: bool) -> bool {
    &&& (instr >> 7u32) & 1 == 1
    &&& (instr >> 4u32) & 1 == 1
    &&& !imm ==> (instr >> 8u32) & 0xF == 0
    &&& load ==> signed || half
    &&& !load ==> !signed && half
    &&& !pre ==> (instr >> 24u32) & 1 == 0
}

/// The register file and the bus work of LDRH, LDRSB, LDRSH or STRH: an unsigned
/// halfword load reads the aligned halfword and rotates it by the low address bit, a
/// signed byte load (or a signed halfword load at an odd address) sign-extends the
/// byte, a signed halfword load sign-extends the halfword; a store writes the low
/// halfword of Rd at the aligned address. Write-back as for LDR and STR.
pub open spec fn hdt_spec(
    rf: RegFile,
    instr: u32,
    pre: bool,
    add: bool,
    imm: bool,
    wb: bool,
    load: bool,
    signed: bool,
    half: bool,
    loaded: u32,
) -> (RegFile, TransferBus) {
    let rn = xfer_base(instr);
    let rd = xfer_rd(instr);
    let base = reg_i(rf, rn);
    let target = offset_base(base, hdt_offset(rf, instr, imm), add);
    let addr = if pre { target } else { base };
    if load {
        let (value, bus_addr, size) = if !signed {
            (rotr(loaded & 0xFFFF, ((addr & 1) * 8) as u32), addr & !1u32, 2u32)
        } else if !half || addr & 1 == 1 {
            (sext8(loaded), addr, 1u32)
        } else {
            (sext16(loaded), addr, 2u32)
        };
        let rf1 = rf.write(reg_from_index(rd as nat), value);
        let rf2 = if (wb || !pre) && rd != rn { rf1.write(reg_from_index(rn as nat), target) } else { rf1 };
        let access = if rd == 15 { MemoryAccess::N } else { MemoryAccess::S };
        (rf2, TransferBus {
            prefetch_addr: rf.pc,
            data: DataAccess { addr: bus_addr, size, write: false, value: loaded, access },
            internal_cycle: true,
            refill: rd == 15,
        })
    } else {
        let rf2 = if wb || !pre { rf.write(reg_from_index(rn as nat), target) } else { rf };
        (rf2, TransferBus {
            prefetch_addr: rf.pc,
            data: DataAccess {
                addr: addr & !1u32,
                size: 2,
                write: true,
                value: reg_i(rf, rd) & 0xFFFF,
                access: MemoryAccess::N,
            },
            internal_cycle: false,
            refill: false,
        })
    }
}

/// Executes LDRH, LDRSB, LDRSH or STRH on the registers. For a load, `loaded` is what
/// the bus returned for the data access (the halfword or byte in its low bits); a
/// store ignores it. Returns the bus work.
pub fn halfword_and_signed_data_transfer<
    const PRE_OFFSET: bool,
    const ADD_OFFSET: bool,
    const IMMEDIATE_OFFSET: bool,
    const WRITEBACK: bool,
    const LOAD: bool,
    const SIGNED: bool,
    const HALFWORD: bool,
>(regs: &mut Registers, instr: u32, loaded: u32) -> (r: TransferBus)
    requires
        old(regs).wf(),
        hdt_ok(instr, PRE_OFFSET, IMMEDIATE_OFFSET, LOAD, SIGNED, HALFWORD),
    ensures
        final(regs).wf(),
        (final(regs)@, r) == hdt_spec(
            old(regs)@,
            instr,
            PRE_OFFSET,
            ADD_OFFSET,
            IMMEDIATE_OFFSET,
            WRITEBACK,
            LOAD,
            SIGNED,
            HALFWORD,
            loaded,
        ),
{
    proof {
        lemma_xfer_fields(instr);
        regs.lemma_view();
    }
    let mut write_back = WRITEBACK || !PRE_OFFSET;
    let base_reg = instr >> 16 & 0xF;
    let base = regs.get_reg_i(base_reg);
    let src_dest_reg = instr >> 12 & 0xF;
    let offset_hi = instr >> 8 & 0xF;
    let offset_low = instr & 0xF;
    let prefetch_addr = regs.get_pc();
    let offset = if IMMEDIATE_OFFSET { offset_hi << 4 | offset_low } else { regs.get_reg_i(offset_low) };
    let offset_applied = if ADD_OFFSET { base.wrapping_add(offset) } else { base.wrapping_sub(offset) };
    let addr = if PRE_OFFSET { offset_applied } else { base };
    let bus = if LOAD {
        if src_dest_reg == base_reg {
            write_back = false;
        }
        let access = if src_dest_reg == 15 { MemoryAccess::N } else { MemoryAccess::S };
        let (value, bus_addr, size) = if !SIGNED {
            proof {
                crate::bits::lemma_u32_bits(addr, 0);
            }
            (crate::arm::alu::rotate_right(loaded & 0xFFFF, (addr & 0x1) * 8), addr & !0x1, 2u32)
        } else if !HALFWORD || addr & 0x1 == 1 {
            (sign_extend8(loaded), addr, 1u32)
        } else {
            (sign_extend16(loaded), addr, 2u32)
        };
        regs.set_reg_i(src_dest_reg, value);
        TransferBus {
            prefetch_addr,
            data: DataAccess { addr: bus_addr, size, write: false, value: loaded, access },
            internal_cycle: true,
            refill: src_dest_reg == 15,
        }
    } else {
        let value = regs.get_reg_i(src_dest_reg);
        TransferBus {
            prefetch_addr,
            data: DataAccess { addr: addr & !0x1, size: 2, write: true, value: value & 0xFFFF, access: MemoryAccess::N },
            internal_cycle: false,
            refill: false,
        }
    };
    proof {
        regs.lemma_view();
    }
    if write_back {
        regs.set_reg_i(base_reg, offset_applied);
    }
    bus
}


/// The registers below `i` whose bits are set in `list`, in ascending order.
pub open spec fn list_regs(list: u32, i: nat) -> Seq<u32>
    decreases i,
{
    if i == 0 {
        Seq::empty()
    } else {
        let prev = list_regs(list, (i - 1) as nat);
        if (list >> ((i - 1) as u32)) & 1 == 1 { prev.push((i - 1) as u32) } else { prev }
    }
}

/// The registers that LDM or STM transfers: those of the list (bits 0 to 15), or R15
/// alone for an empty list.
pub open spec fn block_regs(instr: u32) -> Seq<u32> {
    let list = instr & 0xFFFF;
    if list == 0 { seq![15u32] } else { list_regs(list, 16) }
}

/// What LDM or STM derives from the instruction and the registers before it starts.
pub struct BlockPlan {
    pub rn: u32,
    pub load: bool,
    pub psr: bool,
    /// The base is written back (not by a load that includes it).
    pub write_back: bool,
    /// The bank of user mode is used (S without a load of the PC).
    pub user_bank: bool,
    /// The lowest address of the block (the word-aligned base, less the block size
    /// when decrementing).
    pub start: u32,
    /// The value written back to the base.
    pub final_addr: u32,
    /// The address is stepped before each access.
    pub pre_offset: bool,
    pub empty: bool,
}

/// Number of registers in the list.
pub open spec fn block_count(instr: u32) -> nat {
    let list = instr & 0xFFFF;
    if list == 0 { 0 } else { list_regs(list, 16).len() }
}

/// The end of the block as an integer: base plus block size when incrementing, the
/// start otherwise, plus the low bits of the base, plus 0x40 for an empty list.
pub open spec fn block_final(rf: RegFile, instr: u32, add: bool) -> int {
    let full = reg_i(rf, xfer_base(instr));
    let base_offset = full & 3;
    let base = (full - base_offset) as u32;
    let n = block_count(instr);
    let start = if add { base } else { base.wrapping_sub((n * 4) as u32) };
    let end = (if add { base + 4 * n } else { start as int }) + base_offset;
    if n == 0 { end + 0x40 } else { end }
}

pub open spec fn block_plan(rf: RegFile, instr: u32, pre: bool, add: bool, psr: bool, wb: bool, load: bool) -> BlockPlan {
    let rn = xfer_base(instr);
    let list = instr & 0xFFFF;
    let full = reg_i(rf, rn);
    let base = (full - (full & 3)) as u32;
    let n = block_count(instr);
    BlockPlan {
        rn,
        load,
        psr,
        write_back: wb && !(load && (list >> rn) & 1 == 1),
        user_bank: psr && !(load && list & 0x8000 != 0),
        start: if add { base } else { base.wrapping_sub((n * 4) as u32) },
        final_addr: block_final(rf, instr, add) as u32,
        pre_offset: pre == add,
        empty: n == 0,
    }
}

/// Address of the `k`-th access of the block.
pub open spec fn block_addr(p: BlockPlan, k: int) -> u32 {
    if p.empty { p.start } else { (p.start + 4 * (k + if p.pre_offset { 1int } else { 0 })) as u32 }
}

/// One transfer of the block on the register file: a load writes the register, the
/// base is written back after every transfer, and a load of the PC with S restores the
/// CPSR.
pub open spec fn block_step(rf: RegFile, p: BlockPlan, reg: u32, value: u32) -> RegFile {
    let rf1 = if p.load { rf.write(reg_from_index(reg as nat), value) } else { rf };
    let rf2 = if p.write_back { rf1.write(reg_from_index(p.rn as nat), p.final_addr) } else { rf1 };
    if p.load && reg == 15 && p.psr { rf2.restore() } else { rf2 }
}

/// The register file after the first `k` transfers.
pub open spec fn block_fold(rf: RegFile, p: BlockPlan, regs: Seq<u32>, loaded: Seq<u32>, k: nat) -> RegFile
    decreases k,
{
    if k == 0 {
        rf
    } else {
        let j = (k - 1) as nat;
        block_step(block_fold(rf, p, regs, loaded, j), p, regs[j as int], loaded[j as int])
    }
}

/// The `k`-th data access: a word read of the loaded value (a load of the PC asks for a
/// nonsequential access next), or a word write of the register (the PC plus 4 for R15),
/// the last one asking for a nonsequential access next.
pub open spec fn block_access(rf: RegFile, p: BlockPlan, regs: Seq<u32>, loaded: Seq<u32>, k: int) -> DataAccess {
    let reg = regs[k];
    let v = block_fold(rf, p, regs, loaded, k as nat).read(reg_from_index(reg as nat));
    DataAccess {
        addr: block_addr(p, k),
        size: 4,
        write: !p.load,
        value: if p.load { loaded[k] } else if reg == 15 { v.wrapping_add(4) } else { v },
        access: if p.load { if reg == 15 { MemoryAccess::N } else { MemoryAccess::S } } else if k < regs.len() - 1 {
            MemoryAccess::S
        } else {
            MemoryAccess::N
        },
    }
}

/// The register file and the data accesses of LDM or STM: with S and no load of the PC
/// the user bank is used; registers go in ascending order to ascending addresses; the
/// mode is set back at the end.
pub open spec fn block_spec(
    rf: RegFile,
    instr: u32,
    pre: bool,
    add: bool,
    psr: bool,
    wb: bool,
    load: bool,
    loaded: Seq<u32>,
) -> (RegFile, Seq<DataAccess>) {
    let p = block_plan(rf, instr, pre, add, psr, wb, load);
    let rf_u = if p.user_bank { RegFile { cpsr: with_low5(rf.cpsr, mode_bits(Mode::User)), ..rf } } else { rf };
    let xr = block_regs(instr);
    let rf_n = block_fold(rf_u, p, xr, loaded, xr.len());
    (
        RegFile { cpsr: with_low5(rf_n.cpsr, mode_bits(rf.mode().unwrap())), ..rf_n },
        Seq::new(xr.len(), |k: int| block_access(rf_u, p, xr, loaded, k)),
    )
}

/// Whether LDM or STM can be carried out: bits 25 to 27 hold 100, the base is not the
/// PC, the addresses stay below 2^32, and a load is given one value per transfer.
pub open spec fn block_ok(rf: RegFile, instr: u32, add: bool, load: bool, loaded_len: nat) -> bool {
    let n = block_count(instr);
    let full = reg_i(rf, xfer_base(instr));
    let base = (full - (full & 3)) as u32;
    let start = if add { base as int } else { base.wrapping_sub((n * 4) as u32) as int };
    &&& (instr >> 25u32) & 7 == 4
    &&& xfer_base(instr) != 15
    &&& block_final(rf, instr, add) <= u32::MAX
    &&& start + 4 * n <= u32::MAX
    &&& load ==> loaded_len == block_regs(instr).len()
}

/// Bus work of LDM or STM.
pub struct BlockBus {
    /// Address of the prefetch of the next instruction, made first; it sets a
    /// nonsequential kind for the access after it.
    pub prefetch_addr: u32,
    /// The data accesses, in order.
    pub data: Vec<DataAccess>,
    /// A load ends with an internal cycle.
    pub internal_cycle: bool,
    /// The PC was loaded: the pipeline is refilled from the new PC.
    pub refill: bool,
}

pub proof fn lemma_list_regs(list: u32, i: nat)
    requires
        i <= 16,
    ensures
        list_regs(list, i).len() <= i,
        forall|a: int| 0 <= a < list_regs(list, i).len() ==> list_regs(list, i)[a] < i,
        forall|a: int, b: int| 0 <= a < b < list_regs(list, i).len() ==> list_regs(list, i)[a] < list_regs(list, i)[b],
        forall|a: int| 0 <= a < list_regs(list, i).len() ==> (list >> #[trigger] list_regs(list, i)[a]) & 1 == 1,
    decreases i,
{
    if i > 0 {
        lemma_list_regs(list, (i - 1) as nat);
    }
}

proof fn lemma_block_regs(instr: u32)
    ensures
        block_regs(instr).len() >= 1,
        block_regs(instr).len() <= 16,
        forall|a: int| 0 <= a < block_regs(instr).len() ==> block_regs(instr)[a] < 16,
        forall|a: int| 0 <= a < block_regs(instr).len() - 1 ==> block_regs(instr)[a] < 15,
        block_count(instr) == if instr & 0xFFFF == 0 { 0 } else { block_regs(instr).len() },
{
    let list = instr & 0xFFFF;
    lemma_list_regs(list, 16);
    if list != 0 {
        let s = list_regs(list, 16);
        crate::bits::lemma_u32_bits(instr, 0xFFFF);
        lemma_list_regs_nonempty(list);
        assert forall|a: int| 0 <= a < s.len() - 1 implies s[a] < 15 by {
            assert(s[a] < s[s.len() - 1]);
        }
    }
}

/// A list with a set bit among bits 0 to 15 has a register.
proof fn lemma_list_regs_nonempty(list: u32)
    requires
        list & 0xFFFF != 0,
    ensures
        list_regs(list, 16).len() > 0,
{
    if list_regs(list, 16).len() == 0 {
        lemma_list_regs_zero(list, 16);
        assert((list >> 0u32) & 1 == 0 && (list >> 1u32) & 1 == 0 && (list >> 2u32) & 1 == 0 && (list >> 3u32) & 1 == 0 && (list >> 4u32) & 1 == 0 && (list >> 5u32) & 1 == 0 && (list >> 6u32) & 1 == 0 && (list >> 7u32) & 1 == 0 && (list >> 8u32) & 1 == 0 && (list >> 9u32) & 1 == 0 && (list >> 10u32) & 1 == 0 && (list >> 11u32) & 1 == 0 && (list >> 12u32) & 1 == 0 && (list >> 13u32) & 1 == 0 && (list >> 14u32) & 1 == 0 && (list >> 15u32) & 1 == 0);
        assert((list >> 0u32) & 1 == 0 && (list >> 1u32) & 1 == 0 && (list >> 2u32) & 1 == 0 && (list >> 3u32) & 1 == 0 && (list >> 4u32) & 1 == 0 && (list >> 5u32) & 1 == 0 && (list >> 6u32) & 1 == 0 && (list >> 7u32) & 1 == 0 && (list >> 8u32) & 1 == 0 && (list >> 9u32) & 1 == 0 && (list >> 10u32) & 1 == 0 && (list >> 11u32) & 1 == 0 && (list >> 12u32) & 1 == 0 && (list >> 13u32) & 1 == 0 && (list >> 14u32) & 1 == 0 && (list >> 15u32) & 1 == 0 ==> list & 0xFFFF == 0) by (bit_vector);
    }
}

pub proof fn lemma_list_regs_zero(list: u32, i: nat)
    requires
        i <= 16,
        list_regs(list, i).len() == 0,
    ensures
        forall|j: u32| j < i ==> #[trigger] ((list >> j) & 1) == 0,
    decreases i,
{
    if i > 0 {
        let k = (i - 1) as u32;
        if (list >> k) & 1 == 1 {
            assert(list_regs(list, i).len() == list_regs(list, (i - 1) as nat).len() + 1);
        }
        lemma_list_regs_zero(list, (i - 1) as nat);
        crate::bits::lemma_u32_bits(list, k);
    }
}


/// The registers that LDM or STM transfers, in ascending order (R15 for an empty list).
pub fn block_transfer_regs(instr: u32) -> (r: Vec<u32>)
    ensures
        r@ == block_regs(instr),
{
    let r_list = instr & 0xFFFF;
    let mut xregs: Vec<u32> = Vec::new();
    let mut i: u32 = 0;
    while i < 16
        invariant
            i <= 16,
            xregs@ == list_regs(r_list, i as nat),
        decreases 16 - i,
    {
        if (r_list >> i) & 1 == 1 {
            xregs.push(i);
        }
        i += 1;
    }
    if r_list == 0 {
        proof {
            lemma_list_regs_of_zero(16);
        }
        xregs.push(15);
        assert(xregs@ =~= seq![15u32]);
    }
    xregs
}

/// An empty list has no register.
pub proof fn lemma_list_regs_of_zero(i: nat)
    ensures
        list_regs(0, i).len() == 0,
    decreases i,
{
    if i > 0 {
        lemma_list_regs_of_zero((i - 1) as nat);
        let k = (i - 1) as u32;
        crate::bits::lemma_u32_bits(0, k);
    }
}

/// Executes LDM or STM on the registers. For a load, `loaded` holds what the bus
/// returned for each read, in order; a store ignores it. Returns the bus work.
pub fn block_data_transfer<
    const PRE_OFFSET: bool,
    const ADD_OFFSET: bool,
    const PSR_FORCE_USR: bool,
    const WRITEBACK: bool,
    const LOAD: bool,
>(regs: &mut Registers, instr: u32, loaded: &Vec<u32>) -> (r: BlockBus)
    requires
        old(regs).wf(),
        block_ok(old(regs)@, instr, ADD_OFFSET, LOAD, loaded@.len()),
    ensures
        final(regs).wf(),
        final(regs)@ == block_spec(old(regs)@, instr, PRE_OFFSET, ADD_OFFSET, PSR_FORCE_USR, WRITEBACK, LOAD, loaded@).0,
        r.data@ == block_spec(old(regs)@, instr, PRE_OFFSET, ADD_OFFSET, PSR_FORCE_USR, WRITEBACK, LOAD, loaded@).1,
        r.prefetch_addr == old(regs)@.pc,
        r.internal_cycle == LOAD,
        r.refill == (LOAD && block_regs(instr).last() == 15),
{
    let ghost rf = regs@;
    let ghost p = block_plan(rf, instr, PRE_OFFSET, ADD_OFFSET, PSR_FORCE_USR, WRITEBACK, LOAD);
    proof {
        lemma_xfer_fields(instr);
        lemma_block_regs(instr);
        regs.lemma_view();
    }
    let pre_offset = PRE_OFFSET == ADD_OFFSET;
    let base_reg = instr >> 16 & 0xF;
    let full = regs.get_reg_i(base_reg);
    let base_offset = full & 0x3;
    proof {
        crate::bits::lemma_u32_bits(full, 3);
    }
    let base = full - base_offset;
    let r_list = instr & 0xFFFF;
    let write_back = WRITEBACK && !(LOAD && (r_list >> base_reg) & 1 == 1);
    let actual_mode = regs.get_mode();
    if PSR_FORCE_USR && !(LOAD && r_list & 0x8000 != 0) {
        regs.set_mode(Mode::User);
    }
    let ghost rf_u = regs@;
    let prefetch_addr = regs.get_pc();
    let xregs = block_transfer_regs(instr);
    let count = xregs.len();
    let num_regs: u32 = if r_list == 0 { 0 } else { count as u32 };
    let start_addr = if ADD_OFFSET { base } else { base.wrapping_sub(num_regs * 4) };
    let end_addr = if ADD_OFFSET { base + 4 * num_regs } else { start_addr };
    let final_addr = if num_regs == 0 { end_addr + base_offset + 0x40 } else { end_addr + base_offset };
    assert(final_addr == p.final_addr);
    assert(start_addr == p.start);
    let mut data: Vec<DataAccess> = Vec::new();
    let mut k: usize = 0;
    while k < count
        invariant
            count == xregs@.len(),
            xregs@ == block_regs(instr),
            1 <= count <= 16,
            forall|a: int| 0 <= a < count ==> xregs@[a] < 16,
            forall|a: int| 0 <= a < count - 1 ==> xregs@[a] < 15,
            k <= count,
            k < count ==> regs.wf(),
            regs@ == block_fold(rf_u, p, xregs@, loaded@, k as nat),
            regs@.mode() == rf_u.mode() || k == count,
            data@ == Seq::new(k as nat, |j: int| block_access(rf_u, p, xregs@, loaded@, j)),
            LOAD ==> loaded@.len() == count,
            p == block_plan(rf, instr, PRE_OFFSET, ADD_OFFSET, PSR_FORCE_USR, WRITEBACK, LOAD),
            p.start == start_addr,
            p.final_addr == final_addr,
            p.pre_offset == pre_offset,
            p.empty == (num_regs == 0),
            p.rn == base_reg,
            p.write_back == write_back,
            p.load == LOAD,
            p.psr == PSR_FORCE_USR,
            base_reg < 16,
            rf_u.mode() is Some,
            num_regs == 0 || num_regs as int == count,
            start_addr + 4 * num_regs <= u32::MAX,
        decreases count - k,
    {
        let reg = xregs[k];
        let addr = if num_regs == 0 {
            start_addr
        } else if pre_offset {
            start_addr + 4 * (k as u32 + 1)
        } else {
            start_addr + 4 * (k as u32)
        };
        let ghost before = regs@;
        if LOAD {
            let value = loaded[k];
            regs.set_reg_i(reg, value);
            if write_back {
                regs.set_reg_i(base_reg, final_addr);
            }
            if reg == 15 && PSR_FORCE_USR {
                regs.restore_cpsr();
            }
            let access = if reg == 15 { MemoryAccess::N } else { MemoryAccess::S };
            data.push(DataAccess { addr, size: 4, write: false, value, access });
        } else {
            let value = regs.get_reg_i(reg);
            let value = if reg == 15 { value.wrapping_add(4) } else { value };
            let access = if k + 1 < count { MemoryAccess::S } else { MemoryAccess::N };
            data.push(DataAccess { addr, size: 4, write: true, value, access });
            if write_back {
                regs.set_reg_i(base_reg, final_addr);
            }
        }
        proof {
            assert(data@ =~= Seq::new((k + 1) as nat, |j: int| block_access(rf_u, p, xregs@, loaded@, j)));
        }
        k += 1;
    }
    regs.set_mode(actual_mode);
    proof {
        assert(data@ =~= block_spec(rf, instr, PRE_OFFSET, ADD_OFFSET, PSR_FORCE_USR, WRITEBACK, LOAD, loaded@).1);
    }
    BlockBus { prefetch_addr, data, internal_cycle: LOAD, refill: LOAD && xregs[count - 1] == 15 }
}

/// The values that a sequence of data accesses carried.
pub open spec fn access_values(acc: Seq<DataAccess>) -> Seq<u32> {
    Seq::new(acc.len(), |k: int| acc[k].value)
}

/// Writing back the mode bits that the CPSR already holds changes nothing.
proof fn lemma_low5_same(rf: RegFile)
    requires
        rf.mode() is Some,
    ensures
        with_low5(rf.cpsr, mode_bits(rf.mode().unwrap())) == rf.cpsr,
{
    assert(mode_bits(rf.mode().unwrap()) == rf.cpsr & 0x1F);
    crate::bits::lemma_u32_bits(rf.cpsr, 0);
}

/// The registers after `k` transfers of a store that writes the base back: the base
/// holds the final address once a transfer was made.
proof fn lemma_store_fold(rf: RegFile, p: BlockPlan, xr: Seq<u32>, loaded: Seq<u32>, k: nat)
    requires
        rf.wf(),
        rf.mode() is Some,
        !p.load,
        p.write_back,
        p.rn < 15,
        k <= xr.len(),
    ensures
        block_fold(rf, p, xr, loaded, k) == if k == 0 { rf } else { rf.write(reg_from_index(p.rn as nat), p.final_addr) },
    decreases k,
{
    if k > 0 {
        lemma_store_fold(rf, p, xr, loaded, (k - 1) as nat);
        if k > 1 {
            assert(reg_index(reg_from_index(p.rn as nat)) == p.rn);
            lemma_write_twice(rf, reg_from_index(p.rn as nat), p.final_addr, p.final_addr);
        }
    }
}

/// The registers after `k` transfers of a load that writes the base back, when each
/// value loaded is what its register already holds and the base is not in the list.
proof fn lemma_load_fold(rf: RegFile, p: BlockPlan, xr: Seq<u32>, vals: Seq<u32>, k: nat)
    requires
        rf.wf(),
        rf.mode() is Some,
        p.load,
        p.write_back,
        p.rn < 15,
        k <= xr.len(),
        k <= vals.len(),
        forall|j: int| 0 <= j < xr.len() ==> xr[j] < 15 && xr[j] != p.rn,
        forall|j: int| 0 <= j < k ==> vals[j] == rf.read(reg_from_index(xr[j] as nat)),
    ensures
        block_fold(rf, p, xr, vals, k) == if k == 0 { rf } else { rf.write(reg_from_index(p.rn as nat), p.final_addr) },
    decreases k,
{
    if k > 0 {
        let j = (k - 1) as int;
        lemma_load_fold(rf, p, xr, vals, (k - 1) as nat);
        let prev = block_fold(rf, p, xr, vals, (k - 1) as nat);
        let r = reg_from_index(xr[j] as nat);
        let b = reg_from_index(p.rn as nat);
        assert(reg_index(r) == xr[j]);
        assert(reg_index(b) == p.rn);
        if k > 1 {
            law_write_preserves_others(rf, b, r, p.final_addr);
        }
        assert(prev.read(r) == vals[j]);
        lemma_write_same(prev, r);
        if k > 1 {
            lemma_write_twice(rf, b, p.final_addr, p.final_addr);
        }
    }
}

/// STMDB with write-back of a list without the base and the PC, then LDMIA with
/// write-back of the same list from the same base, reading back what the store
/// wrote, restores every register and reads the addresses that the store wrote.
pub proof fn law_store_then_load(rf: RegFile, stm: u32, ldm: u32)
    requires
        rf.wf(),
        rf.mode() is Some,
        xfer_base(stm) == xfer_base(ldm),
        xfer_base(stm) < 15,
        stm & 0xFFFF == ldm & 0xFFFF,
        stm & 0xFFFF != 0,
        stm & 0xFFFF <= 0x7FFF,
        ((stm & 0xFFFF) >> xfer_base(stm)) & 1 == 0,
        reg_i(rf, xfer_base(stm)) & 3 == 0,
        reg_i(rf, xfer_base(stm)) >= 4 * block_count(stm),
    ensures
        ({
            let (rf1, stored) = block_spec(rf, stm, true, false, false, true, false, Seq::empty());
            let (rf2, loaded) = block_spec(rf1, ldm, false, true, false, true, true, access_values(stored));
            &&& rf2 == rf
            &&& loaded.len() == stored.len()
            &&& forall|k: int| 0 <= k < loaded.len() ==> #[trigger] loaded[k].addr == stored[k].addr
        }),
{
    let list = stm & 0xFFFF;
    let rn = xfer_base(stm);
    let b = reg_from_index(rn as nat);
    assert(reg_index(b) == rn);
    let xr = block_regs(stm);
    assert(block_regs(ldm) == xr);
    crate::bits::lemma_u32_bits(stm, 0xFFFF);
    lemma_list_regs(list, 16);
    lemma_list_regs_nonempty(list);
    crate::bits::lemma_u32_bits(list, 0);
    let n = xr.len();
    assert(block_count(stm) == n);
    assert(block_count(ldm) == n);
    assert forall|j: int| 0 <= j < n implies xr[j] < 15 && xr[j] != rn by {
        assert((list >> xr[j]) & 1 == 1);
    }
    let full = reg_i(rf, rn);
    crate::bits::lemma_u32_bits(full, 0);
    let start = (full - 4 * n) as u32;
    // The store.
    let p1 = block_plan(rf, stm, true, false, false, true, false);
    assert(p1.start == start && p1.final_addr == start && !p1.pre_offset && p1.write_back && !p1.user_bank);
    lemma_store_fold(rf, p1, xr, Seq::empty(), n);
    let rf1 = block_spec(rf, stm, true, false, false, true, false, Seq::empty()).0;
    let stored = block_spec(rf, stm, true, false, false, true, false, Seq::empty()).1;
    assert(rf.write(b, start).cpsr == rf.cpsr);
    lemma_low5_same(rf);
    assert(rf1 == rf.write(b, start));
    let vals = access_values(stored);
    assert forall|j: int| 0 <= j < n implies vals[j] == rf1.read(reg_from_index(xr[j] as nat)) by {
        let r = reg_from_index(xr[j] as nat);
        assert(reg_index(r) == xr[j]);
        law_write_preserves_others(rf, b, r, start);
        lemma_store_fold(rf, p1, xr, Seq::empty(), j as nat);
    }
    // The load.
    law_read_after_write(rf, b, start);
    assert(reg_i(rf1, rn) == start);
    crate::bits::lemma_u32_bits(start, 0);
    let p2 = block_plan(rf1, ldm, false, true, false, true, true);
    assert(p2.start == start && p2.final_addr == full && !p2.pre_offset && p2.write_back && !p2.user_bank);
    assert(rf1.wf());
    lemma_load_fold(rf1, p2, xr, vals, n);
    lemma_write_twice(rf, b, start, full);
    lemma_write_same(rf, b);
    let rf_n = block_fold(rf1, p2, xr, vals, n);
    assert(rf_n == rf);
    lemma_low5_same(rf);
}


proof fn lemma_wrapping_mod(base: u32, off: u32)
    ensures
        base.wrapping_add(off) as int == (base + off) % 0x1_0000_0000,
        base.wrapping_sub(off) as int == (base - off) % 0x1_0000_0000,
{
    let m: int = 0x1_0000_0000;
    if base + off < m {
        vstd::arithmetic::div_mod::lemma_small_mod((base + off) as nat, m as nat);
    } else {
        vstd::arithmetic::div_mod::lemma_mod_sub_multiples_vanish(base + off, m);
        vstd::arithmetic::div_mod::lemma_small_mod((base + off - m) as nat, m as nat);
    }
    if base - off >= 0 {
        vstd::arithmetic::div_mod::lemma_small_mod((base - off) as nat, m as nat);
    } else {
        vstd::arithmetic::div_mod::lemma_mod_add_multiples_vanish(base - off, m);
        vstd::arithmetic::div_mod::lemma_small_mod((base - off + m) as nat, m as nat);
    }
}

/// The offset of LDR and STR goes in the direction of the U bit: the offset base is
/// `Rn + offset` with U set and `Rn - offset` with U clear, modulo 2^32. A pre-indexed
/// transfer accesses the offset base (a word access aligned down to the word), a
/// post-indexed one accesses `Rn`; and where the base is written back (post-indexed or
/// with W, and not loaded over) it holds the offset base.
pub proof fn law_sdt_offset_direction(
    rf: RegFile,
    instr: u32,
    shifted: bool,
    pre: bool,
    add: bool,
    byte: bool,
    wb: bool,
    loaded: u32,
)
    requires
        rf.wf(),
        rf.mode() is Some,
    ensures
        ({
            let rn = xfer_base(instr);
            let base = reg_i(rf, rn);
            let off = sdt_offset(rf, instr, shifted);
            let t: int = if add { (base + off) % 0x1_0000_0000 } else { (base - off) % 0x1_0000_0000 };
            let addr: int = if pre { t } else { base as int };
            let load = (instr >> 20u32) & 1 != 0;
            let (rf2, bus) = sdt_spec(rf, instr, shifted, pre, add, byte, wb, loaded);
            &&& byte ==> bus.data.addr as int == addr
            &&& !byte ==> bus.data.addr == (addr as u32) & !3u32
            &&& (wb || !pre) && !(load && xfer_rd(instr) == rn) ==> reg_i(rf2, rn) as int == t
        }),
{
    let rn = xfer_base(instr);
    let rd = xfer_rd(instr);
    let base = reg_i(rf, rn);
    let off = sdt_offset(rf, instr, shifted);
    lemma_wrapping_mod(base, off);
    lemma_xfer_fields(instr);
    let load = (instr >> 20u32) & 1 != 0;
    let target = offset_base(base, off, add);
    let rb = reg_from_index(rn as nat);
    let rdr = reg_from_index(rd as nat);
    assert(reg_index(rb) == rn);
    assert(reg_index(rdr) == rd);
    if load {
        let addr = if pre { target } else { base };
        let value = if byte { loaded & 0xFF } else { rotr(loaded, ((addr & 3) * 8) as u32) };
        let rf1 = rf.write(rdr, value);
        if rd != rn {
            assert(rdr != rb);
            law_write_preserves_others(rf, rdr, rb, value);
            law_read_after_write(rf1, rb, target);
        }
    } else {
        law_read_after_write(rf, rb, target);
    }
}


/// The offset of LDRH, STRH, LDRSB and LDRSH goes in the direction of the U bit, as for
/// LDR and STR: a pre-indexed store accesses the halfword at `Rn + offset` (U set) or
/// `Rn - offset` (U clear) modulo 2^32, a post-indexed one at `Rn`; and where the base
/// is written back (post-indexed or with W, and not loaded over) it holds that offset
/// base.
pub proof fn law_hdt_offset_direction(
    rf: RegFile,
    instr: u32,
    pre: bool,
    add: bool,
    imm: bool,
    wb: bool,
    load: bool,
    signed: bool,
    half: bool,
    loaded: u32,
)
    requires
        rf.wf(),
        rf.mode() is Some,
    ensures
        ({
            let rn = xfer_base(instr);
            let base = reg_i(rf, rn);
            let off = hdt_offset(rf, instr, imm);
            let t: int = if add { (base + off) % 0x1_0000_0000 } else { (base - off) % 0x1_0000_0000 };
            let addr: int = if pre { t } else { base as int };
            let (rf2, bus) = hdt_spec(rf, instr, pre, add, imm, wb, load, signed, half, loaded);
            &&& !load ==> bus.data.addr == (addr as u32) & !1u32
            &&& (wb || !pre) && !(load && xfer_rd(instr) == rn) ==> reg_i(rf2, rn) as int == t
        }),
{
    let rn = xfer_base(instr);
    let rd = xfer_rd(instr);
    let base = reg_i(rf, rn);
    let off = hdt_offset(rf, instr, imm);
    lemma_wrapping_mod(base, off);
    lemma_xfer_fields(instr);
    let target = offset_base(base, off, add);
    let rb = reg_from_index(rn as nat);
    let rdr = reg_from_index(rd as nat);
    assert(reg_index(rb) == rn);
    assert(reg_index(rdr) == rd);
    if load {
        let addr = if pre { target } else { base };
        let value = if !signed {
            rotr(loaded & 0xFFFF, ((addr & 1) * 8) as u32)
        } else if !half || addr & 1 == 1 {
            sext8(loaded)
        } else {
            sext16(loaded)
        };
        let rf1 = rf.write(rdr, value);
        if rd != rn {
            assert(rdr != rb);
            law_write_preserves_others(rf, rdr, rb, value);
            law_read_after_write(rf1, rb, target);
        }
    } else {
        law_read_after_write(rf, rb, target);
    }
}

} // verus!
