use fluorite::arm::alu::{adc, add_op, arith_shift_right, barrel_shift, inc_mul_clocks, rotate_right, sbc, sub_op};
use fluorite::arm::arm::{branch_branch_with_link, data_proc, fill_arm_instr_buffer, handle_irq, psr_transfer};
use fluorite::arm::registers::{Mode, Reg, Registers};
use fluorite::arm::thumb::{
    add_sub, alu, branch_with_link, cond_branch, condition_passed, immediate, load_store_imm_offset,
    move_shifted_reg, push_pop_regs, uncond_branch,
};
use fluorite::arm::transfer::{
    block_data_transfer, halfword_and_signed_data_transfer, rotate_word, sign_extend16, sign_extend8,
    single_data_transfer,
};
use fluorite::io::MemoryAccess;

fn regs() -> Registers {
    let mut r = Registers::new();
    r.skip_bios();
    r
}

#[test]
fn registers_after_power_on_and_skip_bios() {
    let r = Registers::new();
    assert_eq!(r.get_pc(), 0);
    assert_eq!(r.get_mode(), Mode::System);
    assert_eq!(r.get_reg(Reg::R13), 0x0300_7F00);
    let r = regs();
    assert_eq!(r.get_pc(), 0x0800_0000);
    assert_eq!(r.get_status().raw(), 0x5F);
}

#[test]
fn register_read_after_write_and_banking() {
    let mut r = regs();
    r.set_reg(Reg::R13, 0x1234);
    assert_eq!(r.get_reg(Reg::R13), 0x1234);
    r.change_mode(Mode::Irq);
    assert_eq!(r.get_mode(), Mode::Irq);
    assert_eq!(r.get_reg(Reg::R13), 0x0300_7FA0);
    r.set_reg(Reg::R13, 0x5555);
    r.restore_cpsr();
    assert_eq!(r.get_mode(), Mode::System);
    assert_eq!(r.get_reg(Reg::R13), 0x1234);
}

#[test]
fn alu_shifts_and_rotations() {
    assert_eq!(rotate_right(0x0000_00F1, 4), 0x1000_000F);
    assert_eq!(rotate_right(0x1234_5678, 0), 0x1234_5678);
    assert_eq!(arith_shift_right(0x8000_0000, 4), 0xF800_0000);
    assert_eq!(arith_shift_right(0x4000_0000, 4), 0x0400_0000);
    let mut r = regs();
    let (v, _) = barrel_shift(&mut r, 0, 1, 4, true, false);
    assert_eq!(v, 16);
}

#[test]
fn alu_add_and_subtract_set_flags() {
    let mut r = regs();
    assert_eq!(add_op(&mut r, 0xFFFF_FFFF, 1, true), 0);
    assert!(r.get_z() && r.get_c() && !r.get_v() && !r.get_n());
    assert_eq!(add_op(&mut r, 0x7FFF_FFFF, 1, true), 0x8000_0000);
    assert!(r.get_v() && r.get_n() && !r.get_c());
    assert_eq!(sub_op(&mut r, 5, 7, true), 0xFFFF_FFFE);
    assert!(r.get_n() && !r.get_c());
    assert_eq!(sub_op(&mut r, 7, 5, true), 2);
    assert!(r.get_c() && !r.get_n() && !r.get_z());
    r.set_c(true);
    assert_eq!(adc(&mut r, 1, 2, false), 4);
    r.set_c(false);
    assert_eq!(sbc(&mut r, 5, 2, false), 2);
}

#[test]
fn multiply_clocks_follow_operand_size() {
    assert_eq!(inc_mul_clocks(0x0000_00FF, false), 1);
    assert_eq!(inc_mul_clocks(0x0000_FFFF, false), 2);
    assert_eq!(inc_mul_clocks(0x00FF_FFFF, false), 3);
    assert_eq!(inc_mul_clocks(0xFFFF_FFFF, false), 4);
    assert_eq!(inc_mul_clocks(0xFFFF_FFFF, true), 1);
}

#[test]
fn data_processing_mov_immediate() {
    let mut r = regs();
    // MOV r0, #5
    let bus = data_proc::<true, false>(&mut r, 0xE3A0_0005);
    assert_eq!(r.get_reg(Reg::R0), 5);
    assert!(!bus.refill && !bus.internal_cycle);
    assert_eq!(bus.prefetch_addr, 0x0800_0000);
}

#[test]
fn data_processing_adds_sets_all_flags() {
    let mut r = regs();
    r.set_reg(Reg::R0, 0x8000_0000);
    // ADDS r1, r0, r0
    data_proc::<false, true>(&mut r, 0xE090_1000);
    assert_eq!(r.get_reg(Reg::R1), 0);
    assert!(r.get_z() && r.get_c() && r.get_v() && !r.get_n());
}

#[test]
fn data_processing_compare_and_subtract() {
    let mut r = regs();
    r.set_reg(Reg::R0, 5);
    // CMP r0, #5
    data_proc::<true, true>(&mut r, 0xE350_0005);
    assert!(r.get_z() && r.get_c() && !r.get_n() && !r.get_v());
    assert_eq!(r.get_reg(Reg::R0), 5);
    r.set_reg(Reg::R0, 0);
    // SUBS r2, r0, #1
    data_proc::<true, true>(&mut r, 0xE250_2001);
    assert_eq!(r.get_reg(Reg::R2), 0xFFFF_FFFF);
    assert!(r.get_n() && !r.get_c() && !r.get_z());
}

#[test]
fn data_processing_shifted_register_and_pc_write() {
    let mut r = regs();
    r.set_reg(Reg::R1, 3);
    // MOV r0, r1, LSL #4
    data_proc::<false, false>(&mut r, 0xE1A0_0201);
    assert_eq!(r.get_reg(Reg::R0), 0x30);
    r.set_reg(Reg::R2, 0x0800_1000);
    // MOV pc, r2
    let bus = data_proc::<false, false>(&mut r, 0xE1A0_F002);
    assert_eq!(r.get_pc(), 0x0800_1000);
    assert!(bus.refill && bus.prefetch_nonseq);
}

#[test]
fn branch_and_branch_with_link() {
    let mut r = regs();
    r.set_pc(0x0800_0008);
    // B +8
    let bus = branch_branch_with_link::<false>(&mut r, 0xEA00_0002);
    assert_eq!(r.get_pc(), 0x0800_0010);
    assert_eq!(bus.prefetch_addr, 0x0800_0008);
    assert!(bus.refill);
    r.set_pc(0x0800_0008);
    // BL -8
    branch_branch_with_link::<true>(&mut r, 0xEBFF_FFFE);
    assert_eq!(r.get_pc(), 0x0800_0000);
    assert_eq!(r.get_reg(Reg::R14), 0x0800_0004);
}

#[test]
fn arm_pipeline_refill_aligns_pc() {
    let mut r = regs();
    r.set_pc(0x0800_0003);
    let (first, second) = fill_arm_instr_buffer(&mut r);
    assert_eq!(first, 0x0800_0000);
    assert_eq!(second, 0x0800_0004);
    assert_eq!(r.get_pc(), 0x0800_0004);
}

#[test]
fn psr_transfer_reads_and_writes_flags() {
    let mut r = regs();
    // MRS r0, CPSR
    psr_transfer::<false, false, false>(&mut r, 0xE10F_0000);
    assert_eq!(r.get_reg(Reg::R0), 0x5F);
    // MSR CPSR_f, #0xF0000000
    psr_transfer::<true, false, true>(&mut r, 0xE328_F20F);
    assert_eq!(r.get_status().raw(), 0xF000_005F);
    assert!(r.get_n() && r.get_z() && r.get_c() && r.get_v());
}

#[test]
fn irq_entry_saves_state() {
    let mut r = regs();
    assert!(handle_irq(&mut r, false).is_none());
    r.set_pc(0x0800_0108);
    let bus = handle_irq(&mut r, true).unwrap();
    assert_eq!(r.get_mode(), Mode::Irq);
    assert_eq!(r.get_pc(), 0x18);
    assert_eq!(r.get_reg(Reg::R14), 0x0800_0108);
    assert!(r.get_i());
    assert!(bus.refill);
    assert_eq!(r.get_reg(Reg::Spsr), 0x5F);
    // Masked: nothing happens.
    assert!(handle_irq(&mut r, true).is_none());
}

#[test]
fn single_transfer_load_word_and_rotation() {
    let mut r = regs();
    r.set_reg(Reg::R1, 0x0200_0000);
    // LDR r0, [r1, #4]
    let bus = single_data_transfer::<false, true, true, false, false, true>(&mut r, 0xE591_0004, 0xDEAD_BEEF);
    assert_eq!(r.get_reg(Reg::R0), 0xDEAD_BEEF);
    assert_eq!(bus.data.addr, 0x0200_0004);
    assert_eq!(bus.data.size, 4);
    assert!(!bus.data.write && bus.internal_cycle);
    r.set_reg(Reg::R1, 0x0200_0001);
    // LDR r0, [r1]
    let bus = single_data_transfer::<false, true, true, false, false, true>(&mut r, 0xE591_0000, 0x1122_3344);
    assert_eq!(r.get_reg(Reg::R0), 0x4411_2233);
    assert_eq!(bus.data.addr, 0x0200_0000);
}

#[test]
fn single_transfer_store_post_indexed() {
    let mut r = regs();
    r.set_reg(Reg::R0, 0xCAFE);
    r.set_reg(Reg::R1, 0x0300_0000);
    // STR r0, [r1], #4
    let bus = single_data_transfer::<false, false, true, false, false, false>(&mut r, 0xE481_0004, 0);
    assert_eq!(bus.data.addr, 0x0300_0000);
    assert_eq!(bus.data.value, 0xCAFE);
    assert!(bus.data.write);
    assert_eq!(bus.data.access, MemoryAccess::N);
    assert_eq!(r.get_reg(Reg::R1), 0x0300_0004);
}

#[test]
fn halfword_and_signed_loads() {
    let mut r = regs();
    r.set_reg(Reg::R1, 0x0200_0000);
    // LDRSB r0, [r1, #1]
    halfword_and_signed_data_transfer::<true, true, true, false, true, true, false>(&mut r, 0xE1D1_00D1, 0x80);
    assert_eq!(r.get_reg(Reg::R0), 0xFFFF_FF80);
    // LDRH r0, [r1, #2]
    halfword_and_signed_data_transfer::<true, true, true, false, true, false, true>(&mut r, 0xE1D1_00B2, 0xBEEF);
    assert_eq!(r.get_reg(Reg::R0), 0xBEEF);
    assert_eq!(sign_extend8(0x7F), 0x7F);
    assert_eq!(sign_extend16(0x8000), 0xFFFF_8000);
    assert_eq!(rotate_word(0xAABB_CCDD, 2), 0xCCDD_AABB);
}

#[test]
fn block_load_increment_after_with_writeback() {
    let mut r = regs();
    r.set_reg(Reg::R0, 0x0300_0000);
    // LDMIA r0!, {r1, r2}
    let bus = block_data_transfer::<false, true, false, true, true>(&mut r, 0xE8B0_0006, &vec![10, 20]);
    assert_eq!(r.get_reg(Reg::R1), 10);
    assert_eq!(r.get_reg(Reg::R2), 20);
    assert_eq!(r.get_reg(Reg::R0), 0x0300_0008);
    assert_eq!(bus.data.len(), 2);
    assert_eq!(bus.data[0].addr, 0x0300_0000);
    assert_eq!(bus.data[1].addr, 0x0300_0004);
    assert!(bus.internal_cycle);
}

#[test]
fn block_store_decrement_before() {
    let mut r = regs();
    r.set_reg(Reg::R0, 7);
    r.set_reg(Reg::R14, 0x0800_0100);
    let sp = r.get_reg(Reg::R13);
    // STMDB sp!, {r0, lr}
    let bus = block_data_transfer::<true, false, false, true, false>(&mut r, 0xE92D_4001, &vec![]);
    assert_eq!(r.get_reg(Reg::R13), sp - 8);
    assert_eq!(bus.data.len(), 2);
    assert_eq!(bus.data[0].addr, sp - 8);
    assert_eq!(bus.data[0].value, 7);
    assert_eq!(bus.data[1].addr, sp - 4);
    assert_eq!(bus.data[1].value, 0x0800_0100);
    assert!(bus.data.iter().all(|d| d.write));
}

#[test]
fn thumb_shift_add_and_immediate() {
    let mut r = regs();
    r.set_reg(Reg::R1, 3);
    // LSL r0, r1, #2
    move_shifted_reg::<false, false>(&mut r, 0x0088);
    assert_eq!(r.get_reg(Reg::R0), 12);
    r.set_reg(Reg::R2, 4);
    // ADD r0, r1, r2
    add_sub::<false, false>(&mut r, 0x1888);
    assert_eq!(r.get_reg(Reg::R0), 7);
    // MOV r0, #42
    immediate::<false, false, false, false, false>(&mut r, 0x202A);
    assert_eq!(r.get_reg(Reg::R0), 42);
    // CMP r0, #42
    immediate::<false, true, false, false, false>(&mut r, 0x282A);
    assert!(r.get_z() && r.get_c());
    // AND r0, r1 (ALU op 0)
    r.set_reg(Reg::R0, 0b1110);
    alu(&mut r, 0x4008);
    assert_eq!(r.get_reg(Reg::R0), 0b0010);
}

#[test]
fn thumb_conditional_and_unconditional_branches() {
    let mut r = regs();
    r.set_z(true);
    assert!(condition_passed(&r, 0));
    assert!(!condition_passed(&r, 1));
    r.set_pc(0x0800_0004);
    // BEQ +4
    let bus = cond_branch::<false, false, false, false>(&mut r, 0xD002);
    assert_eq!(r.get_pc(), 0x0800_0008);
    assert!(bus.refill);
    r.set_pc(0x0800_0004);
    // BNE +4 (not taken)
    let bus = cond_branch::<false, false, false, true>(&mut r, 0xD102);
    assert_eq!(r.get_pc(), 0x0800_0004);
    assert!(!bus.refill);
    // B -4
    uncond_branch(&mut r, 0xE7FE);
    assert_eq!(r.get_pc(), 0x0800_0000);
}

#[test]
fn thumb_long_branch_with_link() {
    let mut r = regs();
    r.set_pc(0x0800_0004);
    // BL: high half, offset 0
    branch_with_link::<false>(&mut r, 0xF000);
    assert_eq!(r.get_reg(Reg::R14), 0x0800_0004);
    r.set_pc(0x0800_0006);
    // BL: low half, offset 8 halfwords
    branch_with_link::<true>(&mut r, 0xF808);
    assert_eq!(r.get_pc(), 0x0800_0014);
    assert_eq!(r.get_reg(Reg::R14), 0x0800_0005);
}

#[test]
fn thumb_load_store_immediate_offset() {
    let mut r = regs();
    r.set_reg(Reg::R1, 0x0300_0000);
    r.set_reg(Reg::R0, 0x99);
    // STR r0, [r1, #4]
    let bus = load_store_imm_offset::<false, false>(&mut r, 0x6048, 0);
    assert_eq!(bus.data.addr, 0x0300_0004);
    assert_eq!(bus.data.value, 0x99);
    assert!(bus.data.write);
    // LDR r2, [r1, #4]
    load_store_imm_offset::<false, true>(&mut r, 0x684A, 0x1234_5678);
    assert_eq!(r.get_reg(Reg::R2), 0x1234_5678);
}

#[test]
fn thumb_push_then_pop_restores_registers() {
    let mut r = regs();
    r.set_reg(Reg::R0, 11);
    r.set_reg(Reg::R1, 22);
    let sp = r.get_reg(Reg::R13);
    // PUSH {r0, r1}
    let pushed = push_pop_regs::<false, false>(&mut r, 0xB403, &vec![]);
    assert_eq!(r.get_reg(Reg::R13), sp - 8);
    assert_eq!(pushed.data.len(), 2);
    assert_eq!(pushed.data[0].addr, sp - 8);
    assert_eq!(pushed.data[0].value, 11);
    assert_eq!(pushed.data[1].value, 22);
    r.set_reg(Reg::R0, 0);
    r.set_reg(Reg::R1, 0);
    let values: Vec<u32> = pushed.data.iter().map(|d| d.value).collect();
    // POP {r0, r1}
    let popped = push_pop_regs::<true, false>(&mut r, 0xBC03, &values);
    assert_eq!(r.get_reg(Reg::R0), 11);
    assert_eq!(r.get_reg(Reg::R1), 22);
    assert_eq!(r.get_reg(Reg::R13), sp);
    assert_eq!(popped.data[0].addr, pushed.data[0].addr);
    assert_eq!(popped.data[1].addr, pushed.data[1].addr);
}

#[test]
fn block_store_then_load_restores_registers() {
    let mut r = regs();
    r.set_reg(Reg::R0, 0x0300_0100);
    r.set_reg(Reg::R1, 111);
    r.set_reg(Reg::R2, 222);
    r.set_reg(Reg::R7, 777);
    // STMDB r0!, {r1, r2, r7}
    let stored = block_data_transfer::<true, false, false, true, false>(&mut r, 0xE920_0086, &vec![]);
    assert_eq!(r.get_reg(Reg::R0), 0x0300_0100 - 12);
    r.set_reg(Reg::R1, 0);
    r.set_reg(Reg::R2, 0);
    r.set_reg(Reg::R7, 0);
    let values: Vec<u32> = stored.data.iter().map(|d| d.value).collect();
    assert_eq!(values, vec![111, 222, 777]);
    // LDMIA r0!, {r1, r2, r7}
    let loaded = block_data_transfer::<false, true, false, true, true>(&mut r, 0xE8B0_0086, &values);
    assert_eq!(r.get_reg(Reg::R0), 0x0300_0100);
    assert_eq!(r.get_reg(Reg::R1), 111);
    assert_eq!(r.get_reg(Reg::R2), 222);
    assert_eq!(r.get_reg(Reg::R7), 777);
    let a: Vec<u32> = stored.data.iter().map(|d| d.addr).collect();
    let b: Vec<u32> = loaded.data.iter().map(|d| d.addr).collect();
    assert_eq!(a, b);
}
