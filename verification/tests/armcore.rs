use fluorite::armcore::registers::{CpuMode, CpuState, StatusRegister};

#[test]
fn cpu_mode() {
    let mut reg = StatusRegister::default();

    assert_eq!(reg.raw(), 0);

    reg.set_mode(CpuMode::User);

    assert_eq!(reg.raw(), 0x00000010);

    reg.set_c(true);

    assert_eq!(reg.raw(), 0x20000010);
}

#[test]
fn status_register_flags_round_trip() {
    let mut reg = StatusRegister::default();
    reg.set_n(true);
    reg.set_z(true);
    reg.set_v(true);
    assert!(reg.n() && reg.z() && reg.v() && !reg.c());
    assert_eq!(reg.raw(), 0xd000_0000);
    reg.set_z(false);
    assert_eq!(reg.raw(), 0x9000_0000);
}

#[test]
fn status_register_mode_and_state() {
    let mut reg = StatusRegister::default();
    reg.set_mode(CpuMode::Irq);
    assert_eq!(reg.mode(), CpuMode::Irq);
    assert_eq!(reg.raw() & 0x1f, 0b10010);
    reg.set_state(CpuState::THUMB);
    assert_eq!(reg.state(), CpuState::THUMB);
    assert_eq!(reg.raw() & 0x20, 0x20);
    reg.set_irq_disable(true);
    assert!(reg.irq_disable());
    assert_eq!(reg.raw() & 0x80, 0x80);
    reg.set_fiq_disable(true);
    assert!(reg.fiq_disable());
    let with = StatusRegister::default().with_mode(CpuMode::System);
    assert_eq!(with.raw(), 0x1f);
}
