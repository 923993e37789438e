use fluorite::io::apu::Apu;
use fluorite::io::interrupt_controller::{InterruptController, InterruptEnable, InterruptRequest, IRQ_KEYPAD};
use fluorite::io::keypad::{Keypad, KEYCNT, KEYINPUT, KEY_ALL};
use fluorite::io::memory::MemoryRegion;
use fluorite::io::mgba_test_suite::{MGBALogLevel, MGBATestSuite};
use fluorite::io::timers::registers::TmCnt;
use fluorite::io::{Cycle, MemoryAccess, WaitStateControl};

#[test]
fn memory_regions_by_address() {
    assert_eq!(MemoryRegion::get_region(0x0000_0100), MemoryRegion::Bios);
    assert_eq!(MemoryRegion::get_region(0x0000_4000), MemoryRegion::Unused);
    assert_eq!(MemoryRegion::get_region(0x0200_0000), MemoryRegion::Ewram);
    assert_eq!(MemoryRegion::get_region(0x0300_7FFF), MemoryRegion::Iwram);
    assert_eq!(MemoryRegion::get_region(0x0400_0200), MemoryRegion::Io);
    assert_eq!(MemoryRegion::get_region(0x0600_0000), MemoryRegion::Vram);
    assert_eq!(MemoryRegion::get_region(0x0800_0000), MemoryRegion::Rom0L);
    assert_eq!(MemoryRegion::get_region(0x0E00_0000), MemoryRegion::Sram);
    assert_eq!(MemoryRegion::get_region(0xFF00_0000), MemoryRegion::Unused);
}

#[test]
fn access_kinds_become_cycles() {
    assert_eq!(Cycle::from(MemoryAccess::N), Cycle::N);
    assert_eq!(Cycle::from(MemoryAccess::S), Cycle::S);
}

#[test]
fn waitcnt_register_bytes() {
    let mut w = WaitStateControl::new();
    assert_eq!(w.read(0), 0);
    assert_eq!(w.get_sram_access_time(Cycle::N), 5);
    w.write(0, 0b0001_0111);
    assert_eq!(w.sram_setting, 3);
    assert_eq!(w.n_wait_state_settings[0], 1);
    assert_eq!(w.s_wait_state_settings[0], 1);
    assert_eq!(w.read(0), 0b0001_0111);
    assert_eq!(w.get_sram_access_time(Cycle::S), 9);
    w.write(1, 0x40);
    assert!(w.use_prefetch);
    assert_eq!(w.read(1), 0x40);
}

#[test]
fn keypad_events_and_interrupt() {
    let mut k = Keypad::new();
    assert_eq!(k.keyinput.0, KEY_ALL);
    assert!(!k.interrupt_requested());
    // A and B selected, interrupt on any.
    k.keycnt.write(0, 0b11);
    k.keycnt.write(1, 0x40);
    k.poll_event(KEYINPUT(0b01), true);
    assert_eq!(k.keyinput.0, KEY_ALL & !0b01);
    assert!(k.interrupt_requested());
    // AND condition: B must be pressed too.
    k.keycnt.write(1, 0xC0);
    assert!(!k.interrupt_requested());
    k.poll_event(KEYINPUT(0b10), true);
    assert!(k.interrupt_requested());
    k.poll_event(KEYINPUT(0b11), false);
    assert_eq!(k.keyinput.0, KEY_ALL);
    assert_eq!(k.keyinput.read::<1>(), 0x03);
    k.reset();
    assert_eq!(k.keycnt.0, 0);
    let c = KEYCNT(0xC3FF);
    assert_eq!(c.read::<1>(), 0xC3);
}

#[test]
fn io_interrupt_registers() {
    let mut intc = InterruptController::new();
    assert!(!intc.interrupts_requested());
    intc.enable.write::<1>(0xFF);
    assert_eq!(intc.enable.raw(), 0x3F00);
    intc.request.insert(IRQ_KEYPAD);
    assert_eq!(intc.request.bits(), 1 << 12);
    assert!(!intc.interrupts_requested());
    intc.master_enable.write::<0>(1);
    assert!(intc.master_enable.enabled());
    assert!(intc.interrupts_requested());
    // Writing a one acknowledges.
    intc.request.write::<1>(0x10);
    assert_eq!(intc.request.bits(), 0);
    let mut r = InterruptRequest::empty();
    r.bitor_assign(InterruptRequest(0b101));
    assert_eq!(r.read::<0>(), 0b101);
    assert_eq!(InterruptEnable::new().read::<0>(), 0);
}

#[test]
fn timer_control_register_bytes() {
    let mut t = TmCnt::new();
    t.write::<0>(0xC7);
    assert_eq!(t.read(0), 0xC7);
    assert_eq!(t.read(1), 0);
    t.write::<0>(0xFF);
    assert_eq!(t.read(0), 0xC7);
}

#[test]
fn apu_fifo_requests_are_taken_once() {
    let mut apu = Apu::new();
    assert!(!apu.fifo_a_req());
    assert!(!apu.fifo_b_req());
    apu.fifo_a_req = true;
    assert!(apu.fifo_a_req());
    assert!(!apu.fifo_a_req());
}

#[test]
fn mgba_debug_port() {
    let mut m = MGBATestSuite::new();
    assert!(!m.enabled());
    assert_eq!(m.read_register(0x4FFF780), 0);
    m.write_enable(0x4FFF780, 0xDE);
    m.write_enable(0x4FFF781, 0xC0);
    assert!(m.enabled());
    assert_eq!(m.read_register(0x4FFF780), 0xEA);
    assert_eq!(m.read_register(0x4FFF781), 0x1D);
    for (i, c) in "hello".chars().enumerate() {
        assert!(m.write_register(0x4FFF600 + i as u32, c as u8).is_none());
    }
    assert!(m.write_register(0x4FFF700, 1).is_none());
    let (level, text) = m.write_register(0x4FFF701, 1).unwrap();
    assert_eq!(level, MGBALogLevel::Error);
    assert_eq!(text.iter().collect::<String>(), "hello");
    assert_eq!(MGBALogLevel::new(3), MGBALogLevel::Info);
}

#[test]
fn mgba_hides_passes() {
    let mut m = MGBATestSuite::new();
    m.write_enable(0x4FFF780, 0xDE);
    m.write_enable(0x4FFF781, 0xC0);
    for (i, c) in "test PASS".chars().enumerate() {
        m.write_register(0x4FFF600 + i as u32, c as u8);
    }
    assert!(m.write_register(0x4FFF701, 1).is_none());
}

#[test]
fn keys_pressed_then_released_restore_the_state() {
    let mut k = Keypad::new();
    k.poll_event(KEYINPUT(0b100), true);
    let before = k.keyinput.0;
    k.poll_event(KEYINPUT(0b1_0010), true);
    k.poll_event(KEYINPUT(0b1_0010), false);
    assert_eq!(k.keyinput.0, before);
}

#[test]
fn prefetch_addresses_only_move_forward() {
    let mut w = WaitStateControl::new();
    w.write(1, 0x40);
    assert!(w.use_prefetch && w.can_prefetch);
    let start = w.prefetch_addr;
    w.clock_prefetch(20);
    assert!(w.can_prefetch);
    assert!(w.prefetch_addr >= start);
    assert!(w.prefetch.len() <= 8);
    let v: Vec<u32> = w.prefetch.iter().copied().collect();
    assert!(v.windows(2).all(|p| p[0] < p[1]));
    assert!(v.iter().all(|a| *a >= start && *a < w.prefetch_addr));
}
