use fluorite::gpu::Gpu;
use fluorite::interrupt::InterruptController;
use fluorite::iodev::{io_reg_string, DmaIo, HaltState, IoDevices, WaitControl, KEYINPUT_ALL_RELEASED};
use fluorite::sched::Scheduler;
use fluorite::sound::SoundController;
use fluorite::timer::Timers;

#[derive(Default)]
struct Dma {
    writes: Vec<(usize, u32, u16)>,
}

impl DmaIo for Dma {
    fn ctrl(&self, channel_id: usize) -> u16 {
        0x100 + channel_id as u16
    }
    fn written(&self, channel_id: usize, ofs: u32, val: u16, after: &Self) -> bool {
        after.writes.last() == Some(&(channel_id, ofs, val))
    }
    fn channel_ctrl(&self, channel_id: usize) -> u16 {
        0x100 + channel_id as u16
    }
    fn write_16(&mut self, channel_id: usize, ofs: u32, val: u16) {
        self.writes.push((channel_id, ofs, val));
    }
}

fn devices(s: &mut Scheduler) -> IoDevices<Dma> {
    let gpu = Gpu::new(s);
    let sound = SoundController::new(s);
    IoDevices::new(InterruptController::new(), gpu, Dma::default(), Timers::new(), sound)
}

#[test]
fn io_starts_idle() {
    let mut s = Scheduler::new();
    let io = devices(&mut s);
    assert_eq!(io.keyinput, KEYINPUT_ALL_RELEASED);
    assert_eq!(io.haltcnt, HaltState::Running);
    assert_eq!(io.waitcnt.0, 0);
    assert!(!io.post_boot_flag);
}

#[test]
fn interrupt_registers_read_back() {
    let mut s = Scheduler::new();
    let mut io = devices(&mut s);
    assert!(!io.write_16(&mut s, 0x200, 0x3FFF));
    assert_eq!(io.read_16(&s, 0x200), 0x3FFF);
    io.write_16(&mut s, 0x208, 5);
    assert_eq!(io.read_16(&s, 0x208), 1);
    io.intc.flags.0 = 0b1011;
    io.write_16(&mut s, 0x202, 0b0011);
    assert_eq!(io.read_16(&s, 0x202), 0b1000);
    assert_eq!(io.read_16(&s, 0x200), 0x3FFF);
}

#[test]
fn waitcnt_write_is_reported() {
    let mut s = Scheduler::new();
    let mut io = devices(&mut s);
    assert!(io.write_16(&mut s, 0x204, 0x4317));
    assert_eq!(io.read_16(&s, 0x204), 0x4317);
    assert_eq!(io.waitcnt, WaitControl(0x4317));
}

#[test]
fn display_registers_go_to_the_gpu() {
    let mut s = Scheduler::new();
    let mut io = devices(&mut s);
    io.write_16(&mut s, 0x000, 0x0403);
    assert_eq!(io.gpu.dispcnt.mode, 3);
    assert!(io.gpu.dispcnt.enable_bg[2]);
    assert_eq!(io.read_16(&s, 0x000), 0x0403);
    io.write_16(&mut s, 0x008, 0x1F03);
    assert_eq!(io.read_16(&s, 0x008) & 0x3, 3);
    assert_eq!(io.read_16(&s, 0x006), 0);
}

#[test]
fn byte_access_merges_halves() {
    let mut s = Scheduler::new();
    let mut io = devices(&mut s);
    io.write_8(&mut s, 0x200, 0x34);
    io.write_8(&mut s, 0x201, 0x12);
    assert_eq!(io.read_16(&s, 0x200), 0x1234);
    assert_eq!(io.read_8(&s, 0x200), 0x34);
    assert_eq!(io.read_8(&s, 0x201), 0x12);
}

#[test]
fn timers_sound_and_dma_are_forwarded() {
    let mut s = Scheduler::new();
    let mut io = devices(&mut s);
    io.write_16(&mut s, 0x100, 0xF000);
    assert_eq!(io.read_16(&s, 0x100), 0xF000);
    io.write_16(&mut s, 0x082, 0x0B0E);
    assert_eq!(io.sound.dma_sound[0].volume_shift, 1);
    assert!(io.sound.dma_sound[1].volume_shift == 1 && io.sound.dma_sound[0].enable_right);
    io.write_16(&mut s, 0x080, 0x1177);
    assert_eq!(io.read_16(&s, 0x080), 0x1133);
    io.write_16(&mut s, 0x084, 0x80);
    assert_eq!(io.read_16(&s, 0x084), 0x80);
    assert_eq!(io.read_8(&s, 0x088), 0x00);
    assert_eq!(io.read_8(&s, 0x089), 0x02);
    io.write_8(&mut s, 0x081, 0x22);
    assert_eq!(io.read_16(&s, 0x080), 0x2233);
    io.write_16(&mut s, 0x0BA, 0x8000);
    assert_eq!(io.dmac.writes, vec![(0, 10, 0x8000)]);
    assert_eq!(io.read_16(&s, 0x0C6), 0x101);
    assert_eq!(io.read_8(&s, 0x0C7), 0x01);
    io.write_8(&mut s, 0x0D3, 0x84);
    assert_eq!(io.dmac.writes.last(), Some(&(2, 10, 0x8402)));
}

#[test]
fn halt_post_boot_and_keys() {
    let mut s = Scheduler::new();
    let mut io = devices(&mut s);
    io.write_16(&mut s, 0x300, 1);
    assert!(io.post_boot_flag);
    assert_eq!(io.haltcnt, HaltState::Running);
    io.write_16(&mut s, 0x301, 0);
    assert_eq!(io.haltcnt, HaltState::Halt);
    assert_eq!(io.read_16(&s, 0x130), KEYINPUT_ALL_RELEASED);
    io.write_16(&mut s, 0x130, 0x3FE);
    assert_eq!(io.read_16(&s, 0x130), 0x3FE);
    assert_eq!(io.read_16(&s, 0x300), 1);
}

#[test]
fn wait_control_fields() {
    let w = WaitControl(0b0100_0011_0001_0111);
    assert_eq!(w.sram_wait_control(), 0b11);
    assert_eq!(w.ws0_first_access(), 0b01);
    assert!(w.ws0_second_access());
    assert_eq!(WaitControl::new().0, 0);
}

#[test]
fn register_names() {
    assert_eq!(io_reg_string(0x0400_0000), "REG_DISPCNT");
    assert_eq!(io_reg_string(0x0400_0004), "REG_DISPSTAT");
    assert_eq!(io_reg_string(0x0400_0208), "REG_IME");
    assert_eq!(io_reg_string(0x0400_0301), "REG_HALTCNT");
    assert_eq!(io_reg_string(0x04FF_F780), "REG_DEBUG_ENABLE");
    assert_eq!(io_reg_string(0x0400_0122), "UNKNOWN");
    assert_eq!(io_reg_string(0x0400_0005), "UNKNOWN");
    assert_eq!(io_reg_string(0x0000_0004), "UNKNOWN");
}

#[test]
fn vcount_takes_any_value() {
    let mut s = Scheduler::new();
    let mut io = devices(&mut s);
    io.write_16(&mut s, 0x006, 300);
    assert_eq!(io.gpu.vcount, 300);
    assert_eq!(io.read_16(&s, 0x006), 300);
}

#[test]
fn unnamed_address_write_is_ignored() {
    let mut s = Scheduler::new();
    let mut io = devices(&mut s);
    io.write_16(&mut s, 0x05E, 0x1234);
    assert_eq!(io.read_16(&s, 0x05E), 0);
    assert_eq!(io.read_16(&s, 0x000), 0x0080);
}
