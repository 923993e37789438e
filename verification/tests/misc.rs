use fluorite::fps::FpsCounter;
use fluorite::gamepak::rom::{Rom, HEADER_SIZE};
use fluorite::gamepak::Gamepak;
use fluorite::iodev::WaitControl;
use fluorite::sched::{ApuEvent, EventType, Scheduler};
use fluorite::sound::{
    apply_bias, bit, cbit, SoundController, SoundFifo, REG_FIFO_A_L, REG_SOUNDBIAS, REG_SOUNDCNT_H, REG_SOUNDCNT_L,
    REG_SOUNDCNT_X,
};
use fluorite::sysbus::CycleLookupTables;

#[test]
fn bias_clamps_to_ten_bits() {
    let mut s: i16 = 100;
    apply_bias(&mut s, 0x200);
    assert_eq!(s, 100);
    let mut s: i16 = 0x300;
    apply_bias(&mut s, 0x200);
    assert_eq!(s, 0x3FF - 0x200);
    let mut s: i16 = -0x300;
    apply_bias(&mut s, 0x200);
    assert_eq!(s, -0x200);
    assert_eq!(cbit(3, true), 8);
    assert_eq!(cbit(3, false), 0);
    assert_eq!(bit(15), 0x8000);
}

#[test]
fn fifo_is_first_in_first_out_with_capacity() {
    let mut f = SoundFifo::new();
    assert_eq!(f.read(), 0);
    for i in 0..40i8 {
        f.write(i);
    }
    assert_eq!(f.count(), 32);
    assert_eq!(f.read(), 0);
    assert_eq!(f.read(), 1);
    f.write(-5);
    assert_eq!(f.count(), 31);
    for expected in 2..32i8 {
        assert_eq!(f.read(), expected);
    }
    assert_eq!(f.read(), -5);
    assert_eq!(f.count(), 0);
    f.write(1);
    f.reset();
    assert_eq!(f.count(), 0);
}

#[test]
fn sound_controller_registers() {
    let mut s = Scheduler::new();
    let mut c = SoundController::new(&mut s);
    assert_eq!(s.events[0].ty, EventType::Apu(ApuEvent::Sample));
    assert_eq!(s.events[0].time, 512);
    assert_eq!(c.handle_read(REG_SOUNDBIAS), 0x200);
    c.handle_write(REG_SOUNDCNT_X, 0x80);
    assert!(c.mse);
    assert_eq!(c.handle_read(REG_SOUNDCNT_X), 0x80);
    c.handle_write(REG_SOUNDCNT_L, 0x1177);
    assert_eq!(c.handle_read(REG_SOUNDCNT_L), 0x1133);
    c.handle_write(REG_SOUNDBIAS, 0x4200);
    assert_eq!(c.sample_rate, 65536);
    assert_eq!(c.cycles_per_sample, 256);
    assert_eq!(c.handle_read(REG_SOUNDBIAS), 0x4200);
}

#[test]
fn sound_fifo_register_and_mixing() {
    let mut s = Scheduler::new();
    let mut c = SoundController::new(&mut s);
    // FIFO A full volume, both speakers.
    c.handle_write(REG_SOUNDCNT_H, 0x0304);
    assert_eq!(c.dma_sound[0].volume_shift, 1);
    assert!(c.dma_sound[0].enable_left && c.dma_sound[0].enable_right);
    c.handle_write(REG_FIFO_A_L, 0x0201);
    assert_eq!(c.dma_sound[0].fifo.count(), 2);
    c.dma_sound[0].value = 10;
    let sample = c.on_sample(0, &mut s);
    assert_eq!(sample, [40, 40]);
    assert_eq!(s.events.last().unwrap().time, 512);
    // Reset bit empties the FIFO.
    c.handle_write(REG_SOUNDCNT_H, 0b1000_0000_0000);
    assert_eq!(c.dma_sound[0].fifo.count(), 0);
}

#[test]
fn frame_counter_counts_until_a_second_passes() {
    let mut f = FpsCounter::default();
    assert_eq!(f.count, 0);
    assert_eq!(f.tick(), None);
    assert_eq!(f.count, 1);
}

fn header_with_title(title: &[u8]) -> Vec<u8> {
    let mut data = vec![0u8; 0x400];
    data[0xA0..0xA0 + title.len()].copy_from_slice(title);
    data[0xAC..0xB0].copy_from_slice(b"BPEE");
    data[0xB2] = 0x96;
    // Find a filler byte and a complement byte that check out.
    for f in 0..=255u8 {
        data[0xBE] = f;
        for c in 0..=255u8 {
            data[0xBD] = c;
            let sum = data[..HEADER_SIZE].iter().fold(0u8, |a, x| a.wrapping_add(*x));
            if (sum as u16) + 0x19 <= 0xFF && sum + 0x19 != 0x80 {
                let val = sum + 0x19;
                if 0u8.wrapping_sub(val) == c {
                    return data;
                }
            }
        }
    }
    panic!("no complement");
}

#[test]
fn rom_load_reads_a_valid_header() {
    let mut rom = Rom::default();
    rom.load(header_with_title(b"EMERALD"));
    assert!(rom.data.is_empty());
    assert_eq!(rom.title.trim_end_matches('\0'), "EMERALD");
    assert_eq!(rom.code, "BPEE");
}

#[test]
fn rom_load_keeps_names_without_valid_header() {
    let mut rom = Rom::default();
    let mut data = header_with_title(b"EMERALD");
    data[0xB2] = 0;
    rom.load(data);
    assert_eq!(rom.title, "");
    let mut g = Gamepak::new();
    assert!(!g.ready());
    g.load(vec![1u8; 0x200]);
    assert!(!g.ready());
    g.rom.data = vec![1u8; 0x200];
    assert!(g.ready());
}

#[test]
fn cycle_tables_follow_wait_states() {
    let mut t = CycleLookupTables::default();
    assert_eq!(t.n_cycles32[2], 1);
    t.init();
    assert_eq!(t.n_cycles32[2], 6);
    assert_eq!(t.n_cycles16[2], 3);
    assert_eq!(t.n_cycles32[6], 2);
    t.update_gamepak_waitstates(WaitControl(0));
    assert_eq!(t.n_cycles16[8], 5);
    assert_eq!(t.s_cycles16[8], 3);
    assert_eq!(t.n_cycles32[8], 8);
    assert_eq!(t.s_cycles32[8], 6);
    assert_eq!(t.n_cycles32[0xE], 5);
    // Fastest settings: wait state 0 first access 2, second access 1.
    t.update_gamepak_waitstates(WaitControl(0b1_1000));
    assert_eq!(t.n_cycles16[8], 3);
    assert_eq!(t.s_cycles16[8], 2);
}

#[test]
fn frame_counter_reports_once_a_second_passed() {
    let mut f = FpsCounter::default();
    let start = f.timer;
    assert_eq!(f.tick_at(0, std::time::Instant::now()), None);
    assert_eq!(f.tick_at(0, std::time::Instant::now()), None);
    assert_eq!(f.count, 2);
    assert_eq!(f.timer, start);
    let now = std::time::Instant::now();
    assert_eq!(f.tick_at(1, now), Some(3));
    assert_eq!(f.count, 0);
    assert_eq!(f.timer, now);
    assert_eq!(f.tick_at(5, now), Some(1));
}

#[test]
fn fifo_full_write_and_empty_read_change_nothing() {
    let mut f = SoundFifo::new();
    let before = f;
    assert_eq!(f.read(), 0);
    assert_eq!((f.wr_pos, f.rd_pos, f.count), (before.wr_pos, before.rd_pos, before.count));
    for i in 0..32i8 {
        f.write(i);
    }
    let full = f;
    f.write(99);
    assert_eq!((f.wr_pos, f.rd_pos, f.count), (full.wr_pos, full.rd_pos, full.count));
    assert_eq!(f.data, full.data);
}
