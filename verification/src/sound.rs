use vstd::prelude::*;
use crate::sched::{ApuEvent, Event, EventType, Scheduler};

verus! {

/// Capacity of a sound FIFO in samples.
pub const SOUND_FIFO_CAPACITY: usize = 32;

/// Adds `level` to a sample, clamps the sum to 0..=0x3FF and takes `level` off again.
pub fn apply_bias(sample: &mut i16, level: i16)
    requires
        0 <= level <= 0x3FF,
        *old(sample) + level <= i16::MAX,
        *old(sample) + level >= i16::MIN,
    ensures
        *final(sample) == (if *old(sample) + level > 0x3FF {
            0x3FF - level
        } else if *old(sample) + level < 0 {
            -level
        } else {
            *old(sample) as int
        }),
{
    let mut s = *sample;
    s = s + level;
    if s > 0x3ff {
        s = 0x3ff;
    } else if s < 0 {
        s = 0;
    }
    s = s - level;
    *sample = s;
}

/// Bit `idx` set when `value` holds.
pub fn cbit(idx: u8, value: bool) -> (r: u16)
    requires
        idx < 16,
    ensures
        r == (if value { 1u16 << idx } else { 0 }),
{
    if value {
        1 << idx
    } else {
        0
    }
}

/// Bit `idx`.
pub fn bit(idx: u8) -> (r: u16)
    requires
        idx < 16,
    ensures
        r == 1u16 << idx,
{
    1 << idx
}

/// A ring buffer of 32 signed 8-bit samples.
#[derive(Clone, Copy, Debug)]
pub struct SoundFifo {
    pub wr_pos: usize,
    pub rd_pos: usize,
    pub count: usize,
    pub data: [i8; SOUND_FIFO_CAPACITY],
}

impl View for SoundFifo {
    type V = Seq<i8>;

    /// The queued samples, oldest first.
    open spec fn view(&self) -> Seq<i8> {
        Seq::new(self.count as nat, |i: int| self.data[(self.rd_pos + i) % (SOUND_FIFO_CAPACITY as int)])
    }
}

impl SoundFifo {
    /// Positions in the ring and a count up to the capacity, with the write position
    /// `count` places after the read position.
    pub open spec fn wf(&self) -> bool {
        &&& self.rd_pos < SOUND_FIFO_CAPACITY
        &&& self.wr_pos < SOUND_FIFO_CAPACITY
        &&& self.count <= SOUND_FIFO_CAPACITY
        &&& self.wr_pos == (self.rd_pos + self.count) % (SOUND_FIFO_CAPACITY as int)
    }

    pub fn new() -> (r: SoundFifo)
        ensures
            r.wf(),
            r.view() == Seq::<i8>::empty(),
            r.wr_pos == 0 && r.rd_pos == 0 && r.count == 0,
            forall|i: int| 0 <= i < SOUND_FIFO_CAPACITY ==> r.data[i] == 0,
    {
        let r = SoundFifo { wr_pos: 0, rd_pos: 0, count: 0, data: [0; SOUND_FIFO_CAPACITY] };
        assert(r.view() =~= Seq::<i8>::empty());
        r
    }

    /// Appends a sample; a full FIFO drops it.
    pub fn write(&mut self, value: i8)
        requires
            old(self).wf(),
        ensures
            final(self).wf(),
            old(self).view().len() < SOUND_FIFO_CAPACITY ==> final(self).view() == old(self).view().push(value),
            old(self).view().len() >= SOUND_FIFO_CAPACITY ==> *final(self) == *old(self),
    {
        if self.count >= SOUND_FIFO_CAPACITY {
            return;
        }
        let ghost before = self.view();
        self.data[self.wr_pos] = value;
        self.wr_pos = (self.wr_pos + 1) % SOUND_FIFO_CAPACITY;
        self.count = self.count + 1;
        proof {
            assert forall|i: int| 0 <= i < self.count implies #[trigger] self.view()[i] == before.push(value)[i] by {
                if i < self.count - 1 {
                    assert((self.rd_pos + i) % 32 != (self.rd_pos + (self.count - 1)) % 32);
                }
            }
            assert(self.view() =~= before.push(value));
        }
    }

    /// Takes the oldest sample; an empty FIFO gives 0.
    pub fn read(&mut self) -> (r: i8)
        requires
            old(self).wf(),
        ensures
            final(self).wf(),
            old(self).view().len() > 0 ==> r == old(self).view()[0] && final(self).view() == old(self).view().drop_first(),
            old(self).view().len() == 0 ==> r == 0 && *final(self) == *old(self),
    {
        if self.count == 0 {
            return 0;
        }
        let ghost before = self.view();
        let value = self.data[self.rd_pos];
        self.rd_pos = (self.rd_pos + 1) % SOUND_FIFO_CAPACITY;
        self.count = self.count - 1;
        proof {
            assert forall|i: int| 0 <= i < self.count implies #[trigger] self.view()[i] == before.drop_first()[i] by {
                assert(((old(self).rd_pos + 1) % 32 + i) % 32 == (old(self).rd_pos + (i + 1)) % 32);
            }
            assert(self.view() =~= before.drop_first());
        }
        value
    }

    pub fn count(&self) -> (r: usize)
        ensures
            r == self.view().len(),
    {
        self.count
    }

    /// Empties the FIFO.
    pub fn reset(&mut self)
        ensures
            final(self).wf(),
            final(self).view() == Seq::<i8>::empty(),
    {
        self.wr_pos = 0;
        self.rd_pos = 0;
        self.count = 0;
        assert(self.view() =~= Seq::<i8>::empty());
    }
}

/// Samples leave a FIFO in the order they were written: writing `v` to a FIFO that is
/// not full and then reading gives its oldest sample, which is `v` when it was empty.
pub proof fn law_fifo_order(queued: Seq<i8>, v: i8)
    requires
        queued.len() < SOUND_FIFO_CAPACITY,
    ensures
        queued.push(v)[0] == (if queued.len() == 0 { v } else { queued[0] }),
        queued.push(v).drop_first().len() == queued.len(),
        queued.len() > 0 ==> queued.push(v).drop_first() == queued.drop_first().push(v),
{
    if queued.len() > 0 {
        assert(queued.push(v).drop_first() =~= queued.drop_first().push(v));
    }
}

/// A direct sound channel: its FIFO and output settings.
#[derive(Clone, Copy, Debug)]
pub struct DmaSoundChannel {
    pub value: i8,
    pub volume_shift: i16,
    pub enable_right: bool,
    pub enable_left: bool,
    pub timer_select: usize,
    pub fifo: SoundFifo,
}

impl DmaSoundChannel {
    /// Whether the channel plays on the left (0) or right (1) speaker.
    pub fn is_stereo_channel_enabled(&self, channel: usize) -> (r: bool)
        requires
            channel < 2,
        ensures
            r == (if channel == 0 { self.enable_left } else { self.enable_right }),
    {
        match channel {
            0 => self.enable_left,
            _ => self.enable_right,
        }
    }
}

impl Default for DmaSoundChannel {
    fn default() -> (r: DmaSoundChannel)
        ensures
            r.value == 0 && r.volume_shift == 0 && !r.enable_right && !r.enable_left && r.timer_select == 0,
            r.fifo.wf() && r.fifo.view() == Seq::<i8>::empty(),
    {
        DmaSoundChannel {
            volume_shift: 0,
            value: 0,
            enable_right: false,
            enable_left: false,
            timer_select: 0,
            fifo: SoundFifo::new(),
        }
    }
}


pub const REG_SOUND1CNT_H: u32 = 0x0400_0062;
pub const REG_SOUND1CNT_X: u32 = 0x0400_0064;
pub const REG_SOUNDCNT_L: u32 = 0x0400_0080;
pub const REG_SOUNDCNT_H: u32 = 0x0400_0082;
pub const REG_SOUNDCNT_X: u32 = 0x0400_0084;
pub const REG_SOUNDBIAS: u32 = 0x0400_0088;
pub const REG_FIFO_A_L: u32 = 0x0400_00A0;
pub const REG_FIFO_A_H: u32 = 0x0400_00A2;
pub const REG_FIFO_B_L: u32 = 0x0400_00A4;
pub const REG_FIFO_B_H: u32 = 0x0400_00A6;

/// Bits `lo` up to (not including) `hi` of `v`.
pub open spec fn bit_range(v: u16, lo: u16, hi: u16) -> u16 {
    (v >> lo) & low_mask16(hi - lo)
}

/// The lowest `n` bits set, for a field width `n` from 1 to 16.
pub open spec fn low_mask16(n: int) -> u16 {
    if n == 1 { 0x1 } else if n == 2 { 0x3 } else if n == 3 { 0x7 } else if n == 4 { 0xF }
    else if n == 5 { 0x1F } else if n == 6 { 0x3F } else if n == 7 { 0x7F } else if n == 8 { 0xFF }
    else if n == 9 { 0x1FF } else if n == 10 { 0x3FF } else if n == 11 { 0x7FF } else if n == 12 { 0xFFF }
    else if n == 13 { 0x1FFF } else if n == 14 { 0x3FFF } else if n == 15 { 0x7FFF } else if n == 16 { 0xFFFF }
    else { 0 }
}

/// Bit `i` of `v`.
pub open spec fn bit_of16(v: u16, i: u16) -> bool {
    (v >> i) & 1 == 1
}

/// The sound unit's registers and its two direct sound channels. Where the unit works
/// with fractions, the fields hold what they are computed from: the index of the PSG
/// volume ratio (0.25, 0.5, 1 or 0 of full), 64 minus the length bits of square channel
/// 1 (its length in 1/256 s), the index of its duty ratio (1/8, 1/4, 1/2, 3/4), and the
/// sample rate in Hz.
pub struct SoundController {
    pub mse: bool,
    pub left_volume: usize,
    pub left_sqr1: bool,
    pub left_sqr2: bool,
    pub left_wave: bool,
    pub left_noise: bool,
    pub right_volume: usize,
    pub right_sqr1: bool,
    pub right_sqr2: bool,
    pub right_wave: bool,
    pub right_noise: bool,
    pub dmg_volume_ratio: usize,
    pub sqr1_rate: usize,
    pub sqr1_timed: bool,
    pub sqr1_length: usize,
    pub sqr1_duty: usize,
    pub sqr1_step_time: usize,
    pub sqr1_step_increase: bool,
    pub sqr1_initial_vol: usize,
    pub sqr1_cur_vol: usize,
    pub sound_bias: u16,
    pub sample_rate: u32,
    pub cycles_per_sample: usize,
    pub dma_sound: [DmaSoundChannel; 2],
}

impl SoundController {
    /// Both FIFOs are well formed, the volume shifts are 0 or 1 and the PSG volumes
    /// are below 4.
    pub open spec fn wf(&self) -> bool {
        &&& self.dma_sound[0].fifo.wf()
        &&& self.dma_sound[1].fifo.wf()
        &&& 0 <= self.dma_sound[0].volume_shift <= 1
        &&& 0 <= self.dma_sound[1].volume_shift <= 1
        &&& self.left_volume < 4
        &&& self.right_volume < 4
    }

    /// A silent unit sampling at 32768 Hz; the first sample is scheduled in 512 cycles.
    pub fn new(scheduler: &mut Scheduler) -> (r: Self)
        requires
            old(scheduler).timestamp + 512 <= usize::MAX,
        ensures
            r.wf(),
            !r.mse,
            r.sound_bias == 0x200,
            r.sample_rate == 32768,
            r.cycles_per_sample == 512,
            r.dma_sound[0].fifo.view() == Seq::<i8>::empty(),
            r.dma_sound[1].fifo.view() == Seq::<i8>::empty(),
            final(scheduler).timestamp == old(scheduler).timestamp,
            final(scheduler).events@ == old(scheduler).events@.push(
                Event { ty: EventType::Apu(ApuEvent::Sample), time: (old(scheduler).timestamp + 512) as usize, cancel: false },
            ),
    {
        let cycles_per_sample: usize = 512;
        scheduler.push(EventType::Apu(ApuEvent::Sample), cycles_per_sample);
        Self {
            mse: false,
            left_volume: 0,
            left_sqr1: false,
            left_sqr2: false,
            left_wave: false,
            left_noise: false,
            right_volume: 0,
            right_sqr1: false,
            right_sqr2: false,
            right_wave: false,
            right_noise: false,
            dmg_volume_ratio: 3,
            sqr1_rate: 0,
            sqr1_timed: false,
            sqr1_length: 0,
            sqr1_duty: 0,
            sqr1_step_time: 0,
            sqr1_step_increase: false,
            sqr1_initial_vol: 0,
            sqr1_cur_vol: 0,
            sound_bias: 0x200,
            sample_rate: 32768,
            cycles_per_sample,
            dma_sound: [DmaSoundChannel::default(), DmaSoundChannel::default()],
        }
    }

    /// Reads SOUNDCNT_X (the master enable), SOUNDCNT_L (volumes and channel enables) or
    /// SOUNDBIAS; other registers read 0.
    pub fn handle_read(&self, addr: u32) -> (r: u16)
        requires
            addr != REG_SOUNDCNT_H,
            self.left_volume < 4,
            self.right_volume < 4,
        ensures
            r == sound_read(*self, addr),
    {
        if addr == REG_SOUNDCNT_X {
            proof {
                crate::bits::lemma_u16_bits(0, 0, 0);
            }
            cbit(7, self.mse)
        } else if addr == REG_SOUNDCNT_L {
            self.left_volume as u16 | (self.right_volume as u16) << 4 | cbit(8, self.left_sqr1) | cbit(9, self.left_sqr2) | cbit(
                10,
                self.left_wave,
            ) | cbit(11, self.left_noise) | cbit(12, self.right_sqr1) | cbit(13, self.right_sqr2) | cbit(14, self.right_wave)
                | cbit(15, self.right_noise)
        } else if addr == REG_SOUNDBIAS {
            self.sound_bias
        } else {
            0
        }
    }
}


/// `c2` is `c` after a write of `val` to SOUNDCNT_H.
pub open spec fn cnt_h_rel(c: SoundController, c2: SoundController, val: u16) -> bool {
    &&& c2.dmg_volume_ratio == bit_range(val, 0, 1)
    &&& c2.dma_sound[0].volume_shift == if bit_of16(val, 2) { 1i16 } else { 0 }
    &&& c2.dma_sound[1].volume_shift == if bit_of16(val, 3) { 1i16 } else { 0 }
    &&& c2.dma_sound[0].enable_right == bit_of16(val, 8)
    &&& c2.dma_sound[0].enable_left == bit_of16(val, 9)
    &&& c2.dma_sound[0].timer_select == if bit_of16(val, 10) { 1usize } else { 0 }
    &&& c2.dma_sound[1].enable_right == bit_of16(val, 12)
    &&& c2.dma_sound[1].enable_left == bit_of16(val, 13)
    &&& c2.dma_sound[1].timer_select == if bit_of16(val, 14) { 1usize } else { 0 }
    &&& c2.dma_sound[0].value == c.dma_sound[0].value
    &&& c2.dma_sound[1].value == c.dma_sound[1].value
    &&& c2.dma_sound[0].fifo.view() == if bit_of16(val, 11) { Seq::<i8>::empty() } else { c.dma_sound[0].fifo.view() }
    &&& c2.dma_sound[1].fifo.view() == if bit_of16(val, 15) { Seq::<i8>::empty() } else { c.dma_sound[1].fifo.view() }
    &&& c2 == (SoundController { dmg_volume_ratio: c2.dmg_volume_ratio, dma_sound: c2.dma_sound, ..c })
}

/// `c2` is `c` after a write of `val` to a FIFO register of channel `k`: its low then
/// its high byte are queued, each only while the FIFO is not full.
pub open spec fn fifo_rel(c: SoundController, c2: SoundController, k: int, val: u16) -> bool {
    let q = c.dma_sound[k].fifo.view();
    let q1 = if q.len() < SOUND_FIFO_CAPACITY { q.push((val & 0xff) as i8) } else { q };
    let q2 = if q1.len() < SOUND_FIFO_CAPACITY { q1.push(((val >> 8u16) & 0xff) as i8) } else { q1 };
    &&& c2.dma_sound[k].fifo.view() == q2
    &&& c2.dma_sound[1 - k] == c.dma_sound[1 - k]
    &&& c2.dma_sound[k].value == c.dma_sound[k].value
    &&& c2.dma_sound[k].volume_shift == c.dma_sound[k].volume_shift
    &&& c2.dma_sound[k].enable_left == c.dma_sound[k].enable_left
    &&& c2.dma_sound[k].enable_right == c.dma_sound[k].enable_right
    &&& c2.dma_sound[k].timer_select == c.dma_sound[k].timer_select
    &&& c2 == (SoundController { dma_sound: c2.dma_sound, ..c })
}

/// `c2` is `c` after a write of `val` to sound register `addr`.
pub open spec fn sound_write_rel(c: SoundController, c2: SoundController, addr: u32, val: u16) -> bool {
    if addr == REG_SOUNDCNT_X {
        c2 == (SoundController { mse: bit_of16(val, 7), ..c })
    } else if addr == REG_SOUNDCNT_L {
        c2 == (SoundController {
            left_volume: bit_range(val, 0, 2) as usize,
            right_volume: bit_range(val, 4, 6) as usize,
            left_sqr1: bit_of16(val, 8),
            left_sqr2: bit_of16(val, 9),
            left_wave: bit_of16(val, 10),
            left_noise: bit_of16(val, 11),
            right_sqr1: bit_of16(val, 12),
            right_sqr2: bit_of16(val, 13),
            right_wave: bit_of16(val, 14),
            right_noise: bit_of16(val, 15),
            ..c
        })
    } else if addr == REG_SOUNDCNT_H {
        cnt_h_rel(c, c2, val)
    } else if addr == REG_SOUND1CNT_H {
        c2 == (SoundController {
            sqr1_length: (64 - bit_range(val, 0, 5)) as usize,
            sqr1_duty: bit_range(val, 6, 7) as usize,
            sqr1_step_time: bit_range(val, 8, 10) as usize,
            sqr1_step_increase: bit_of16(val, 11),
            sqr1_initial_vol: bit_range(val, 12, 15) as usize,
            ..c
        })
    } else if addr == REG_SOUND1CNT_X {
        c2 == (SoundController {
            sqr1_rate: bit_range(val, 0, 10) as usize,
            sqr1_timed: bit_of16(val, 14),
            sqr1_cur_vol: if bit_of16(val, 15) { c.sqr1_initial_vol } else { c.sqr1_cur_vol },
            ..c
        })
    } else if addr == REG_FIFO_A_L || addr == REG_FIFO_A_H {
        fifo_rel(c, c2, 0, val)
    } else if addr == REG_FIFO_B_L || addr == REG_FIFO_B_H {
        fifo_rel(c, c2, 1, val)
    } else if addr == REG_SOUNDBIAS {
        c2 == (SoundController {
            sound_bias: val & 0xc3fe,
            sample_rate: (32768u32 << bit_range(val & 0xc3fe, 14, 16)) as u32,
            cycles_per_sample: (512usize >> bit_range(val & 0xc3fe, 14, 16)) as usize,
            ..c
        })
    } else {
        c2 == c
    }
}

impl SoundController {
    fn write_cnt_l(&mut self, val: u16)
        ensures
            sound_write_rel(*old(self), *final(self), REG_SOUNDCNT_L, val),
    {
        self.left_volume = ((val >> 0) & 0b11) as usize;
        self.right_volume = ((val >> 4) & 0b11) as usize;
        self.left_sqr1 = (val >> 8) & 1 == 1;
        self.left_sqr2 = (val >> 9) & 1 == 1;
        self.left_wave = (val >> 10) & 1 == 1;
        self.left_noise = (val >> 11) & 1 == 1;
        self.right_sqr1 = (val >> 12) & 1 == 1;
        self.right_sqr2 = (val >> 13) & 1 == 1;
        self.right_wave = (val >> 14) & 1 == 1;
        self.right_noise = (val >> 15) & 1 == 1;
    }

    #[verifier::spinoff_prover]
    fn write_cnt_h(&mut self, val: u16)
        requires
            old(self).wf(),
        ensures
            final(self).wf(),
            cnt_h_rel(*old(self), *final(self), val),
    {
        let mut c0 = self.dma_sound[0];
        let mut c1 = self.dma_sound[1];
        c0.volume_shift = if (val >> 2) & 1 == 1 { 1 } else { 0 };
        c1.volume_shift = if (val >> 3) & 1 == 1 { 1 } else { 0 };
        c0.enable_right = (val >> 8) & 1 == 1;
        c0.enable_left = (val >> 9) & 1 == 1;
        c0.timer_select = if (val >> 10) & 1 == 1 { 1 } else { 0 };
        c1.enable_right = (val >> 12) & 1 == 1;
        c1.enable_left = (val >> 13) & 1 == 1;
        c1.timer_select = if (val >> 14) & 1 == 1 { 1 } else { 0 };
        if (val >> 11) & 1 == 1 {
            c0.fifo.reset();
        }
        if (val >> 15) & 1 == 1 {
            c1.fifo.reset();
        }
        self.dmg_volume_ratio = ((val >> 0) & 1) as usize;
        self.dma_sound = [c0, c1];
    }

    fn write_sqr1(&mut self, addr: u32, val: u16)
        requires
            addr == REG_SOUND1CNT_H || addr == REG_SOUND1CNT_X,
        ensures
            sound_write_rel(*old(self), *final(self), addr, val),
    {
        if addr == REG_SOUND1CNT_H {
            proof {
                crate::bits::lemma_u16_bits(val, 0, 0x1F);
            }
            self.sqr1_length = 64 - ((val >> 0) & 0x1F) as usize;
            self.sqr1_duty = ((val >> 6) & 1) as usize;
            self.sqr1_step_time = ((val >> 8) & 3) as usize;
            self.sqr1_step_increase = (val >> 11) & 1 == 1;
            self.sqr1_initial_vol = ((val >> 12) & 7) as usize;
        } else {
            self.sqr1_rate = ((val >> 0) & 0x3FF) as usize;
            self.sqr1_timed = (val >> 14) & 1 == 1;
            if (val >> 15) & 1 == 1 {
                self.sqr1_cur_vol = self.sqr1_initial_vol;
            }
        }
    }

    fn write_fifo(&mut self, k: usize, val: u16)
        requires
            old(self).wf(),
            k < 2,
        ensures
            final(self).wf(),
            fifo_rel(*old(self), *final(self), k as int, val),
    {
        let mut c = self.dma_sound[k];
        c.fifo.write((val & 0xff) as i8);
        c.fifo.write(((val >> 8) & 0xff) as i8);
        if k == 0 {
            self.dma_sound = [c, self.dma_sound[1]];
        } else {
            self.dma_sound = [self.dma_sound[0], c];
        }
    }

    fn write_bias(&mut self, val: u16)
        ensures
            sound_write_rel(*old(self), *final(self), REG_SOUNDBIAS, val),
    {
        self.sound_bias = val & 0xc3fe;
        let resolution = (self.sound_bias >> 14) & 3;
        proof {
            crate::bits::lemma_u16_bits(val & 0xc3feu16, 14, 3);
        }
        self.sample_rate = 32768u32 << resolution;
        self.cycles_per_sample = 512usize >> resolution;
    }

    /// A write to a sound register: SOUNDCNT_X sets the master enable; SOUNDCNT_L the
    /// volumes and channel enables; SOUNDCNT_H the PSG ratio and the direct sound
    /// settings (bits 11 and 15 empty the FIFOs); SOUND1CNT_H and _X square channel 1;
    /// a FIFO register queues its two bytes; SOUNDBIAS the bias and, with it, the
    /// sample rate.
    pub fn handle_write(&mut self, addr: u32, val: u16)
        requires
            old(self).wf(),
        ensures
            final(self).wf(),
            sound_write_rel(*old(self), *final(self), addr, val),
    {
        if addr == REG_SOUNDCNT_X {
            self.mse = (val >> 7) & 1 == 1;
            return;
        }
        if addr == REG_SOUNDCNT_L {
            proof {
                crate::bits::lemma_u16_bits(val, 0, 3);
                crate::bits::lemma_u16_bits(val, 4, 3);
            }
            self.write_cnt_l(val);
        } else if addr == REG_SOUNDCNT_H {
            self.write_cnt_h(val);
        } else if addr == REG_SOUND1CNT_H || addr == REG_SOUND1CNT_X {
            self.write_sqr1(addr, val);
        } else if addr == REG_FIFO_A_L || addr == REG_FIFO_A_H {
            self.write_fifo(0, val);
        } else if addr == REG_FIFO_B_L || addr == REG_FIFO_B_H {
            self.write_fifo(1, val);
        } else if addr == REG_SOUNDBIAS {
            self.write_bias(val);
        }
    }
}


/// The value of a sound register: SOUNDCNT_X (the master enable), SOUNDCNT_L (volumes
/// and channel enables) or SOUNDBIAS; other registers read 0.
pub open spec fn sound_read(c: SoundController, addr: u32) -> u16 {
    if addr == REG_SOUNDCNT_X {
        if c.mse { 0x80u16 } else { 0 }
    } else if addr == REG_SOUNDCNT_L {
        (c.left_volume as u16 | (c.right_volume as u16) << 4u16 | (if c.left_sqr1 { 1u16 << 8u16 } else { 0 })
            | (if c.left_sqr2 { 1u16 << 9u16 } else { 0 }) | (if c.left_wave { 1u16 << 10u16 } else { 0 }) | (
        if c.left_noise { 1u16 << 11u16 } else { 0 }) | (if c.right_sqr1 { 1u16 << 12u16 } else { 0 }) | (
        if c.right_sqr2 { 1u16 << 13u16 } else { 0 }) | (if c.right_wave { 1u16 << 14u16 } else { 0 }) | (
        if c.right_noise { 1u16 << 15u16 } else { 0 }))
    } else if addr == REG_SOUNDBIAS {
        c.sound_bias
    } else {
        0
    }
}

/// The contribution of a direct sound channel to speaker `ch`: its sample scaled by 2
/// or 4, when it plays there.
pub open spec fn dma_part(c: DmaSoundChannel, ch: int) -> int {
    if (ch == 0 && c.enable_left) || (ch == 1 && c.enable_right) {
        (c.value as int) * (if c.volume_shift == 1 { 4int } else { 2 })
    } else {
        0
    }
}

/// The biased sample of speaker `ch`: the sum of the direct sound parts, clamped so
/// that adding the bias level (bits 0 to 9 of SOUNDBIAS) stays within 0..=0x3FF.
pub open spec fn mixed_sample(c: SoundController, ch: int) -> int {
    let s = dma_part(c.dma_sound[0], ch) + dma_part(c.dma_sound[1], ch);
    let level = (c.sound_bias & 0x3FF) as int;
    if s + level > 0x3FF {
        0x3FF - level
    } else if s + level < 0 {
        -level
    } else {
        s
    }
}

impl SoundController {
    /// Produces one stereo sample from the direct sound channels and schedules the next
    /// one `cycles_per_sample` after this one was due (it is `extra_cycles` late).
    /// Returns the left and right samples for the output to resample.
    pub fn on_sample(&mut self, extra_cycles: usize, scheduler: &mut Scheduler) -> (r: [i16; 2])
        requires
            old(self).wf(),
            extra_cycles <= old(self).cycles_per_sample,
            old(scheduler).timestamp + old(self).cycles_per_sample - extra_cycles <= usize::MAX,
        ensures
            *final(self) == *old(self),
            r[0] == mixed_sample(*old(self), 0),
            r[1] == mixed_sample(*old(self), 1),
            final(scheduler).timestamp == old(scheduler).timestamp,
            final(scheduler).events@ == old(scheduler).events@.push(
                Event {
                    ty: EventType::Apu(ApuEvent::Sample),
                    time: (old(scheduler).timestamp + old(self).cycles_per_sample - extra_cycles) as usize,
                    cancel: false,
                },
            ),
    {
        let mut sample: [i16; 2] = [0, 0];
        let level = (self.sound_bias & 0x3FF) as i16;
        proof {
            crate::bits::lemma_u16_bits(self.sound_bias, 0, 0x3FF);
        }
        let mut channel: usize = 0;
        while channel < 2
            invariant
                channel <= 2,
                *self == *old(self),
                old(self).wf(),
                level as int == (old(self).sound_bias & 0x3FF) as int,
                0 <= level <= 0x3FF,
                forall|c: int| 0 <= c < channel ==> sample[c] == mixed_sample(*old(self), c),
            decreases 2 - channel,
        {
            let mut dma_sample: i16 = 0;
            let mut k: usize = 0;
            while k < 2
                invariant
                    k <= 2,
                    channel < 2,
                    *self == *old(self),
                    old(self).wf(),
                    dma_sample == (if k >= 1 { dma_part(old(self).dma_sound[0], channel as int) } else { 0 }) + (if k >= 2 {
                        dma_part(old(self).dma_sound[1], channel as int)
                    } else {
                        0
                    }),
                decreases 2 - k,
            {
                let dma = &self.dma_sound[k];
                if dma.is_stereo_channel_enabled(channel) {
                    let value = dma.value as i16;
                    let factor: i16 = if dma.volume_shift == 1 { 4 } else { 2 };
                    dma_sample = dma_sample + value * factor;
                }
                k += 1;
            }
            apply_bias(&mut dma_sample, level);
            sample[channel] = dma_sample;
            channel += 1;
        }
        scheduler.push(EventType::Apu(ApuEvent::Sample), self.cycles_per_sample - extra_cycles);
        sample
    }

    /// Handles a sound event: a sample is due.
    pub fn on_event(&mut self, event: ApuEvent, extra_cycles: usize, scheduler: &mut Scheduler) -> (r: [i16; 2])
        requires
            old(self).wf(),
            extra_cycles <= old(self).cycles_per_sample,
            old(scheduler).timestamp + old(self).cycles_per_sample - extra_cycles <= usize::MAX,
        ensures
            *final(self) == *old(self),
            r[0] == mixed_sample(*old(self), 0),
            r[1] == mixed_sample(*old(self), 1),
            final(scheduler).timestamp == old(scheduler).timestamp,
            final(scheduler).events@ == old(scheduler).events@.push(
                Event {
                    ty: EventType::Apu(ApuEvent::Sample),
                    time: (old(scheduler).timestamp + old(self).cycles_per_sample - extra_cycles) as usize,
                    cancel: false,
                },
            ),
    {
        match event {
            ApuEvent::Sample => self.on_sample(extra_cycles, scheduler),
        }
    }
}

} // verus!
