use vstd::prelude::*;
use crate::interrupt::{interrupt_bit, signal_irq, Interrupt, IrqBitMask};
use crate::sched::{Event, EventType, Scheduler};
use vstd::arithmetic::mul::lemma_mul_upper_bound;
use vstd::arithmetic::power2::{lemma2_to64, lemma_pow2_pos, lemma_pow2_strictly_increases, pow2};
use vstd::bits::lemma_u64_shl_is_mul;
use vstd::arithmetic::div_mod::{lemma_fundamental_div_mod, lemma_fundamental_div_mod_converse};

verus! {

pub const REG_TM0CNT_L: u32 = 0x0400_0100;
pub const REG_TM0CNT_H: u32 = 0x0400_0102;
pub const REG_TM1CNT_L: u32 = 0x0400_0104;
pub const REG_TM1CNT_H: u32 = 0x0400_0106;
pub const REG_TM2CNT_L: u32 = 0x0400_0108;
pub const REG_TM2CNT_H: u32 = 0x0400_010A;
pub const REG_TM3CNT_L: u32 = 0x0400_010C;
pub const REG_TM3CNT_H: u32 = 0x0400_010E;

/// Cycles per tick of each prescaler setting, as a shift: 1, 64, 256 and 1024.
pub open spec fn shift_lut(prescalar: u16) -> usize {
    if prescalar == 0 {
        0
    } else if prescalar == 1 {
        6
    } else if prescalar == 2 {
        8
    } else {
        10
    }
}

fn shift_for(prescalar: u16) -> (r: usize)
    ensures
        r == shift_lut(prescalar),
{
    if prescalar == 0 {
        0
    } else if prescalar == 1 {
        6
    } else if prescalar == 2 {
        8
    } else {
        10
    }
}

/// TMxCNT_H: prescaler (bits 0 and 1), count-up (cascade, bit 2), IRQ (bit 6) and
/// enable (bit 7).
#[derive(Clone, Copy, Debug, Default, PartialEq, Eq, Structural)]
pub struct TimerCtl(pub u16);

impl TimerCtl {
    pub fn prescalar(&self) -> (r: u16)
        ensures
            r == self.0 & 3,
            r < 4,
    {
        proof {
            let x = self.0;
            crate::bits::lemma_u16_bits(x, 0, 3);
        }
        self.0 & 3
    }

    pub fn cascade(&self) -> (r: bool)
        ensures
            r == ((self.0 >> 2u16) & 1 == 1),
    {
        (self.0 >> 2) & 1 == 1
    }

    pub fn irq_enabled(&self) -> (r: bool)
        ensures
            r == ((self.0 >> 6u16) & 1 == 1),
    {
        (self.0 >> 6) & 1 == 1
    }

    pub fn enabled(&self) -> (r: bool)
        ensures
            r == ((self.0 >> 7u16) & 1 == 1),
    {
        (self.0 >> 7) & 1 == 1
    }

    pub fn set_enabled(&mut self, value: bool)
        ensures
            final(self).0 == if value { old(self).0 | 0x80 } else { old(self).0 & !0x80u16 },
    {
        if value {
            self.0 = self.0 | 0x80;
        } else {
            self.0 = self.0 & !0x80u16;
        }
    }
}

/// One of the four timers: a 16-bit counter that counts up to overflow and reloads.
#[derive(Clone, Copy, Debug)]
pub struct Timer {
    pub ctl: TimerCtl,
    pub data: u16,
    pub initial_data: u16,
    /// Time at which the scheduled count started.
    pub start_time: usize,
    /// The scheduler holds this timer's overflow event.
    pub is_sceduled: bool,
    pub irq: Interrupt,
    pub timer_id: usize,
    pub prescalar_shift: usize,
}

/// The counter and the number of overflows after `ticks` more ticks: past an overflow
/// the counter reloads and goes on from the reload value.
pub open spec fn update_spec(data: u16, initial: u16, ticks: u32) -> (u16, u32) {
    let rem = 0x10000 - data;
    if ticks >= rem {
        let t = ticks - rem;
        let rem2 = 0x10000 - initial;
        ((initial + t % rem2) as u16, (1 + t / rem2) as u32)
    } else {
        ((data + ticks) as u16, 0)
    }
}

impl Timer {
    /// Whether the timer is consistent: its id is below 4, its interrupt is its own
    /// overflow, and the prescaler shift is one of the four settings.
    pub open spec fn wf(&self) -> bool {
        &&& self.timer_id < 4
        &&& interrupt_bit(self.irq) == self.timer_id + 3
        &&& self.prescalar_shift <= 10
    }

    pub fn new(timer_id: usize) -> (r: Self)
        requires
            timer_id <= 3,
        ensures
            r.wf(),
            r.ctl.0 == 0,
            r.data == 0,
            r.initial_data == 0,
            r.start_time == 0,
            !r.is_sceduled,
            r.timer_id == timer_id,
            r.prescalar_shift == 0,
    {
        Self {
            ctl: TimerCtl(0),
            data: 0,
            initial_data: 0,
            start_time: 0,
            is_sceduled: false,
            irq: Interrupt::timer_overflow(timer_id),
            timer_id,
            prescalar_shift: 0,
        }
    }

    /// Ticks left before the counter overflows.
    pub fn ticks_to_overflow(&self) -> (r: u32)
        ensures
            r == 0x10000 - self.data,
            1 <= r <= 0x10000,
    {
        0x10000 - self.data as u32
    }

    /// Reloads the counter and, with the IRQ bit, requests the timer's interrupt.
    pub fn overflow(&mut self, flags: &mut IrqBitMask)
        ensures
            *final(self) == (Timer { data: old(self).initial_data, ..*old(self) }),
            final(flags).0 == if (old(self).ctl.0 >> 6u16) & 1 == 1 {
                old(flags).0 | (1u16 << interrupt_bit(old(self).irq))
            } else {
                old(flags).0
            },
    {
        self.data = self.initial_data;
        if self.ctl.irq_enabled() {
            signal_irq(flags, self.irq);
        }
    }

    /// Counts `ticks` (taken modulo 2^32) and returns the number of overflows; the
    /// interrupt is requested once when there was one and the IRQ bit is set.
    pub fn update(&mut self, ticks: usize, flags: &mut IrqBitMask) -> (r: usize)
        ensures
            *final(self) == (Timer {
                data: update_spec(old(self).data, old(self).initial_data, ticks as u32).0,
                ..*old(self)
            }),
            r == update_spec(old(self).data, old(self).initial_data, ticks as u32).1,
            final(flags).0 == if r > 0 && (old(self).ctl.0 >> 6u16) & 1 == 1 {
                old(flags).0 | (1u16 << interrupt_bit(old(self).irq))
            } else {
                old(flags).0
            },
    {
        let mut ticks = ticks as u32;
        let mut num_overflows: u32 = 0;
        let ticks_remaining = self.ticks_to_overflow();
        if ticks >= ticks_remaining {
            num_overflows += 1;
            ticks -= ticks_remaining;
            self.data = self.initial_data;
            let ticks_remaining = self.ticks_to_overflow();
            proof {
                assert(ticks / ticks_remaining <= ticks) by (nonlinear_arith)
                    requires
                        ticks_remaining >= 1,
                ;
                assert(ticks % ticks_remaining < ticks_remaining) by (nonlinear_arith)
                    requires
                        ticks_remaining >= 1,
                ;
            }
            num_overflows += ticks / ticks_remaining;
            ticks = ticks % ticks_remaining;
            if self.ctl.irq_enabled() {
                signal_irq(flags, self.irq);
            }
        }
        self.data += ticks as u16;
        num_overflows as usize
    }

    /// Brings the counter up to date with the time: adds the ticks since the count
    /// started.
    pub fn sync_timer_data(&mut self, timestamp: usize)
        requires
            old(self).start_time <= timestamp,
            old(self).prescalar_shift <= 10,
            old(self).data + (((timestamp - old(self).start_time) as usize >> old(self).prescalar_shift) as u16) <= 0xFFFF,
        ensures
            *final(self) == (Timer {
                data: (old(self).data + (((timestamp - old(self).start_time) as usize >> old(self).prescalar_shift) as u16)) as u16,
                ..*old(self)
            }),
    {
        let ticks_passed = (timestamp - self.start_time) >> self.prescalar_shift;
        self.data += ticks_passed as u16;
    }
}

/// The four timers and which of them run on the scheduler.
#[derive(Clone, Copy, Debug)]
pub struct Timers {
    pub running_timers: u8,
    pub timers: [Timer; 4],
}

/// Cycles until timer `t` overflows.
pub open spec fn overflow_cycles(t: Timer) -> int {
    (0x10000 - t.data) * pow2(t.prescalar_shift as nat)
}

/// The overflow of timer `id` and its cascade: the timer reloads (requesting its
/// interrupt with the IRQ bit); the next timer, in count-up mode, counts one tick and
/// overflows in turn when it wraps.
pub open spec fn overflow_chain(timers: Seq<Timer>, flags: u16, id: nat) -> (Seq<Timer>, u16)
    decreases 4 - id,
{
    if id >= 4 {
        (timers, flags)
    } else {
        let t = timers[id as int];
        let flags1 = if (t.ctl.0 >> 6u16) & 1 == 1 { flags | (1u16 << interrupt_bit(t.irq)) } else { flags };
        let timers1 = timers.update(id as int, Timer { data: t.initial_data, ..t });
        if id == 3 {
            (timers1, flags1)
        } else {
            let n = timers1[id + 1int];
            if (n.ctl.0 >> 2u16) & 1 == 1 {
                let (d, ov) = update_spec(n.data, n.initial_data, 1);
                let flags2 = if ov > 0 && (n.ctl.0 >> 6u16) & 1 == 1 { flags1 | (1u16 << interrupt_bit(n.irq)) } else { flags1 };
                let timers2 = timers1.update(id + 1int, Timer { data: d, ..n });
                if ov > 0 { overflow_chain(timers2, flags2, (id + 1) as nat) } else { (timers2, flags2) }
            } else {
                (timers1, flags1)
            }
        }
    }
}

impl Timers {
    /// Every timer is consistent and sits at its own index.
    pub open spec fn wf(&self) -> bool {
        forall|i: int| 0 <= i < 4 ==> #[trigger] self.timers[i].wf() && self.timers[i].timer_id == i
    }

    pub fn new() -> (r: Self)
        ensures
            r.wf(),
            r.running_timers == 0,
            forall|i: int| 0 <= i < 4 ==> {
                &&& #[trigger] r.timers[i].ctl.0 == 0
                &&& r.timers[i].data == 0
                &&& r.timers[i].initial_data == 0
                &&& !r.timers[i].is_sceduled
            },
    {
        Self { running_timers: 0, timers: [Timer::new(0), Timer::new(1), Timer::new(2), Timer::new(3)] }
    }

    /// Schedules the overflow of timer `id`, `extra_cycles` late: the count starts that
    /// many cycles in the past.
    pub fn add_timer_event(&mut self, scheduler: &mut Scheduler, id: usize, extra_cycles: usize)
        requires
            old(self).wf(),
            id < 4,
            extra_cycles <= old(scheduler).timestamp,
            extra_cycles <= overflow_cycles(old(self).timers[id as int]),
            old(scheduler).timestamp + overflow_cycles(old(self).timers[id as int]) - extra_cycles <= usize::MAX,
        ensures
            final(self).wf(),
            final(self).running_timers == old(self).running_timers,
            final(self).timers@ == old(self).timers@.update(
                id as int,
                Timer {
                    is_sceduled: true,
                    start_time: (old(scheduler).timestamp - extra_cycles) as usize,
                    ..old(self).timers[id as int]
                },
            ),
            final(scheduler).timestamp == old(scheduler).timestamp,
            final(scheduler).events@ == old(scheduler).events@.push(
                Event {
                    ty: EventType::TimerOverflow(id),
                    time: (old(scheduler).timestamp + overflow_cycles(old(self).timers[id as int]) - extra_cycles) as usize,
                    cancel: false,
                },
            ),
    {
        proof {
            assert(self.timers[id as int].wf());
        }
        let mut timer = self.timers[id];
        timer.is_sceduled = true;
        timer.start_time = scheduler.timestamp() - extra_cycles;
        let ticks = timer.ticks_to_overflow() as usize;
        proof {
            let sh = timer.prescalar_shift as nat;
            lemma2_to64();
            if sh < 10 {
                lemma_pow2_strictly_increases(sh, 10);
            }
            lemma_pow2_pos(sh);
            lemma_mul_upper_bound(ticks as int, 0x10000, pow2(sh) as int, 0x400);
            lemma_u64_shl_is_mul(ticks as u64, timer.prescalar_shift as u64);
        }
        let cycles = ((ticks as u64) << (timer.prescalar_shift as u64)) as usize;
        self.timers[id] = timer;
        proof {
            assert forall|i: int| 0 <= i < 4 implies #[trigger] self.timers[i].wf() && self.timers[i].timer_id == i by {
                assert(old(self).timers[i].wf());
            }
        }
        scheduler.push(EventType::TimerOverflow(id), cycles - extra_cycles);
    }

    /// Cancels the scheduled overflow of timer `id`.
    pub fn cancel_timer_event(&mut self, scheduler: &mut Scheduler, id: usize)
        requires
            old(self).wf(),
            id < 4,
        ensures
            final(self).wf(),
            final(self).running_timers == old(self).running_timers,
            final(self).timers@ == old(self).timers@.update(id as int, Timer { is_sceduled: false, ..old(self).timers[id as int] }),
            final(scheduler).timestamp == old(scheduler).timestamp,
            final(scheduler).events.len() == old(scheduler).events.len(),
            forall|j: int| 0 <= j < old(scheduler).events.len() ==> #[trigger] final(scheduler).events@[j] == if old(
                scheduler,
            ).events@[j].ty == EventType::TimerOverflow(id) {
                Event { cancel: true, ..old(scheduler).events@[j] }
            } else {
                old(scheduler).events@[j]
            },
    {
        scheduler.cancel(EventType::TimerOverflow(id));
        let mut timer = self.timers[id];
        timer.is_sceduled = false;
        self.timers[id] = timer;
        proof {
            assert forall|i: int| 0 <= i < 4 implies #[trigger] self.timers[i].wf() && self.timers[i].timer_id == i by {
                assert(old(self).timers[i].wf());
            }
        }
    }
}


/// The events with every event of kind `ty` marked cancelled.
pub open spec fn cancel_events(events: Seq<Event>, ty: EventType) -> Seq<Event> {
    Seq::new(events.len(), |j: int| if events[j].ty == ty { Event { cancel: true, ..events[j] } } else { events[j] })
}

/// The timer after a write of `val` to its control register: the new control value and
/// its prescaler shift.
pub open spec fn with_ctl(t: Timer, val: u16) -> Timer {
    Timer { ctl: TimerCtl(val), prescalar_shift: shift_lut(val & 3), ..t }
}

/// A control value that starts the timer on the scheduler: enabled and not counting up.
pub open spec fn starts_timer(val: u16) -> bool {
    (val >> 7u16) & 1 == 1 && (val >> 2u16) & 1 != 1
}

/// The counter value read from a timer: brought up to date with the time when the
/// scheduler holds its overflow.
pub open spec fn synced(t: Timer, timestamp: usize) -> Timer {
    if t.is_sceduled {
        Timer { data: (t.data + (((timestamp - t.start_time) as usize >> t.prescalar_shift) as u16)) as u16, ..t }
    } else {
        t
    }
}

/// Whether the counter of a timer can be brought up to date at `timestamp` without
/// passing 0xFFFF.
pub open spec fn can_sync(t: Timer, timestamp: usize) -> bool {
    t.is_sceduled ==> t.start_time <= timestamp && t.data + (((timestamp - t.start_time) as usize >> t.prescalar_shift) as u16) <= 0xFFFF
}

impl Timers {
    /// Writes TMxCNT_H of timer `id`: an enabled timer that does not count up runs on
    /// the scheduler (its old overflow cancelled and a new one scheduled from now);
    /// otherwise it stops running there.
    pub fn write_timer_ctl(&mut self, scheduler: &mut Scheduler, id: usize, val: u16)
        requires
            old(self).wf(),
            id < 4,
            starts_timer(val) ==> old(scheduler).timestamp + overflow_cycles(with_ctl(old(self).timers[id as int], val)) <= usize::MAX,
        ensures
            final(self).wf(),
            ctl_write_rel(*old(self), *final(self), *old(scheduler), *final(scheduler), id, val),
    {
        proof {
            assert(self.timers[id as int].wf());
        }
        let new_ctl = TimerCtl(val);
        let new_enabled = new_ctl.enabled();
        let cascade = new_ctl.cascade();
        let mut timer = self.timers[id];
        timer.prescalar_shift = shift_for(new_ctl.prescalar());
        timer.ctl = new_ctl;
        self.timers[id] = timer;
        proof {
            assert forall|i: int| 0 <= i < 4 implies #[trigger] self.timers[i].wf() && self.timers[i].timer_id == i by {
                assert(old(self).timers[i].wf());
            }
        }
        let ghost mid = *self;
        let ghost events0 = scheduler.events@;
        let bit: u8 = 1u8 << (id as u8);
        if new_enabled && !cascade {
            self.running_timers = self.running_timers | bit;
            self.cancel_timer_event(scheduler, id);
            proof {
                assert(scheduler.events@ =~= cancel_events(events0, EventType::TimerOverflow(id)));
            }
            self.add_timer_event(scheduler, id, 0);
            proof {
                assert(self.timers@ =~= old(self).timers@.update(
                    id as int,
                    Timer { is_sceduled: true, start_time: old(scheduler).timestamp, ..with_ctl(old(self).timers[id as int], val) },
                ));
            }
        } else {
            self.running_timers = self.running_timers & !bit;
            self.cancel_timer_event(scheduler, id);
            proof {
                assert(scheduler.events@ =~= cancel_events(events0, EventType::TimerOverflow(id)));
                assert(self.timers@ =~= old(self).timers@.update(
                    id as int,
                    Timer { is_sceduled: false, ..with_ctl(old(self).timers[id as int], val) },
                ));
            }
        }
    }

    /// The counter of timer `id`, brought up to date first when it runs on the
    /// scheduler.
    pub fn read_timer_data(&mut self, scheduler: &Scheduler, id: usize) -> (r: u16)
        requires
            old(self).wf(),
            id < 4,
            can_sync(old(self).timers[id as int], scheduler.timestamp),
        ensures
            final(self).wf(),
            final(self).running_timers == old(self).running_timers,
            final(self).timers@ == old(self).timers@.update(id as int, synced(old(self).timers[id as int], scheduler.timestamp)),
            r == synced(old(self).timers[id as int], scheduler.timestamp).data,
    {
        proof {
            assert(self.timers[id as int].wf());
        }
        let mut timer = self.timers[id];
        if timer.is_sceduled {
            timer.sync_timer_data(scheduler.timestamp());
        }
        self.timers[id] = timer;
        proof {
            assert forall|i: int| 0 <= i < 4 implies #[trigger] self.timers[i].wf() && self.timers[i].timer_id == i by {
                assert(old(self).timers[i].wf());
            }
        }
        timer.data
    }

    /// Reads a timer register: TMxCNT_H gives the control value, TMxCNT_L the counter.
    pub fn handle_read(&mut self, scheduler: &Scheduler, addr: u32) -> (r: u16)
        requires
            old(self).wf(),
            timer_reg_index(addr) is Some,
            timer_reg_index(addr) matches Some((id, false)) ==> can_sync(old(self).timers[id as int], scheduler.timestamp),
        ensures
            final(self).wf(),
            final(self).running_timers == old(self).running_timers,
            timer_reg_index(addr) matches Some((id, true)) ==> r == old(self).timers[id as int].ctl.0 && final(self).timers@ == old(self).timers@,
            timer_reg_index(addr) matches Some((id, false)) ==> {
                &&& r == synced(old(self).timers[id as int], scheduler.timestamp).data
                &&& final(self).timers@ == old(self).timers@.update(id as int, synced(old(self).timers[id as int], scheduler.timestamp))
            },
    {
        let (id, high) = timer_reg(addr);
        if high {
            self.timers[id].ctl.0
        } else {
            self.read_timer_data(scheduler, id)
        }
    }

    /// Writes a timer register: TMxCNT_L sets the reload value (and the counter),
    /// TMxCNT_H the control.
    pub fn handle_write(&mut self, scheduler: &mut Scheduler, addr: u32, val: u16)
        requires
            old(self).wf(),
            timer_reg_index(addr) is Some,
            timer_reg_index(addr) matches Some((id, true)) ==> (starts_timer(val) ==> old(scheduler).timestamp
                + overflow_cycles(with_ctl(old(self).timers[id as int], val)) <= usize::MAX),
        ensures
            final(self).wf(),
            timer_write_rel(*old(self), *final(self), *old(scheduler), *final(scheduler), addr, val),
    {
        let (id, high) = timer_reg(addr);
        if high {
            self.write_timer_ctl(scheduler, id, val);
        } else {
            proof {
                assert(self.timers[id as int].wf());
            }
            let mut timer = self.timers[id];
            timer.data = val;
            timer.initial_data = val;
            self.timers[id] = timer;
            proof {
                assert forall|i: int| 0 <= i < 4 implies #[trigger] self.timers[i].wf() && self.timers[i].timer_id == i by {
                    assert(old(self).timers[i].wf());
                }
            }
        }
    }

    /// The overflow of timer `id` and the count-up timers after it.
    pub fn handle_timer_overflow(&mut self, id: usize, flags: &mut IrqBitMask)
        requires
            old(self).wf(),
            id < 4,
        ensures
            final(self).wf(),
            final(self).running_timers == old(self).running_timers,
            (final(self).timers@, final(flags).0) == overflow_chain(old(self).timers@, old(flags).0, id as nat),
        decreases 4 - id,
    {
        proof {
            assert(self.timers[id as int].wf());
        }
        let mut timer = self.timers[id];
        timer.overflow(flags);
        self.timers[id] = timer;
        if id != 3 {
            let next_timer_id = id + 1;
            proof {
                assert(self.timers[next_timer_id as int] == old(self).timers[next_timer_id as int]);
            }
            let mut next_timer = self.timers[next_timer_id];
            if next_timer.ctl.cascade() {
                let overflows = next_timer.update(1, flags);
                self.timers[next_timer_id] = next_timer;
                proof {
                    assert forall|i: int| 0 <= i < 4 implies #[trigger] self.timers[i].wf() && self.timers[i].timer_id == i by {
                        assert(old(self).timers[i].wf());
                    }
                }
                if overflows > 0 {
                    self.handle_timer_overflow(next_timer_id, flags);
                }
                return;
            }
        }
        proof {
            assert forall|i: int| 0 <= i < 4 implies #[trigger] self.timers[i].wf() && self.timers[i].timer_id == i by {
                assert(old(self).timers[i].wf());
            }
        }
    }

    /// A scheduled overflow of timer `id`, `extra_cycles` late: the overflow and its
    /// cascade, then the next overflow is scheduled.
    pub fn handle_overflow_event(&mut self, scheduler: &mut Scheduler, id: usize, extra_cycles: usize, flags: &mut IrqBitMask)
        requires
            old(self).wf(),
            id < 4,
            extra_cycles <= old(scheduler).timestamp,
            extra_cycles <= overflow_cycles(overflow_chain(old(self).timers@, old(flags).0, id as nat).0[id as int]),
            old(scheduler).timestamp + overflow_cycles(overflow_chain(old(self).timers@, old(flags).0, id as nat).0[id as int])
                - extra_cycles <= usize::MAX,
        ensures
            final(self).wf(),
            final(flags).0 == overflow_chain(old(self).timers@, old(flags).0, id as nat).1,
            final(self).timers@ == overflow_chain(old(self).timers@, old(flags).0, id as nat).0.update(
                id as int,
                Timer {
                    is_sceduled: true,
                    start_time: (old(scheduler).timestamp - extra_cycles) as usize,
                    ..overflow_chain(old(self).timers@, old(flags).0, id as nat).0[id as int]
                },
            ),
            final(scheduler).events@ == old(scheduler).events@.push(
                Event {
                    ty: EventType::TimerOverflow(id),
                    time: (old(scheduler).timestamp + overflow_cycles(
                        overflow_chain(old(self).timers@, old(flags).0, id as nat).0[id as int],
                    ) - extra_cycles) as usize,
                    cancel: false,
                },
            ),
    {
        self.handle_timer_overflow(id, flags);
        self.add_timer_event(scheduler, id, extra_cycles);
    }
}

/// The timer and the half (control or counter) that a register address selects.
pub open spec fn timer_reg_index(addr: u32) -> Option<(usize, bool)> {
    if addr == REG_TM0CNT_L {
        Some((0, false))
    } else if addr == REG_TM0CNT_H {
        Some((0, true))
    } else if addr == REG_TM1CNT_L {
        Some((1, false))
    } else if addr == REG_TM1CNT_H {
        Some((1, true))
    } else if addr == REG_TM2CNT_L {
        Some((2, false))
    } else if addr == REG_TM2CNT_H {
        Some((2, true))
    } else if addr == REG_TM3CNT_L {
        Some((3, false))
    } else if addr == REG_TM3CNT_H {
        Some((3, true))
    } else {
        None
    }
}

fn timer_reg(addr: u32) -> (r: (usize, bool))
    requires
        timer_reg_index(addr) is Some,
    ensures
        timer_reg_index(addr) == Some(r),
        r.0 < 4,
{
    if addr == REG_TM0CNT_L {
        (0, false)
    } else if addr == REG_TM0CNT_H {
        (0, true)
    } else if addr == REG_TM1CNT_L {
        (1, false)
    } else if addr == REG_TM1CNT_H {
        (1, true)
    } else if addr == REG_TM2CNT_L {
        (2, false)
    } else if addr == REG_TM2CNT_H {
        (2, true)
    } else if addr == REG_TM3CNT_L {
        (3, false)
    } else {
        (3, true)
    }
}


/// `t2` and `s2` are the timers and scheduler after a write of `val` to TMxCNT_H of
/// timer `id`: an enabled timer that does not count up runs on the scheduler (its old
/// overflow cancelled and a new one scheduled from now); otherwise it stops there.
pub open spec fn ctl_write_rel(t: Timers, t2: Timers, s: Scheduler, s2: Scheduler, id: usize, val: u16) -> bool {
    &&& s2.timestamp == s.timestamp
    &&& starts_timer(val) ==> {
        &&& t2.running_timers == t.running_timers | (1u8 << id as u8)
        &&& t2.timers@ == t.timers@.update(
            id as int,
            Timer { is_sceduled: true, start_time: s.timestamp, ..with_ctl(t.timers[id as int], val) },
        )
        &&& s2.events@ == cancel_events(s.events@, EventType::TimerOverflow(id)).push(
            Event {
                ty: EventType::TimerOverflow(id),
                time: (s.timestamp + overflow_cycles(with_ctl(t.timers[id as int], val))) as usize,
                cancel: false,
            },
        )
    }
    &&& !starts_timer(val) ==> {
        &&& t2.running_timers == t.running_timers & !(1u8 << id as u8)
        &&& t2.timers@ == t.timers@.update(id as int, Timer { is_sceduled: false, ..with_ctl(t.timers[id as int], val) })
        &&& s2.events@ == cancel_events(s.events@, EventType::TimerOverflow(id))
    }
}

/// `t2` and `s2` are the timers and scheduler after a write of `val` to timer register
/// `addr`: TMxCNT_L sets the reload value and the counter, TMxCNT_H the control.
pub open spec fn timer_write_rel(t: Timers, t2: Timers, s: Scheduler, s2: Scheduler, addr: u32, val: u16) -> bool {
    match timer_reg_index(addr) {
        Some((id, false)) => {
            &&& t2.running_timers == t.running_timers
            &&& t2.timers@ == t.timers@.update(id as int, Timer { data: val, initial_data: val, ..t.timers[id as int] })
            &&& s2 == s
        },
        Some((id, true)) => ctl_write_rel(t, t2, s, s2, id, val),
        None => false,
    }
}

/// What is written to a stopped timer's counter register reads back, at any later
/// cycle, until the timer is started.
pub proof fn law_stopped_timer_reads_back(t: Timers, t2: Timers, s: Scheduler, s2: Scheduler, addr: u32, val: u16, id: usize, now: usize)
    requires
        t.wf(),
        timer_reg_index(addr) == Some((id, false)),
        !t.timers[id as int].is_sceduled,
        timer_write_rel(t, t2, s, s2, addr, val),
    ensures
        can_sync(t2.timers[id as int], now),
        synced(t2.timers[id as int], now).data == val,
        t2.timers[id as int].initial_data == val,
{
    assert(id < 4);
    assert(t2.timers@[id as int] == Timer { data: val, initial_data: val, ..t.timers[id as int] });
}

/// Counting is additive: a timer that runs for `a` ticks and then for `b` more ends
/// with the counter, and has overflowed as many times, as one that runs for `a + b`
/// ticks at once.
pub proof fn law_update_additive(data: u16, initial: u16, a: u32, b: u32)
    requires
        a + b <= u32::MAX,
    ensures
        update_spec(update_spec(data, initial, a).0, initial, b).0 == update_spec(data, initial, (a + b) as u32).0,
        update_spec(data, initial, a).1 + update_spec(update_spec(data, initial, a).0, initial, b).1 == update_spec(
            data,
            initial,
            (a + b) as u32,
        ).1,
{
    let rem = 0x10000 - data;
    let rem2 = 0x10000 - initial;
    let total = (a + b) as u32;
    if a >= rem {
        let t1 = a - rem;
        let q = t1 / rem2;
        let x = t1 % rem2;
        lemma_fundamental_div_mod(t1, rem2);
        let d1 = update_spec(data, initial, a).0;
        assert(d1 == initial + x);
        let big = total - rem;
        assert(big == t1 + b);
        if b < rem2 - x {
            assert(big == q * rem2 + (x + b));
            lemma_fundamental_div_mod_converse(big, rem2, q, x + b);
        } else {
            let t2 = b - (rem2 - x);
            let q2 = t2 / rem2;
            let r2 = t2 % rem2;
            lemma_fundamental_div_mod(t2, rem2);
            assert(big == (q + 1 + q2) * rem2 + r2) by (nonlinear_arith)
                requires
                    big == t1 + b,
                    t1 == q * rem2 + x,
                    t2 == b - (rem2 - x),
                    t2 == q2 * rem2 + r2,
            ;
            lemma_fundamental_div_mod_converse(big, rem2, q + 1 + q2, r2);
        }
    } else if total >= rem {
        let big = total - rem;
        assert(big == b - (rem - a));
    }
}


/// The prescaler setting `p` (bits 0 and 1 of TMxCNT_H) makes a timer count one tick
/// every 1 cycle for `p = 0` and every `16 * 4^p` cycles (64, 256, 1024) otherwise:
/// after the control write its shift is 0, or `2p + 4`, and it overflows
/// `(0x10000 - data)` ticks of that length after it starts.
pub proof fn law_prescaler_period(t: Timer, val: u16)
    ensures
        ({
            let p = val & 3;
            let t2 = with_ctl(t, val);
            let tick: int = if p == 0 { 1 } else { 16 * vstd::arithmetic::power::pow(4, p as nat) };
            &&& t2.prescalar_shift == (if p == 0 { 0 } else { 2 * p + 4 })
            &&& pow2(t2.prescalar_shift as nat) == tick
            &&& overflow_cycles(t2) == (0x10000 - t.data) * tick
        }),
{
    let p = val & 3;
    assert(val & 3 < 4) by (bit_vector);
    lemma2_to64();
    reveal_with_fuel(vstd::arithmetic::power::pow, 4);
}


/// Counting `ticks` ticks from `data`: without an overflow the counter goes up by
/// `ticks`; with `n` overflows the ticks are those to the first overflow, `n - 1` full
/// runs from the reload value, and the way from the reload value to the new count.
pub proof fn law_update_counts(data: u16, initial: u16, ticks: u32)
    ensures
        ({
            let (d2, n) = update_spec(data, initial, ticks);
            &&& n == 0 ==> d2 == data + ticks
            &&& n > 0 ==> {
                &&& initial <= d2
                &&& ticks == (0x10000 - data) + (n - 1) * (0x10000 - initial) + (d2 - initial)
            }
        }),
{
    let rem = 0x10000 - data;
    let rem2 = 0x10000 - initial;
    if ticks >= rem {
        let t = ticks - rem;
        lemma_fundamental_div_mod(t, rem2);
        assert(t / rem2 <= t) by (nonlinear_arith)
            requires
                rem2 >= 1,
                t >= 0,
        ;
        assert(0 <= t % rem2 < rem2) by (nonlinear_arith)
            requires
                rem2 >= 1,
        ;
        assert(t / rem2 >= 0) by (nonlinear_arith)
            requires
                rem2 >= 1,
                t >= 0,
        ;
        let q = t / rem2;
        let r = t % rem2;
        assert(t == rem2 * q + r);
        assert(rem2 * q == q * rem2) by (nonlinear_arith);
        assert(1 + q <= u32::MAX);
        assert(initial + r < 0x10000);
        let (d2, n) = update_spec(data, initial, ticks);
        assert(n == 1 + q);
        assert(d2 == initial + r);
        assert((n - 1) * rem2 == q * rem2);
    }
}

} // verus!
