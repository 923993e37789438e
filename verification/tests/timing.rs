use fluorite::bios::{Bios, SIZE};
use fluorite::interrupt::{signal_irq, Interrupt, InterruptController, IrqBitMask};
use fluorite::io::scheduler::{Event as QueuedEvent, EventType as QueuedEventType, Scheduler as EventQueueScheduler};
use fluorite::sched::{ApuEvent, Event, EventType, GpuEvent, Scheduler};
use fluorite::timer::{Timer, TimerCtl, Timers, REG_TM0CNT_H, REG_TM0CNT_L, REG_TM1CNT_H, REG_TM1CNT_L};

#[test]
fn interrupt_bits_and_signalling() {
    assert_eq!(Interrupt::LCD_VBlank.bit(), 0);
    assert_eq!(Interrupt::GamePak.bit(), 13);
    assert_eq!(Interrupt::timer_overflow(2), Interrupt::Timer2_Overflow);
    let mut flags = IrqBitMask(0b1);
    signal_irq(&mut flags, Interrupt::Keypad);
    assert_eq!(flags.0, 0b1 | (1 << 12));
    signal_irq(&mut flags, Interrupt::Keypad);
    assert_eq!(flags.0, 0b1 | (1 << 12));
}

#[test]
fn interrupt_pending_needs_master_enable_and_enable_bit() {
    let mut intc = InterruptController::new();
    assert!(!intc.irq_pending());
    intc.flags = IrqBitMask(0b100);
    intc.enable = IrqBitMask(0b100);
    assert!(!intc.irq_pending());
    intc.master_enable = true;
    assert!(intc.irq_pending());
    intc.enable = IrqBitMask(0b010);
    assert!(!intc.irq_pending());
    intc.clear(0b100);
    assert_eq!(intc.flags.0, 0);
}

#[test]
fn scheduler_pops_events_in_time_order() {
    let mut s = Scheduler::new();
    s.push(EventType::Gpu(GpuEvent::HBlank), 100);
    s.push(EventType::Apu(ApuEvent::Sample), 50);
    s.push_gpu_event(GpuEvent::HDraw, 75);
    assert_eq!(s.timestamp_of_next_event(), 50);
    assert_eq!(s.get_cycles_to_next_event(), 50);
    assert!(s.pop_pending_event().is_none());
    s.update(60);
    assert_eq!(s.timestamp(), 60);
    assert_eq!(s.pop_pending_event(), Some((EventType::Apu(ApuEvent::Sample), 10)));
    assert!(s.pop_pending_event().is_none());
    s.fast_forward_to_next();
    assert_eq!(s.timestamp(), 75);
    assert_eq!(s.pop_pending_event(), Some((EventType::Gpu(GpuEvent::HDraw), 0)));
    s.update(25);
    assert_eq!(s.pop_pending_event(), Some((EventType::Gpu(GpuEvent::HBlank), 0)));
    assert!(s.pop_pending_event().is_none());
}

#[test]
fn scheduler_cancelled_event_is_dropped() {
    let mut s = Scheduler::new();
    s.push(EventType::TimerOverflow(1), 10);
    s.cancel(EventType::TimerOverflow(1));
    s.update(10);
    assert!(s.pop_pending_event().is_none());
    assert_eq!(s.events.len(), 0);
    let e = Event::new(EventType::RunLimitReached, 5);
    assert!(!e.is_canceled());
    assert_eq!(e.get_type(), EventType::RunLimitReached);
}

#[test]
fn event_queue_gives_due_event_once() {
    let mut q = EventQueueScheduler::new();
    q.add(QueuedEvent { cycle: 0, event_type: QueuedEventType::FrameSequencer(0) });
    assert_eq!(q.get_next_event(), Some(QueuedEventType::FrameSequencer(0)));
    q.add(QueuedEvent { cycle: 5, event_type: QueuedEventType::FrameSequencer(0) });
    assert_eq!(q.get_next_event(), None);
    q._remove(QueuedEventType::FrameSequencer(0));
    q.add(QueuedEvent { cycle: 0, event_type: QueuedEventType::_TimerOverflow(1) });
    assert_eq!(q.get_next_event(), Some(QueuedEventType::_TimerOverflow(1)));
}

#[test]
fn timer_control_fields() {
    let c = TimerCtl(0b1100_0110);
    assert_eq!(c.prescalar(), 2);
    assert!(c.cascade());
    assert!(c.irq_enabled());
    assert!(c.enabled());
    let mut c = TimerCtl(0);
    c.set_enabled(true);
    assert_eq!(c.0, 0x80);
}

#[test]
fn timer_counts_and_reloads() {
    let mut t = Timer::new(0);
    t.initial_data = 0xFFF0;
    t.data = 0xFFFE;
    t.ctl = TimerCtl(0x40);
    assert_eq!(t.ticks_to_overflow(), 2);
    let mut flags = IrqBitMask(0);
    let overflows = t.update(1, &mut flags);
    assert_eq!(overflows, 0);
    assert_eq!(t.data, 0xFFFF);
    assert_eq!(flags.0, 0);
    let overflows = t.update(0x11, &mut flags);
    assert_eq!(overflows, 2);
    assert_eq!(t.data, 0xFFF0);
    assert_eq!(flags.0, 1 << 3);
    t.overflow(&mut flags);
    assert_eq!(t.data, 0xFFF0);
}

#[test]
fn timer_register_writes_and_reads() {
    let mut timers = Timers::new();
    let mut s = Scheduler::new();
    timers.handle_write(&mut s, REG_TM0CNT_L, 0xFF00);
    assert_eq!(timers.handle_read(&s, REG_TM0CNT_L), 0xFF00);
    assert_eq!(timers.timers[0].initial_data, 0xFF00);
    // Enable with prescaler 1: overflow after 0x100 cycles.
    timers.handle_write(&mut s, REG_TM0CNT_H, 0x80);
    assert_eq!(timers.handle_read(&s, REG_TM0CNT_H), 0x80);
    assert_eq!(timers.running_timers, 1);
    assert_eq!(s.events.len(), 1);
    assert_eq!(s.events[0].ty, EventType::TimerOverflow(0));
    assert_eq!(s.events[0].time, 0x100);
    s.update(0x10);
    assert_eq!(timers.handle_read(&s, REG_TM0CNT_L), 0xFF10);
    // Stop: the event is cancelled.
    timers.handle_write(&mut s, REG_TM0CNT_H, 0);
    assert_eq!(timers.running_timers, 0);
    assert!(s.events.iter().all(|e| e.cancel));
}

#[test]
fn timer_overflow_cascades_into_count_up_timer() {
    let mut timers = Timers::new();
    let mut s = Scheduler::new();
    timers.handle_write(&mut s, REG_TM1CNT_L, 0xFFFF);
    // Timer 1 counts up on timer 0's overflow, with its interrupt enabled.
    timers.handle_write(&mut s, REG_TM1CNT_H, 0x84 | 0x40);
    timers.handle_write(&mut s, REG_TM0CNT_L, 0xFFFF);
    timers.handle_write(&mut s, REG_TM0CNT_H, 0x80);
    let mut flags = IrqBitMask(0);
    timers.handle_timer_overflow(0, &mut flags);
    assert_eq!(timers.timers[0].data, 0xFFFF);
    assert_eq!(timers.timers[1].data, 0xFFFF);
    assert_eq!(flags.0, 1 << 4);
}

#[test]
fn stopped_timer_reads_back_what_was_written() {
    let mut timers = Timers::new();
    let mut s = Scheduler::new();
    timers.handle_write(&mut s, REG_TM1CNT_L, 0x1234);
    s.update(1000);
    assert_eq!(timers.handle_read(&s, REG_TM1CNT_L), 0x1234);
}

fn bios_image() -> Vec<u8> {
    let mut image = vec![0u8; SIZE];
    image[0] = 0x11;
    image[1] = 0x22;
    image[2] = 0x33;
    image[3] = 0x44;
    image[4] = 0x55;
    image
}

#[test]
fn bios_reads_inside_fetch_the_word() {
    let mut bios = Bios::new(bios_image());
    assert_eq!(bios.read_word(0, 0), 0x4433_2211);
    assert_eq!(bios.read_word(0, 2), 0x4433_2211);
    assert_eq!(bios.read_half(0, 2), 0x4433);
    assert_eq!(bios.read_byte(0, 4), 0x55);
}

#[test]
fn bios_reads_outside_return_last_fetch() {
    let mut bios = Bios::new(bios_image());
    // Before any fetch, the boot value.
    assert_eq!(bios.read_word(0x0800_0000, 0), 0xE129_F000);
    assert_eq!(bios.read_word(0, 0), 0x4433_2211);
    assert_eq!(bios.read_word(0x0800_0000, 0x100), 0x4433_2211);
    assert_eq!(bios.read_half(0x0800_0000, 0x102), 0x4433);
}

#[test]
fn bios_load_replaces_the_start() {
    let mut bios = Bios::new(vec![0u8; SIZE]);
    bios.load(&vec![1, 2, 3, 4]);
    assert_eq!(bios.read_word(0, 0), 0x0403_0201);
}

#[test]
fn timer_counting_is_additive() {
    let mut flags = IrqBitMask(0);
    let mut split = Timer::new(1);
    split.initial_data = 0xFF00;
    split.data = 0xFFF0;
    let mut whole = split;
    let o1 = split.update(0x50, &mut flags);
    let o2 = split.update(0x1C3, &mut flags);
    let o = whole.update(0x50 + 0x1C3, &mut flags);
    assert_eq!(split.data, whole.data);
    assert_eq!(o1 + o2, o);
    assert_eq!(o, 3);
    assert_eq!(whole.data, 0xFF03);
}
