use vstd::prelude::*;
use crate::io::interrupt_controller::{InterruptRequest, IRQ_DMA0};
use crate::io::Cycle;

verus! {

/// The control register of a DMA channel, field by field.
#[derive(Clone, Copy, Debug, PartialEq, Eq, Structural)]
pub struct DmaControl {
    /// 0: increment, 1: decrement, 2: fixed, 3: increment and reload after the run.
    pub dest_addr_ctrl: u16,
    /// 0: increment, 1: decrement, 2: fixed (3 is prohibited).
    pub src_addr_ctrl: u16,
    pub repeat: bool,
    pub transfer_32: bool,
    /// 0: at once, 1: vertical blank, 2: horizontal blank, 3: special (sound FIFO).
    pub start_timing: u16,
    pub irq: bool,
    pub enable: bool,
}

/// A DMA channel: its number, control and count registers, and the source,
/// destination and count latched when it was enabled.
#[derive(Clone, Copy, Debug, PartialEq, Eq, Structural)]
pub struct DmaChannel {
    pub num: usize,
    pub cnt: DmaControl,
    pub count: u16,
    pub sad_latch: u32,
    pub dad_latch: u32,
    pub count_latch: u32,
}

/// One unit moved by a DMA run: the kind of bus cycle and the two addresses.
#[derive(Clone, Copy, Debug, PartialEq, Eq, Structural)]
pub struct DmaTransfer {
    pub cycle: Cycle,
    pub src: u32,
    pub dest: u32,
}

/// What a DMA run asks of the bus: the units to copy, in order, their width, and
/// the internal cycles that follow them.
pub struct DmaRun {
    pub transfer_32: bool,
    pub transfers: Vec<DmaTransfer>,
    pub internal_cycles: u32,
}

/// The number of bytes in one unit.
pub open spec fn unit_bytes(wide: bool) -> u32 {
    if wide { 4 } else { 2 }
}

/// An address aligned down to a whole unit.
pub open spec fn align_addr(addr: u32, wide: bool) -> u32 {
    if wide { addr & !3u32 } else { addr & !1u32 }
}

/// `start` moved by `delta` bytes, modulo the 32-bit address space.
pub open spec fn offset_addr(start: u32, delta: int) -> u32 {
    ((start as int + delta) % 0x1_0000_0000) as u32
}

/// The address after `k` units under address control `ctrl`.
pub open spec fn step_addr(start: u32, ctrl: u16, unit: u32, k: int) -> u32 {
    if ctrl == 1 {
        offset_addr(start, -k * unit)
    } else if ctrl == 2 {
        start
    } else {
        offset_addr(start, k * unit)
    }
}

impl DmaControl {
    pub open spec fn wf(self) -> bool {
        &&& self.dest_addr_ctrl < 4
        &&& self.src_addr_ctrl < 4
        &&& self.start_timing < 4
    }
}

impl DmaChannel {
    pub open spec fn wf(self) -> bool {
        self.num < 4 && self.cnt.wf()
    }

    /// A sound FIFO channel (1 or 2 with the special start timing).
    pub open spec fn is_fifo(self) -> bool {
        (self.num == 1 || self.num == 2) && self.cnt.start_timing == 3
    }

    /// The number of units the next run moves: four words for a sound FIFO.
    pub open spec fn run_count(self) -> u32 {
        if self.is_fifo() { 4 } else { self.count_latch }
    }

    /// The destination control of the next run: fixed for a sound FIFO.
    pub open spec fn run_dest_ctrl(self) -> u16 {
        if self.is_fifo() { 2 } else { self.cnt.dest_addr_ctrl }
    }

    /// Whether the next run moves words: always for a sound FIFO.
    pub open spec fn run_wide(self) -> bool {
        self.is_fifo() || self.cnt.transfer_32
    }

    pub open spec fn run_src(self) -> u32 {
        align_addr(self.sad_latch, self.run_wide())
    }

    pub open spec fn run_dest(self) -> u32 {
        align_addr(self.dad_latch, self.run_wide())
    }

    /// The `k`-th unit of the next run.
    pub open spec fn transfer_at(self, k: int) -> DmaTransfer {
        let unit = unit_bytes(self.run_wide());
        DmaTransfer {
            cycle: if k == 0 { Cycle::N } else { Cycle::S },
            src: step_addr(self.run_src(), self.cnt.src_addr_ctrl, unit, k),
            dest: step_addr(self.run_dest(), self.run_dest_ctrl(), unit, k),
        }
    }

    /// The channel after a run: it stays enabled only when it repeats on a start
    /// timing, its latches move on past the units copied (the destination is
    /// reloaded under control 3), and a channel that stays enabled reloads its count.
    pub open spec fn after_run(self) -> DmaChannel {
        let unit = unit_bytes(self.run_wide());
        let n = self.run_count() as int;
        let enable = self.cnt.start_timing != 0 && self.cnt.repeat;
        DmaChannel {
            cnt: DmaControl { enable, ..self.cnt },
            sad_latch: step_addr(self.run_src(), self.cnt.src_addr_ctrl, unit, n),
            dad_latch: if self.run_dest_ctrl() == 3 {
                self.run_dest()
            } else {
                step_addr(self.run_dest(), self.run_dest_ctrl(), unit, n)
            },
            count_latch: if enable { self.count as u32 } else { self.count_latch },
            ..self
        }
    }
}

proof fn lemma_offset_zero(start: u32)
    ensures
        offset_addr(start, 0) == start,
{
    vstd::arithmetic::div_mod::lemma_small_mod(start as nat, 0x1_0000_0000);
}

proof fn lemma_offset_add(start: u32, d: int, u: u32)
    ensures
        offset_addr(start, d + u) == vstd::wrapping::u32_specs::wrapping_add(offset_addr(start, d), u),
        offset_addr(start, d - u) == vstd::wrapping::u32_specs::wrapping_sub(offset_addr(start, d), u),
{
    let m: int = 0x1_0000_0000;
    let x = (start as int + d) % m;
    vstd::arithmetic::div_mod::lemma_add_mod_noop(start as int + d, u as int, m);
    vstd::arithmetic::div_mod::lemma_sub_mod_noop(start as int + d, u as int, m);
    vstd::arithmetic::div_mod::lemma_small_mod(u as nat, m as nat);
    vstd::arithmetic::div_mod::lemma_mod_bound(start as int + d, m);
    assert(start as int + (d + u) == (start as int + d) + u);
    assert(start as int + (d - u) == (start as int + d) - u);
    if x + u < m {
        vstd::arithmetic::div_mod::lemma_small_mod((x + u) as nat, m as nat);
    } else {
        vstd::arithmetic::div_mod::lemma_mod_sub_multiples_vanish(x + u, m);
        vstd::arithmetic::div_mod::lemma_small_mod((x + u - m) as nat, m as nat);
    }
    if x - u >= 0 {
        vstd::arithmetic::div_mod::lemma_small_mod((x - u) as nat, m as nat);
    } else {
        vstd::arithmetic::div_mod::lemma_mod_add_multiples_vanish(x - u, m);
        vstd::arithmetic::div_mod::lemma_small_mod((x - u + m) as nat, m as nat);
    }
}

/// The address after one more unit is the address after `k` units moved by one
/// unit, with the wrapping arithmetic of the bus.
proof fn lemma_step_next(start: u32, ctrl: u16, unit: u32, k: int)
    requires
        ctrl < 4,
    ensures
        step_addr(start, ctrl, unit, k + 1) == (if ctrl == 1 {
            vstd::wrapping::u32_specs::wrapping_sub(step_addr(start, ctrl, unit, k), unit)
        } else if ctrl == 2 {
            step_addr(start, ctrl, unit, k)
        } else {
            vstd::wrapping::u32_specs::wrapping_add(step_addr(start, ctrl, unit, k), unit)
        }),
{
    lemma_offset_add(start, k * unit, unit);
    lemma_offset_add(start, -k * unit, unit);
    assert((k + 1) * unit == k * unit + unit) by (nonlinear_arith);
    assert(-(k + 1) * unit == -k * unit - unit) by (nonlinear_arith);
}

/// Runs DMA channel `channel`: returns the units it copies, in order, for the bus
/// to carry out, moves the channel's latches on, and requests its interrupt when
/// it asks for one.
pub fn run_dma(channel: &mut DmaChannel, request: &mut InterruptRequest) -> (r: DmaRun)
    requires
        old(channel).wf(),
        old(channel).run_count() > 0 ==> old(channel).cnt.src_addr_ctrl != 3,
    ensures
        final(channel).wf(),
        *final(channel) == old(channel).after_run(),
        r.transfer_32 == old(channel).run_wide(),
        r.internal_cycles == 2,
        r.transfers@.len() == old(channel).run_count(),
        forall|k: int| 0 <= k < r.transfers@.len() ==> #[trigger] r.transfers@[k] == old(channel).transfer_at(k),
        final(request).0 == (if old(channel).cnt.irq {
            old(request).0 | (1u16 << (IRQ_DMA0 + old(channel).num as u16))
        } else {
            old(request).0
        }),
{
    let ghost c0 = *channel;
    let is_fifo = (channel.num == 1 || channel.num == 2) && channel.cnt.start_timing == 3;
    let count: u32 = if is_fifo { 4 } else { channel.count_latch };
    let src_addr_ctrl = channel.cnt.src_addr_ctrl;
    let dest_addr_ctrl = if is_fifo { 2 } else { channel.cnt.dest_addr_ctrl };
    let transfer_32 = if is_fifo { true } else { channel.cnt.transfer_32 };
    let irq = channel.cnt.irq;
    channel.cnt.enable = channel.cnt.start_timing != 0 && channel.cnt.repeat;
    let addr_change: u32 = if transfer_32 { 4 } else { 2 };
    let mut src_addr = if transfer_32 { channel.sad_latch & !3u32 } else { channel.sad_latch & !1u32 };
    let mut dest_addr = if transfer_32 { channel.dad_latch & !3u32 } else { channel.dad_latch & !1u32 };
    let original_dest_addr = dest_addr;
    proof {
        lemma_offset_zero(src_addr);
        lemma_offset_zero(dest_addr);
        assert(-0int * addr_change == 0);
        assert(0int * addr_change == 0);
    }
    let mut transfers: Vec<DmaTransfer> = Vec::new();
    let mut i: u32 = 0;
    while i < count
        invariant
            c0.wf(),
            0 <= i <= count,
            count == c0.run_count(),
            dest_addr_ctrl == c0.run_dest_ctrl(),
            src_addr_ctrl == c0.cnt.src_addr_ctrl,
            count > 0 ==> src_addr_ctrl != 3,
            addr_change == unit_bytes(c0.run_wide()),
            original_dest_addr == c0.run_dest(),
            src_addr == step_addr(c0.run_src(), src_addr_ctrl, addr_change, i as int),
            dest_addr == step_addr(c0.run_dest(), dest_addr_ctrl, addr_change, i as int),
            transfers@.len() == i,
            forall|k: int| 0 <= k < i ==> #[trigger] transfers@[k] == c0.transfer_at(k),
        decreases count - i,
    {
        let cycle = if i == 0 { Cycle::N } else { Cycle::S };
        transfers.push(DmaTransfer { cycle, src: src_addr, dest: dest_addr });
        proof {
            lemma_step_next(c0.run_src(), src_addr_ctrl, addr_change, i as int);
            lemma_step_next(c0.run_dest(), dest_addr_ctrl, addr_change, i as int);
        }
        src_addr = if src_addr_ctrl == 0 {
            src_addr.wrapping_add(addr_change)
        } else if src_addr_ctrl == 1 {
            src_addr.wrapping_sub(addr_change)
        } else {
            src_addr
        };
        dest_addr = if dest_addr_ctrl == 0 || dest_addr_ctrl == 3 {
            dest_addr.wrapping_add(addr_change)
        } else if dest_addr_ctrl == 1 {
            dest_addr.wrapping_sub(addr_change)
        } else {
            dest_addr
        };
        i = i + 1;
    }
    channel.sad_latch = src_addr;
    channel.dad_latch = dest_addr;
    if channel.cnt.enable {
        channel.count_latch = channel.count as u32;
    }
    if dest_addr_ctrl == 3 {
        channel.dad_latch = original_dest_addr;
    }
    if irq {
        request.insert(IRQ_DMA0 + channel.num as u16);
    }
    DmaRun { transfer_32, transfers, internal_cycles: 2 }
}


proof fn lemma_wrapping_step(x: u32, u: u32)
    ensures
        vstd::wrapping::u32_specs::wrapping_add(x, u) as int == (x + u) % 0x1_0000_0000,
        vstd::wrapping::u32_specs::wrapping_sub(x, u) as int == (x - u) % 0x1_0000_0000,
{
    let m: int = 0x1_0000_0000;
    if x + u < m {
        vstd::arithmetic::div_mod::lemma_small_mod((x + u) as nat, m as nat);
    } else {
        vstd::arithmetic::div_mod::lemma_mod_sub_multiples_vanish(x + u, m);
        vstd::arithmetic::div_mod::lemma_small_mod((x + u - m) as nat, m as nat);
    }
    if x - u >= 0 {
        vstd::arithmetic::div_mod::lemma_small_mod((x - u) as nat, m as nat);
    } else {
        vstd::arithmetic::div_mod::lemma_mod_add_multiples_vanish(x - u, m);
        vstd::arithmetic::div_mod::lemma_small_mod((x - u + m) as nat, m as nat);
    }
}

/// The units of a DMA run follow one another: the first is at the latched addresses
/// aligned to the unit, each next source is one unit (2 or 4 bytes) further up for
/// control 0, further down for control 1, and the same for control 2, modulo 2^32 (the
/// destination likewise, control 3 counting up); only the first unit is
/// nonsequential. After the run the source latch is where a next unit would read, and
/// so is the destination latch unless control 3 reloads it.
pub proof fn law_dma_units_follow(c: DmaChannel, k: int)
    requires
        c.wf(),
        0 <= k,
    ensures
        ({
            let u = unit_bytes(c.run_wide()) as int;
            let s0 = c.transfer_at(k).src as int;
            let s1 = c.transfer_at(k + 1).src as int;
            let d0 = c.transfer_at(k).dest as int;
            let d1 = c.transfer_at(k + 1).dest as int;
            &&& c.transfer_at(0).src as int % u == 0
            &&& c.transfer_at(0).dest as int % u == 0
            &&& c.transfer_at(0).cycle == Cycle::N
            &&& c.transfer_at(k + 1).cycle == Cycle::S
            &&& c.cnt.src_addr_ctrl == 0 ==> s1 == (s0 + u) % 0x1_0000_0000
            &&& c.cnt.src_addr_ctrl == 1 ==> s1 == (s0 - u) % 0x1_0000_0000
            &&& c.cnt.src_addr_ctrl == 2 ==> s1 == s0
            &&& (c.run_dest_ctrl() == 0 || c.run_dest_ctrl() == 3) ==> d1 == (d0 + u) % 0x1_0000_0000
            &&& c.run_dest_ctrl() == 1 ==> d1 == (d0 - u) % 0x1_0000_0000
            &&& c.run_dest_ctrl() == 2 ==> d1 == d0
            &&& c.after_run().sad_latch == c.transfer_at(c.run_count() as int).src
            &&& c.run_dest_ctrl() != 3 ==> c.after_run().dad_latch == c.transfer_at(c.run_count() as int).dest
        }),
{
    let u = unit_bytes(c.run_wide());
    lemma_step_next(c.run_src(), c.cnt.src_addr_ctrl, u, k);
    lemma_step_next(c.run_dest(), c.run_dest_ctrl(), u, k);
    lemma_wrapping_step(step_addr(c.run_src(), c.cnt.src_addr_ctrl, u, k), u);
    lemma_wrapping_step(step_addr(c.run_dest(), c.run_dest_ctrl(), u, k), u);
    lemma_offset_zero(c.run_src());
    lemma_offset_zero(c.run_dest());
    assert(-0int * u == 0 && 0int * u == 0);
    let sa = c.sad_latch;
    let da = c.dad_latch;
    assert((sa & !3u32) % 4 == 0 && (sa & !1u32) % 2 == 0) by (bit_vector);
    assert((da & !3u32) % 4 == 0 && (da & !1u32) % 2 == 0) by (bit_vector);
}

} // verus!
