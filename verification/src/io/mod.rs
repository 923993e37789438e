pub mod apu;
pub mod dma;
pub mod gamepak;
pub mod gpu;
pub mod interrupt_controller;
pub mod keypad;
pub mod memory;
pub mod mgba_test_suite;
pub mod scheduler;
pub mod timers;

use vstd::prelude::*;
use std::collections::VecDeque;

verus! {

/// Kind of a memory access: nonsequential or sequential.
#[derive(Clone, Copy, Debug, PartialEq, Eq, Structural)]
pub enum MemoryAccess {
    N,
    S,
}

/// Kind of a bus cycle: nonsequential, sequential or internal.
#[derive(Clone, Copy, Debug, PartialEq, Eq, Structural)]
pub enum Cycle {
    N,
    S,
    I,
}

impl From<MemoryAccess> for Cycle {
    fn from(val: MemoryAccess) -> (r: Self) {
        match val {
            MemoryAccess::N => Cycle::N,
            MemoryAccess::S => Cycle::S,
        }
    }
}

impl vstd::std_specs::convert::FromSpecImpl<MemoryAccess> for Cycle {
    open spec fn obeys_from_spec() -> bool {
        true
    }

    open spec fn from_spec(val: MemoryAccess) -> Cycle {
        match val {
            MemoryAccess::N => Cycle::N,
            MemoryAccess::S => Cycle::S,
        }
    }
}

/// Cycles of a nonsequential access for each setting (also the static RAM timings).
pub open spec fn n_timing(setting: usize) -> u32 {
    if setting == 0 { 4 } else if setting == 1 { 3 } else if setting == 2 { 2 } else { 8 }
}

/// Cycles of a sequential access in wait state `ws` for each setting.
pub open spec fn s_timing(ws: usize, setting: usize) -> u32 {
    if setting == 1 { 1 } else if ws == 0 { 2 } else if ws == 1 { 4 } else { 8 }
}

fn n_access_timing(setting: usize) -> (r: u32)
    requires
        setting < 4,
    ensures
        r == n_timing(setting),
{
    match setting {
        0 => 4,
        1 => 3,
        2 => 2,
        _ => 8,
    }
}

fn s_access_timing(ws: usize, setting: usize) -> (r: u32)
    requires
        ws < 3,
        setting < 2,
    ensures
        r == s_timing(ws, setting),
{
    if setting == 1 {
        1
    } else {
        match ws {
            0 => 2,
            1 => 4,
            _ => 8,
        }
    }
}

/// The prefetch state: queued addresses, next address, cycles spent on it.
pub type PrefetchState = (Seq<u32>, u32, u32);

/// One cycle of the prefetch unit whose fetches take `time` cycles: when the fetch in
/// progress is done its address enters the buffer (dropping the oldest of eight) and
/// the next one starts.
pub open spec fn prefetch_tick(time: u32, st: PrefetchState) -> PrefetchState {
    let (q, pa, spent) = st;
    if spent >= time {
        let q1 = if q.len() == 8 { q.drop_first() } else { q };
        (q1.push(pa), (pa + 2) as u32, 0)
    } else {
        (q, pa, (spent + 1) as u32)
    }
}

/// `n` cycles of the prefetch unit.
pub open spec fn prefetch_run(time: u32, st: PrefetchState, n: nat) -> PrefetchState
    decreases n,
{
    if n == 0 { st } else { prefetch_run(time, prefetch_tick(time, st), (n - 1) as nat) }
}

/// `n` cycles of the prefetch unit run without overflow.
pub open spec fn prefetch_run_ok(time: u32, st: PrefetchState, n: nat) -> bool
    decreases n,
{
    n == 0 || ({
        let (_q, pa, spent) = st;
        &&& spent >= time ==> pa + 2 <= u32::MAX
        &&& spent < time ==> spent + 1 <= u32::MAX
        &&& prefetch_run_ok(time, prefetch_tick(time, st), (n - 1) as nat)
    })
}

/// The buffer `q_new` is `q_old` with its first `d` entries dropped and addresses from
/// `pa_old` up to (not including) `pa_new` appended at the back.
pub open spec fn appended_with(q_old: Seq<u32>, pa_old: u32, q_new: Seq<u32>, pa_new: u32, d: int) -> bool {
    &&& 0 <= d <= q_old.len()
    &&& q_new.len() >= q_old.len() - d
    &&& q_new.subrange(0, q_old.len() - d) == q_old.subrange(d, q_old.len() as int)
    &&& forall|j: int| q_old.len() - d <= j < q_new.len() ==> pa_old <= #[trigger] q_new[j] < pa_new
}

/// The buffer and the address being prefetched only move forward: some oldest
/// entries leave, new addresses are appended, and the address does not decrease.
pub open spec fn appended_after(old_st: PrefetchState, new_st: PrefetchState) -> bool {
    &&& old_st.1 <= new_st.1
    &&& exists|d: int| #[trigger] appended_with(old_st.0, old_st.1, new_st.0, new_st.1, d)
}

proof fn lemma_appended_refl(st: PrefetchState)
    ensures
        appended_after(st, st),
{
    assert(st.0.subrange(0, st.0.len() as int) =~= st.0.subrange(0, st.0.len() as int));
    assert(appended_with(st.0, st.1, st.0, st.1, 0));
}

proof fn lemma_appended_trans(a: PrefetchState, b: PrefetchState, c: PrefetchState)
    requires
        appended_after(a, b),
        appended_after(b, c),
    ensures
        appended_after(a, c),
{
    let d1 = choose|d: int| #[trigger] appended_with(a.0, a.1, b.0, b.1, d);
    let d2 = choose|d: int| #[trigger] appended_with(b.0, b.1, c.0, c.1, d);
    let m = a.0.len() - d1;
    if d2 <= m {
        let d = d1 + d2;
        assert forall|j: int| 0 <= j < a.0.len() - d implies c.0[j] == a.0[d + j] by {
            assert(c.0[j] == c.0.subrange(0, b.0.len() - d2)[j]);
            assert(c.0.subrange(0, b.0.len() - d2)[j] == b.0[d2 + j]);
            assert(b.0[d2 + j] == b.0.subrange(0, m)[d2 + j]);
            assert(b.0.subrange(0, m)[d2 + j] == a.0.subrange(d1, a.0.len() as int)[d2 + j]);
        }
        assert(c.0.subrange(0, a.0.len() - d) =~= a.0.subrange(d, a.0.len() as int));
        assert forall|j: int| a.0.len() - d <= j < c.0.len() implies a.1 <= #[trigger] c.0[j] < c.1 by {
            if j < b.0.len() - d2 {
                assert(c.0[j] == c.0.subrange(0, b.0.len() - d2)[j]);
                assert(c.0.subrange(0, b.0.len() - d2)[j] == b.0.subrange(d2, b.0.len() as int)[j]);
                assert(b.0[d2 + j] == b.0.subrange(d2, b.0.len() as int)[j]);
            }
        }
        assert(appended_with(a.0, a.1, c.0, c.1, d));
    } else {
        let d = a.0.len() as int;
        assert(c.0.subrange(0, 0) =~= a.0.subrange(d, d));
        assert forall|j: int| 0 <= j < c.0.len() implies a.1 <= #[trigger] c.0[j] < c.1 by {
            if j < b.0.len() - d2 {
                assert(c.0[j] == c.0.subrange(0, b.0.len() - d2)[j]);
                assert(c.0.subrange(0, b.0.len() - d2)[j] == b.0.subrange(d2, b.0.len() as int)[j]);
                assert(b.0[d2 + j] == b.0.subrange(d2, b.0.len() as int)[j]);
            }
        }
        assert(appended_with(a.0, a.1, c.0, c.1, d));
    }
}

proof fn lemma_appended_tick(time: u32, st: PrefetchState)
    requires
        st.0.len() <= 8,
        st.2 >= time ==> st.1 + 2 <= u32::MAX,
    ensures
        appended_after(st, prefetch_tick(time, st)),
        prefetch_tick(time, st).0.len() <= 8,
{
    let (q, pa, spent) = st;
    let t = prefetch_tick(time, st);
    if spent >= time {
        let d: int = if q.len() == 8 { 1 } else { 0 };
        let q1 = if q.len() == 8 { q.drop_first() } else { q };
        assert(t.0 == q1.push(pa));
        assert(t.0.subrange(0, q.len() - d) =~= q.subrange(d, q.len() as int));
        assert(appended_with(q, pa, t.0, t.1, d));
    } else {
        lemma_appended_refl(st);
        assert(t == (q, pa, (spent + 1) as u32));
        assert(appended_with(q, pa, q, pa, 0));
        assert(q.subrange(0, q.len() as int) =~= q.subrange(0, q.len() as int));
        assert(appended_with(q, pa, t.0, t.1, 0));
    }
}

/// While the prefetch unit runs, addresses only enter its buffer at the back (the
/// oldest leave when eight are held), every address that enters lies between the
/// address being fetched before and after, that address never decreases, and the
/// buffer keeps at most eight entries.
pub proof fn law_prefetch_appends(time: u32, st: PrefetchState, n: nat)
    requires
        st.0.len() <= 8,
        prefetch_run_ok(time, st, n),
    ensures
        appended_after(st, prefetch_run(time, st, n)),
        prefetch_run(time, st, n).0.len() <= 8,
    decreases n,
{
    if n == 0 {
        lemma_appended_refl(st);
    } else {
        let t = prefetch_tick(time, st);
        lemma_appended_tick(time, st);
        law_prefetch_appends(time, t, (n - 1) as nat);
        lemma_appended_trans(st, t, prefetch_run(time, t, (n - 1) as nat));
    }
}

proof fn lemma_waitcnt_fields(v: u8)
    by (bit_vector)
    ensures
        (v >> 4u8) & 1u8 < 2,
        (v >> 7u8) & 1u8 < 2,
        (v >> 2u8) & 1u8 < 2,
        (v >> 3u8) & 3u8 < 4,
        (v >> 5u8) & 3u8 < 4,
{
}

/// The wait state control register (WAITCNT) and the game pak prefetch buffer.
pub struct WaitStateControl {
    pub sram_setting: usize,
    pub n_wait_state_settings: [usize; 3],
    pub s_wait_state_settings: [usize; 3],
    pub phi_terminal_out: usize,
    pub use_prefetch: bool,
    pub _type_flag: bool,
    pub can_prefetch: bool,
    pub prefetch: VecDeque<u32>,
    pub prefetch_waitstate: usize,
    pub prefetch_addr: u32,
    pub prefetch_cycles_spent: u32,
}

impl WaitStateControl {
    /// Settings within their fields and at most eight prefetched half-words.
    pub open spec fn wf(&self) -> bool {
        &&& self.sram_setting < 4
        &&& forall|i: int| 0 <= i < 3 ==> #[trigger] self.n_wait_state_settings[i] < 4
        &&& forall|i: int| 0 <= i < 3 ==> #[trigger] self.s_wait_state_settings[i] < 2
        &&& self.phi_terminal_out < 4
        &&& self.prefetch_waitstate < 3
        &&& self.prefetch@.len() <= 8
    }

    pub fn new() -> (r: Self)
        ensures
            r.wf(),
            r.sram_setting == 0 && r.phi_terminal_out == 0,
            forall|i: int| 0 <= i < 3 ==> r.n_wait_state_settings[i] == 0 && r.s_wait_state_settings[i] == 0,
            !r.use_prefetch && !r._type_flag && r.can_prefetch,
            r.prefetch@ == Seq::<u32>::empty(),
            r.prefetch_waitstate == 0 && r.prefetch_addr == 0x0800_0000 && r.prefetch_cycles_spent == 0,
    {
        Self {
            sram_setting: 0,
            n_wait_state_settings: [0; 3],
            s_wait_state_settings: [0; 3],
            phi_terminal_out: 0,
            use_prefetch: false,
            _type_flag: false,
            can_prefetch: true,
            prefetch: VecDeque::new(),
            prefetch_waitstate: 0,
            prefetch_addr: 0x0800_0000,
            prefetch_cycles_spent: 0,
        }
    }

    /// Stall cycles of one access of kind `cycle` in wait state `ws` at the
    /// half-word address `a`, and the next prefetch address: nothing when the prefetch
    /// buffer holds it, the rest of the fetch in progress when it is the address being
    /// fetched, the full wait otherwise.
    pub open spec fn access_step(&self, ws: usize, cycle: Cycle, a: u32, pa: u32) -> (u32, u32) {
        let default = if cycle == Cycle::N {
            n_timing(self.n_wait_state_settings[ws as int])
        } else {
            s_timing(ws, self.s_wait_state_settings[ws as int])
        };
        if self.use_prefetch {
            if self.prefetch@.contains(a) {
                (0, pa)
            } else if pa == a {
                ((default - self.prefetch_cycles_spent) as u32, (a + 2) as u32)
            } else {
                (default, (a + 2) as u32)
            }
        } else {
            (default, pa)
        }
    }

    /// The access step can be taken without overflow.
    pub open spec fn access_step_ok(&self, ws: usize, cycle: Cycle, a: u32, pa: u32) -> bool {
        let default = if cycle == Cycle::N {
            n_timing(self.n_wait_state_settings[ws as int])
        } else {
            s_timing(ws, self.s_wait_state_settings[ws as int])
        };
        self.use_prefetch && !self.prefetch@.contains(a) ==> {
            &&& a + 2 <= u32::MAX
            &&& pa == a ==> self.prefetch_cycles_spent <= default
        }
    }

    /// Cycles of a ROM access of `access_len` half-words (a 32-bit access is two) at
    /// `addr`, and the next prefetch address afterwards.
    pub open spec fn rom_access(&self, ws: usize, cycle: Cycle, access_len: u32, addr: u32) -> (u32, u32) {
        let a = addr & !1u32;
        let (stall, pa1) = self.access_step(ws, cycle, a, self.prefetch_addr);
        if access_len == 2 {
            let (stall2, pa2) = self.access_step(ws, Cycle::S, (a + 2) as u32, pa1);
            ((1 + (1 + stall2) + stall) as u32, pa2)
        } else {
            ((1 + stall) as u32, pa1)
        }
    }

    /// The ROM access can be timed without overflow.
    pub open spec fn rom_access_ok(&self, ws: usize, cycle: Cycle, access_len: u32, addr: u32) -> bool {
        let a = addr & !1u32;
        let (_stall, pa1) = self.access_step(ws, cycle, a, self.prefetch_addr);
        &&& self.access_step_ok(ws, cycle, a, self.prefetch_addr)
        &&& access_len == 2 ==> a + 2 <= u32::MAX && ((a + 2) as u32) & !1u32 == (a + 2) as u32
            && self.access_step_ok(ws, Cycle::S, (a + 2) as u32, pa1)
    }

    /// Whether the prefetch buffer holds `a`.
    fn prefetch_contains(&self, a: u32) -> (r: bool)
        ensures
            r == self.prefetch@.contains(a),
    {
        let mut i: usize = 0;
        while i < self.prefetch.len()
            invariant
                i <= self.prefetch@.len(),
                forall|j: int| 0 <= j < i ==> self.prefetch@[j] != a,
            decreases self.prefetch@.len() - i,
        {
            if self.prefetch[i] == a {
                return true;
            }
            i = i + 1;
        }
        false
    }

    /// Cycles of a ROM access in wait state `wait_state`: one cycle plus the stall that
    /// the prefetch buffer leaves, and for a 32-bit access the sequential access to the
    /// second half-word.
    pub fn get_rom_access_time(&mut self, wait_state: usize, cycle: Cycle, access_len: u32, addr: u32) -> (r: u32)
        requires
            old(self).wf(),
            wait_state < 3,
            cycle != Cycle::I,
            access_len <= 2,
            old(self).rom_access_ok(wait_state, cycle, access_len, addr),
        ensures
            final(self).wf(),
            (r, final(self).prefetch_addr) == old(self).rom_access(wait_state, cycle, access_len, addr),
            *final(self) == (WaitStateControl {
                can_prefetch: false,
                prefetch_addr: final(self).prefetch_addr,
                prefetch: final(self).prefetch,
                ..*old(self)
            }),
            final(self).prefetch@ == old(self).prefetch@,
        decreases access_len,
    {
        let default_stall_time = match cycle {
            Cycle::N => n_access_timing(self.n_wait_state_settings[wait_state]),
            _ => s_access_timing(wait_state, self.s_wait_state_settings[wait_state]),
        };
        self.can_prefetch = false;
        let addr = addr & !0x1;
        let stall_time = if self.use_prefetch {
            if self.prefetch_contains(addr) {
                0
            } else if self.prefetch_addr == addr {
                self.prefetch_addr = addr + 2;
                default_stall_time - self.prefetch_cycles_spent
            } else {
                self.prefetch_addr = addr + 2;
                default_stall_time
            }
        } else {
            default_stall_time
        };
        let rest = if access_len == 2 {
            self.get_rom_access_time(wait_state, Cycle::S, 1, addr + 2)
        } else {
            0
        };
        1 + rest + stall_time
    }

    /// Cycles until the half-word being prefetched arrives.
    pub open spec fn prefetch_time(&self) -> u32 {
        s_timing(self.prefetch_waitstate, self.s_wait_state_settings[self.prefetch_waitstate as int])
    }

    pub open spec fn prefetch_state(&self) -> PrefetchState {
        (self.prefetch@, self.prefetch_addr, self.prefetch_cycles_spent)
    }

    /// Lets the prefetch unit run for `cycles` cycles when prefetching is on and the
    /// last bus cycle was not a ROM access, then allows prefetching again.
    pub fn clock_prefetch(&mut self, cycles: u32)
        requires
            old(self).wf(),
            old(self).use_prefetch && old(self).can_prefetch ==> prefetch_run_ok(old(self).prefetch_time(), old(self).prefetch_state(), cycles as nat),
        ensures
            final(self).wf(),
            final(self).can_prefetch,
            old(self).use_prefetch && old(self).can_prefetch ==> final(self).prefetch_state() == prefetch_run(
                old(self).prefetch_time(), old(self).prefetch_state(), cycles as nat),
            !(old(self).use_prefetch && old(self).can_prefetch) ==> final(self).prefetch_state() == old(
                self,
            ).prefetch_state(),
            *final(self) == (WaitStateControl {
                can_prefetch: true,
                prefetch: final(self).prefetch,
                prefetch_addr: final(self).prefetch_addr,
                prefetch_cycles_spent: final(self).prefetch_cycles_spent,
                ..*old(self)
            }),
    {
        if self.use_prefetch && self.can_prefetch {
            let mut i: u32 = 0;
            while i < cycles
                invariant
                    self.wf(),
                    i <= cycles,
                    prefetch_run(old(self).prefetch_time(), old(self).prefetch_state(), cycles as nat)
                        == prefetch_run(old(self).prefetch_time(), self.prefetch_state(), (cycles - i) as nat),
                    prefetch_run_ok(old(self).prefetch_time(), self.prefetch_state(), (cycles - i) as nat),
                    *self == (WaitStateControl {
                        prefetch: self.prefetch,
                        prefetch_addr: self.prefetch_addr,
                        prefetch_cycles_spent: self.prefetch_cycles_spent,
                        ..*old(self)
                    }),
                decreases cycles - i,
            {
                let ghost st = self.prefetch_state();
                let prefetch_time = s_access_timing(
                    self.prefetch_waitstate,
                    self.s_wait_state_settings[self.prefetch_waitstate],
                );
                if self.prefetch_cycles_spent >= prefetch_time {
                    if self.prefetch.len() == 8 {
                        self.prefetch.pop_front();
                    }
                    self.prefetch.push_back(self.prefetch_addr);
                    self.prefetch_addr = self.prefetch_addr + 2;
                    self.prefetch_cycles_spent = 0;
                } else {
                    self.prefetch_cycles_spent = self.prefetch_cycles_spent + 1;
                }
                assert(self.prefetch_state() == prefetch_tick(old(self).prefetch_time(), st));
                i = i + 1;
            }
        }
        self.can_prefetch = true;
    }

    /// Cycles of a static RAM access.
    pub fn get_sram_access_time(&self, cycle: Cycle) -> (r: u32)
        requires
            self.wf(),
            cycle != Cycle::I,
        ensures
            r == 1 + n_timing(self.sram_setting),
    {
        1 + n_access_timing(self.sram_setting)
    }

    /// Value of register byte `byte`: byte 0 the static RAM and wait state 0 and 1
    /// settings, byte 1 the wait state 2 settings, PHI output, prefetch enable and
    /// type flag.
    pub open spec fn read_spec(&self, byte: u8) -> u8 {
        if byte == 0 {
            ((self.s_wait_state_settings[1] << 7usize) | (self.n_wait_state_settings[1] << 5usize) | (
            self.s_wait_state_settings[0] << 4usize) | (self.n_wait_state_settings[0] << 2usize)
                | self.sram_setting) as u8
        } else {
            (((if self._type_flag { 1usize } else { 0usize }) << 7usize) | ((if self.use_prefetch {
                1usize
            } else {
                0usize
            }) << 6usize) | (self.phi_terminal_out << 3usize) | (self.s_wait_state_settings[2] << 2usize)
                | self.n_wait_state_settings[2]) as u8
        }
    }

    pub fn read(&self, byte: u8) -> (r: u8)
        requires
            byte < 2,
        ensures
            r == self.read_spec(byte),
    {
        match byte {
            0 => (self.s_wait_state_settings[1] << 7 | self.n_wait_state_settings[1] << 5
                | self.s_wait_state_settings[0] << 4 | self.n_wait_state_settings[0] << 2
                | self.sram_setting) as u8,
            _ => {
                let t: usize = if self._type_flag { 1 } else { 0 };
                let p: usize = if self.use_prefetch { 1 } else { 0 };
                (t << 7 | p << 6 | self.phi_terminal_out << 3 | self.s_wait_state_settings[2] << 2
                    | self.n_wait_state_settings[2]) as u8
            },
        }
    }

    /// Writes register byte `byte`; the type flag is read-only.
    pub fn write(&mut self, byte: u8, value: u8)
        requires
            old(self).wf(),
            byte < 2,
        ensures
            final(self).wf(),
            byte == 0 ==> {
                &&& final(self).sram_setting == (value & 3) as usize
                &&& final(self).n_wait_state_settings@ == old(self).n_wait_state_settings@
                    .update(0, ((value >> 2u8) & 3) as usize).update(1, ((value >> 5u8) & 3) as usize)
                &&& final(self).s_wait_state_settings@ == old(self).s_wait_state_settings@
                    .update(0, ((value >> 4u8) & 1) as usize).update(1, ((value >> 7u8) & 1) as usize)
                &&& *final(self) == (WaitStateControl {
                    sram_setting: final(self).sram_setting,
                    n_wait_state_settings: final(self).n_wait_state_settings,
                    s_wait_state_settings: final(self).s_wait_state_settings,
                    ..*old(self)
                })
            },
            byte == 1 ==> {
                &&& final(self).n_wait_state_settings@ == old(self).n_wait_state_settings@.update(2, (value & 3) as usize)
                &&& final(self).s_wait_state_settings@ == old(self).s_wait_state_settings@.update(2, ((value >> 2u8) & 1) as usize)
                &&& *final(self) == (WaitStateControl {
                    n_wait_state_settings: final(self).n_wait_state_settings,
                    s_wait_state_settings: final(self).s_wait_state_settings,
                    phi_terminal_out: ((value >> 3u8) & 3) as usize,
                    use_prefetch: (value >> 6u8) & 1 != 0,
                    ..*old(self)
                })
            },
    {
        proof {
            crate::bits::lemma_u8_fields(value);
            lemma_waitcnt_fields(value);
        }
        if byte == 0 {
            self.sram_setting = (value & 0x3) as usize;
            self.n_wait_state_settings[0] = ((value >> 2) & 0x3) as usize;
            self.s_wait_state_settings[0] = ((value >> 4) & 0x1) as usize;
            self.n_wait_state_settings[1] = ((value >> 5) & 0x3) as usize;
            self.s_wait_state_settings[1] = ((value >> 7) & 0x1) as usize;
        } else {
            self.n_wait_state_settings[2] = (value & 0x3) as usize;
            self.s_wait_state_settings[2] = ((value >> 2) & 0x1) as usize;
            self.phi_terminal_out = ((value >> 3) & 0x3) as usize;
            self.use_prefetch = (value >> 6) & 0x1 != 0;
        }
    }
}

} // verus!
