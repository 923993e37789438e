use vstd::prelude::*;
use crate::consts::{
    PAGE_EWRAM, PAGE_GAMEPAK_WS0, PAGE_GAMEPAK_WS1, PAGE_GAMEPAK_WS2, PAGE_OAM, PAGE_PALRAM, PAGE_SRAM_HI,
    PAGE_SRAM_LO, PAGE_VRAM,
};
use crate::io::{n_timing, s_timing};
use crate::iodev::WaitControl;

verus! {

/// Entries of each cycle table, one per page.
pub const CYCLE_LUT_SIZE: usize = 0x100;

/// Cycles of an access to each page of the memory map: nonsequential and sequential,
/// 32-bit and 16-bit.
pub struct CycleLookupTables {
    pub n_cycles32: Vec<usize>,
    pub s_cycles32: Vec<usize>,
    pub n_cycles16: Vec<usize>,
    pub s_cycles16: Vec<usize>,
}

impl Default for CycleLookupTables {
    /// One cycle everywhere.
    fn default() -> (r: CycleLookupTables)
        ensures
            r.wf(),
            forall|i: int| 0 <= i < CYCLE_LUT_SIZE ==> r.n_cycles32@[i] == 1 && r.s_cycles32@[i] == 1
                && r.n_cycles16@[i] == 1 && r.s_cycles16@[i] == 1,
    {
        CycleLookupTables {
            n_cycles32: vec_filled_usize(1, CYCLE_LUT_SIZE),
            s_cycles32: vec_filled_usize(1, CYCLE_LUT_SIZE),
            n_cycles16: vec_filled_usize(1, CYCLE_LUT_SIZE),
            s_cycles16: vec_filled_usize(1, CYCLE_LUT_SIZE),
        }
    }
}

/// A vector of `n` copies of `v`.
fn vec_filled_usize(v: usize, n: usize) -> (r: Vec<usize>)
    ensures
        r.len() == n,
        forall|i: int| 0 <= i < n ==> r@[i] == v,
{
    let mut r: Vec<usize> = Vec::new();
    while r.len() < n
        invariant
            r.len() <= n,
            forall|i: int| 0 <= i < r.len() ==> r@[i] == v,
        decreases n - r.len(),
    {
        r.push(v);
    }
    r
}

impl CycleLookupTables {
    pub open spec fn wf(&self) -> bool {
        &&& self.n_cycles32.len() == CYCLE_LUT_SIZE
        &&& self.s_cycles32.len() == CYCLE_LUT_SIZE
        &&& self.n_cycles16.len() == CYCLE_LUT_SIZE
        &&& self.s_cycles16.len() == CYCLE_LUT_SIZE
    }

    /// The fixed timings of the internal memories: work RAM 6 and 3 cycles, object,
    /// video and palette RAM 2 and 1 cycles (32-bit and 16-bit accesses).
    pub fn init(&mut self)
        requires
            old(self).wf(),
        ensures
            final(self).wf(),
            final(self).n_cycles32@ == old(self).n_cycles32@.update(PAGE_EWRAM as int, 6).update(PAGE_OAM as int, 2)
                .update(PAGE_VRAM as int, 2).update(PAGE_PALRAM as int, 2),
            final(self).s_cycles32@ == old(self).s_cycles32@.update(PAGE_EWRAM as int, 6).update(PAGE_OAM as int, 2)
                .update(PAGE_VRAM as int, 2).update(PAGE_PALRAM as int, 2),
            final(self).n_cycles16@ == old(self).n_cycles16@.update(PAGE_EWRAM as int, 3).update(PAGE_OAM as int, 1)
                .update(PAGE_VRAM as int, 1).update(PAGE_PALRAM as int, 1),
            final(self).s_cycles16@ == old(self).s_cycles16@.update(PAGE_EWRAM as int, 3).update(PAGE_OAM as int, 1)
                .update(PAGE_VRAM as int, 1).update(PAGE_PALRAM as int, 1),
    {
        self.n_cycles32.set(PAGE_EWRAM, 6);
        self.s_cycles32.set(PAGE_EWRAM, 6);
        self.n_cycles16.set(PAGE_EWRAM, 3);
        self.s_cycles16.set(PAGE_EWRAM, 3);
        self.n_cycles32.set(PAGE_OAM, 2);
        self.s_cycles32.set(PAGE_OAM, 2);
        self.n_cycles16.set(PAGE_OAM, 1);
        self.s_cycles16.set(PAGE_OAM, 1);
        self.n_cycles32.set(PAGE_VRAM, 2);
        self.s_cycles32.set(PAGE_VRAM, 2);
        self.n_cycles16.set(PAGE_VRAM, 1);
        self.s_cycles16.set(PAGE_VRAM, 1);
        self.n_cycles32.set(PAGE_PALRAM, 2);
        self.s_cycles32.set(PAGE_PALRAM, 2);
        self.n_cycles16.set(PAGE_PALRAM, 1);
        self.s_cycles16.set(PAGE_PALRAM, 1);
    }

    /// Sets the timings of a game pak page: `n` and `s` cycles for 16-bit accesses,
    /// `n + s` and `2 * s` for 32-bit ones.
    fn set_page(&mut self, page: usize, n: usize, s: usize)
        requires
            old(self).wf(),
            page < CYCLE_LUT_SIZE,
            n <= 9 && s <= 9,
        ensures
            final(self).wf(),
            final(self).n_cycles16@ == old(self).n_cycles16@.update(page as int, n),
            final(self).s_cycles16@ == old(self).s_cycles16@.update(page as int, s),
            final(self).n_cycles32@ == old(self).n_cycles32@.update(page as int, (n + s) as usize),
            final(self).s_cycles32@ == old(self).s_cycles32@.update(page as int, (2 * s) as usize),
    {
        self.n_cycles16.set(page, n);
        self.s_cycles16.set(page, s);
        self.n_cycles32.set(page, n + s);
        self.s_cycles32.set(page, 2 * s);
    }

    /// The game pak timings from the wait state control register: static RAM (the
    /// 32-bit tables at the low page, the 16-bit tables at the high page) and both
    /// pages of each wait state, a 32-bit ROM access being a nonsequential and a
    /// sequential 16-bit access.
    #[verifier::spinoff_prover]
    #[verifier::rlimit(60)]
    pub fn update_gamepak_waitstates(&mut self, waitcnt: WaitControl)
        requires
            old(self).wf(),
        ensures
            final(self).wf(),
            ({
                let sram = sram_cycles(waitcnt);
                let (n0, s0) = (ws_n16(waitcnt, 0), ws_s16(waitcnt, 0));
                let (n1, s1) = (ws_n16(waitcnt, 1), ws_s16(waitcnt, 1));
                let (n2, s2) = (ws_n16(waitcnt, 2), ws_s16(waitcnt, 2));
                &&& final(self).n_cycles16@ == old(self).n_cycles16@.update(0xF, sram).update(8, n0).update(0xA, n1)
                    .update(0xC, n2).update(9, n0).update(0xB, n1).update(0xD, n2)
                &&& final(self).s_cycles16@ == old(self).s_cycles16@.update(0xF, sram).update(8, s0).update(0xA, s1)
                    .update(0xC, s2).update(9, s0).update(0xB, s1).update(0xD, s2)
                &&& final(self).n_cycles32@ == old(self).n_cycles32@.update(0xE, sram).update(8, (n0 + s0) as usize)
                    .update(0xA, (n1 + s1) as usize).update(0xC, (n2 + s2) as usize).update(9, (n0 + s0) as usize)
                    .update(0xB, (n1 + s1) as usize).update(0xD, (n2 + s2) as usize)
                &&& final(self).s_cycles32@ == old(self).s_cycles32@.update(0xE, sram).update(8, (2 * s0) as usize)
                    .update(0xA, (2 * s1) as usize).update(0xC, (2 * s2) as usize).update(9, (2 * s0) as usize)
                    .update(0xB, (2 * s1) as usize).update(0xD, (2 * s2) as usize)
            }),
    {
        let ws0_first_access = waitcnt.ws0_first_access() as usize;
        let ws1_first_access = waitcnt.ws1_first_access() as usize;
        let ws2_first_access = waitcnt.ws2_first_access() as usize;
        let ws0_second_access: usize = if waitcnt.ws0_second_access() { 1 } else { 0 };
        let ws1_second_access: usize = if waitcnt.ws1_second_access() { 1 } else { 0 };
        let ws2_second_access: usize = if waitcnt.ws2_second_access() { 1 } else { 0 };
        let sram_wait_cycles = 1 + nseq_cycles(waitcnt.sram_wait_control() as usize);
        self.n_cycles32.set(PAGE_SRAM_LO, sram_wait_cycles);
        self.n_cycles16.set(PAGE_SRAM_HI, sram_wait_cycles);
        self.s_cycles32.set(PAGE_SRAM_LO, sram_wait_cycles);
        self.s_cycles16.set(PAGE_SRAM_HI, sram_wait_cycles);
        let n0 = 1 + nseq_cycles(ws0_first_access);
        let s0 = 1 + seq_cycles(0, ws0_second_access);
        let n1 = 1 + nseq_cycles(ws1_first_access);
        let s1 = 1 + seq_cycles(1, ws1_second_access);
        let n2 = 1 + nseq_cycles(ws2_first_access);
        let s2 = 1 + seq_cycles(2, ws2_second_access);
        let ghost start = (self.n_cycles16@, self.s_cycles16@, self.n_cycles32@, self.s_cycles32@);
        assert(start.0 == old(self).n_cycles16@.update(0xF, sram_wait_cycles));
        assert(start.2 == old(self).n_cycles32@.update(0xE, sram_wait_cycles));
        let mut i: usize = 0;
        while i < 2
            invariant
                i <= 2,
                self.wf(),
                n0 <= 9 && s0 <= 9 && n1 <= 9 && s1 <= 9 && n2 <= 9 && s2 <= 9,
                i == 0 ==> (self.n_cycles16@, self.s_cycles16@, self.n_cycles32@, self.s_cycles32@) == start,
                i == 1 ==> self.n_cycles16@ == start.0.update(8, n0).update(0xA, n1).update(0xC, n2)
                    && self.s_cycles16@ == start.1.update(8, s0).update(0xA, s1).update(0xC, s2)
                    && self.n_cycles32@ == start.2.update(8, (n0 + s0) as usize).update(0xA, (n1 + s1) as usize).update(0xC, (n2 + s2) as usize)
                    && self.s_cycles32@ == start.3.update(8, (2 * s0) as usize).update(0xA, (2 * s1) as usize).update(0xC, (2 * s2) as usize),
                i == 2 ==> self.n_cycles16@ == start.0.update(8, n0).update(0xA, n1).update(0xC, n2).update(9, n0)
                    .update(0xB, n1).update(0xD, n2)
                    && self.s_cycles16@ == start.1.update(8, s0).update(0xA, s1).update(0xC, s2).update(9, s0)
                    .update(0xB, s1).update(0xD, s2)
                    && self.n_cycles32@ == start.2.update(8, (n0 + s0) as usize).update(0xA, (n1 + s1) as usize).update(0xC, (n2 + s2) as usize)
                    .update(9, (n0 + s0) as usize).update(0xB, (n1 + s1) as usize).update(0xD, (n2 + s2) as usize)
                    && self.s_cycles32@ == start.3.update(8, (2 * s0) as usize).update(0xA, (2 * s1) as usize).update(0xC, (2 * s2) as usize)
                    .update(9, (2 * s0) as usize).update(0xB, (2 * s1) as usize).update(0xD, (2 * s2) as usize),
            decreases 2 - i,
        {
            self.set_page(PAGE_GAMEPAK_WS0 + i, n0, s0);
            self.set_page(PAGE_GAMEPAK_WS1 + i, n1, s1);
            self.set_page(PAGE_GAMEPAK_WS2 + i, n2, s2);
            i = i + 1;
        }
    }
}

/// Cycles of a static RAM access for the register's setting.
pub open spec fn sram_cycles(w: WaitControl) -> usize {
    (1 + n_timing((w.0 & 3) as usize)) as usize
}

/// Cycles of a nonsequential 16-bit access in wait state `ws` (0 to 2).
pub open spec fn ws_n16(w: WaitControl, ws: int) -> usize {
    let first = if ws == 0 { (w.0 >> 2u16) & 3 } else if ws == 1 { (w.0 >> 5u16) & 3 } else { (w.0 >> 8u16) & 3 };
    (1 + n_timing(first as usize)) as usize
}

/// Cycles of a sequential 16-bit access in wait state `ws` (0 to 2).
pub open spec fn ws_s16(w: WaitControl, ws: int) -> usize {
    let second = if ws == 0 { (w.0 >> 4u16) & 1 != 0 } else if ws == 1 { (w.0 >> 7u16) & 1 != 0 } else { (w.0 >> 10u16) & 1 != 0 };
    (1 + s_timing(ws as usize, if second { 1usize } else { 0usize })) as usize
}

/// Nonsequential cycles of a game pak access for each setting.
fn nseq_cycles(setting: usize) -> (r: usize)
    requires
        setting < 4,
    ensures
        r == n_timing(setting),
{
    match setting {
        0 => 4,
        1 => 3,
        2 => 2,
        _ => 8,
    }
}

/// Sequential cycles of a game pak access in wait state `ws` for each setting.
fn seq_cycles(ws: usize, setting: usize) -> (r: usize)
    requires
        ws < 3,
        setting < 2,
    ensures
        r == s_timing(ws, setting),
{
    if setting == 1 {
        1
    } else if ws == 0 {
        2
    } else if ws == 1 {
        4
    } else {
        8
    }
}

} // verus!
