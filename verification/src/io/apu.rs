use vstd::prelude::*;
use crate::consts::CLOCK_FREQ;

verus! {

/// Cycles between two output samples (32768 samples a second).
pub const CLOCKS_PER_SAMPLE: usize = 0x200;

/// A sound channel: the sample it produces now and whether it plays.
pub trait Channel {
    fn generate_sample(&self) -> i16;

    fn is_on(&self) -> bool;
}

/// The sound unit's master enable, sample clock and the requests of the two direct
/// sound FIFOs for more data.
pub struct Apu {
    pub master_enable: bool,
    pub sample_clock: usize,
    pub fifo_a_req: bool,
    pub fifo_b_req: bool,
}

impl Apu {
    pub fn new() -> (r: Self)
        ensures
            !r.master_enable,
            r.sample_clock == CLOCK_FREQ / 0x8000,
            !r.fifo_a_req,
            !r.fifo_b_req,
    {
        Self { master_enable: false, sample_clock: CLOCKS_PER_SAMPLE, fifo_a_req: false, fifo_b_req: false }
    }

    /// Takes the request of FIFO A: returns it and clears it.
    pub fn fifo_a_req(&mut self) -> (r: bool)
        ensures
            r == old(self).fifo_a_req,
            *final(self) == (Apu { fifo_a_req: false, ..*old(self) }),
    {
        let fifo_a_req = self.fifo_a_req;
        self.fifo_a_req = false;
        fifo_a_req
    }

    /// Takes the request of FIFO B: returns it and clears it.
    pub fn fifo_b_req(&mut self) -> (r: bool)
        ensures
            r == old(self).fifo_b_req,
            *final(self) == (Apu { fifo_b_req: false, ..*old(self) }),
    {
        let fifo_b_req = self.fifo_b_req;
        self.fifo_b_req = false;
        fifo_b_req
    }
}

} // verus!
