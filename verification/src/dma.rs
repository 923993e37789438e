use vstd::prelude::*;

verus! {

/// DMA start timing at the beginning of the vertical blank.
pub const TIMING_VBLANK: u16 = 1;

/// DMA start timing at the beginning of each horizontal blank.
pub const TIMING_HBLANK: u16 = 2;

/// A part of the system that starts the DMA channels waiting for a start timing.
pub trait DmaNotifier {
    fn notify(&mut self, timing: u16);
}

} // verus!
