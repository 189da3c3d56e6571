//! Counting of animation frames, and the decision of when frame statistics
//! are due to be reported.
use vstd::prelude::*;

verus! {

/// Frame statistics are reported once every this many frames.
pub const REPORT_INTERVAL: u64 = 60;

/// The number of frames drawn so far.
pub struct FrameCounter {
    frames: u64,
}

impl View for FrameCounter {
    type V = nat;

    closed spec fn view(&self) -> nat {
        self.frames as nat
    }
}

/// Whether statistics are reported once `frames` frames have been drawn.
pub open spec fn report_due(frames: nat) -> bool {
    frames % (REPORT_INTERVAL as nat) == 0
}

impl FrameCounter {
    /// A counter that has seen no frame yet.
    pub fn new() -> (r: FrameCounter)
        ensures
            r@ == 0,
    {
        FrameCounter { frames: 0 }
    }

    /// The number of frames counted so far.
    pub fn frames(&self) -> (r: u64)
        ensures
            r == self@,
    {
        self.frames
    }

    /// Counts one more frame, and tells whether statistics are due after it.
    pub fn tick(&mut self) -> (report: bool)
        requires
            old(self)@ < u64::MAX,
        ensures
            final(self)@ == old(self)@ + 1,
            report == report_due(final(self)@),
    {
        self.frames = self.frames + 1;
        self.frames % REPORT_INTERVAL == 0
    }
}

} // verus!
