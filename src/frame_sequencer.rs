use vstd::prelude::*;

verus! {

/// CPU cycles in one pass of the 4-step sequence.
pub const FOUR_STEP_LEN: u32 = 29830;

/// CPU cycles in one pass of the 5-step sequence.
pub const FIVE_STEP_LEN: u32 = 37282;

/// What the frame sequencer asks of the channels on a given cycle.
#[derive(Debug, Clone, Copy, PartialEq, Eq, Structural)]
pub enum FrameTick {
    /// Nothing this cycle.
    Idle,
    /// Clock envelopes and the triangle's linear counter.
    Quarter,
    /// A quarter-frame tick, plus length counters and sweep units.
    Half,
}

pub open spec fn sequence_len(five_step: bool) -> u32 {
    if five_step {
        FIVE_STEP_LEN
    } else {
        FOUR_STEP_LEN
    }
}

/// The tick that fires at offset `cycle` of the sequence.
pub open spec fn tick_at(five_step: bool, cycle: u32) -> FrameTick {
    if cycle == 7457 || cycle == 22371 {
        FrameTick::Quarter
    } else if cycle == 14913 {
        FrameTick::Half
    } else if !five_step && cycle == 29829 {
        FrameTick::Half
    } else if five_step && cycle == 37281 {
        FrameTick::Half
    } else {
        FrameTick::Idle
    }
}

/// Fixed-period scheduler of quarter-frame and half-frame ticks.
#[derive(Debug, Clone, Copy, PartialEq, Eq, Structural)]
pub struct FrameSequencer {
    /// 5-step mode (about 48 Hz) instead of 4-step mode (about 60 Hz).
    pub five_step: bool,
    /// Offset within the current sequence.
    pub cycle: u32,
}

impl FrameSequencer {
    pub open spec fn wf(self) -> bool {
        self.cycle < sequence_len(self.five_step)
    }

    /// The state after one CPU cycle: the offset advances and wraps to 0 at
    /// the end of the sequence.
    pub open spec fn advanced(self) -> FrameSequencer {
        FrameSequencer {
            cycle: if self.cycle + 1 >= sequence_len(self.five_step) {
                0
            } else {
                (self.cycle + 1) as u32
            },
            ..self
        }
    }

    pub fn new() -> (f: FrameSequencer)
        ensures
            f == (FrameSequencer { five_step: false, cycle: 0 }),
            f.wf(),
    {
        FrameSequencer { five_step: false, cycle: 0 }
    }

    /// Selects the mode and restarts the sequence.
    pub fn set_mode(&mut self, five_step: bool)
        ensures
            *final(self) == (FrameSequencer { five_step, cycle: 0 }),
            final(self).wf(),
    {
        self.five_step = five_step;
        self.cycle = 0;
    }

    /// Advances one CPU cycle and returns the tick due at the new offset.
    pub fn clock(&mut self) -> (t: FrameTick)
        requires
            old(self).wf(),
        ensures
            *final(self) == old(self).advanced(),
            t == tick_at(final(self).five_step, final(self).cycle),
            final(self).wf(),
    {
        let len = if self.five_step {
            FIVE_STEP_LEN
        } else {
            FOUR_STEP_LEN
        };
        if self.cycle + 1 >= len {
            self.cycle = 0;
        } else {
            self.cycle = self.cycle + 1;
        }
        let c = self.cycle;
        if c == 7457 || c == 22371 {
            FrameTick::Quarter
        } else if c == 14913 {
            FrameTick::Half
        } else if !self.five_step && c == 29829 {
            FrameTick::Half
        } else if self.five_step && c == 37281 {
            FrameTick::Half
        } else {
            FrameTick::Idle
        }
    }
}

} // verus!
