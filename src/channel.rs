use vstd::prelude::*;
use crate::frame_sequencer::FrameTick;
use crate::noise::Noise;
use crate::pulse::Pulse;
use crate::triangle::Triangle;

verus! {

/// What the APU asks of each tone channel: per-cycle timer clocking,
/// quarter-frame and half-frame ticks, and a 4-bit output level.
pub trait Channel: Sized {
    /// The channel's internal invariant.
    spec fn inv(&self) -> bool;

    /// The level the channel outputs in its current state.
    spec fn level(&self) -> u8;

    spec fn after_cpu_cycle(&self) -> Self;

    spec fn after_quarter_frame(&self) -> Self;

    spec fn after_half_frame(&self) -> Self;

    fn clock_cpu_cycle(&mut self)
        requires
            old(self).inv(),
        ensures
            *final(self) == old(self).after_cpu_cycle(),
            final(self).inv(),
    ;

    fn clock_quarter_frame(&mut self)
        requires
            old(self).inv(),
        ensures
            *final(self) == old(self).after_quarter_frame(),
            final(self).inv(),
    ;

    fn clock_half_frame(&mut self)
        requires
            old(self).inv(),
        ensures
            *final(self) == old(self).after_half_frame(),
            final(self).inv(),
    ;

    fn current_level(&self) -> (r: u8)
        requires
            self.inv(),
        ensures
            r == self.level(),
            r <= 15,
    ;
}

impl Channel for Pulse {
    open spec fn inv(&self) -> bool {
        self.wf()
    }

    open spec fn level(&self) -> u8 {
        self.level_spec()
    }

    open spec fn after_cpu_cycle(&self) -> Pulse {
        self.cpu_cycle()
    }

    open spec fn after_quarter_frame(&self) -> Pulse {
        self.quarter_frame()
    }

    open spec fn after_half_frame(&self) -> Pulse {
        self.half_frame()
    }

    fn clock_cpu_cycle(&mut self) {
        Pulse::clock_cpu_cycle(self)
    }

    fn clock_quarter_frame(&mut self) {
        Pulse::clock_quarter_frame(self)
    }

    fn clock_half_frame(&mut self) {
        Pulse::clock_half_frame(self)
    }

    fn current_level(&self) -> (r: u8) {
        Pulse::current_level(self)
    }
}

impl Channel for Triangle {
    open spec fn inv(&self) -> bool {
        self.wf()
    }

    open spec fn level(&self) -> u8 {
        self.level_spec()
    }

    open spec fn after_cpu_cycle(&self) -> Triangle {
        self.cpu_cycle()
    }

    open spec fn after_quarter_frame(&self) -> Triangle {
        self.quarter_frame()
    }

    open spec fn after_half_frame(&self) -> Triangle {
        self.half_frame()
    }

    fn clock_cpu_cycle(&mut self) {
        Triangle::clock_cpu_cycle(self)
    }

    fn clock_quarter_frame(&mut self) {
        Triangle::clock_quarter_frame(self)
    }

    fn clock_half_frame(&mut self) {
        Triangle::clock_half_frame(self)
    }

    fn current_level(&self) -> (r: u8) {
        Triangle::current_level(self)
    }
}

impl Channel for Noise {
    open spec fn inv(&self) -> bool {
        self.wf()
    }

    open spec fn level(&self) -> u8 {
        self.level_spec()
    }

    open spec fn after_cpu_cycle(&self) -> Noise {
        self.cpu_cycle()
    }

    open spec fn after_quarter_frame(&self) -> Noise {
        self.quarter_frame()
    }

    open spec fn after_half_frame(&self) -> Noise {
        self.half_frame()
    }

    fn clock_cpu_cycle(&mut self) {
        Noise::clock_cpu_cycle(self)
    }

    fn clock_quarter_frame(&mut self) {
        Noise::clock_quarter_frame(self)
    }

    fn clock_half_frame(&mut self) {
        Noise::clock_half_frame(self)
    }

    fn current_level(&self) -> (r: u8) {
        Noise::current_level(self)
    }
}

/// The channel after the frame sequencer's tick: a half-frame tick is a
/// quarter-frame tick followed by the half-frame work.
pub open spec fn after_tick<C: Channel>(c: C, t: FrameTick) -> C {
    match t {
        FrameTick::Idle => c,
        FrameTick::Quarter => c.after_quarter_frame(),
        FrameTick::Half => c.after_quarter_frame().after_half_frame(),
    }
}

/// Applies one frame-sequencer tick to a channel.
pub fn apply_tick<C: Channel>(c: &mut C, t: FrameTick)
    requires
        old(c).inv(),
    ensures
        *final(c) == after_tick(*old(c), t),
        final(c).inv(),
{
    match t {
        FrameTick::Idle => {},
        FrameTick::Quarter => {
            c.clock_quarter_frame();
        },
        FrameTick::Half => {
            c.clock_quarter_frame();
            c.clock_half_frame();
        },
    }
}

} // verus!
