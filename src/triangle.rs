use vstd::prelude::*;
use crate::bits::{lemma_timer_high, lemma_timer_low};
use crate::counters::{LengthCounter, LinearCounter};
use crate::sweep::MAX_TIMER_PERIOD;

verus! {

/// Value of the 32-step triangle ramp at `step`: 0 up to 15, then 15 down to 0.
pub open spec fn ramp(step: u8) -> u8 {
    if step < 16 {
        step
    } else {
        (31 - step) as u8
    }
}

/// A triangle-wave channel, gated by a linear counter and a length counter.
#[derive(Debug, Clone, Copy, PartialEq, Eq, Structural)]
pub struct Triangle {
    /// Timer period (11 bits).
    pub timer_period: u16,
    pub timer: u16,
    /// Step within the 32-step ramp.
    pub sequencer_step: u8,
    /// The timer runs at half the CPU rate: set on the cycles that clock it.
    pub odd_cycle: bool,
    pub length_counter: LengthCounter,
    pub linear_counter: LinearCounter,
}

impl Triangle {
    pub open spec fn wf(self) -> bool {
        &&& self.linear_counter.wf()
        &&& self.timer_period <= MAX_TIMER_PERIOD
        &&& self.sequencer_step < 32
    }

    pub open spec fn power_on() -> Triangle {
        Triangle {
            timer_period: 0,
            timer: 0,
            sequencer_step: 0,
            odd_cycle: false,
            length_counter: LengthCounter::power_on(),
            linear_counter: LinearCounter::power_on(),
        }
    }

    pub open spec fn level_spec(self) -> u8 {
        ramp(self.sequencer_step)
    }

    /// The ramp advances only while both counters are non-zero.
    pub open spec fn gate_open(self) -> bool {
        self.linear_counter.counter > 0 && self.length_counter.counter > 0
    }

    pub open spec fn cpu_cycle(self) -> Triangle {
        if !self.odd_cycle {
            Triangle { odd_cycle: true, ..self }
        } else if self.timer == 0 {
            Triangle {
                odd_cycle: false,
                timer: self.timer_period,
                sequencer_step: if self.gate_open() {
                    ((self.sequencer_step + 1) % 32) as u8
                } else {
                    self.sequencer_step
                },
                ..self
            }
        } else {
            Triangle { odd_cycle: false, timer: (self.timer - 1) as u16, ..self }
        }
    }

    pub open spec fn quarter_frame(self) -> Triangle {
        Triangle { linear_counter: self.linear_counter.quarter_frame(), ..self }
    }

    pub open spec fn half_frame(self) -> Triangle {
        Triangle { length_counter: self.length_counter.half_frame(), ..self }
    }

    /// Linear-counter register (CRRR RRRR): control / length halt, reload value.
    pub open spec fn with_linear(self, v: u8) -> Triangle {
        Triangle {
            linear_counter: self.linear_counter.configured(v & 0x80 != 0, v & 0x7F),
            length_counter: LengthCounter { halt: v & 0x80 != 0, ..self.length_counter },
            ..self
        }
    }

    pub open spec fn with_timer_low(self, v: u8) -> Triangle {
        Triangle { timer_period: (self.timer_period & 0x700) | (v as u16), ..self }
    }

    /// Length load and high timer bits; requests a linear-counter reload.
    pub open spec fn with_timer_high(self, v: u8) -> Triangle {
        Triangle {
            timer_period: (self.timer_period & 0xFF) | (((v & 7) as u16) << 8u16),
            length_counter: self.length_counter.loaded(v >> 3u8),
            linear_counter: LinearCounter { reload: true, ..self.linear_counter },
            ..self
        }
    }

    pub fn new() -> (t: Triangle)
        ensures
            t == Triangle::power_on(),
            t.wf(),
    {
        Triangle {
            timer_period: 0,
            timer: 0,
            sequencer_step: 0,
            odd_cycle: false,
            length_counter: LengthCounter::new(),
            linear_counter: LinearCounter::new(),
        }
    }

    pub fn write_linear(&mut self, v: u8)
        requires
            old(self).wf(),
        ensures
            *final(self) == old(self).with_linear(v),
            final(self).wf(),
    {
        self.linear_counter.configure(v & 0x80 != 0, v & 0x7F);
        self.length_counter.set_halt(v & 0x80 != 0);
    }

    pub fn write_timer_low(&mut self, v: u8)
        requires
            old(self).wf(),
        ensures
            *final(self) == old(self).with_timer_low(v),
            final(self).wf(),
    {
        proof {
            lemma_timer_low(self.timer_period, v);
        }
        self.timer_period = (self.timer_period & 0x700) | (v as u16);
    }

    pub fn write_timer_high(&mut self, v: u8)
        requires
            old(self).wf(),
        ensures
            *final(self) == old(self).with_timer_high(v),
            final(self).wf(),
    {
        proof {
            lemma_timer_high(self.timer_period, v);
        }
        self.timer_period = (self.timer_period & 0xFF) | (((v & 7) as u16) << 8);
        self.length_counter.load(v >> 3);
        self.linear_counter.request_reload();
    }

    pub fn set_enabled(&mut self, enabled: bool)
        requires
            old(self).wf(),
        ensures
            *final(self) == (Triangle {
                length_counter: old(self).length_counter.with_enabled(enabled),
                ..*old(self)
            }),
            final(self).wf(),
    {
        self.length_counter.set_enabled(enabled);
    }

    pub fn clock_cpu_cycle(&mut self)
        requires
            old(self).wf(),
        ensures
            *final(self) == old(self).cpu_cycle(),
            final(self).wf(),
    {
        if !self.odd_cycle {
            self.odd_cycle = true;
        } else {
            self.odd_cycle = false;
            if self.timer == 0 {
                self.timer = self.timer_period;
                if self.linear_counter.counter > 0 && self.length_counter.is_active() {
                    self.sequencer_step = (self.sequencer_step + 1) % 32;
                }
            } else {
                self.timer = self.timer - 1;
            }
        }
    }

    pub fn clock_quarter_frame(&mut self)
        requires
            old(self).wf(),
        ensures
            *final(self) == old(self).quarter_frame(),
            final(self).wf(),
    {
        self.linear_counter.clock_quarter_frame();
    }

    pub fn clock_half_frame(&mut self)
        requires
            old(self).wf(),
        ensures
            *final(self) == old(self).half_frame(),
            final(self).wf(),
    {
        self.length_counter.clock_half_frame();
    }

    pub fn current_level(&self) -> (r: u8)
        requires
            self.wf(),
        ensures
            r == self.level_spec(),
            r <= 15,
    {
        if self.sequencer_step < 16 {
            self.sequencer_step
        } else {
            31 - self.sequencer_step
        }
    }
}

} // verus!
