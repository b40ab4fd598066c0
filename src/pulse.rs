use vstd::prelude::*;
use crate::bits::{lemma_timer_high, lemma_timer_low, lemma_top_two_bits};
use crate::counters::{lemma_length_countdown, length_after, LengthCounter};
use crate::envelope::Envelope;
use crate::sweep::{Sweep, MAX_TIMER_PERIOD};

verus! {

/// The four 8-step duty patterns, one after another.
pub open spec fn duty_table() -> Seq<u8> {
    seq![
        0u8, 1, 0, 0, 0, 0, 0, 0,
        0, 1, 1, 0, 0, 0, 0, 0,
        0, 1, 1, 1, 1, 0, 0, 0,
        1, 0, 0, 1, 1, 1, 1, 1,
    ]
}

/// Output bit of duty pattern `duty` at `step`.
pub open spec fn duty_bit(duty: u8, step: u8) -> u8 {
    duty_table()[duty * 8 + step]
}

/// Periods below this silence a pulse channel.
pub const PULSE_MIN_PERIOD: u16 = 8;

fn duty_lookup(duty: u8, step: u8) -> (r: u8)
    requires
        duty < 4,
        step < 8,
    ensures
        r == duty_bit(duty, step),
{
    let table: [u8; 32] = [
        0, 1, 0, 0, 0, 0, 0, 0,
        0, 1, 1, 0, 0, 0, 0, 0,
        0, 1, 1, 1, 1, 0, 0, 0,
        1, 0, 0, 1, 1, 1, 1, 1,
    ];
    proof {
        assert(table@ =~= duty_table());
    }
    table[(duty * 8 + step) as usize]
}

/// A square-wave channel: duty sequencer, envelope, sweep and length counter.
#[derive(Debug, Clone, Copy, PartialEq, Eq, Structural)]
pub struct Pulse {
    pub sweep: Sweep,
    /// Timer period (11 bits).
    pub timer_period: u16,
    pub timer: u16,
    /// Duty pattern (2 bits).
    pub duty_cycle: u8,
    /// Step within the duty pattern (0..8).
    pub sequencer_step: u8,
    /// The timer runs at half the CPU rate: set on the cycles that clock it.
    pub odd_cycle: bool,
    pub envelope: Envelope,
    pub length_counter: LengthCounter,
}

impl Pulse {
    pub open spec fn wf(self) -> bool {
        &&& self.sweep.wf()
        &&& self.envelope.wf()
        &&& self.timer_period <= MAX_TIMER_PERIOD
        &&& self.duty_cycle < 4
        &&& self.sequencer_step < 8
    }

    pub open spec fn power_on(ones_complement: bool) -> Pulse {
        Pulse {
            sweep: Sweep::power_on(ones_complement),
            timer_period: 0,
            timer: 0,
            duty_cycle: 0,
            sequencer_step: 0,
            odd_cycle: false,
            envelope: Envelope::power_on(),
            length_counter: LengthCounter::power_on(),
        }
    }

    /// The channel's output level.
    pub open spec fn level_spec(self) -> u8 {
        if self.length_counter.counter == 0 || self.sweep.mutes(self.timer_period)
            || self.timer_period < PULSE_MIN_PERIOD || duty_bit(
            self.duty_cycle,
            self.sequencer_step,
        ) == 0 {
            0
        } else {
            self.envelope.level_spec()
        }
    }

    /// The state after one CPU cycle.
    pub open spec fn cpu_cycle(self) -> Pulse {
        if !self.odd_cycle {
            Pulse { odd_cycle: true, ..self }
        } else if self.timer == 0 {
            Pulse {
                odd_cycle: false,
                timer: self.timer_period,
                sequencer_step: ((self.sequencer_step + 1) % 8) as u8,
                ..self
            }
        } else {
            Pulse { odd_cycle: false, timer: (self.timer - 1) as u16, ..self }
        }
    }

    pub open spec fn quarter_frame(self) -> Pulse {
        Pulse { envelope: self.envelope.quarter_frame(), ..self }
    }

    pub open spec fn half_frame(self) -> Pulse {
        Pulse {
            length_counter: self.length_counter.half_frame(),
            sweep: self.sweep.half_frame(),
            timer_period: self.sweep.swept_period(self.timer_period),
            ..self
        }
    }

    /// Register 0 (DDLC VVVV): duty, length halt / envelope loop, constant
    /// volume, volume or envelope period.
    pub open spec fn with_control(self, v: u8) -> Pulse {
        Pulse {
            duty_cycle: v >> 6u8,
            length_counter: LengthCounter { halt: v & 0x20 != 0, ..self.length_counter },
            envelope: self.envelope.configured(v & 0x10 != 0, v & 0x0F, v & 0x20 != 0),
            ..self
        }
    }

    /// Register 1 (EPPP NSSS): sweep enable, divider period, negate, shift.
    pub open spec fn with_sweep(self, v: u8) -> Pulse {
        Pulse {
            sweep: self.sweep.configured(v & 0x80 != 0, v >> 4u8, v & 0x08 != 0, v & 0x07),
            ..self
        }
    }

    /// Register 2: low eight bits of the timer period.
    pub open spec fn with_timer_low(self, v: u8) -> Pulse {
        Pulse { timer_period: (self.timer_period & 0x700) | (v as u16), ..self }
    }

    /// Register 3 (LLLL LHHH): length load, high three bits of the timer
    /// period; restarts the envelope and the duty sequence.
    pub open spec fn with_timer_high(self, v: u8) -> Pulse {
        Pulse {
            timer_period: (self.timer_period & 0xFF) | (((v & 7) as u16) << 8u16),
            length_counter: self.length_counter.loaded(v >> 3u8),
            envelope: Envelope { start: true, ..self.envelope },
            sequencer_step: 0,
            ..self
        }
    }

    /// `ones_complement` selects the negation used by the sweep unit.
    pub fn new(ones_complement: bool) -> (p: Pulse)
        ensures
            p == Pulse::power_on(ones_complement),
            p.wf(),
    {
        Pulse {
            sweep: Sweep::new(ones_complement),
            timer_period: 0,
            timer: 0,
            duty_cycle: 0,
            sequencer_step: 0,
            odd_cycle: false,
            envelope: Envelope::new(),
            length_counter: LengthCounter::new(),
        }
    }

    pub fn write_control(&mut self, v: u8)
        requires
            old(self).wf(),
        ensures
            *final(self) == old(self).with_control(v),
            final(self).wf(),
    {
        proof {
            lemma_top_two_bits(v);
        }
        self.duty_cycle = v >> 6;
        self.length_counter.set_halt(v & 0x20 != 0);
        self.envelope.configure(v & 0x10 != 0, v & 0x0F, v & 0x20 != 0);
    }

    pub fn write_sweep(&mut self, v: u8)
        requires
            old(self).wf(),
        ensures
            *final(self) == old(self).with_sweep(v),
            final(self).wf(),
    {
        self.sweep.configure(v & 0x80 != 0, v >> 4, v & 0x08 != 0, v & 0x07);
    }

    pub fn write_timer_low(&mut self, v: u8)
        requires
            old(self).wf(),
        ensures
            *final(self) == old(self).with_timer_low(v),
            final(self).wf(),
    {
        proof {
            lemma_timer_low(self.timer_period, v);
        }
        self.timer_period = (self.timer_period & 0x700) | (v as u16);
    }

    pub fn write_timer_high(&mut self, v: u8)
        requires
            old(self).wf(),
        ensures
            *final(self) == old(self).with_timer_high(v),
            final(self).wf(),
    {
        proof {
            lemma_timer_high(self.timer_period, v);
        }
        self.timer_period = (self.timer_period & 0xFF) | (((v & 7) as u16) << 8);
        self.length_counter.load(v >> 3);
        self.envelope.restart();
        self.sequencer_step = 0;
    }

    pub fn set_enabled(&mut self, enabled: bool)
        requires
            old(self).wf(),
        ensures
            *final(self) == (Pulse {
                length_counter: old(self).length_counter.with_enabled(enabled),
                ..*old(self)
            }),
            final(self).wf(),
    {
        self.length_counter.set_enabled(enabled);
    }

    pub fn clock_cpu_cycle(&mut self)
        requires
            old(self).wf(),
        ensures
            *final(self) == old(self).cpu_cycle(),
            final(self).wf(),
    {
        if !self.odd_cycle {
            self.odd_cycle = true;
        } else {
            self.odd_cycle = false;
            if self.timer == 0 {
                self.timer = self.timer_period;
                self.sequencer_step = (self.sequencer_step + 1) % 8;
            } else {
                self.timer = self.timer - 1;
            }
        }
    }

    pub fn clock_quarter_frame(&mut self)
        requires
            old(self).wf(),
        ensures
            *final(self) == old(self).quarter_frame(),
            final(self).wf(),
    {
        self.envelope.clock_quarter_frame();
    }

    pub fn clock_half_frame(&mut self)
        requires
            old(self).wf(),
        ensures
            *final(self) == old(self).half_frame(),
            final(self).wf(),
    {
        self.length_counter.clock_half_frame();
        proof {
            crate::sweep::lemma_sweep_keeps_period(self.sweep, self.timer_period);
        }
        self.timer_period = self.sweep.clock_half_frame(self.timer_period);
    }

    pub fn current_level(&self) -> (r: u8)
        requires
            self.wf(),
        ensures
            r == self.level_spec(),
            r <= 15,
    {
        if !self.length_counter.is_active() || self.sweep.is_muting(self.timer_period)
            || self.timer_period < PULSE_MIN_PERIOD || duty_lookup(
            self.duty_cycle,
            self.sequencer_step,
        ) == 0 {
            0
        } else {
            self.envelope.level()
        }
    }
}

/// The channel after `n` half-frame ticks.
pub open spec fn half_frames(p: Pulse, n: nat) -> Pulse
    decreases n,
{
    if n == 0 {
        p
    } else {
        half_frames(p.half_frame(), (n - 1) as nat)
    }
}

/// Half-frame ticks count the length counter down one at a time; from the
/// tick where it reaches 0 the channel is silent, and a halted counter keeps
/// its count.
pub proof fn lemma_pulse_length_silence(p: Pulse, n: nat)
    ensures
        half_frames(p, n).length_counter == length_after(p.length_counter, n),
        !p.length_counter.halt && n >= p.length_counter.counter ==> half_frames(
            p,
            n,
        ).level_spec() == 0,
        p.length_counter.halt ==> half_frames(p, n).length_counter == p.length_counter,
    decreases n,
{
    if n > 0 {
        lemma_pulse_length_silence(p.half_frame(), (n - 1) as nat);
    }
    lemma_length_countdown(p.length_counter, n);
}

} // verus!
