use vstd::prelude::*;
use crate::channel::apply_tick;
use crate::frame_sequencer::{tick_at, FrameSequencer, FrameTick};
use crate::mixer::{mix_spec, Mixer, MIX_FULL_SCALE};
use crate::noise::Noise;
use crate::pulse::Pulse;
use crate::sample_pump::{SamplePump, CPU_CLOCK_NTSC};
use crate::triangle::Triangle;

verus! {

/// The four tone channels of the APU with their frame sequencer, mixer and
/// output resampler, driven by register writes and CPU cycles.
pub struct Apu {
    /// Pulse channel A; its sweep negates in two's complement.
    pub pulse_a: Pulse,
    /// Pulse channel B; its sweep negates in one's complement.
    pub pulse_b: Pulse,
    pub triangle: Triangle,
    pub noise: Noise,
    pub frame_sequencer: FrameSequencer,
    pub mixer: Mixer,
    pub pump: SamplePump,
}

impl Apu {
    pub open spec fn wf(&self) -> bool {
        &&& self.pulse_a.wf()
        &&& self.pulse_b.wf()
        &&& self.triangle.wf()
        &&& self.noise.wf()
        &&& self.frame_sequencer.wf()
        &&& self.mixer.wf()
        &&& self.pump.wf()
    }

    /// The channels and frame sequencer are in their power-on state.
    pub open spec fn at_power_on(&self) -> bool {
        &&& self.pulse_a == Pulse::power_on(false)
        &&& self.pulse_b == Pulse::power_on(true)
        &&& self.triangle == Triangle::power_on()
        &&& self.noise == Noise::power_on()
        &&& self.frame_sequencer == (FrameSequencer { five_step: false, cycle: 0 })
    }

    /// The state after writing `v` to the register at `addr`. Writes to
    /// registers outside the tone channels, the status register and the
    /// frame counter change nothing.
    pub open spec fn written(self, addr: u16, v: u8) -> Apu {
        if addr == 0x4000 {
            Apu { pulse_a: self.pulse_a.with_control(v), ..self }
        } else if addr == 0x4001 {
            Apu { pulse_a: self.pulse_a.with_sweep(v), ..self }
        } else if addr == 0x4002 {
            Apu { pulse_a: self.pulse_a.with_timer_low(v), ..self }
        } else if addr == 0x4003 {
            Apu { pulse_a: self.pulse_a.with_timer_high(v), ..self }
        } else if addr == 0x4004 {
            Apu { pulse_b: self.pulse_b.with_control(v), ..self }
        } else if addr == 0x4005 {
            Apu { pulse_b: self.pulse_b.with_sweep(v), ..self }
        } else if addr == 0x4006 {
            Apu { pulse_b: self.pulse_b.with_timer_low(v), ..self }
        } else if addr == 0x4007 {
            Apu { pulse_b: self.pulse_b.with_timer_high(v), ..self }
        } else if addr == 0x4008 {
            Apu { triangle: self.triangle.with_linear(v), ..self }
        } else if addr == 0x400A {
            Apu { triangle: self.triangle.with_timer_low(v), ..self }
        } else if addr == 0x400B {
            Apu { triangle: self.triangle.with_timer_high(v), ..self }
        } else if addr == 0x400C {
            Apu { noise: self.noise.with_control(v), ..self }
        } else if addr == 0x400E {
            Apu { noise: self.noise.with_period(v), ..self }
        } else if addr == 0x400F {
            Apu { noise: self.noise.with_length(v), ..self }
        } else if addr == 0x4015 {
            Apu {
                pulse_a: Pulse {
                    length_counter: self.pulse_a.length_counter.with_enabled(v & 0x01 != 0),
                    ..self.pulse_a
                },
                pulse_b: Pulse {
                    length_counter: self.pulse_b.length_counter.with_enabled(v & 0x02 != 0),
                    ..self.pulse_b
                },
                triangle: Triangle {
                    length_counter: self.triangle.length_counter.with_enabled(v & 0x04 != 0),
                    ..self.triangle
                },
                noise: Noise {
                    length_counter: self.noise.length_counter.with_enabled(v & 0x08 != 0),
                    ..self.noise
                },
                ..self
            }
        } else if addr == 0x4017 {
            Apu { frame_sequencer: FrameSequencer { five_step: v & 0x80 != 0, cycle: 0 }, ..self }
        } else {
            self
        }
    }

    /// The channels after the frame sequencer's tick `t`.
    pub open spec fn ticked(self, t: FrameTick) -> Apu {
        match t {
            FrameTick::Idle => self,
            FrameTick::Quarter => Apu {
                pulse_a: self.pulse_a.quarter_frame(),
                pulse_b: self.pulse_b.quarter_frame(),
                triangle: self.triangle.quarter_frame(),
                noise: self.noise.quarter_frame(),
                ..self
            },
            FrameTick::Half => Apu {
                pulse_a: self.pulse_a.quarter_frame().half_frame(),
                pulse_b: self.pulse_b.quarter_frame().half_frame(),
                triangle: self.triangle.quarter_frame().half_frame(),
                noise: self.noise.quarter_frame().half_frame(),
                ..self
            },
        }
    }

    /// The channels after their timers are clocked for one CPU cycle.
    pub open spec fn timers_clocked(self) -> Apu {
        Apu {
            pulse_a: self.pulse_a.cpu_cycle(),
            pulse_b: self.pulse_b.cpu_cycle(),
            triangle: self.triangle.cpu_cycle(),
            noise: self.noise.cpu_cycle(),
            ..self
        }
    }

    /// One CPU cycle, before the output is sampled: the frame sequencer
    /// advances and its tick is applied, then every channel's timer is clocked.
    pub open spec fn cycled(self) -> Apu {
        let fs = self.frame_sequencer.advanced();
        Apu { frame_sequencer: fs, ..self }.ticked(tick_at(fs.five_step, fs.cycle)).timers_clocked()
    }

    /// The mixed output of the current channel levels.
    pub open spec fn output_spec(self) -> int {
        mix_spec(
            self.pulse_a.level_spec() as int,
            self.pulse_b.level_spec() as int,
            self.triangle.level_spec() as int,
            self.noise.level_spec() as int,
        )
    }

    /// Status register: bit 0 to 3 are set while the length counter of pulse
    /// A, pulse B, triangle and noise is non-zero.
    pub open spec fn status_spec(self) -> u8 {
        ((if self.pulse_a.length_counter.counter > 0 {
            1int
        } else {
            0int
        }) + (if self.pulse_b.length_counter.counter > 0 {
            2int
        } else {
            0int
        }) + (if self.triangle.length_counter.counter > 0 {
            4int
        } else {
            0int
        }) + (if self.noise.length_counter.counter > 0 {
            8int
        } else {
            0int
        })) as u8
    }

    /// An APU at power-on that produces `sample_rate` samples per second of
    /// NTSC CPU time.
    pub fn new(sample_rate: u32) -> (a: Apu)
        requires
            0 < sample_rate <= CPU_CLOCK_NTSC,
        ensures
            a.wf(),
            a.at_power_on(),
            a.pump.cpu_clock == CPU_CLOCK_NTSC,
            a.pump.sample_rate == sample_rate,
            a.pump.samples@ == Seq::<i16>::empty(),
    {
        Apu {
            pulse_a: Pulse::new(false),
            pulse_b: Pulse::new(true),
            triangle: Triangle::new(),
            noise: Noise::new(),
            frame_sequencer: FrameSequencer::new(),
            mixer: Mixer::new(),
            pump: SamplePump::new(CPU_CLOCK_NTSC, sample_rate),
        }
    }

    /// Returns every channel and the frame sequencer to power-on state;
    /// queued samples and the resampler's rates are kept.
    pub fn reset(&mut self)
        requires
            old(self).wf(),
        ensures
            final(self).wf(),
            final(self).at_power_on(),
            final(self).mixer == old(self).mixer,
            final(self).pump == old(self).pump,
    {
        self.pulse_a = Pulse::new(false);
        self.pulse_b = Pulse::new(true);
        self.triangle = Triangle::new();
        self.noise = Noise::new();
        self.frame_sequencer = FrameSequencer::new();
    }

    /// Applies a CPU write of `v` to the register at `addr`.
    pub fn write_register(&mut self, addr: u16, v: u8)
        requires
            old(self).wf(),
        ensures
            *final(self) == old(self).written(addr, v),
            final(self).wf(),
    {
        if addr == 0x4000 {
            self.pulse_a.write_control(v);
        } else if addr == 0x4001 {
            self.pulse_a.write_sweep(v);
        } else if addr == 0x4002 {
            self.pulse_a.write_timer_low(v);
        } else if addr == 0x4003 {
            self.pulse_a.write_timer_high(v);
        } else if addr == 0x4004 {
            self.pulse_b.write_control(v);
        } else if addr == 0x4005 {
            self.pulse_b.write_sweep(v);
        } else if addr == 0x4006 {
            self.pulse_b.write_timer_low(v);
        } else if addr == 0x4007 {
            self.pulse_b.write_timer_high(v);
        } else if addr == 0x4008 {
            self.triangle.write_linear(v);
        } else if addr == 0x400A {
            self.triangle.write_timer_low(v);
        } else if addr == 0x400B {
            self.triangle.write_timer_high(v);
        } else if addr == 0x400C {
            self.noise.write_control(v);
        } else if addr == 0x400E {
            self.noise.write_period(v);
        } else if addr == 0x400F {
            self.noise.write_length(v);
        } else if addr == 0x4015 {
            self.pulse_a.set_enabled(v & 0x01 != 0);
            self.pulse_b.set_enabled(v & 0x02 != 0);
            self.triangle.set_enabled(v & 0x04 != 0);
            self.noise.set_enabled(v & 0x08 != 0);
        } else if addr == 0x4017 {
            self.frame_sequencer.set_mode(v & 0x80 != 0);
        }
    }

    /// Reads the status register.
    pub fn read_status(&self) -> (r: u8)
        ensures
            r == self.status_spec(),
    {
        let mut r: u8 = 0;
        if self.pulse_a.length_counter.is_active() {
            r = r + 1;
        }
        if self.pulse_b.length_counter.is_active() {
            r = r + 2;
        }
        if self.triangle.length_counter.is_active() {
            r = r + 4;
        }
        if self.noise.length_counter.is_active() {
            r = r + 8;
        }
        r
    }

    fn apply_tick(&mut self, t: FrameTick)
        requires
            old(self).wf(),
        ensures
            *final(self) == old(self).ticked(t),
            final(self).wf(),
    {
        apply_tick(&mut self.pulse_a, t);
        apply_tick(&mut self.pulse_b, t);
        apply_tick(&mut self.triangle, t);
        apply_tick(&mut self.noise, t);
    }

    /// The mixed output of the current channel levels.
    pub fn output(&self) -> (r: u32)
        requires
            self.wf(),
        ensures
            r == self.output_spec(),
            r <= MIX_FULL_SCALE,
    {
        self.mixer.mix(
            self.pulse_a.current_level(),
            self.pulse_b.current_level(),
            self.triangle.current_level(),
            self.noise.current_level(),
        )
    }

    /// Runs one CPU cycle: frame sequencer and its tick, channel timers, then
    /// the mixed output of the new state goes to the resampler.
    pub fn clock_cpu_cycle(&mut self)
        requires
            old(self).wf(),
        ensures
            final(self).wf(),
            final(self).pulse_a == old(self).cycled().pulse_a,
            final(self).pulse_b == old(self).cycled().pulse_b,
            final(self).triangle == old(self).cycled().triangle,
            final(self).noise == old(self).cycled().noise,
            final(self).frame_sequencer == old(self).cycled().frame_sequencer,
            final(self).mixer == old(self).mixer,
            SamplePump::pushed(old(self).pump, final(self).pump, old(self).cycled().output_spec()),
    {
        let t = self.frame_sequencer.clock();
        self.apply_tick(t);
        self.pulse_a.clock_cpu_cycle();
        self.pulse_b.clock_cpu_cycle();
        self.triangle.clock_cpu_cycle();
        self.noise.clock_cpu_cycle();
        let out = self.output();
        self.pump.push(out);
    }

    /// Takes up to `n` queued PCM samples, oldest first.
    pub fn take_samples(&mut self, n: usize) -> (r: Vec<i16>)
        requires
            old(self).wf(),
        ensures
            final(self).wf(),
            r@ == old(self).pump.samples@.take(vstd::math::min(n as int, old(self).pump.samples@.len() as int)),
            final(self).pump.samples@ == old(self).pump.samples@.skip(
                vstd::math::min(n as int, old(self).pump.samples@.len() as int),
            ),
    {
        self.pump.take_samples(n)
    }
}

} // verus!
