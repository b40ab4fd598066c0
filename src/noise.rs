use vstd::prelude::*;
use crate::counters::LengthCounter;
use crate::envelope::Envelope;

verus! {

/// Timer periods, in CPU cycles, selected by the 4-bit period code.
pub open spec fn noise_period_table() -> Seq<u16> {
    seq![4u16, 8, 16, 32, 64, 96, 128, 160, 202, 254, 380, 508, 762, 1016, 2034, 4068]
}

/// The 15-bit shift register after one step: feedback is bit 0 XOR bit 6
/// (short mode) or bit 1 (long mode), shifted in at bit 14.
pub open spec fn lfsr_next(r: u16, short_mode: bool) -> u16 {
    let tap: u16 = if short_mode {
        6
    } else {
        1
    };
    let feedback = (r & 1) ^ ((r >> tap) & 1);
    (r >> 1u16) | (feedback << 14u16)
}

/// A non-zero 15-bit register stays non-zero and within 15 bits.
pub proof fn lemma_lfsr_nonzero(r: u16, short_mode: bool)
    requires
        0 < r < 0x8000,
    ensures
        0 < lfsr_next(r, short_mode) < 0x8000,
{
    assert(0 < r < 0x8000 ==> 0 < ((r >> 1u16) | (((r & 1) ^ ((r >> 6u16) & 1)) << 14u16))
        < 0x8000) by (bit_vector);
    assert(0 < r < 0x8000 ==> 0 < ((r >> 1u16) | (((r & 1) ^ ((r >> 1u16) & 1)) << 14u16))
        < 0x8000) by (bit_vector);
}

fn noise_period_lookup(code: u8) -> (r: u16)
    requires
        code < 16,
    ensures
        r == noise_period_table()[code as int],
{
    let table: [u16; 16] = [
        4, 8, 16, 32, 64, 96, 128, 160, 202, 254, 380, 508, 762, 1016, 2034, 4068,
    ];
    proof {
        assert(table@ =~= noise_period_table());
    }
    table[code as usize]
}

/// A pseudo-random noise channel: linear-feedback shift register, envelope
/// and length counter.
#[derive(Debug, Clone, Copy, PartialEq, Eq, Structural)]
pub struct Noise {
    pub envelope: Envelope,
    pub length_counter: LengthCounter,
    /// Short mode: feedback from bit 6 instead of bit 1.
    pub mode: bool,
    /// Timer period, from the period table.
    pub period: u16,
    /// The 15-bit linear-feedback shift register; never 0.
    pub shift_register: u16,
    pub timer: u16,
}

impl Noise {
    pub open spec fn wf(self) -> bool {
        &&& self.envelope.wf()
        &&& 0 < self.shift_register < 0x8000
    }

    pub open spec fn power_on() -> Noise {
        Noise {
            envelope: Envelope::power_on(),
            length_counter: LengthCounter::power_on(),
            mode: false,
            period: noise_period_table()[0],
            shift_register: 1,
            timer: 0,
        }
    }

    pub open spec fn level_spec(self) -> u8 {
        if self.shift_register & 1 == 1 || self.length_counter.counter == 0 {
            0
        } else {
            self.envelope.level_spec()
        }
    }

    /// The state after one CPU cycle: the timer runs at the full CPU rate.
    pub open spec fn cpu_cycle(self) -> Noise {
        if self.timer == 0 {
            Noise {
                timer: self.period,
                shift_register: lfsr_next(self.shift_register, self.mode),
                ..self
            }
        } else {
            Noise { timer: (self.timer - 1) as u16, ..self }
        }
    }

    pub open spec fn quarter_frame(self) -> Noise {
        Noise { envelope: self.envelope.quarter_frame(), ..self }
    }

    pub open spec fn half_frame(self) -> Noise {
        Noise { length_counter: self.length_counter.half_frame(), ..self }
    }

    /// Control register (--LC VVVV): length halt / envelope loop, constant
    /// volume, volume or envelope period.
    pub open spec fn with_control(self, v: u8) -> Noise {
        Noise {
            length_counter: LengthCounter { halt: v & 0x20 != 0, ..self.length_counter },
            envelope: self.envelope.configured(v & 0x10 != 0, v & 0x0F, v & 0x20 != 0),
            ..self
        }
    }

    /// Period register (M--- PPPP): mode and period code.
    pub open spec fn with_period(self, v: u8) -> Noise {
        Noise { mode: v & 0x80 != 0, period: noise_period_table()[(v % 16) as int], ..self }
    }

    /// Length register (LLLL L---): length load; restarts the envelope.
    pub open spec fn with_length(self, v: u8) -> Noise {
        Noise {
            length_counter: self.length_counter.loaded(v >> 3u8),
            envelope: Envelope { start: true, ..self.envelope },
            ..self
        }
    }

    pub fn new() -> (n: Noise)
        ensures
            n == Noise::power_on(),
            n.wf(),
    {
        Noise {
            envelope: Envelope::new(),
            length_counter: LengthCounter::new(),
            mode: false,
            period: noise_period_lookup(0),
            shift_register: 1,
            timer: 0,
        }
    }

    pub fn write_control(&mut self, v: u8)
        requires
            old(self).wf(),
        ensures
            *final(self) == old(self).with_control(v),
            final(self).wf(),
    {
        self.length_counter.set_halt(v & 0x20 != 0);
        self.envelope.configure(v & 0x10 != 0, v & 0x0F, v & 0x20 != 0);
    }

    pub fn write_period(&mut self, v: u8)
        requires
            old(self).wf(),
        ensures
            *final(self) == old(self).with_period(v),
            final(self).wf(),
    {
        self.mode = v & 0x80 != 0;
        self.period = noise_period_lookup(v % 16);
    }

    pub fn write_length(&mut self, v: u8)
        requires
            old(self).wf(),
        ensures
            *final(self) == old(self).with_length(v),
            final(self).wf(),
    {
        self.length_counter.load(v >> 3);
        self.envelope.restart();
    }

    pub fn set_enabled(&mut self, enabled: bool)
        requires
            old(self).wf(),
        ensures
            *final(self) == (Noise {
                length_counter: old(self).length_counter.with_enabled(enabled),
                ..*old(self)
            }),
            final(self).wf(),
    {
        self.length_counter.set_enabled(enabled);
    }

    /// Steps the shift register once.
    pub fn clock_shift_register(&mut self)
        requires
            old(self).wf(),
        ensures
            *final(self) == (Noise {
                shift_register: lfsr_next(old(self).shift_register, old(self).mode),
                ..*old(self)
            }),
            final(self).wf(),
    {
        proof {
            lemma_lfsr_nonzero(self.shift_register, self.mode);
        }
        let r = self.shift_register;
        let tap: u16 = if self.mode {
            6
        } else {
            1
        };
        let feedback = (r & 1) ^ ((r >> tap) & 1);
        self.shift_register = (r >> 1) | (feedback << 14);
    }

    pub fn clock_cpu_cycle(&mut self)
        requires
            old(self).wf(),
        ensures
            *final(self) == old(self).cpu_cycle(),
            final(self).wf(),
    {
        if self.timer == 0 {
            self.timer = self.period;
            self.clock_shift_register();
        } else {
            self.timer = self.timer - 1;
        }
    }

    pub fn clock_quarter_frame(&mut self)
        requires
            old(self).wf(),
        ensures
            *final(self) == old(self).quarter_frame(),
            final(self).wf(),
    {
        self.envelope.clock_quarter_frame();
    }

    pub fn clock_half_frame(&mut self)
        requires
            old(self).wf(),
        ensures
            *final(self) == old(self).half_frame(),
            final(self).wf(),
    {
        self.length_counter.clock_half_frame();
    }

    pub fn current_level(&self) -> (r: u8)
        requires
            self.wf(),
        ensures
            r == self.level_spec(),
            r <= 15,
    {
        if self.shift_register & 1 == 1 || !self.length_counter.is_active() {
            0
        } else {
            self.envelope.level()
        }
    }
}

} // verus!
