use vstd::prelude::*;
use crate::mixer::MIX_FULL_SCALE;

verus! {

/// CPU clock of the NTSC console, in Hz.
pub const CPU_CLOCK_NTSC: u32 = 1_789_773;

/// Signed 16-bit PCM sample for a mixer output in [0, `MIX_FULL_SCALE`].
pub open spec fn pcm_of(mix: int) -> int {
    mix * 32767 / (MIX_FULL_SCALE as int)
}

/// Averages per-cycle mixer output over each output period and queues the
/// resulting PCM samples until they are taken.
pub struct SamplePump {
    pub cpu_clock: u32,
    pub sample_rate: u32,
    /// Grows by `sample_rate` each CPU cycle; a sample is due each time it
    /// reaches `cpu_clock`.
    pub phase: u64,
    /// Sum and count of the mixer outputs of the current window.
    pub sum: u64,
    pub count: u64,
    /// Samples produced and not yet taken.
    pub samples: Vec<i16>,
}

impl SamplePump {
    pub open spec fn wf(&self) -> bool {
        &&& 0 < self.sample_rate <= self.cpu_clock
        &&& self.phase < self.cpu_clock
        &&& self.count * self.sample_rate <= self.phase
        &&& self.sum <= self.count * MIX_FULL_SCALE
    }

    /// `after` is `before` with one more mixer output `mix` accounted for:
    /// when the window closes, its average is queued and a new window opens.
    pub open spec fn pushed(before: SamplePump, after: SamplePump, mix: int) -> bool {
        let sum = before.sum + mix;
        let count = before.count + 1;
        let phase = before.phase + before.sample_rate;
        &&& after.cpu_clock == before.cpu_clock
        &&& after.sample_rate == before.sample_rate
        &&& if phase >= before.cpu_clock {
            &&& after.phase == phase - before.cpu_clock
            &&& after.sum == 0
            &&& after.count == 0
            &&& after.samples@ == before.samples@.push(pcm_of(sum / count) as i16)
        } else {
            &&& after.phase == phase
            &&& after.sum == sum
            &&& after.count == count
            &&& after.samples@ == before.samples@
        }
    }

    pub fn new(cpu_clock: u32, sample_rate: u32) -> (p: SamplePump)
        requires
            0 < sample_rate <= cpu_clock,
        ensures
            p.wf(),
            p.cpu_clock == cpu_clock,
            p.sample_rate == sample_rate,
            p.phase == 0 && p.sum == 0 && p.count == 0,
            p.samples@ == Seq::<i16>::empty(),
    {
        SamplePump { cpu_clock, sample_rate, phase: 0, sum: 0, count: 0, samples: Vec::new() }
    }

    /// Accounts for one CPU cycle whose mixer output is `mix`.
    pub fn push(&mut self, mix: u32)
        requires
            old(self).wf(),
            mix <= MIX_FULL_SCALE,
        ensures
            SamplePump::pushed(*old(self), *final(self), mix as int),
            final(self).wf(),
    {
        let ghost c0 = self.count;
        proof {
            assert(c0 <= self.phase) by (nonlinear_arith)
                requires
                    c0 * self.sample_rate <= self.phase,
                    self.sample_rate >= 1,
            ;
            assert((c0 + 1) * MIX_FULL_SCALE == c0 * MIX_FULL_SCALE + MIX_FULL_SCALE) by (
            nonlinear_arith);
            assert((c0 + 1) * self.sample_rate == c0 * self.sample_rate + self.sample_rate) by (
            nonlinear_arith);
        }
        self.sum = self.sum + mix as u64;
        self.count = self.count + 1;
        self.phase = self.phase + self.sample_rate as u64;
        if self.phase >= self.cpu_clock as u64 {
            self.phase = self.phase - self.cpu_clock as u64;
            let average = self.sum / self.count;
            proof {
                let s = self.sum;
                let n = self.count;
                assert(s / n <= MIX_FULL_SCALE) by (nonlinear_arith)
                    requires
                        s <= n * MIX_FULL_SCALE,
                        n >= 1,
                ;
            }
            let sample = (average * 32767 / MIX_FULL_SCALE as u64) as i16;
            self.samples.push(sample);
            self.sum = 0;
            self.count = 0;
        }
    }

    /// Number of queued samples.
    pub fn available(&self) -> (r: usize)
        ensures
            r == self.samples@.len(),
    {
        self.samples.len()
    }

    /// Takes up to `n` of the oldest queued samples, oldest first.
    pub fn take_samples(&mut self, n: usize) -> (r: Vec<i16>)
        ensures
            r@ == old(self).samples@.take(vstd::math::min(n as int, old(self).samples@.len() as int)),
            final(self).samples@ == old(self).samples@.skip(
                vstd::math::min(n as int, old(self).samples@.len() as int),
            ),
            final(self).cpu_clock == old(self).cpu_clock,
            final(self).sample_rate == old(self).sample_rate,
            final(self).phase == old(self).phase,
            final(self).sum == old(self).sum,
            final(self).count == old(self).count,
    {
        let k = if n < self.samples.len() {
            n
        } else {
            self.samples.len()
        };
        let mut rest = self.samples.split_off(k);
        std::mem::swap(&mut self.samples, &mut rest);
        rest
    }
}

} // verus!
