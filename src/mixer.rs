use vstd::prelude::*;

verus! {

/// Mixer output that stands for full scale (1.0); outputs are in parts of it.
pub const MIX_FULL_SCALE: u32 = 1_000_000;

/// Pulse-group term for the sum `n` of the two pulse levels:
/// 95.52 / (8128 / n + 100), in parts of full scale, rounded down.
pub open spec fn pulse_term(n: int) -> int {
    (MIX_FULL_SCALE * 9552 * n) / (812800 + 10000 * n)
}

/// Triangle/noise group term for the weighted index `n = 3 * triangle + 2 * noise`:
/// 163.67 / (24329 / n + 100), in parts of full scale, rounded down.
pub open spec fn tnd_term(n: int) -> int {
    (MIX_FULL_SCALE * 16367 * n) / (2432900 + 10000 * n)
}

/// The mixed output of the four channel levels.
pub open spec fn mix_spec(pulse_a: int, pulse_b: int, triangle: int, noise: int) -> int {
    pulse_term(pulse_a + pulse_b) + tnd_term(3 * triangle + 2 * noise)
}

proof fn lemma_pulse_term_bound(n: int)
    requires
        0 <= n <= 30,
    ensures
        0 <= pulse_term(n) <= 360000,
{
    let x = MIX_FULL_SCALE * 9552 * n;
    let d = 812800 + 10000 * n;
    assert(0 <= x <= 360000 * d) by (nonlinear_arith)
        requires
            0 <= n <= 30,
            x == 1_000_000 * 9552 * n,
            d == 812800 + 10000 * n,
    ;
    assert(0 <= x / d <= 360000) by (nonlinear_arith)
        requires
            0 <= x <= 360000 * d,
            d > 0,
    ;
}

proof fn lemma_tnd_term_bound(n: int)
    requires
        0 <= n <= 75,
    ensures
        0 <= tnd_term(n) <= 520000,
{
    let x = MIX_FULL_SCALE * 16367 * n;
    let d = 2432900 + 10000 * n;
    assert(0 <= x <= 520000 * d) by (nonlinear_arith)
        requires
            0 <= n <= 75,
            x == 1_000_000 * 16367 * n,
            d == 2432900 + 10000 * n,
    ;
    assert(0 <= x / d <= 520000) by (nonlinear_arith)
        requires
            0 <= x <= 520000 * d,
            d > 0,
    ;
}

/// The mixer's output lies in [0, full scale] for all levels in 0..=15, and
/// is exactly 0 when every channel is at level 0.
pub proof fn lemma_mix_in_range(pulse_a: int, pulse_b: int, triangle: int, noise: int)
    requires
        0 <= pulse_a <= 15,
        0 <= pulse_b <= 15,
        0 <= triangle <= 15,
        0 <= noise <= 15,
    ensures
        0 <= mix_spec(pulse_a, pulse_b, triangle, noise) <= MIX_FULL_SCALE,
        mix_spec(0, 0, 0, 0) == 0,
{
    lemma_pulse_term_bound(pulse_a + pulse_b);
    lemma_tnd_term_bound(3 * triangle + 2 * noise);
}

/// The APU's non-linear mixer, with its two lookup tables.
pub struct Mixer {
    pulse_table: Vec<u32>,
    tnd_table: Vec<u32>,
}

impl Mixer {
    /// Both tables hold the mixing law's terms for every index.
    pub closed spec fn wf(&self) -> bool {
        &&& self.pulse_table@.len() == 31
        &&& self.tnd_table@.len() == 76
        &&& forall|i: int| 0 <= i < 31 ==> self.pulse_table@[i] == pulse_term(i)
        &&& forall|i: int| 0 <= i < 76 ==> self.tnd_table@[i] == tnd_term(i)
    }

    pub fn new() -> (m: Mixer)
        ensures
            m.wf(),
    {
        let mut pulse_table: Vec<u32> = Vec::new();
        let mut i: u64 = 0;
        while i < 31
            invariant
                i <= 31,
                pulse_table@.len() == i,
                forall|k: int| 0 <= k < i ==> pulse_table@[k] == pulse_term(k),
            decreases 31 - i,
        {
            proof {
                lemma_pulse_term_bound(i as int);
            }
            let entry = (MIX_FULL_SCALE as u64 * 9552 * i) / (812800 + 10000 * i);
            pulse_table.push(entry as u32);
            i = i + 1;
        }
        let mut tnd_table: Vec<u32> = Vec::new();
        let mut j: u64 = 0;
        while j < 76
            invariant
                j <= 76,
                tnd_table@.len() == j,
                forall|k: int| 0 <= k < j ==> tnd_table@[k] == tnd_term(k),
            decreases 76 - j,
        {
            proof {
                lemma_tnd_term_bound(j as int);
            }
            let entry = (MIX_FULL_SCALE as u64 * 16367 * j) / (2432900 + 10000 * j);
            tnd_table.push(entry as u32);
            j = j + 1;
        }
        Mixer { pulse_table, tnd_table }
    }

    /// Mixes four channel levels into one output in [0, `MIX_FULL_SCALE`].
    pub fn mix(&self, pulse_a: u8, pulse_b: u8, triangle: u8, noise: u8) -> (r: u32)
        requires
            self.wf(),
            pulse_a <= 15,
            pulse_b <= 15,
            triangle <= 15,
            noise <= 15,
        ensures
            r == mix_spec(pulse_a as int, pulse_b as int, triangle as int, noise as int),
            r <= MIX_FULL_SCALE,
    {
        proof {
            lemma_mix_in_range(pulse_a as int, pulse_b as int, triangle as int, noise as int);
        }
        let p = self.pulse_table[(pulse_a + pulse_b) as usize];
        let t = self.tnd_table[(3 * triangle + 2 * noise) as usize];
        p + t
    }
}

} // verus!
