use vstd::prelude::*;

verus! {

/// Note lengths, in half-frame ticks, selected by the 5-bit length-load code.
pub open spec fn length_table() -> Seq<u8> {
    seq![
        10u8, 254, 20, 2, 40, 4, 80, 6, 160, 8, 60, 10, 14, 12, 26, 14,
        12, 16, 24, 18, 48, 20, 96, 22, 192, 24, 72, 26, 16, 28, 32, 30,
    ]
}

/// The entry of the length table for `code`.
pub fn length_lookup(code: u8) -> (r: u8)
    requires
        code < 32,
    ensures
        r == length_table()[code as int],
{
    let table: [u8; 32] = [
        10, 254, 20, 2, 40, 4, 80, 6, 160, 8, 60, 10, 14, 12, 26, 14,
        12, 16, 24, 18, 48, 20, 96, 22, 192, 24, 72, 26, 16, 28, 32, 30,
    ];
    proof {
        assert(table@ =~= length_table());
    }
    table[code as usize]
}

/// Per-channel note-duration gate: the channel is silent while `counter` is 0.
#[derive(Debug, Clone, Copy, PartialEq, Eq, Structural)]
pub struct LengthCounter {
    pub enabled: bool,
    pub halt: bool,
    pub counter: u8,
}

impl LengthCounter {
    pub open spec fn power_on() -> LengthCounter {
        LengthCounter { enabled: false, halt: false, counter: 0 }
    }

    /// The state after a length-load write of `code` (masked to 5 bits):
    /// reloaded only while enabled.
    pub open spec fn loaded(self, code: u8) -> LengthCounter {
        if self.enabled {
            LengthCounter { counter: length_table()[(code % 32) as int], ..self }
        } else {
            self
        }
    }

    /// The state after the channel's enable bit is written.
    pub open spec fn with_enabled(self, enabled: bool) -> LengthCounter {
        LengthCounter { enabled, counter: if enabled { self.counter } else { 0 }, ..self }
    }

    pub open spec fn half_frame(self) -> LengthCounter {
        if !self.halt && self.counter > 0 {
            LengthCounter { counter: (self.counter - 1) as u8, ..self }
        } else {
            self
        }
    }

    pub fn new() -> (c: LengthCounter)
        ensures
            c == LengthCounter::power_on(),
    {
        LengthCounter { enabled: false, halt: false, counter: 0 }
    }

    pub fn load(&mut self, code: u8)
        ensures
            *final(self) == old(self).loaded(code),
    {
        if self.enabled {
            self.counter = length_lookup(code % 32);
        }
    }

    /// Enabling keeps the count; disabling clears it at once.
    pub fn set_enabled(&mut self, enabled: bool)
        ensures
            *final(self) == old(self).with_enabled(enabled),
    {
        self.enabled = enabled;
        if !enabled {
            self.counter = 0;
        }
    }

    pub fn set_halt(&mut self, halt: bool)
        ensures
            *final(self) == (LengthCounter { halt, ..*old(self) }),
    {
        self.halt = halt;
    }

    pub fn clock_half_frame(&mut self)
        ensures
            *final(self) == old(self).half_frame(),
    {
        if !self.halt && self.counter > 0 {
            self.counter = self.counter - 1;
        }
    }

    /// True while the channel may sound.
    pub fn is_active(&self) -> (r: bool)
        ensures
            r == (self.counter > 0),
    {
        self.counter > 0
    }
}

/// The counter after `n` half-frame ticks.
pub open spec fn length_after(c: LengthCounter, n: nat) -> LengthCounter
    decreases n,
{
    if n == 0 {
        c
    } else {
        length_after(c.half_frame(), (n - 1) as nat)
    }
}

/// A length counter counts down one per half-frame tick to 0 and stays
/// there; a halted one keeps its count.
pub proof fn lemma_length_countdown(c: LengthCounter, n: nat)
    ensures
        !c.halt ==> length_after(c, n).counter == if n >= c.counter {
            0
        } else {
            c.counter - n
        },
        c.halt ==> length_after(c, n) == c,
    decreases n,
{
    if n > 0 {
        lemma_length_countdown(c.half_frame(), (n - 1) as nat);
    }
}

/// Triangle-only gate, clocked by quarter-frame ticks.
#[derive(Debug, Clone, Copy, PartialEq, Eq, Structural)]
pub struct LinearCounter {
    pub counter: u8,
    /// The value reloaded into `counter` (7 bits).
    pub reload_value: u8,
    pub reload: bool,
    /// Control flag: while set, the reload flag is kept.
    pub control: bool,
}

impl LinearCounter {
    pub open spec fn wf(self) -> bool {
        self.counter <= 127 && self.reload_value <= 127
    }

    pub open spec fn power_on() -> LinearCounter {
        LinearCounter { counter: 0, reload_value: 0, reload: false, control: false }
    }

    pub open spec fn quarter_frame(self) -> LinearCounter {
        let counter = if self.reload {
            self.reload_value
        } else if self.counter > 0 {
            (self.counter - 1) as u8
        } else {
            0u8
        };
        LinearCounter { counter, reload: self.reload && self.control, ..self }
    }

    pub open spec fn configured(self, control: bool, reload_value: u8) -> LinearCounter {
        LinearCounter { control, reload_value: reload_value % 128, ..self }
    }

    pub fn new() -> (c: LinearCounter)
        ensures
            c == LinearCounter::power_on(),
            c.wf(),
    {
        LinearCounter { counter: 0, reload_value: 0, reload: false, control: false }
    }

    pub fn configure(&mut self, control: bool, reload_value: u8)
        requires
            old(self).wf(),
        ensures
            *final(self) == old(self).configured(control, reload_value),
            final(self).wf(),
    {
        self.control = control;
        self.reload_value = reload_value % 128;
    }

    /// Sets the reload flag.
    pub fn request_reload(&mut self)
        ensures
            *final(self) == (LinearCounter { reload: true, ..*old(self) }),
    {
        self.reload = true;
    }

    pub fn clock_quarter_frame(&mut self)
        requires
            old(self).wf(),
        ensures
            *final(self) == old(self).quarter_frame(),
            final(self).wf(),
    {
        if self.reload {
            self.counter = self.reload_value;
        } else if self.counter > 0 {
            self.counter = self.counter - 1;
        }
        if !self.control {
            self.reload = false;
        }
    }
}

} // verus!
