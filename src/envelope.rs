use vstd::prelude::*;

verus! {

/// Volume envelope shared by the pulse and noise channels.
///
/// Either a constant volume, or a decay level that starts at 15 and drops by
/// one each time the divider runs out, clocked by quarter-frame ticks.
#[derive(Debug, Clone, Copy, PartialEq, Eq, Structural)]
pub struct Envelope {
    pub constant_volume: bool,
    /// The constant volume, or the divider's period (4 bits).
    pub volume_or_period: u8,
    pub looping: bool,
    pub start: bool,
    pub divider: u8,
    /// The decaying volume (4 bits).
    pub decay: u8,
}

impl Envelope {
    pub open spec fn wf(self) -> bool {
        self.volume_or_period <= 15 && self.divider <= 15 && self.decay <= 15
    }

    /// The output level: the configured volume, or the decay level.
    pub open spec fn level_spec(self) -> u8 {
        if self.constant_volume {
            self.volume_or_period
        } else {
            self.decay
        }
    }

    /// The state after one quarter-frame tick.
    pub open spec fn quarter_frame(self) -> Envelope {
        if self.start {
            Envelope { start: false, decay: 15, divider: self.volume_or_period, ..self }
        } else if self.divider == 0 {
            let decay = if self.decay > 0 {
                (self.decay - 1) as u8
            } else if self.looping {
                15u8
            } else {
                0u8
            };
            Envelope { divider: self.volume_or_period, decay, ..self }
        } else {
            Envelope { divider: (self.divider - 1) as u8, ..self }
        }
    }

    /// The state after its control bits are written; the volume is masked to 4 bits.
    pub open spec fn configured(self, constant_volume: bool, volume: u8, looping: bool) -> Envelope {
        Envelope { constant_volume, volume_or_period: volume % 16, looping, ..self }
    }

    /// Power-on state: silent, with the start flag set.
    pub open spec fn power_on() -> Envelope {
        Envelope {
            constant_volume: false,
            volume_or_period: 0,
            looping: false,
            start: true,
            divider: 0,
            decay: 0,
        }
    }

    pub fn new() -> (e: Envelope)
        ensures
            e == Envelope::power_on(),
            e.wf(),
    {
        Envelope {
            constant_volume: false,
            volume_or_period: 0,
            looping: false,
            start: true,
            divider: 0,
            decay: 0,
        }
    }

    pub fn configure(&mut self, constant_volume: bool, volume: u8, looping: bool)
        requires
            old(self).wf(),
        ensures
            *final(self) == old(self).configured(constant_volume, volume, looping),
            final(self).wf(),
    {
        self.constant_volume = constant_volume;
        self.volume_or_period = volume % 16;
        self.looping = looping;
    }

    /// Sets the start flag, so that the next quarter-frame tick restarts the decay.
    pub fn restart(&mut self)
        ensures
            *final(self) == (Envelope { start: true, ..*old(self) }),
    {
        self.start = true;
    }

    pub fn clock_quarter_frame(&mut self)
        requires
            old(self).wf(),
        ensures
            *final(self) == old(self).quarter_frame(),
            final(self).wf(),
    {
        if self.start {
            self.start = false;
            self.decay = 15;
            self.divider = self.volume_or_period;
        } else if self.divider == 0 {
            self.divider = self.volume_or_period;
            if self.decay > 0 {
                self.decay = self.decay - 1;
            } else if self.looping {
                self.decay = 15;
            }
        } else {
            self.divider = self.divider - 1;
        }
    }

    pub fn level(&self) -> (r: u8)
        requires
            self.wf(),
        ensures
            r == self.level_spec(),
            r <= 15,
    {
        if self.constant_volume {
            self.volume_or_period
        } else {
            self.decay
        }
    }
}

/// Without a pending start, the decay level drops by exactly one when the
/// divider runs out and stays put otherwise; without looping it stays at 0
/// once there.
pub proof fn lemma_envelope_decay(e: Envelope)
    requires
        e.wf(),
        !e.start,
    ensures
        e.divider == 0 && e.decay > 0 ==> e.quarter_frame().decay == e.decay - 1,
        e.divider != 0 ==> e.quarter_frame().decay == e.decay,
        e.decay == 0 && !e.looping ==> e.quarter_frame().decay == 0,
        e.divider == 0 ==> e.quarter_frame().divider == e.volume_or_period,
        e.quarter_frame().wf(),
        !e.quarter_frame().start,
{
}

} // verus!
