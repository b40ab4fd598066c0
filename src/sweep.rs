use vstd::prelude::*;

verus! {

/// Largest timer period a pulse channel can hold (11 bits).
pub const MAX_TIMER_PERIOD: u16 = 0x7FF;

/// Pulse-channel sweep unit: periodically moves the channel's timer period
/// towards a target computed from the period itself.
#[derive(Debug, Clone, Copy, PartialEq, Eq, Structural)]
pub struct Sweep {
    /// Channel identity: when set, negation subtracts one more (one's complement).
    pub ones_complement: bool,
    pub enabled: bool,
    /// Divider period (3 bits).
    pub divider_period: u8,
    pub divider: u8,
    pub negate: bool,
    /// Shift count (3 bits).
    pub shift_count: u8,
    pub reload: bool,
}

impl Sweep {
    pub open spec fn wf(self) -> bool {
        self.divider_period <= 7 && self.divider <= 7 && self.shift_count <= 7
    }

    pub open spec fn power_on(ones_complement: bool) -> Sweep {
        Sweep {
            ones_complement,
            enabled: false,
            divider_period: 0,
            divider: 0,
            negate: false,
            shift_count: 0,
            reload: true,
        }
    }

    /// The period the sweep aims for, from the channel's current period.
    pub open spec fn target_period(self, period: u16) -> int {
        let change = (period >> self.shift_count) as int;
        if self.negate {
            period - change - if self.ones_complement {
                1int
            } else {
                0int
            }
        } else {
            period + change
        }
    }

    /// The sweep silences its channel for this period.
    pub open spec fn mutes(self, period: u16) -> bool {
        self.shift_count == 0 || self.target_period(period) > MAX_TIMER_PERIOD
            || self.target_period(period) < 0
    }

    /// The channel's period after a half-frame tick.
    pub open spec fn swept_period(self, period: u16) -> u16 {
        if self.divider == 0 && self.enabled && self.shift_count > 0 && !self.mutes(period) {
            self.target_period(period) as u16
        } else {
            period
        }
    }

    /// The unit's own state after a half-frame tick.
    pub open spec fn half_frame(self) -> Sweep {
        if self.divider == 0 || self.reload {
            Sweep { divider: self.divider_period, reload: false, ..self }
        } else {
            Sweep { divider: (self.divider - 1) as u8, ..self }
        }
    }

    /// The state after the sweep register is written: fields masked to width,
    /// reload flag set.
    pub open spec fn configured(
        self,
        enabled: bool,
        divider_period: u8,
        negate: bool,
        shift_count: u8,
    ) -> Sweep {
        Sweep {
            enabled,
            divider_period: divider_period % 8,
            negate,
            shift_count: shift_count % 8,
            reload: true,
            ..self
        }
    }

    pub fn new(ones_complement: bool) -> (s: Sweep)
        ensures
            s == Sweep::power_on(ones_complement),
            s.wf(),
    {
        Sweep {
            ones_complement,
            enabled: false,
            divider_period: 0,
            divider: 0,
            negate: false,
            shift_count: 0,
            reload: true,
        }
    }

    pub fn configure(&mut self, enabled: bool, divider_period: u8, negate: bool, shift_count: u8)
        requires
            old(self).wf(),
        ensures
            *final(self) == old(self).configured(enabled, divider_period, negate, shift_count),
            final(self).wf(),
    {
        self.enabled = enabled;
        self.divider_period = divider_period % 8;
        self.negate = negate;
        self.shift_count = shift_count % 8;
        self.reload = true;
    }

    /// True when the sweep silences a channel whose period is `period`.
    pub fn is_muting(&self, period: u16) -> (r: bool)
        requires
            self.wf(),
        ensures
            r == self.mutes(period),
    {
        let change = (period >> self.shift_count) as i32;
        let target: i32 = if self.negate {
            if self.ones_complement {
                period as i32 - change - 1
            } else {
                period as i32 - change
            }
        } else {
            period as i32 + change
        };
        self.shift_count == 0 || target > MAX_TIMER_PERIOD as i32 || target < 0
    }

    /// Clocks the unit on a half-frame tick; returns the channel's new period.
    pub fn clock_half_frame(&mut self, period: u16) -> (r: u16)
        requires
            old(self).wf(),
        ensures
            r == old(self).swept_period(period),
            *final(self) == old(self).half_frame(),
            final(self).wf(),
    {
        let mut next = period;
        if self.divider == 0 && self.enabled && self.shift_count > 0 && !self.is_muting(period) {
            let change = period >> self.shift_count;
            next = if self.negate {
                if self.ones_complement {
                    period - change - 1
                } else {
                    period - change
                }
            } else {
                period + change
            };
        }
        if self.divider == 0 || self.reload {
            self.divider = self.divider_period;
            self.reload = false;
        } else {
            self.divider = self.divider - 1;
        }
        next
    }
}

/// A half-frame tick never moves the period outside 11 bits, and leaves it
/// alone whenever the target is out of range.
pub proof fn lemma_sweep_keeps_period(s: Sweep, period: u16)
    requires
        period <= MAX_TIMER_PERIOD,
    ensures
        s.swept_period(period) <= MAX_TIMER_PERIOD,
        s.mutes(period) ==> s.swept_period(period) == period,
{
}

} // verus!
