//! The timed effect that plays while an attack lands: the enemy flashes
//! under the player's attack, the camera shakes under the enemy's.
//!
//! Durations are whole nanoseconds.

use vstd::prelude::*;

verus! {

/// Length of an attack effect: 0.7 s.
pub const ATTACK_EFFECT_NANOS: u64 = 700_000_000;

/// Period of the flash: 0.1 s.
pub const FLASH_PERIOD_NANOS: u64 = 100_000_000;

/// Clock of the attack effect.
#[derive(Clone, Copy, Debug, PartialEq, Eq, Structural)]
pub struct AttackEffects {
    /// Time played of the current effect.
    pub elapsed: u64,
    /// Time after which an effect is complete.
    pub duration: u64,
    /// Period with which the enemy flashes.
    pub flash_period: u64,
}

/// Whether the flash hides the enemy `elapsed` into an effect: in the second
/// half of every period. A period of zero never hides.
pub open spec fn flash_hides(elapsed: int, period: int) -> bool {
    period > 0 && 2 * (elapsed % period) > period
}

impl AttackEffects {
    /// The time played does not exceed the duration.
    pub open spec fn wf(self) -> bool {
        self.elapsed <= self.duration
    }

    /// Whether `delta` more time completes the effect.
    pub open spec fn completes(self, delta: u64) -> bool {
        self.elapsed + delta >= self.duration
    }

    /// The clock set back to the start of an effect.
    pub open spec fn rewound(self) -> AttackEffects {
        AttackEffects { elapsed: 0, ..self }
    }

    /// The clock after `delta` more time: set back where the effect is
    /// complete, advanced otherwise.
    pub open spec fn advanced(self, delta: u64) -> AttackEffects {
        if self.completes(delta) {
            self.rewound()
        } else {
            AttackEffects { elapsed: (self.elapsed + delta) as u64, ..self }
        }
    }

    /// Whether the flash hides the enemy at the current time.
    pub open spec fn spec_flash_hidden(&self) -> bool {
        flash_hides(self.elapsed as int, self.flash_period as int)
    }

    /// A clock at the start of an effect.
    pub fn new(duration: u64, flash_period: u64) -> (effects: AttackEffects)
        ensures
            effects == (AttackEffects { elapsed: 0, duration, flash_period }),
            effects.wf(),
    {
        AttackEffects { elapsed: 0, duration, flash_period }
    }

    /// The clock the game uses: effects of 0.7 s, flashing every 0.1 s.
    pub fn standard() -> (effects: AttackEffects)
        ensures
            effects == (AttackEffects {
                elapsed: 0,
                duration: ATTACK_EFFECT_NANOS,
                flash_period: FLASH_PERIOD_NANOS,
            }),
            effects.wf(),
    {
        AttackEffects::new(ATTACK_EFFECT_NANOS, FLASH_PERIOD_NANOS)
    }

    /// Sets the clock back to the start of an effect.
    pub fn reset(&mut self)
        ensures
            *final(self) == old(self).rewound(),
            final(self).wf(),
    {
        self.elapsed = 0;
    }

    /// Advances the clock by `delta` and says whether that completed the
    /// effect; a completed effect leaves the clock at its start.
    pub fn tick(&mut self, delta: u64) -> (finished: bool)
        ensures
            finished == old(self).completes(delta),
            *final(self) == old(self).advanced(delta),
            final(self).wf(),
            !finished ==> final(self).elapsed < final(self).duration,
    {
        if self.elapsed >= self.duration || delta >= self.duration - self.elapsed {
            self.elapsed = 0;
            true
        } else {
            self.elapsed = self.elapsed + delta;
            false
        }
    }

    /// Whether the flash hides the enemy at the current time.
    #[verifier::when_used_as_spec(spec_flash_hidden)]
    pub fn flash_hidden(&self) -> (hidden: bool)
        ensures
            hidden == self.spec_flash_hidden(),
    {
        if self.flash_period == 0 {
            false
        } else {
            let phase: u64 = self.elapsed % self.flash_period;
            phase > self.flash_period - phase
        }
    }
}

/// The flash shows the enemy through the first half of each period and
/// hides it through the second, and repeats with the period.
pub proof fn lemma_flash_periodic(elapsed: int, period: int)
    requires
        0 <= elapsed,
        0 < period,
    ensures
        flash_hides(elapsed, period) == flash_hides(elapsed + period, period),
        2 * elapsed <= period ==> !flash_hides(elapsed, period),
        period < 2 * elapsed && elapsed < period ==> flash_hides(elapsed, period),
{
    assert((elapsed + period) % period == elapsed % period) by (nonlinear_arith)
        requires
            0 < period,
    ;
    if elapsed < period {
        assert(elapsed % period == elapsed) by (nonlinear_arith)
            requires
                0 <= elapsed < period,
        ;
    }
}

} // verus!
