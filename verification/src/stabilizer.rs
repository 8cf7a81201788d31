//! Geometric mode toggle ("stabilizer").
//!
//! A binary search-mode flag flipped on a geometrically growing cadence,
//! independent of solution quality. Each time the observed counter reaches
//! the trigger, the flag flips exactly once, the step grows by the factor
//! (dropping back to the base unit once it exceeds one hundred million) and
//! the next trigger moves by the new step.

use vstd::prelude::*;
use crate::fixed::{sat_usize, scale_int, scale_int_raw, Fixed};
use crate::progress::ProgressEvaluator;

verus! {

/// Base unit of the stabilizer cadence, in conflicts.
pub const STABILIZER_BASE_STEP: usize = 1000;

/// Cap over which the grown step drops back to the base unit.
pub const STABILIZER_STEP_CAP: usize = 100_000_000;

/// Geometric mode toggle owned by the orchestrator.
#[derive(Clone, Copy, Debug, PartialEq, Eq, Structural)]
pub struct GeometricStabilizer {
    /// Whether the toggle is ticking at all.
    pub enable: bool,
    /// The mode flag reported as "stabilized mode".
    pub active: bool,
    /// Counter value at which the flag flips next.
    pub next_trigger: usize,
    /// Multiplicative growth of the step at each flip.
    pub restart_inc: Fixed,
    /// Current distance between consecutive flips.
    pub step: usize,
}

/// State after observing the counter `now`: if the trigger is reached, the
/// flag flips once, the step is scaled by the growth factor (dropping back
/// to the base unit over the cap) and the next trigger moves by the new
/// step, saturating at the machine bound.
pub open spec fn stb_update_spec(s: GeometricStabilizer, now: usize) -> GeometricStabilizer {
    if s.enable && s.next_trigger <= now {
        let grown = scale_int_raw(s.step as int, s.restart_inc.raw as int);
        let stepped = if STABILIZER_STEP_CAP < grown {
            STABILIZER_BASE_STEP as int
        } else {
            grown
        };
        GeometricStabilizer {
            active: !s.active,
            step: stepped as usize,
            next_trigger: sat_usize(s.next_trigger + stepped) as usize,
            ..s
        }
    } else {
        s
    }
}

/// State after a progress reset: the flag clears and the step drops back to
/// the base unit; the trigger and the enable bit are untouched.
pub open spec fn stb_reset_spec(s: GeometricStabilizer) -> GeometricStabilizer {
    if s.enable {
        GeometricStabilizer { active: false, step: STABILIZER_BASE_STEP as usize, ..s }
    } else {
        s
    }
}

impl GeometricStabilizer {
    /// Enabled with the flag set.
    pub open spec fn is_active_spec(self) -> bool {
        self.enable && self.active
    }

    /// A toggle with the given enable bit and growth factor, at the base
    /// cadence.
    pub fn new(enable: bool, restart_inc: Fixed) -> (r: GeometricStabilizer)
        ensures
            r == (GeometricStabilizer {
                enable,
                active: false,
                next_trigger: 1000,
                restart_inc,
                step: 1000,
            }),
    {
        GeometricStabilizer {
            enable,
            active: false,
            next_trigger: STABILIZER_BASE_STEP,
            restart_inc,
            step: STABILIZER_BASE_STEP,
        }
    }

    /// Observe the conflict counter; flips the flag at most once.
    pub fn update(&mut self, now: usize)
        ensures
            *final(self) == stb_update_spec(*old(self), now),
    {
        if self.enable && self.next_trigger <= now {
            self.active = !self.active;
            self.step = scale_int(self.step, self.restart_inc);
            if STABILIZER_STEP_CAP < self.step {
                self.step = STABILIZER_BASE_STEP;
            }
            if self.step <= usize::MAX - self.next_trigger {
                self.next_trigger = self.next_trigger + self.step;
            } else {
                self.next_trigger = usize::MAX;
            }
        }
    }

}

impl ProgressEvaluator for GeometricStabilizer {
    /// Enabled with the flag set.
    fn is_active(&self) -> (r: bool)
        ensures
            r == self.is_active_spec(),
    {
        self.enable && self.active
    }

    /// Clear the flag and drop the step back to the base unit, leaving the
    /// trigger and the enable bit untouched.
    fn reset_progress(&mut self)
        ensures
            *final(self) == stb_reset_spec(*old(self)),
    {
        if self.enable {
            self.active = false;
            self.step = STABILIZER_BASE_STEP;
        }
    }

    /// The toggle sets up its next trigger inside `update` instead.
    fn shift(&mut self)
        ensures
            *final(self) == *old(self),
    {
    }
}

impl Default for GeometricStabilizer {
    /// An enabled toggle at the base cadence with a growth factor of two.
    fn default() -> (r: GeometricStabilizer)
        ensures
            r == (GeometricStabilizer {
                enable: true,
                active: false,
                next_trigger: 1000,
                restart_inc: Fixed { raw: 2_000_000 },
                step: 1000,
            }),
    {
        GeometricStabilizer::new(true, Fixed::from_micros(2_000_000))
    }
}

} // verus!
