//! Statistical progress evaluators.
//!
//! Each evaluator turns one per-conflict signal into an activation bit
//! through the shared [`ProgressEvaluator`] interface. The trail evaluator
//! ([`ProgressASG`]) blocks restarts while the search runs unusually deep;
//! the learned-clause evaluator ([`ProgressLBD`]) forces restarts while the
//! learned clauses degrade. [`ProgressLVL`] and [`ProgressRCC`] are dormant
//! variants kept implementable behind the same interface.

use vstd::prelude::*;
use crate::ema::{Ema, Ema2};
use crate::fixed::{
    fold_raw, from_int_raw, lemma_fold_bound, lemma_mul_le, mul_div_raw, sat_usize, Fixed, SCALE,
};

verus! {

/// The shared activation interface of the restart evaluators: each variant
/// maps its statistic to a boolean signal, can drop back to its initial
/// progress state, and can set up its next condition after a consumed
/// trigger.
pub trait ProgressEvaluator {
    /// Whether the evaluator signals a restart decision.
    fn is_active(&self) -> bool;

    /// Reset the internal progress state to the initial one.
    fn reset_progress(&mut self);

    /// Calculate and set up the next condition.
    fn shift(&mut self);
}

/// Assignment-trail evaluator: blocks a restart while the current trail is
/// unusually deep relative to its smoothed history.
#[derive(Clone, Copy, Debug, PartialEq, Eq, Structural)]
pub struct ProgressASG {
    /// Whether the blocking signal is consulted.
    pub enable: bool,
    /// Latest observed trail size.
    pub asg: usize,
    /// Smoothed history of trail sizes.
    pub ema: Ema,
    /// Scale applied to the average before comparing with the latest size.
    pub threshold: Fixed,
}

/// State after observing a trail of size `n`: the size is stored and folded
/// into the average.
pub open spec fn asg_update_spec(s: ProgressASG, n: usize) -> ProgressASG {
    ProgressASG {
        asg: n,
        ema: Ema {
            val: Fixed {
                raw: fold_raw(
                    s.ema.val.raw as int,
                    from_int_raw(n as int),
                    s.ema.len as int,
                ) as u64,
            },
            len: s.ema.len,
        },
        ..s
    }
}

impl ProgressASG {
    /// The average folds samples over a positive window.
    pub open spec fn wf(self) -> bool {
        self.ema.wf()
    }

    /// Enabled, and the latest trail size exceeds the scaled average:
    /// `threshold * average < asg` on the represented values.
    pub open spec fn is_active_spec(self) -> bool {
        self.enable && self.threshold.raw * self.ema.val.raw < self.asg * SCALE * SCALE
    }

    /// Raw trend for telemetry: latest size divided by the average.
    pub open spec fn trend_raw(self) -> int {
        crate::fixed::div_raw(from_int_raw(self.asg as int), self.ema.val.raw as int)
    }

    /// An evaluator over a window of length `len` activating at scale
    /// `threshold`, with no trail observed yet.
    pub fn new(len: u64, threshold: Fixed) -> (r: ProgressASG)
        requires
            1 <= len,
        ensures
            r == (ProgressASG {
                enable: true,
                asg: 0,
                ema: Ema { val: Fixed { raw: 0 }, len },
                threshold,
            }),
            r.wf(),
    {
        ProgressASG { enable: true, asg: 0, ema: Ema::new(len), threshold }
    }

    /// Observe one trail size.
    pub fn update(&mut self, n: usize)
        requires
            old(self).wf(),
        ensures
            *final(self) == asg_update_spec(*old(self), n),
            final(self).wf(),
    {
        proof {
            lemma_fold_bound(
                self.ema.val.raw as int,
                from_int_raw(n as int),
                self.ema.len as int,
                u64::MAX as int,
            );
        }
        self.asg = n;
        let sample = Fixed::from_int(n as u64);
        self.ema.update(sample);
    }

    /// The smoothed trail size.
    pub fn get(&self) -> (r: Fixed)
        ensures
            r == self.ema.val,
    {
        self.ema.get()
    }

    /// Latest trail size divided by the smoothed history, for telemetry.
    pub fn trend(&self) -> (r: Fixed)
        ensures
            r.raw == self.trend_raw(),
    {
        Fixed::from_int(self.asg as u64).div_fixed(self.ema.get())
    }
}

impl ProgressEvaluator for ProgressASG {
    /// Enabled and the scaled average lies below the latest trail size.
    fn is_active(&self) -> (r: bool)
        ensures
            r == self.is_active_spec(),
    {
        proof {
            lemma_mul_le(self.threshold.raw as int, self.ema.val.raw as int, u64::MAX as int, u64::MAX as int);
            lemma_mul_le(self.asg as int, (SCALE * SCALE) as int, u64::MAX as int, (SCALE * SCALE) as int);
        }
        let lhs: u128 = (self.threshold.raw as u128) * (self.ema.val.raw as u128);
        let rhs: u128 = (self.asg as u128) * ((SCALE as u128) * (SCALE as u128));
        self.enable && lhs < rhs
    }

    /// The trail evaluator keeps no extra progress state.
    fn reset_progress(&mut self)
        ensures
            *final(self) == *old(self),
    {
    }

    /// Nothing to set up: the comparison always follows the latest sample.
    fn shift(&mut self)
        ensures
            *final(self) == *old(self),
    {
    }
}

impl Default for ProgressASG {
    /// An enabled evaluator over a window of one sample, activating at one
    /// and two fifths of the average.
    fn default() -> (r: ProgressASG)
        ensures
            r == (ProgressASG {
                enable: true,
                asg: 0,
                ema: Ema { val: Fixed { raw: 0 }, len: 1 },
                threshold: Fixed { raw: 1_400_000 },
            }),
            r.wf(),
    {
        ProgressASG::new(1, Fixed::from_micros(1_400_000))
    }
}

/// Learned-clause-quality evaluator: forces a restart while recently
/// learned clauses are degrading relative to their long-run baseline.
#[derive(Clone, Copy, Debug, PartialEq, Eq, Structural)]
pub struct ProgressLBD {
    /// Whether the forcing signal is consulted.
    pub enable: bool,
    /// Fast/slow smoothed history of clause quality.
    pub ema: Ema2,
    /// Number of samples seen, saturating at the machine bound.
    pub num: usize,
    /// Sum of all samples, saturating at the machine bound.
    pub sum: usize,
    /// Activation threshold on the fast/slow trend.
    pub threshold: Fixed,
}

/// State after observing one clause-quality sample `d`: the counters grow
/// (saturating) and the sample is folded into both windows.
pub open spec fn lbd_update_spec(s: ProgressLBD, d: usize) -> ProgressLBD {
    ProgressLBD {
        num: sat_usize(s.num + 1) as usize,
        sum: sat_usize(s.sum + d) as usize,
        ema: Ema2 {
            fast: Fixed {
                raw: fold_raw(
                    s.ema.fast.raw as int,
                    from_int_raw(d as int),
                    s.ema.fast_len as int,
                ) as u64,
            },
            slow: Fixed {
                raw: fold_raw(
                    s.ema.slow.raw as int,
                    from_int_raw(d as int),
                    s.ema.slow_len as int,
                ) as u64,
            },
            ..s.ema
        },
        ..s
    }
}

impl ProgressLBD {
    /// Both windows fold samples over positive lengths.
    pub open spec fn wf(self) -> bool {
        self.ema.wf()
    }

    /// Raw blended trend: the larger of the windowed fast/slow trend and
    /// the fast estimate scaled by the cumulative mean ratio `num / sum`;
    /// zero while no sample has been seen.
    pub open spec fn trend_raw(self) -> int {
        let windowed = self.ema.trend_raw();
        let cumulative = mul_div_raw(self.ema.fast.raw as int, self.num as int, self.sum as int);
        if windowed >= cumulative {
            windowed
        } else {
            cumulative
        }
    }

    /// Enabled, and the fast/slow trend exceeds the threshold.
    pub open spec fn is_active_spec(self) -> bool {
        self.enable && self.threshold.raw < self.ema.trend_raw()
    }

    /// An evaluator with a fast window of length `len` and a slow window of
    /// length `slow`, activating at `threshold`, with no sample seen yet.
    pub fn new(len: u64, slow: u64, threshold: Fixed) -> (r: ProgressLBD)
        requires
            1 <= len,
            1 <= slow,
        ensures
            r == (ProgressLBD {
                enable: true,
                ema: Ema2 { fast: Fixed { raw: 0 }, slow: Fixed { raw: 0 }, fast_len: len, slow_len: slow },
                num: 0,
                sum: 0,
                threshold,
            }),
            r.wf(),
    {
        ProgressLBD { enable: true, ema: Ema2::new(len).with_slow(slow), num: 0, sum: 0, threshold }
    }

    /// Observe one clause-quality sample.
    pub fn update(&mut self, d: usize)
        requires
            old(self).wf(),
        ensures
            *final(self) == lbd_update_spec(*old(self), d),
            final(self).wf(),
    {
        proof {
            lemma_fold_bound(
                self.ema.fast.raw as int,
                from_int_raw(d as int),
                self.ema.fast_len as int,
                u64::MAX as int,
            );
            lemma_fold_bound(
                self.ema.slow.raw as int,
                from_int_raw(d as int),
                self.ema.slow_len as int,
                u64::MAX as int,
            );
        }
        if self.num < usize::MAX {
            self.num = self.num + 1;
        }
        if d <= usize::MAX - self.sum {
            self.sum = self.sum + d;
        } else {
            self.sum = usize::MAX;
        }
        let sample = Fixed::from_int(d as u64);
        self.ema.update(sample);
    }

    /// The fast-window estimate of clause quality.
    pub fn get(&self) -> (r: Fixed)
        ensures
            r == self.ema.fast,
    {
        self.ema.get()
    }

    /// The blended trend: windowed trend damped by the cumulative mean
    /// while few samples exist; zero before the first sample.
    pub fn trend(&self) -> (r: Fixed)
        ensures
            r.raw == self.trend_raw(),
    {
        let windowed = self.ema.trend();
        let cumulative = self.ema.get().mul_div(self.num as u64, self.sum as u64);
        if windowed.raw >= cumulative.raw {
            windowed
        } else {
            cumulative
        }
    }
}

impl ProgressEvaluator for ProgressLBD {
    /// Enabled and the windowed trend exceeds the threshold.
    fn is_active(&self) -> (r: bool)
        ensures
            r == self.is_active_spec(),
    {
        self.enable && self.threshold.lt(self.ema.trend())
    }

    /// The quality evaluator keeps no extra progress state.
    fn reset_progress(&mut self)
        ensures
            *final(self) == *old(self),
    {
    }

    /// Nothing to set up: kept for symmetry with the other evaluators.
    fn shift(&mut self)
        ensures
            *final(self) == *old(self),
    {
    }
}

impl Default for ProgressLBD {
    /// An enabled evaluator over single-sample windows. The threshold
    /// deliberately mirrors the trail evaluator's scale of one and two
    /// fifths, although a forcing threshold is often described as a value
    /// below one; callers override it from configuration.
    fn default() -> (r: ProgressLBD)
        ensures
            r == (ProgressLBD {
                enable: true,
                ema: Ema2 { fast: Fixed { raw: 0 }, slow: Fixed { raw: 0 }, fast_len: 1, slow_len: 1 },
                num: 0,
                sum: 0,
                threshold: Fixed { raw: 1_400_000 },
            }),
            r.wf(),
    {
        ProgressLBD::new(1, 1, Fixed::from_micros(1_400_000))
    }
}

/// Dormant decision-level tracker: smooths the decision level of each
/// conflict but defines no activation signal; it is not wired into any
/// decision.
#[derive(Clone, Copy, Debug, PartialEq, Eq, Structural)]
pub struct ProgressLVL {
    /// Fast/slow smoothed history of decision levels.
    pub ema: Ema2,
}

impl ProgressLVL {
    /// Both windows fold samples over positive lengths.
    pub open spec fn wf(self) -> bool {
        self.ema.wf()
    }

    /// A fresh tracker over the customary fast and slow windows.
    pub fn new() -> (r: ProgressLVL)
        ensures
            r == (ProgressLVL {
                ema: Ema2 {
                    fast: Fixed { raw: 0 },
                    slow: Fixed { raw: 0 },
                    fast_len: 100,
                    slow_len: 800,
                },
            }),
            r.wf(),
    {
        ProgressLVL { ema: Ema2::new(100).with_slow(800) }
    }

    /// Observe one decision level.
    pub fn update(&mut self, l: usize)
        requires
            old(self).wf(),
        ensures
            final(self).ema.fast_len == old(self).ema.fast_len,
            final(self).ema.slow_len == old(self).ema.slow_len,
            final(self).ema.fast.raw == fold_raw(
                old(self).ema.fast.raw as int,
                from_int_raw(l as int),
                old(self).ema.fast_len as int,
            ),
            final(self).ema.slow.raw == fold_raw(
                old(self).ema.slow.raw as int,
                from_int_raw(l as int),
                old(self).ema.slow_len as int,
            ),
            final(self).wf(),
    {
        let sample = Fixed::from_int(l as u64);
        self.ema.update(sample);
    }

    /// The fast-window estimate of the decision level.
    pub fn get(&self) -> (r: Fixed)
        ensures
            r == self.ema.fast,
    {
        self.ema.get()
    }

    /// The fast/slow trend of the decision level.
    pub fn trend(&self) -> (r: Fixed)
        ensures
            r.raw == self.ema.trend_raw(),
    {
        self.ema.trend()
    }
}

impl ProgressEvaluator for ProgressLVL {
    /// The tracker defines no activation condition, so it never reports
    /// active.
    fn is_active(&self) -> (r: bool)
        ensures
            r == false,
    {
        false
    }

    /// The tracker keeps no extra progress state.
    fn reset_progress(&mut self)
        ensures
            *final(self) == *old(self),
    {
    }

    /// Nothing to set up.
    fn shift(&mut self)
        ensures
            *final(self) == *old(self),
    {
    }
}

/// Dormant recurring-conflict-complexity tracker: smooths a heat signal and
/// activates once the heat exceeds its threshold; it is not wired into any
/// decision.
#[derive(Clone, Copy, Debug, PartialEq, Eq, Structural)]
pub struct ProgressRCC {
    /// Fast/slow smoothed heat of recurring conflicts.
    pub heat: Ema2,
    /// Activation threshold on the smoothed heat.
    pub threshold: Fixed,
}

impl ProgressRCC {
    /// Both windows fold samples over positive lengths.
    pub open spec fn wf(self) -> bool {
        self.heat.wf()
    }

    /// Enabled whenever the smoothed heat exceeds the threshold.
    pub open spec fn is_active_spec(self) -> bool {
        self.threshold.raw < self.heat.fast.raw
    }

    /// A fresh tracker over the customary fast and slow windows, with a
    /// zero threshold.
    pub fn new() -> (r: ProgressRCC)
        ensures
            r == (ProgressRCC {
                heat: Ema2 {
                    fast: Fixed { raw: 0 },
                    slow: Fixed { raw: 0 },
                    fast_len: 100,
                    slow_len: 8000,
                },
                threshold: Fixed { raw: 0 },
            }),
            r.wf(),
    {
        ProgressRCC { heat: Ema2::new(100).with_slow(8000), threshold: Fixed::zero() }
    }

    /// Fold one heat sample into the tracker.
    pub fn update(&mut self, foc: Fixed)
        requires
            old(self).wf(),
        ensures
            final(self).threshold == old(self).threshold,
            final(self).heat.fast_len == old(self).heat.fast_len,
            final(self).heat.slow_len == old(self).heat.slow_len,
            final(self).heat.fast.raw == fold_raw(
                old(self).heat.fast.raw as int,
                foc.raw as int,
                old(self).heat.fast_len as int,
            ),
            final(self).heat.slow.raw == fold_raw(
                old(self).heat.slow.raw as int,
                foc.raw as int,
                old(self).heat.slow_len as int,
            ),
            final(self).wf(),
    {
        self.heat.update(foc);
    }

    /// The fast-window estimate of the heat.
    pub fn get(&self) -> (r: Fixed)
        ensures
            r == self.heat.fast,
    {
        self.heat.get()
    }

    /// The fast/slow trend of the heat.
    pub fn trend(&self) -> (r: Fixed)
        ensures
            r.raw == self.heat.trend_raw(),
    {
        self.heat.trend()
    }
}

impl ProgressEvaluator for ProgressRCC {
    /// The smoothed heat exceeds the threshold.
    fn is_active(&self) -> (r: bool)
        ensures
            r == self.is_active_spec(),
    {
        self.threshold.lt(self.heat.get())
    }

    /// The tracker keeps no extra progress state.
    fn reset_progress(&mut self)
        ensures
            *final(self) == *old(self),
    {
    }

    /// Nothing to set up.
    fn shift(&mut self)
        ensures
            *final(self) == *old(self),
    {
    }
}

} // verus!
