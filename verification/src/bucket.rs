//! Dormant bucket-sum evaluator.
//!
//! Accumulates a superlinear weight of each clause-quality sample and
//! signals a restart once the sum crosses a threshold that grows at every
//! shift. The weight is the sample raised to a fixed-point exponent: the
//! integer part by repeated multiplication, the fractional part by walking
//! its binary digits over repeated square roots of the base. The evaluator
//! is kept implementable behind the shared interface; the orchestrator
//! never invokes it.

use vstd::prelude::*;
use crate::config::{CNFDescription, Config};
use crate::fixed::{
    add_sat_raw, div_raw, from_int_raw, mul_div_raw, mul_raw, pow_fixed_raw, sat_usize, sqrt_raw,
    Fixed, SCALE,
};
use crate::progress::ProgressEvaluator;

verus! {

/// Number of binary digits of the fractional exponent taken into account.
pub const FRAC_POW_DIGITS: u64 = 16;

/// Raw result of the fractional-power walk: starting from `acc`, visit the
/// first `n` binary digits of the fraction `g / SCALE`, multiplying by the
/// chain `s`, `sqrt(s)`, `sqrt(sqrt(s))`, ... wherever a digit is set.
pub open spec fn frac_pow_walk_raw(acc: int, s: int, g: int, n: nat) -> int
    decreases n,
{
    if n == 0 {
        acc
    } else {
        let g2 = 2 * g;
        let s2 = sqrt_raw(s * SCALE);
        if g2 >= SCALE {
            frac_pow_walk_raw(mul_raw(acc, s), s2, g2 - SCALE, (n - 1) as nat)
        } else {
            frac_pow_walk_raw(acc, s2, g2, (n - 1) as nat)
        }
    }
}

/// Raw weight of one sample `d` under the fixed-point exponent `power`:
/// `d` to the integer part of the exponent times `d` to its fractional
/// part, the latter over [`FRAC_POW_DIGITS`] binary digits; truncating and
/// saturating throughout.
pub open spec fn bucket_weight_raw(d: int, power: int) -> int {
    let base = from_int_raw(d);
    let whole = pow_fixed_raw(base, (power / (SCALE as int)) as nat);
    let frac = frac_pow_walk_raw(
        SCALE as int,
        sqrt_raw(base * SCALE),
        power % (SCALE as int),
        FRAC_POW_DIGITS as nat,
    );
    mul_raw(whole, frac)
}

/// The sample `d` raised to the fixed-point `power`.
fn bucket_weight(d: usize, power: Fixed) -> (r: Fixed)
    ensures
        r.raw == bucket_weight_raw(d as int, power.raw as int),
{
    let base = Fixed::from_int(d as u64);
    let whole = base.powi(power.raw / SCALE);
    let ghost s0 = sqrt_raw(base.raw * SCALE);
    let ghost f0 = (power.raw as int) % (SCALE as int);
    let mut s = base.sqrt_fixed();
    let mut g: u64 = power.raw % SCALE;
    let mut acc = Fixed::from_micros(SCALE);
    let mut n: u64 = FRAC_POW_DIGITS;
    while n > 0
        invariant
            n <= FRAC_POW_DIGITS,
            g < SCALE,
            frac_pow_walk_raw(acc.raw as int, s.raw as int, g as int, n as nat)
                == frac_pow_walk_raw(SCALE as int, s0, f0, FRAC_POW_DIGITS as nat),
        decreases n,
    {
        let g2: u64 = 2 * g;
        if g2 >= SCALE {
            acc = acc.mul_fixed(s);
            g = g2 - SCALE;
        } else {
            g = g2;
        }
        s = s.sqrt_fixed();
        n = n - 1;
    }
    whole.mul_fixed(acc)
}

/// Bucket-sum evaluator owned, but never consulted, by the orchestrator's
/// surroundings.
#[derive(Clone, Copy, Debug, PartialEq, Eq, Structural)]
pub struct ProgressBucket {
    /// Whether the signal would be consulted at all.
    pub enable: bool,
    /// Number of consumed triggers.
    pub num_shift: usize,
    /// Accumulated weight of the samples since the last shift.
    pub sum: Fixed,
    /// Exponent weighting each sample.
    pub power: Fixed,
    /// Excess of the configured exponent over one; freezes the exponent
    /// when zero.
    pub power_factor: Fixed,
    /// Damping of the exponent decay across shifts.
    pub power_scale: Fixed,
    /// Growth of the threshold at each shift.
    pub step: Fixed,
    /// Activation threshold on the accumulated sum.
    pub threshold: Fixed,
}

/// State after observing one sample `d`: its weight joins the sum,
/// saturating.
pub open spec fn bucket_update_spec(s: ProgressBucket, d: usize) -> ProgressBucket {
    ProgressBucket {
        sum: Fixed {
            raw: add_sat_raw(s.sum.raw as int, bucket_weight_raw(d as int, s.power.raw as int)) as u64,
        },
        ..s
    }
}

/// State after consuming one trigger: the shift count grows, the sum
/// restarts at zero, the threshold moves by one step, and — unless the
/// exponent is frozen — the exponent decays towards one with the damped
/// reciprocal of the shift count.
pub open spec fn bucket_shift_spec(s: ProgressBucket) -> ProgressBucket {
    let num = sat_usize(s.num_shift + 1) as usize;
    let threshold = Fixed { raw: add_sat_raw(s.threshold.raw as int, s.step.raw as int) as u64 };
    let shifted = ProgressBucket { num_shift: num, sum: Fixed { raw: 0 }, threshold, ..s };
    if 0 < s.power_factor.raw {
        let denom = add_sat_raw(
            SCALE as int,
            mul_div_raw(s.power_scale.raw as int, num as int, 1),
        );
        let p = div_raw(SCALE as int, denom);
        ProgressBucket {
            power: Fixed {
                raw: add_sat_raw(SCALE as int, mul_raw(s.power_factor.raw as int, p)) as u64,
            },
            ..shifted
        }
    } else {
        shifted
    }
}

/// State after a progress reset: a fresh first shift over a threshold of
/// one thousand.
pub open spec fn bucket_reset_spec(s: ProgressBucket) -> ProgressBucket {
    if s.enable {
        bucket_shift_spec(
            ProgressBucket { num_shift: 1, threshold: Fixed { raw: 1_000_000_000 }, ..s },
        )
    } else {
        s
    }
}

/// The state the evaluator is constructed in: disabled, empty, with the
/// configured exponent, damping, step and threshold.
pub open spec fn bucket_instantiate_spec(c: Config) -> ProgressBucket {
    ProgressBucket {
        enable: false,
        num_shift: 0,
        sum: Fixed { raw: 0 },
        power: c.rst_bkt_pwr,
        power_factor: Fixed {
            raw: if c.rst_bkt_pwr.raw >= SCALE {
                (c.rst_bkt_pwr.raw - SCALE) as u64
            } else {
                0
            },
        },
        power_scale: c.rst_bkt_scl,
        step: c.rst_bkt_inc,
        threshold: Fixed { raw: from_int_raw(c.rst_bkt_thr as int) as u64 },
    }
}

impl ProgressBucket {
    /// Enabled, and the accumulated sum exceeds the threshold.
    pub open spec fn is_active_spec(self) -> bool {
        self.enable && self.threshold.raw < self.sum.raw
    }

    /// Build the evaluator from a configuration snapshot; the exponent in
    /// excess of one becomes the decaying factor.
    pub fn instantiate(config: &Config, _cnf: &CNFDescription) -> (r: ProgressBucket)
        ensures
            r == bucket_instantiate_spec(*config),
    {
        let power_factor = if config.rst_bkt_pwr.raw >= SCALE {
            Fixed::from_micros(config.rst_bkt_pwr.raw - SCALE)
        } else {
            Fixed::zero()
        };
        ProgressBucket {
            enable: false,
            num_shift: 0,
            sum: Fixed::zero(),
            power: config.rst_bkt_pwr,
            power_factor,
            power_scale: config.rst_bkt_scl,
            step: config.rst_bkt_inc,
            threshold: Fixed::from_int(config.rst_bkt_thr as u64),
        }
    }

    /// Observe one clause-quality sample.
    pub fn update(&mut self, d: usize)
        ensures
            *final(self) == bucket_update_spec(*old(self), d),
    {
        let w = bucket_weight(d, self.power);
        self.sum = self.sum.add_sat(w);
    }
}

impl ProgressEvaluator for ProgressBucket {
    /// Enabled and the accumulated sum exceeds the threshold.
    fn is_active(&self) -> (r: bool)
        ensures
            r == self.is_active_spec(),
    {
        self.enable && self.threshold.lt(self.sum)
    }

    /// Start over at the first shift with a threshold of one thousand.
    fn reset_progress(&mut self)
        ensures
            *final(self) == bucket_reset_spec(*old(self)),
    {
        if self.enable {
            self.num_shift = 1;
            self.threshold = Fixed::from_micros(1_000_000_000);
            self.shift();
        }
    }

    /// Consume one trigger: clear the sum, raise the threshold and decay
    /// the exponent.
    fn shift(&mut self)
        ensures
            *final(self) == bucket_shift_spec(*old(self)),
    {
        if self.num_shift < usize::MAX {
            self.num_shift = self.num_shift + 1;
        }
        self.sum = Fixed::zero();
        self.threshold = self.threshold.add_sat(self.step);
        if 0 < self.power_factor.raw {
            let denom = Fixed::from_micros(SCALE).add_sat(
                self.power_scale.mul_div(self.num_shift as u64, 1),
            );
            let p = Fixed::from_micros(SCALE).div_fixed(denom);
            self.power = Fixed::from_micros(SCALE).add_sat(self.power_factor.mul_fixed(p));
        }
    }
}

impl Default for ProgressBucket {
    /// A disabled evaluator with an exponent of one and a quarter, no
    /// damping, a unit step and a threshold of two thousand.
    fn default() -> (r: ProgressBucket)
        ensures
            r == (ProgressBucket {
                enable: false,
                num_shift: 0,
                sum: Fixed { raw: 0 },
                power: Fixed { raw: 1_250_000 },
                power_factor: Fixed { raw: 1_250_000 },
                power_scale: Fixed { raw: 0 },
                step: Fixed { raw: 1_000_000 },
                threshold: Fixed { raw: 2_000_000_000 },
            }),
    {
        ProgressBucket {
            enable: false,
            num_shift: 0,
            sum: Fixed::zero(),
            power: Fixed::from_micros(1_250_000),
            power_factor: Fixed::from_micros(1_250_000),
            power_scale: Fixed::zero(),
            step: Fixed::from_micros(1_000_000),
            threshold: Fixed::from_micros(2_000_000_000),
        }
    }
}

} // verus!
