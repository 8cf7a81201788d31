//! The classical Luby restart schedule.
//!
//! The schedule yields the interval sequence 1, 1, 2, 1, 1, 2, 4, 1, 1, 2,
//! 1, 1, 2, 4, 8, ... scaled by a base step. The sequence is built from
//! finite subsequences: the subsequence of rank `s` holds `2^(s+1) - 1`
//! elements, ends with the element `2^s`, and is preceded by two copies of
//! the subsequence of rank `s - 1`. [`luby_exponent`] states the exponent of
//! each element from that recurrence, and [`LubySeries::next_step`] computes
//! it with two verified loops.

use vstd::prelude::*;
use crate::fixed::{
    from_int_raw, lemma_mul_le, lemma_two_pow_65, lemma_two_pow_le, pow_fixed_raw, sat_usize,
    two_pow, Fixed, SCALE,
};
use crate::progress::ProgressEvaluator;

verus! {

/// The exponent of the Luby element at position `x` inside an enclosing
/// subsequence of rank `s` (so `x < 2^(s+1) - 1`): the last position of the
/// subsequence carries the exponent `s`; every other position lies in a copy
/// of a subsequence of rank `s - 1` and recurs into it.
pub open spec fn luby_exp_in(s: nat, x: nat) -> nat
    decreases s,
{
    if x + 2 == two_pow(s + 1) {
        s
    } else if s == 0 {
        0
    } else {
        luby_exp_in((s - 1) as nat, ((x as int) % (two_pow(s) - 1)) as nat)
    }
}

/// The exponent of the `i`-th element (counting from zero) of the Luby
/// sequence; the element itself is `2^luby_exponent(i)`.
pub open spec fn luby_exponent(i: nat) -> nat {
    luby_exp_in(64, i)
}

/// The rank of the enclosing subsequence does not matter: any rank whose
/// subsequence is large enough to hold position `x` yields the same
/// exponent.
pub proof fn lemma_luby_exp_in_any(s: nat, t: nat, x: nat)
    requires
        s <= t,
        x + 1 < two_pow(s + 1),
    ensures
        luby_exp_in(t, x) == luby_exp_in(s, x),
    decreases t - s,
{
    if s < t {
        lemma_luby_exp_in_any(s, (t - 1) as nat, x);
        // Unfold luby_exp_in(t, x): position x is not the last of rank t,
        // and reducing x modulo the size of rank t - 1 leaves x unchanged.
        lemma_two_pow_le(s + 1, t);
        assert(two_pow(t + 1) == 2 * two_pow(t));
        assert(x + 2 < two_pow(t + 1));
        assert(x < two_pow(t) - 1);
        assert((x as int) % (two_pow(t) - 1) == x) by {
            vstd::arithmetic::div_mod::lemma_small_mod(x, (two_pow(t) - 1) as nat);
        }
    }
}

/// Deterministic generator of the Luby restart intervals.
///
/// `next_restart` holds the conflict count at which the current element is
/// consumed; it always equals `step` scaled by two to the power
/// [`luby_exponent`] of `index`. The advancing `index` saturates at the
/// machine bound, far beyond any reachable restart count.
#[derive(Clone, Copy, Debug, PartialEq, Eq, Structural)]
pub struct LubySeries {
    /// Whether the schedule is the active restart policy.
    pub enable: bool,
    /// Whether the current element has been reached.
    pub active: bool,
    /// Position in the Luby sequence.
    pub index: usize,
    /// Conflict count consuming the current element.
    pub next_restart: usize,
    /// Growth factor between consecutive ranks; two in the classical series.
    pub restart_inc: Fixed,
    /// Base interval multiplying every element.
    pub step: usize,
}

/// Value of the schedule element at `index`: the base step scaled by
/// `restart_inc` to the power [`luby_exponent`]`(index)`, truncated and
/// clamped to `usize`.
pub open spec fn luby_value(inc: int, step: int, index: nat) -> int {
    if index == 0 {
        step
    } else {
        sat_usize(pow_fixed_raw(inc, luby_exponent(index)) * step / (SCALE as int))
    }
}

/// State after feeding the observed counter `index` to the schedule: a zero
/// counter is the reset signal; any other counter arms the schedule once the
/// current element is consumed.
pub open spec fn luby_update_spec(s: LubySeries, index: usize) -> LubySeries {
    if !s.enable {
        s
    } else if index == 0 {
        LubySeries { active: false, index: 0, next_restart: s.step, ..s }
    } else {
        LubySeries { active: s.next_restart < index, ..s }
    }
}

/// State after consuming one element: the trigger is cleared, the position
/// advances (saturating at the machine bound) and the next interval is
/// recomputed from the new position.
pub open spec fn luby_shift_spec(s: LubySeries) -> LubySeries {
    let index = sat_usize(s.index + 1) as usize;
    LubySeries {
        active: false,
        index,
        next_restart: luby_value(s.restart_inc.raw as int, s.step as int, index as nat) as usize,
        ..s
    }
}

impl LubySeries {
    /// Enabled and armed.
    pub open spec fn is_active_spec(self) -> bool {
        self.enable && self.active
    }

    /// Compute the interval of the element at the current `index`.
    pub fn next_step(&self) -> (r: usize)
        ensures
            r == luby_value(self.restart_inc.raw as int, self.step as int, self.index as nat),
    {
        if self.index == 0 {
            return self.step;
        }
        proof {
            assert(two_pow(1nat) == 2) by {
                reveal_with_fuel(two_pow, 2);
            }
        }
        let mut size: u128 = 1;
        let mut seq: u64 = 0;
        while size < (self.index as u128) + 1
            invariant
                size == two_pow((seq + 1) as nat) - 1,
                two_pow(seq as nat) - 1 < self.index + 1,
                seq <= 64,
            decreases 65 - seq,
        {
            proof {
                assert(usize::MAX <= u64::MAX);
                assert(two_pow((seq + 2) as nat) == 2 * two_pow((seq + 1) as nat));
                if seq + 1 > 64 {
                    lemma_two_pow_le(65, (seq + 1) as nat);
                    lemma_two_pow_65();
                }
            }
            seq = seq + 1;
            size = 2 * size + 1;
        }
        proof {
            lemma_luby_exp_in_any(seq as nat, 64, self.index as nat);
        }
        let mut x: u128 = self.index as u128;
        while size - 1 != x
            invariant
                size == two_pow((seq + 1) as nat) - 1,
                x < size,
                seq <= 64,
                luby_exp_in(seq as nat, x as nat) == luby_exponent(self.index as nat),
            decreases seq,
        {
            proof {
                assert(two_pow((seq + 1) as nat) == 2 * two_pow(seq as nat));
                assert(two_pow(1nat) == 2) by {
                    reveal_with_fuel(two_pow, 2);
                }
                if seq == 0 {
                    assert(size == 1);
                    assert(x == 0);
                }
                assert(seq >= 1);
                lemma_two_pow_le(1, seq as nat);
            }
            size = (size - 1) / 2;
            seq = seq - 1;
            proof {
                vstd::arithmetic::div_mod::lemma_mod_bound(x as int, size as int);
            }
            x = x % size;
        }
        proof {
            assert(x + 2 == two_pow((seq + 1) as nat));
            assert(luby_exp_in(seq as nat, x as nat) == seq as nat);
        }
        let factor = self.restart_inc.powi(seq);
        proof {
            assert(usize::MAX <= u64::MAX);
            lemma_mul_le(factor.raw as int, self.step as int, u64::MAX as int, u64::MAX as int);
        }
        let p: u128 = (factor.raw as u128) * (self.step as u128) / (SCALE as u128);
        if p > usize::MAX as u128 {
            usize::MAX
        } else {
            p as usize
        }
    }

    /// Feed the observed counter to the schedule; zero is the reset signal.
    pub fn update(&mut self, index: usize)
        ensures
            *final(self) == luby_update_spec(*old(self), index),
    {
        if !self.enable {
            return;
        }
        if index == 0 {
            self.index = 0;
            self.next_restart = self.next_step();
            self.active = false;
        } else {
            self.active = self.next_restart < index;
        }
    }

    /// The current interval, as a fixed-point number for telemetry.
    pub fn get(&self) -> (r: Fixed)
        ensures
            r.raw == from_int_raw(self.next_restart as int),
    {
        Fixed::from_int(self.next_restart as u64)
    }

}

impl ProgressEvaluator for LubySeries {
    /// Enabled and armed.
    fn is_active(&self) -> (r: bool)
        ensures
            r == self.is_active_spec(),
    {
        self.enable && self.active
    }

    /// The schedule keeps no extra progress state.
    fn reset_progress(&mut self)
        ensures
            *final(self) == *old(self),
    {
    }

    /// Consume the current element and move to the next one.
    fn shift(&mut self)
        ensures
            *final(self) == luby_shift_spec(*old(self)),
    {
        self.active = false;
        if self.index < usize::MAX {
            self.index = self.index + 1;
        }
        self.next_restart = self.next_step();
    }
}

impl Default for LubySeries {
    /// A disabled schedule at position zero with the classical growth
    /// factor of two and a base step of one hundred conflicts.
    fn default() -> (r: LubySeries)
        ensures
            r == (LubySeries {
                enable: false,
                active: false,
                index: 0,
                next_restart: 100,
                restart_inc: Fixed { raw: 2_000_000 },
                step: 100,
            }),
    {
        LubySeries {
            enable: false,
            active: false,
            index: 0,
            next_restart: 100,
            restart_inc: Fixed::from_micros(2_000_000),
            step: 100,
        }
    }
}

} // verus!
