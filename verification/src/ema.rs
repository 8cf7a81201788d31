//! Decayed (exponential moving) averages over fixed-point samples.
//!
//! [`Ema`] keeps a single smoothed estimate; [`Ema2`] feeds one input stream
//! into a fast and a slow window and reports their ratio as a trend. Both
//! start at zero before any sample, so an unseeded evaluator never reports
//! activity (its estimate and its trend are zero).

use vstd::prelude::*;
use crate::fixed::{div_raw, fold_raw, Fixed};

verus! {

/// A single-window decayed average; each sample moves the estimate towards
/// the sample with weight `1 / len`.
#[derive(Clone, Copy, Debug, PartialEq, Eq, Structural)]
pub struct Ema {
    /// Current estimate; zero before any update.
    pub val: Fixed,
    /// Window length; positive.
    pub len: u64,
}

impl Ema {
    /// A positive window length, so that folding a sample never divides
    /// by zero.
    pub open spec fn wf(self) -> bool {
        1 <= self.len
    }

    /// A fresh average over a window of length `len`, starting at zero.
    pub fn new(len: u64) -> (r: Ema)
        requires
            1 <= len,
        ensures
            r.val.raw == 0,
            r.len == len,
            r.wf(),
    {
        Ema { val: Fixed::zero(), len }
    }

    /// Fold one sample into the estimate.
    pub fn update(&mut self, x: Fixed)
        requires
            old(self).wf(),
        ensures
            final(self).len == old(self).len,
            final(self).val.raw == fold_raw(old(self).val.raw as int, x.raw as int, old(self).len as int),
            final(self).wf(),
    {
        self.val = self.val.fold(x, self.len);
    }

    /// The current estimate.
    pub fn get(&self) -> (r: Fixed)
        ensures
            r == self.val,
    {
        self.val
    }
}

/// A dual decayed average: a fast and a slow window over the same samples.
#[derive(Clone, Copy, Debug, PartialEq, Eq, Structural)]
pub struct Ema2 {
    /// Fast-window estimate; zero before any update.
    pub fast: Fixed,
    /// Slow-window estimate; zero before any update.
    pub slow: Fixed,
    /// Fast window length; positive.
    pub fast_len: u64,
    /// Slow window length; positive.
    pub slow_len: u64,
}

impl Ema2 {
    /// Positive window lengths, so that folding a sample never divides
    /// by zero.
    pub open spec fn wf(self) -> bool {
        1 <= self.fast_len && 1 <= self.slow_len
    }

    /// Raw value of the fast/slow ratio; zero while the slow estimate is
    /// zero, so an unseeded trend reports zero.
    pub open spec fn trend_raw(self) -> int {
        div_raw(self.fast.raw as int, self.slow.raw as int)
    }

    /// A fresh dual average with both windows of length `len`.
    pub fn new(len: u64) -> (r: Ema2)
        requires
            1 <= len,
        ensures
            r.fast.raw == 0,
            r.slow.raw == 0,
            r.fast_len == len,
            r.slow_len == len,
            r.wf(),
    {
        Ema2 { fast: Fixed::zero(), slow: Fixed::zero(), fast_len: len, slow_len: len }
    }

    /// The same dual average with the slow window set to `slow_len`.
    pub fn with_slow(self, slow_len: u64) -> (r: Ema2)
        requires
            1 <= slow_len,
        ensures
            r.fast == self.fast,
            r.slow == self.slow,
            r.fast_len == self.fast_len,
            r.slow_len == slow_len,
    {
        Ema2 { slow_len, ..self }
    }

    /// Fold one sample into both windows.
    pub fn update(&mut self, x: Fixed)
        requires
            old(self).wf(),
        ensures
            final(self).fast_len == old(self).fast_len,
            final(self).slow_len == old(self).slow_len,
            final(self).fast.raw == fold_raw(
                old(self).fast.raw as int,
                x.raw as int,
                old(self).fast_len as int,
            ),
            final(self).slow.raw == fold_raw(
                old(self).slow.raw as int,
                x.raw as int,
                old(self).slow_len as int,
            ),
            final(self).wf(),
    {
        self.fast = self.fast.fold(x, self.fast_len);
        self.slow = self.slow.fold(x, self.slow_len);
    }

    /// The fast-window estimate.
    pub fn get(&self) -> (r: Fixed)
        ensures
            r == self.fast,
    {
        self.fast
    }

    /// The fast/slow ratio; zero while the slow estimate is zero.
    pub fn trend(&self) -> (r: Fixed)
        ensures
            r.raw == self.trend_raw(),
    {
        self.fast.div_fixed(self.slow)
    }
}

} // verus!
