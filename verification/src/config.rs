//! Construction-time inputs of the restart orchestrator.
//!
//! A [`Config`] snapshot carries the window lengths, activation thresholds
//! and cadence parameters read once at construction; a [`CNFDescription`]
//! describes the problem size; a [`SolverEvent`] notifies the orchestrator
//! of a strategy adaptation observed by the surrounding search loop.

use vstd::prelude::*;
use crate::fixed::Fixed;

verus! {

/// Configuration snapshot, read once when the orchestrator is built.
#[derive(Clone, Copy, Debug, PartialEq, Eq, Structural)]
pub struct Config {
    /// Window length of the trail evaluator's average.
    pub rst_asg_len: u64,
    /// Activation scale of the trail evaluator.
    pub rst_asg_thr: Fixed,
    /// Fast window length of the quality evaluator.
    pub rst_lbd_len: u64,
    /// Slow window length of the quality evaluator.
    pub rst_lbd_slw: u64,
    /// Activation threshold of the quality evaluator.
    pub rst_lbd_thr: Fixed,
    /// Base restart interval: both the minimum gap between accepted
    /// restarts and the base step of the deterministic schedule.
    pub rst_step: usize,
    /// Growth factor of the geometric mode toggle.
    pub rst_stb_scl: Fixed,
    /// Whether the geometric mode toggle ticks at all.
    pub use_stabilize: bool,
    /// Exponent weighting each sample of the bucket-sum evaluator.
    pub rst_bkt_pwr: Fixed,
    /// Damping of that exponent's decay across shifts.
    pub rst_bkt_scl: Fixed,
    /// Growth of the bucket threshold at each shift.
    pub rst_bkt_inc: Fixed,
    /// Initial bucket threshold, in whole units.
    pub rst_bkt_thr: usize,
}

impl Config {
    /// Window lengths must be positive: an average folds each sample with
    /// weight one over its window length.
    pub open spec fn wf(self) -> bool {
        &&& 1 <= self.rst_asg_len
        &&& 1 <= self.rst_lbd_len
        &&& 1 <= self.rst_lbd_slw
    }
}

/// Size descriptor of the problem handed to the solver; the restart
/// subsystem is constructed alongside it but reads nothing from it.
#[derive(Clone, Copy, Debug, PartialEq, Eq, Structural, Default)]
pub struct CNFDescription {
    /// Number of variables of the problem.
    pub num_of_variables: usize,
    /// Number of clauses of the problem.
    pub num_of_clauses: usize,
}

/// Search strategies the surrounding loop may adapt to.
#[derive(Clone, Copy, Debug, PartialEq, Eq, Structural)]
pub enum SearchStrategy {
    /// The strategy before any adaptation.
    Initial,
    /// A generic default strategy.
    Generic,
    /// Many conflicts at low decision levels.
    LowDecisions,
    /// A high rate of successive conflicts.
    HighSuccesive,
    /// A low rate of successive conflicts.
    LowSuccesive,
    /// Many learned clauses of high quality.
    ManyGlues,
}

/// Notification pushed into the orchestrator by the search loop.
#[derive(Clone, Copy, Debug)]
pub enum SolverEvent {
    /// The loop adapted to `(strategy, threshold)` at the given conflict
    /// count.
    Adapt((SearchStrategy, usize), usize),
}

} // verus!
