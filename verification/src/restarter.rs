//! The restart orchestrator.
//!
//! [`Restarter`] owns one instance of each evaluator and generator,
//! receives per-conflict signals through [`RestartIF::update`], and answers
//! the two per-conflict decision queries. The outcome of each query is
//! stated exactly by the spec functions [`block_result`]/[`block_next`] and
//! [`force_result`]/[`force_next`], and the laws at the end of this module
//! are proved from those alone.

use vstd::prelude::*;
use crate::config::{CNFDescription, Config, SearchStrategy, SolverEvent};
use crate::fixed::{sat_usize, Fixed};
use crate::luby::{luby_shift_spec, luby_update_spec, LubySeries};
use crate::progress::{
    asg_update_spec, lbd_update_spec, ProgressASG, ProgressEvaluator, ProgressLBD,
};
use crate::stabilizer::{stb_update_spec, GeometricStabilizer};

verus! {

/// Submodule addressed by one [`RestartIF::update`] call.
#[derive(Clone, Copy, Debug, PartialEq, Eq, Structural)]
pub enum RestarterModule {
    /// One conflict happened: advance the conflict counter and the
    /// deterministic generators.
    Counter,
    /// The latest assignment-trail size.
    ASG,
    /// The quality of the latest learned clause.
    LBD,
    /// Reset the deterministic schedule to its first element.
    Luby,
    /// No operation.
    Reset,
}

/// Restart policy reported by [`Restarter::exports`].
#[derive(Clone, Copy, Debug, PartialEq, Eq, Structural)]
pub enum RestartMode {
    /// Statistical forcing and blocking evaluators decide.
    Dynamic,
    /// The deterministic schedule decides.
    Luby,
    /// The geometric mode toggle holds the search in stabilized mode.
    Stabilize,
    /// Reserved for a bucket-sum policy; never produced.
    Bucket,
}

/// Decision interface consumed once per conflict by the search loop.
pub trait RestartIF {
    /// State that every update preserves; positive averaging windows.
    spec fn wf(&self) -> bool;

    /// Whether the stabilized search mode is in force.
    fn stabilizing(&self) -> bool;

    /// Suppress the upcoming restart if the search looks productive.
    fn block_restart(&mut self) -> bool;

    /// Demand a restart if the schedule or the quality signal says so.
    fn force_restart(&mut self) -> bool;

    /// Feed one signal into the addressed submodule.
    fn update(&mut self, kind: RestarterModule, val: usize)
        requires
            old(self).wf(),
        ensures
            final(self).wf(),
    ;
}

/// Orchestrator of the restart decisions for one solve.
#[derive(Clone, Copy, Debug, PartialEq, Eq, Structural)]
pub struct Restarter {
    /// Blocking evaluator over the assignment trail.
    pub asg: ProgressASG,
    /// Forcing evaluator over learned-clause quality.
    pub lbd: ProgressLBD,
    /// Deterministic restart schedule.
    pub luby: LubySeries,
    /// Geometric mode toggle.
    pub stb: GeometricStabilizer,
    /// Conflicts seen since the last accepted restart decision.
    pub after_restart: usize,
    /// Minimum gap, in conflicts, between accepted restart decisions.
    pub restart_step: usize,
    /// Number of blocking decisions accepted so far.
    pub num_block: usize,
    /// Number of stabilized phases entered; kept for reporting.
    pub num_stabilize: usize,
}

/// The state the orchestrator is constructed in from a configuration
/// snapshot: counters at zero, evaluators unseeded, the schedule disabled
/// and the toggle as configured.
pub open spec fn instantiate_spec(c: Config, _cnf: CNFDescription) -> Restarter {
    Restarter {
        asg: ProgressASG {
            enable: true,
            asg: 0,
            ema: crate::ema::Ema { val: Fixed { raw: 0 }, len: c.rst_asg_len },
            threshold: c.rst_asg_thr,
        },
        lbd: ProgressLBD {
            enable: true,
            ema: crate::ema::Ema2 {
                fast: Fixed { raw: 0 },
                slow: Fixed { raw: 0 },
                fast_len: c.rst_lbd_len,
                slow_len: c.rst_lbd_slw,
            },
            num: 0,
            sum: 0,
            threshold: c.rst_lbd_thr,
        },
        luby: LubySeries {
            enable: false,
            active: false,
            index: 0,
            next_restart: 100,
            restart_inc: Fixed { raw: 2_000_000 },
            step: c.rst_step,
        },
        stb: GeometricStabilizer {
            enable: c.use_stabilize,
            active: false,
            next_trigger: 1000,
            restart_inc: c.rst_stb_scl,
            step: 1000,
        },
        after_restart: 0,
        restart_step: c.rst_step,
        num_block: 0,
        num_stabilize: 0,
    }
}

/// Whether a blocking decision is accepted: only past the minimum gap,
/// never while the deterministic schedule is the active policy, and only
/// when the trail evaluator signals unusually deep progress.
pub open spec fn block_result(s: Restarter) -> bool {
    &&& !(s.after_restart < s.restart_step)
    &&& !s.luby.enable
    &&& s.asg.is_active_spec()
}

/// State after a `block_restart` call: an accepted decision counts itself
/// and resets the conflict counter; a declined one changes nothing.
pub open spec fn block_next(s: Restarter) -> Restarter {
    if block_result(s) {
        Restarter { after_restart: 0, num_block: sat_usize(s.num_block + 1) as usize, ..s }
    } else {
        s
    }
}

/// Whether a forcing decision is accepted: an armed deterministic schedule
/// forces unconditionally; otherwise only past the minimum gap and when the
/// quality evaluator signals degradation.
pub open spec fn force_result(s: Restarter) -> bool {
    if s.luby.is_active_spec() {
        true
    } else if s.after_restart < s.restart_step {
        false
    } else {
        s.lbd.is_active_spec()
    }
}

/// State after a `force_restart` call: the accepted schedule consumes its
/// element; any accepted decision resets the conflict counter; a declined
/// one changes nothing.
pub open spec fn force_next(s: Restarter) -> Restarter {
    if s.luby.is_active_spec() {
        Restarter { luby: luby_shift_spec(s.luby), after_restart: 0, ..s }
    } else if s.after_restart < s.restart_step {
        s
    } else if s.lbd.is_active_spec() {
        Restarter { after_restart: 0, ..s }
    } else {
        s
    }
}

/// State after feeding one signal: a conflict tick advances the counter
/// (saturating) and drives both deterministic generators; measurement
/// signals feed their evaluator; the schedule-reset signal rewinds the
/// schedule; the remaining tag does nothing.
pub open spec fn update_spec(s: Restarter, kind: RestarterModule, val: usize) -> Restarter {
    match kind {
        RestarterModule::Counter => {
            let after = sat_usize(s.after_restart + 1) as usize;
            Restarter {
                after_restart: after,
                stb: stb_update_spec(s.stb, val),
                luby: luby_update_spec(s.luby, after),
                ..s
            }
        },
        RestarterModule::ASG => Restarter { asg: asg_update_spec(s.asg, val), ..s },
        RestarterModule::LBD => Restarter { lbd: lbd_update_spec(s.lbd, val), ..s },
        RestarterModule::Luby => Restarter { luby: luby_update_spec(s.luby, 0), ..s },
        RestarterModule::Reset => s,
    }
}

/// The reported restart mode: stabilized mode wins, then the deterministic
/// schedule, then the statistical policy.
pub open spec fn mode_spec(s: Restarter) -> RestartMode {
    if s.stb.is_active_spec() {
        RestartMode::Stabilize
    } else if s.luby.enable {
        RestartMode::Luby
    } else {
        RestartMode::Dynamic
    }
}

/// The telemetry snapshot: mode, blocking count, trail trend, quality
/// estimate and blended quality trend — a pure function of the state.
pub open spec fn exports_spec(s: Restarter) -> (RestartMode, usize, Fixed, Fixed, Fixed) {
    (
        mode_spec(s),
        s.num_block,
        Fixed { raw: s.asg.trend_raw() as u64 },
        s.lbd.ema.fast,
        Fixed { raw: s.lbd.trend_raw() as u64 },
    )
}

/// State after a strategy-adaptation notification: the deterministic
/// schedule is enabled, irreversibly, when the loop reports the
/// low-successive strategy at its own conflict count; any other event
/// changes nothing.
pub open spec fn handle_spec(s: Restarter, e: SolverEvent) -> Restarter {
    match e {
        SolverEvent::Adapt((strategy, n), num_conflict) => {
            if strategy == SearchStrategy::LowSuccesive && n == num_conflict {
                Restarter { luby: LubySeries { enable: true, ..s.luby }, ..s }
            } else {
                s
            }
        },
    }
}

impl Restarter {
    /// Positive averaging windows in both evaluators.
    pub open spec fn wf_spec(self) -> bool {
        self.asg.wf() && self.lbd.wf()
    }

    /// Build the orchestrator from a configuration snapshot and a problem
    /// descriptor; nothing is read from the descriptor.
    pub fn instantiate(config: &Config, cnf: &CNFDescription) -> (r: Restarter)
        requires
            config.wf(),
        ensures
            r == instantiate_spec(*config, *cnf),
            r.wf_spec(),
    {
        Restarter {
            asg: ProgressASG::new(config.rst_asg_len, config.rst_asg_thr),
            lbd: ProgressLBD::new(config.rst_lbd_len, config.rst_lbd_slw, config.rst_lbd_thr),
            luby: LubySeries { step: config.rst_step, ..Default::default() },
            stb: GeometricStabilizer::new(config.use_stabilize, config.rst_stb_scl),
            after_restart: 0,
            restart_step: config.rst_step,
            num_block: 0,
            num_stabilize: 0,
        }
    }

    /// React to a strategy-adaptation event; may enable the deterministic
    /// schedule, irreversibly.
    pub fn handle(&mut self, e: SolverEvent)
        ensures
            *final(self) == handle_spec(*old(self), e),
    {
        match e {
            SolverEvent::Adapt((strategy, n), num_conflict) => {
                if strategy == SearchStrategy::LowSuccesive && n == num_conflict {
                    self.luby.enable = true;
                }
            },
        }
    }

    /// The telemetry snapshot; reads the state and mutates nothing.
    pub fn exports(&self) -> (r: (RestartMode, usize, Fixed, Fixed, Fixed))
        ensures
            r == exports_spec(*self),
    {
        let mode = if self.stb.is_active() {
            RestartMode::Stabilize
        } else if self.luby.enable {
            RestartMode::Luby
        } else {
            RestartMode::Dynamic
        };
        (mode, self.num_block, self.asg.trend(), self.lbd.get(), self.lbd.trend())
    }
}

impl Default for Restarter {
    /// An orchestrator with every component in its default state and no
    /// minimum gap.
    fn default() -> (r: Restarter)
        ensures
            r == (Restarter {
                asg: ProgressASG {
                    enable: true,
                    asg: 0,
                    ema: crate::ema::Ema { val: Fixed { raw: 0 }, len: 1 },
                    threshold: Fixed { raw: 1_400_000 },
                },
                lbd: ProgressLBD {
                    enable: true,
                    ema: crate::ema::Ema2 {
                        fast: Fixed { raw: 0 },
                        slow: Fixed { raw: 0 },
                        fast_len: 1,
                        slow_len: 1,
                    },
                    num: 0,
                    sum: 0,
                    threshold: Fixed { raw: 1_400_000 },
                },
                luby: LubySeries {
                    enable: false,
                    active: false,
                    index: 0,
                    next_restart: 100,
                    restart_inc: Fixed { raw: 2_000_000 },
                    step: 100,
                },
                stb: GeometricStabilizer {
                    enable: true,
                    active: false,
                    next_trigger: 1000,
                    restart_inc: Fixed { raw: 2_000_000 },
                    step: 1000,
                },
                after_restart: 0,
                restart_step: 0,
                num_block: 0,
                num_stabilize: 0,
            }),
            r.wf_spec(),
    {
        Restarter {
            asg: Default::default(),
            lbd: Default::default(),
            luby: Default::default(),
            stb: Default::default(),
            after_restart: 0,
            restart_step: 0,
            num_block: 0,
            num_stabilize: 0,
        }
    }
}

impl RestartIF for Restarter {
    /// Positive averaging windows in both evaluators.
    open spec fn wf(&self) -> bool {
        self.wf_spec()
    }

    /// Whether the stabilized search mode is in force.
    fn stabilizing(&self) -> (r: bool)
        ensures
            r == self.stb.is_active_spec(),
    {
        self.stb.is_active()
    }

    /// Suppress the upcoming restart if the search looks productive; an
    /// accepted decision counts itself and resets the conflict counter.
    fn block_restart(&mut self) -> (r: bool)
        ensures
            r == block_result(*old(self)),
            *final(self) == block_next(*old(self)),
    {
        if self.after_restart < self.restart_step || self.luby.enable {
            return false;
        }
        if self.asg.is_active() {
            if self.num_block < usize::MAX {
                self.num_block = self.num_block + 1;
            }
            self.after_restart = 0;
            return true;
        }
        false
    }

    /// Demand a restart: an armed deterministic schedule forces
    /// unconditionally and consumes its element; otherwise, past the
    /// minimum gap, a degrading quality signal forces; any accepted
    /// decision resets the conflict counter.
    fn force_restart(&mut self) -> (r: bool)
        ensures
            r == force_result(*old(self)),
            *final(self) == force_next(*old(self)),
    {
        if self.luby.is_active() {
            self.luby.shift();
            self.after_restart = 0;
            return true;
        }
        if self.after_restart < self.restart_step {
            return false;
        }
        if self.lbd.is_active() {
            self.lbd.shift();
            self.after_restart = 0;
            return true;
        }
        false
    }

    /// Feed one signal into the addressed submodule.
    fn update(&mut self, kind: RestarterModule, val: usize)
        ensures
            *final(self) == update_spec(*old(self), kind, val),
    {
        match kind {
            RestarterModule::Counter => {
                if self.after_restart < usize::MAX {
                    self.after_restart = self.after_restart + 1;
                }
                self.stb.update(val);
                let after = self.after_restart;
                self.luby.update(after);
            },
            RestarterModule::ASG => self.asg.update(val),
            RestarterModule::LBD => self.lbd.update(val),
            RestarterModule::Luby => self.luby.update(0),
            RestarterModule::Reset => {},
        }
    }
}

/// Minimum-gap law: below the minimum gap a blocking decision is never
/// accepted, and, while the deterministic schedule is not armed, neither is
/// a forcing decision — whatever the evaluators hold.
pub proof fn lemma_minimum_gap(s: Restarter)
    requires
        s.after_restart < s.restart_step,
    ensures
        !block_result(s),
        !s.luby.is_active_spec() ==> !force_result(s),
{
}

/// Schedule precedence law: whenever the deterministic schedule is enabled
/// and armed, a forcing decision is accepted and resets the conflict
/// counter, bypassing the minimum-gap check.
pub proof fn lemma_schedule_precedence(s: Restarter)
    requires
        s.luby.is_active_spec(),
    ensures
        force_result(s),
        force_next(s).after_restart == 0,
{
}

/// Telemetry purity law: the snapshot is a function of the state alone, so
/// two snapshots of the same state are identical.
pub proof fn lemma_exports_deterministic(
    s: Restarter,
    a: (RestartMode, usize, Fixed, Fixed, Fixed),
    b: (RestartMode, usize, Fixed, Fixed, Fixed),
)
    requires
        a == exports_spec(s),
        b == exports_spec(s),
    ensures
        a == b,
{
}

/// Cold-start safety law: immediately after construction, with no sample
/// fed to either evaluator, neither decision is accepted, whatever the
/// configuration held.
pub proof fn lemma_cold_start(c: Config, d: CNFDescription)
    ensures
        !block_result(instantiate_spec(c, d)),
        !force_result(instantiate_spec(c, d)),
{
    let s = instantiate_spec(c, d);
    assert(s.asg.threshold.raw * s.asg.ema.val.raw == 0);
    assert(!s.asg.is_active_spec());
}

} // verus!
