//! End-to-end tests of the restart orchestrator and its components.

use restarter::bucket::ProgressBucket;
use restarter::config::{CNFDescription, Config, SearchStrategy, SolverEvent};
use restarter::ema::{Ema, Ema2};
use restarter::fixed::Fixed;
use restarter::luby::LubySeries;
use restarter::progress::{ProgressASG, ProgressEvaluator, ProgressLBD, ProgressLVL, ProgressRCC};
use restarter::restarter::{RestartIF, RestartMode, Restarter, RestarterModule};
use restarter::stabilizer::GeometricStabilizer;

fn config(step: usize, stabilize: bool) -> Config {
    Config {
        rst_asg_len: 16,
        rst_asg_thr: Fixed::from_micros(1_400_000),
        rst_lbd_len: 2,
        rst_lbd_slw: 1000,
        rst_lbd_thr: Fixed::from_micros(1_400_000),
        rst_step: step,
        rst_stb_scl: Fixed::from_micros(2_000_000),
        use_stabilize: stabilize,
        rst_bkt_pwr: Fixed::from_micros(1_250_000),
        rst_bkt_scl: Fixed::zero(),
        rst_bkt_inc: Fixed::from_micros(1_000_000),
        rst_bkt_thr: 2000,
    }
}

#[test]
fn test_luby_series() {
    let mut luby = LubySeries {
        enable: true,
        active: true,
        step: 1,
        ..Default::default()
    };
    luby.update(0);
    for v in vec![1, 1, 2, 1, 1, 2, 4, 1, 1, 2, 1, 1, 2, 4, 8] {
        assert_eq!(luby.next_restart, v);
        luby.shift();
    }
}

#[test]
fn luby_reset_rewinds_to_base_step() {
    let mut luby = LubySeries {
        enable: true,
        step: 7,
        ..Default::default()
    };
    luby.update(0);
    assert_eq!(luby.next_restart, 7);
    luby.shift();
    luby.shift();
    assert_eq!(luby.next_restart, 14);
    luby.update(0);
    assert_eq!(luby.next_restart, 7);
    assert!(!luby.is_active());
}

#[test]
fn luby_arms_past_threshold_only() {
    let mut luby = LubySeries {
        enable: true,
        step: 10,
        ..Default::default()
    };
    luby.update(0);
    luby.update(10);
    assert!(!luby.is_active());
    luby.update(11);
    assert!(luby.is_active());
}

#[test]
fn luby_disabled_ignores_updates() {
    let mut luby = LubySeries::default();
    luby.update(0);
    luby.update(1_000_000);
    assert!(!luby.is_active());
    assert_eq!(luby.next_restart, 100);
}

#[test]
fn stabilizer_growth() {
    let mut stb = GeometricStabilizer::default();
    stb.update(999);
    assert!(!stb.is_active());
    assert_eq!(stb.step, 1000);
    stb.update(1000);
    assert!(stb.is_active());
    assert_eq!(stb.step, 2000);
    assert_eq!(stb.next_trigger, 3000);
    stb.update(3000);
    assert!(!stb.is_active());
    assert_eq!(stb.step, 4000);
    assert_eq!(stb.next_trigger, 7000);
}

#[test]
fn stabilizer_flips_once_per_call() {
    let mut stb = GeometricStabilizer::default();
    // Far past several triggers: still one flip for this single call.
    stb.update(1_000_000);
    assert!(stb.is_active());
    assert_eq!(stb.next_trigger, 3000);
}

#[test]
fn stabilizer_step_cap_resets_to_base_unit() {
    let mut stb = GeometricStabilizer {
        step: 90_000_000,
        next_trigger: 100,
        ..Default::default()
    };
    stb.update(100);
    // 180 million exceeds the cap, so the step drops to the base unit.
    assert_eq!(stb.step, 1000);
    assert_eq!(stb.next_trigger, 1100);
}

#[test]
fn stabilizer_reset_progress() {
    let mut stb = GeometricStabilizer::default();
    stb.update(1000);
    assert!(stb.is_active());
    stb.reset_progress();
    assert!(!stb.is_active());
    assert_eq!(stb.step, 1000);
    assert_eq!(stb.next_trigger, 3000);
}

#[test]
fn fixed_arithmetic() {
    assert_eq!(Fixed::from_int(3).raw, 3_000_000);
    assert_eq!(Fixed::from_micros(1_500_000).mul_fixed(Fixed::from_int(2)).raw, 3_000_000);
    assert_eq!(Fixed::from_int(7).div_fixed(Fixed::from_int(2)).raw, 3_500_000);
    assert_eq!(Fixed::from_int(1).div_fixed(Fixed::zero()).raw, 0);
    assert_eq!(Fixed::from_int(5).mul_div(3, 0).raw, 0);
    assert_eq!(Fixed::from_int(5).mul_div(3, 2).raw, 7_500_000);
    assert_eq!(Fixed::from_int(9).trunc(), 9);
    assert_eq!(Fixed::from_micros(2_000_000).powi(10).raw, 1_024_000_000);
}

#[test]
fn ema_starts_at_zero_and_folds() {
    let mut ema = Ema::new(1);
    assert_eq!(ema.get().raw, 0);
    ema.update(Fixed::from_int(42));
    assert_eq!(ema.get().raw, 42_000_000);
    let mut wide = Ema::new(16);
    wide.update(Fixed::from_int(1000));
    assert_eq!(wide.get().raw, 62_500_000);
}

#[test]
fn ema2_trend_is_zero_unseeded() {
    let ema = Ema2::new(100).with_slow(800);
    assert_eq!(ema.trend().raw, 0);
    let mut seeded = Ema2::new(2).with_slow(1000);
    seeded.update(Fixed::from_int(10));
    assert!(seeded.trend().raw > 1_000_000);
}

#[test]
fn quality_trend_is_zero_before_first_sample() {
    let lbd = ProgressLBD::new(2, 1000, Fixed::from_micros(1_400_000));
    assert_eq!(lbd.trend().raw, 0);
    assert!(!lbd.is_active());
}

#[test]
fn trail_trend_is_zero_on_empty_history() {
    let asg = ProgressASG::new(16, Fixed::from_micros(1_400_000));
    assert_eq!(asg.trend().raw, 0);
    assert!(!asg.is_active());
}

#[test]
fn dormant_level_tracker_never_activates() {
    let mut lvl = ProgressLVL::new();
    for _ in 0..10 {
        lvl.update(500);
    }
    assert!(!lvl.is_active());
    assert!(lvl.get().raw > 0);
}

#[test]
fn dormant_rcc_tracks_heat() {
    let mut rcc = ProgressRCC::new();
    assert!(!rcc.is_active());
    rcc.update(Fixed::from_int(1));
    assert!(rcc.is_active());
    assert_eq!(rcc.get().raw, 10_000);
}

#[test]
fn cold_start_default_declines() {
    let mut rst = Restarter::default();
    assert!(!rst.block_restart());
    assert!(!rst.force_restart());
}

#[test]
fn cold_start_instantiated_declines() {
    let mut rst = Restarter::instantiate(&config(100, true), &CNFDescription::default());
    assert!(!rst.block_restart());
    assert!(!rst.force_restart());
}

#[test]
fn minimum_gap_masks_active_evaluators() {
    let mut rst = Restarter::instantiate(&config(100, false), &CNFDescription::default());
    // Arm both evaluators hard.
    rst.update(RestarterModule::ASG, 1_000_000);
    for _ in 0..5 {
        rst.update(RestarterModule::LBD, 10);
    }
    for i in 1..=50usize {
        rst.update(RestarterModule::Counter, i);
    }
    assert!(!rst.block_restart());
    assert!(!rst.force_restart());
    // Past the gap the very same state does force.
    for i in 51..=100usize {
        rst.update(RestarterModule::Counter, i);
    }
    assert!(rst.force_restart());
}

#[test]
fn end_to_end_block() {
    let mut rst = Restarter::instantiate(&config(100, false), &CNFDescription::default());
    for i in 1..=50usize {
        rst.update(RestarterModule::Counter, i);
    }
    assert!(!rst.block_restart());
    assert!(!rst.force_restart());
    for i in 51..=110usize {
        rst.update(RestarterModule::Counter, i);
    }
    rst.update(RestarterModule::ASG, 1000);
    assert!(rst.block_restart());
    let (_, num_block, _, _, _) = rst.exports();
    assert_eq!(num_block, 1);
    // The conflict counter was reset: the next query sits below the gap.
    assert!(!rst.block_restart());
}

#[test]
fn schedule_precedence() {
    let mut rst = Restarter::instantiate(&config(100, false), &CNFDescription::default());
    rst.handle(SolverEvent::Adapt((SearchStrategy::LowSuccesive, 123), 123));
    let (mode, _, _, _, _) = rst.exports();
    assert_eq!(mode, RestartMode::Luby);
    rst.update(RestarterModule::Luby, 0);
    for i in 1..=101usize {
        rst.update(RestarterModule::Counter, i);
    }
    assert!(rst.force_restart());
    // Counter reset and element consumed: the follow-up query declines.
    assert!(!rst.force_restart());
    // Blocking is off while the deterministic schedule is the policy.
    rst.update(RestarterModule::ASG, 1_000_000);
    for i in 1..=200usize {
        rst.update(RestarterModule::Counter, i);
    }
    assert!(!rst.block_restart());
}

#[test]
fn handle_ignores_other_strategies() {
    let mut rst = Restarter::instantiate(&config(100, false), &CNFDescription::default());
    rst.handle(SolverEvent::Adapt((SearchStrategy::Initial, 0), 0));
    assert_eq!(rst.exports().0, RestartMode::Dynamic);
    // A low-successive adaptation at a foreign conflict count is ignored.
    rst.handle(SolverEvent::Adapt((SearchStrategy::LowSuccesive, 5), 7));
    assert_eq!(rst.exports().0, RestartMode::Dynamic);
}

#[test]
fn exports_pure() {
    let mut rst = Restarter::instantiate(&config(100, true), &CNFDescription::default());
    for i in 1..=1200usize {
        rst.update(RestarterModule::Counter, i);
    }
    rst.update(RestarterModule::ASG, 700);
    rst.update(RestarterModule::LBD, 9);
    let a = rst.exports();
    let b = rst.exports();
    assert_eq!(a, b);
}

#[test]
fn stabilized_mode_wins_reporting() {
    let mut rst = Restarter::instantiate(&config(100, true), &CNFDescription::default());
    rst.handle(SolverEvent::Adapt((SearchStrategy::LowSuccesive, 9), 9));
    for i in 1..=1000usize {
        rst.update(RestarterModule::Counter, i);
    }
    assert!(rst.stabilizing());
    assert_eq!(rst.exports().0, RestartMode::Stabilize);
}

#[test]
fn exports_report_trends() {
    let mut rst = Restarter::instantiate(&config(100, false), &CNFDescription::default());
    rst.update(RestarterModule::ASG, 1000);
    let (mode, num_block, asg_trend, lbd_get, lbd_trend) = rst.exports();
    assert_eq!(mode, RestartMode::Dynamic);
    assert_eq!(num_block, 0);
    // One sample of 1000 over a window of 16: average 62.5, trend 16.
    assert_eq!(asg_trend.raw, 16_000_000);
    assert_eq!(lbd_get.raw, 0);
    assert_eq!(lbd_trend.raw, 0);
}

#[test]
fn bucket_weight_is_superlinear() {
    let mut bkt = ProgressBucket {
        enable: true,
        ..Default::default()
    };
    // 16 to the power 1.25 is exactly 32.
    bkt.update(16);
    assert_eq!(bkt.sum.raw, 32_000_000);
    assert!(!bkt.is_active());
    // 4 to the power 1.25 is 4 times the square root of 2.
    let mut small = ProgressBucket {
        enable: true,
        ..Default::default()
    };
    small.update(4);
    assert_eq!(small.sum.raw, 5_656_852);
}

#[test]
fn bucket_activates_over_threshold() {
    let mut bkt = ProgressBucket {
        enable: true,
        threshold: Fixed::from_int(5),
        ..Default::default()
    };
    bkt.update(4);
    assert!(bkt.is_active());
    bkt.shift();
    assert_eq!(bkt.sum.raw, 0);
    assert_eq!(bkt.threshold.raw, 6_000_000);
    assert!(!bkt.is_active());
}

#[test]
fn bucket_shift_decays_power() {
    let mut bkt = ProgressBucket {
        enable: true,
        power_factor: Fixed::from_micros(250_000),
        power_scale: Fixed::from_micros(1_000_000),
        ..Default::default()
    };
    // First shift: the damped reciprocal is one half, so the exponent
    // becomes one and an eighth.
    bkt.shift();
    assert_eq!(bkt.num_shift, 1);
    assert_eq!(bkt.power.raw, 1_125_000);
}

#[test]
fn bucket_instantiate_reads_config() {
    let bkt = ProgressBucket::instantiate(&config(100, false), &CNFDescription::default());
    assert!(!bkt.is_active());
    assert_eq!(bkt.power.raw, 1_250_000);
    assert_eq!(bkt.power_factor.raw, 250_000);
    assert_eq!(bkt.threshold.raw, 2_000_000_000);
    assert_eq!(bkt.sum.raw, 0);
}

#[test]
fn reset_tag_is_a_no_op() {
    let mut rst = Restarter::instantiate(&config(100, true), &CNFDescription::default());
    let before = rst.exports();
    rst.update(RestarterModule::Reset, 12345);
    assert_eq!(before, rst.exports());
    assert!(!rst.block_restart());
}
