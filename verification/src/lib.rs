//! Restart control for a conflict-driven clause-learning search loop.
//!
//! After each conflict the surrounding search loop asks this library whether
//! to suppress or force a restart. The decision is computed from online
//! statistics (assignment-trail depth, learned-clause quality), a classical
//! Luby restart schedule, and a geometrically growing mode toggle.
//!
//! All smoothed statistics are kept in fixed-point arithmetic (see [`fixed`])
//! so that every decision is a total, verified function of the signals fed in.

pub mod bucket;
pub mod config;
pub mod ema;
pub mod fixed;
pub mod luby;
pub mod progress;
pub mod restarter;
pub mod stabilizer;

pub use config::{CNFDescription, Config, SearchStrategy, SolverEvent};
pub use fixed::Fixed;
pub use restarter::{RestartIF, RestartMode, Restarter, RestarterModule};
