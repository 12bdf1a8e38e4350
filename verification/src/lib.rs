//! A harness for measuring the per-task memory overhead of a concurrent task
//! runtime.
//!
//! The harness spawns a configured number of lightweight task units and, every
//! `sample_interval` spawns, snapshots the process allocator's counters
//! (bytes allocated, bytes resident) and reports the growth since the previous
//! snapshot. The sampling cadence, the baseline bookkeeping and the
//! spawn/join accounting are verified here; the allocator introspection calls
//! and the task runtime itself sit behind a thin unverified shell.

pub mod config;
pub mod harness;
pub mod stats;

pub use config::Config;
pub use config::ConfigError;
pub use harness::Harness;
pub use stats::SampleReport;
pub use stats::StatsError;
pub use stats::StatsSnapshot;
