//! Experiment configuration: how many task units to spawn and how often, in
//! spawns, to sample the allocator counters.

use vstd::prelude::*;

verus! {

/// Why a configuration was rejected.
#[derive(Clone, Copy, Debug, PartialEq, Eq, Structural)]
pub enum ConfigError {
    /// A sampling stride of zero would make the cadence `i % interval == 0`
    /// meaningless, so it is rejected before any task is spawned.
    ZeroSampleInterval,
}

/// A validated configuration. `sample_interval` is at least 1 in every value
/// of this type that `Config::new` hands out.
#[derive(Clone, Copy, Debug)]
pub struct Config {
    total_tasks: usize,
    sample_interval: usize,
}

impl Config {
    /// The number of task units the harness will spawn.
    pub closed spec fn total_spec(&self) -> int {
        self.total_tasks as int
    }

    /// The spawn-count stride between two allocator samples.
    pub closed spec fn interval_spec(&self) -> int {
        self.sample_interval as int
    }

    /// A configuration is well formed exactly when its sampling stride is
    /// positive.
    pub open spec fn wf(&self) -> bool {
        self.interval_spec() >= 1
    }

    /// Both fields of a configuration are machine words, so their
    /// mathematical values fit in `usize`.
    pub broadcast proof fn lemma_in_range(c: Config)
        ensures
            0 <= #[trigger] c.total_spec() <= usize::MAX,
            0 <= #[trigger] c.interval_spec() <= usize::MAX,
    {
    }

    /// Validates a configuration: a zero sampling stride is a configuration
    /// error, everything else is accepted unchanged.
    pub fn new(total_tasks: usize, sample_interval: usize) -> (r: Result<Config, ConfigError>)
        ensures
            r is Ok <==> sample_interval >= 1,
            r matches Ok(c) ==> c.wf() && c.total_spec() == total_tasks && c.interval_spec()
                == sample_interval,
            r matches Err(e) ==> e == ConfigError::ZeroSampleInterval,
    {
        if sample_interval == 0 {
            Err(ConfigError::ZeroSampleInterval)
        } else {
            Ok(Config { total_tasks, sample_interval })
        }
    }

    pub fn total_tasks(&self) -> (r: usize)
        ensures
            r == self.total_spec(),
    {
        self.total_tasks
    }

    pub fn sample_interval(&self) -> (r: usize)
        ensures
            r == self.interval_spec(),
    {
        self.sample_interval
    }
}

} // verus!
