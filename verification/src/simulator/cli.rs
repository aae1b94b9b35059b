//! The command line of the simulator.

use vstd::prelude::*;

verus! {

/// The maximum number of interactions in a plan, unless another is given.
pub const DEFAULT_MAXIMUM_SIZE: usize = 20000;

/// The minimum number of interactions in a plan, unless another is given.
pub const DEFAULT_MINIMUM_SIZE: usize = 10000;

/// The maximum time of a simulation in seconds, unless another is given: an hour.
pub const DEFAULT_MAXIMUM_TIME: usize = 3600;

/// What the command line says.
#[derive(Debug)]
pub struct SimulatorCLI {
    /// Seed for reproducible runs.
    pub seed: Option<u64>,
    /// Custom output directory for produced files.
    pub output_dir: Option<String>,
    /// Run the simulator with the plan twice and check output equality.
    pub doublecheck: bool,
    /// Maximum size of the randomly generated sequence of interactions.
    pub maximum_size: usize,
    /// Minimum size of the randomly generated sequence of interactions.
    pub minimum_size: usize,
    /// Maximum time of the simulation in seconds.
    pub maximum_time: usize,
}

impl Default for SimulatorCLI {
    /// What an empty command line says.
    fn default() -> (res: Self)
        ensures
            res.seed is None,
            res.output_dir is None,
            !res.doublecheck,
            res.maximum_size == 20000,
            res.minimum_size == 10000,
            res.maximum_time == 60 * 60,
    {
        SimulatorCLI {
            seed: None,
            output_dir: None,
            doublecheck: false,
            maximum_size: DEFAULT_MAXIMUM_SIZE,
            minimum_size: DEFAULT_MINIMUM_SIZE,
            maximum_time: DEFAULT_MAXIMUM_TIME,
        }
    }
}

} // verus!
