//! Hyperparameters of a run: an immutable, validated configuration record.
//!
//! The three movement coefficients are bit patterns of IEEE-754 doubles;
//! the engine never reads them, it only hands them on to the caller's
//! floating-point movement kernel.

use vstd::prelude::*;

verus! {

/// Configuration of one optimization run.  Everything is read-only after
/// construction; [`FireflyOptions::default`] gives the documented defaults.
#[derive(Clone, Copy, Debug)]
pub struct FireflyOptions {
    /// Number of fireflies in the swarm; constant for the whole run.
    pub swarm_size: usize,
    /// 16-byte seed of the stream that places the initial population.
    pub in_bounds_random_generator_seed: [u8; 16],
    /// 16-byte seed of the stream that derives each firefly's private
    /// jitter stream.
    pub zero_to_one_random_generator_seed: [u8; 16],
    /// Hard cap on the number of generations.
    pub maximum_iterations: usize,
    /// How many consecutive non-improving generations to tolerate before
    /// the run is declared stuck and stopped.
    pub stuck_run_iterations_count: usize,
    /// Attraction strength toward a brighter firefly (beta-zero), as the
    /// bit pattern of a double.
    pub attractiveness_coefficient: u64,
    /// Decay rate of attraction with distance (gamma), as the bit pattern
    /// of a double.
    pub light_absorption_coefficient: u64,
    /// Scale of the random jitter added to each movement, as the bit
    /// pattern of a double.
    pub movement_jitter_coefficient: u64,
}

impl FireflyOptions {
    /// The counts the stopping policy and the swarm rely on must be
    /// positive.
    pub open spec fn valid(self) -> bool {
        self.swarm_size >= 1 && self.maximum_iterations >= 1
            && self.stuck_run_iterations_count >= 1
    }

    /// Executable twin of [`FireflyOptions::valid`].
    pub fn check_valid(&self) -> (r: bool)
        ensures
            r == self.valid(),
    {
        self.swarm_size >= 1 && self.maximum_iterations >= 1
            && self.stuck_run_iterations_count >= 1
    }
}

/// The default configuration: a swarm of 150, up to 5000 generations, a
/// stagnation cutoff of 500, beta-zero 0.8, gamma 0.025, jitter scale 0.1
/// (the coefficients as bit patterns of those doubles).
pub open spec fn spec_default_options() -> FireflyOptions {
    FireflyOptions {
        swarm_size: 150,
        in_bounds_random_generator_seed: [
            199u8, 248, 17, 170, 248, 248, 15, 82, 75, 207, 232, 76, 38, 70, 37, 111,
        ],
        zero_to_one_random_generator_seed: [
            160u8, 142, 67, 136, 64, 230, 125, 10, 243, 246, 140, 229, 12, 95, 173, 104,
        ],
        maximum_iterations: 5000,
        stuck_run_iterations_count: 500,
        attractiveness_coefficient: 0x3fe9_9999_9999_999a,
        light_absorption_coefficient: 0x3f99_9999_9999_999a,
        movement_jitter_coefficient: 0x3fb9_9999_9999_999a,
    }
}

impl Default for FireflyOptions {
    fn default() -> (r: Self)
        ensures
            r == spec_default_options(),
            r.valid(),
    {
        FireflyOptions {
            swarm_size: 150,
            in_bounds_random_generator_seed: [
                199u8, 248, 17, 170, 248, 248, 15, 82, 75, 207, 232, 76, 38, 70, 37, 111,
            ],
            zero_to_one_random_generator_seed: [
                160u8, 142, 67, 136, 64, 230, 125, 10, 243, 246, 140, 229, 12, 95, 173, 104,
            ],
            maximum_iterations: 5000,
            stuck_run_iterations_count: 500,
            attractiveness_coefficient: 0x3fe9_9999_9999_999a,
            light_absorption_coefficient: 0x3f99_9999_9999_999a,
            movement_jitter_coefficient: 0x3fb9_9999_9999_999a,
        }
    }
}

} // verus!
