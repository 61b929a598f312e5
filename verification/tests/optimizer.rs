//! End-to-end tests of the optimizer: a small floating-point kernel answers
//! the engine's move requests exactly as a production caller would, with
//! every real number crossing the boundary as an IEEE-754 bit pattern.

use firefly_optimization::driver::{perform_firefly_swarm_optimization, OptimizationRun, RunStep};
use firefly_optimization::options::FireflyOptions;
use firefly_optimization::problem::{Bounds, FireflyError, ProblemDomain};
use firefly_optimization::rng::draw_matrix;
use firefly_optimization::swarm::PointAndValue;

/// Maps a raw draw to a uniform real in [0, 1).
fn unit(d: u64) -> f64 {
    (d >> 11) as f64 * (1.0 / 9007199254740992.0)
}

fn from_bits_vec(v: &[u64]) -> Vec<f64> {
    v.iter().map(|&b| f64::from_bits(b)).collect()
}

fn to_bits_vec(v: &[f64]) -> Vec<u64> {
    v.iter().map(|x| x.to_bits()).collect()
}

fn clamp(x: f64, lo: f64, hi: f64) -> f64 {
    if x < lo {
        lo
    } else if x > hi {
        hi
    } else {
        x
    }
}

fn initial_population(
    opts: &FireflyOptions,
    dims: usize,
    lo: f64,
    hi: f64,
    oracle: &dyn Fn(&[f64]) -> f64,
) -> Vec<PointAndValue> {
    let draws = draw_matrix(&opts.in_bounds_random_generator_seed, opts.swarm_size, dims);
    draws
        .iter()
        .map(|row| {
            let pos: Vec<f64> =
                row.iter().map(|&d| clamp(lo + unit(d) * (hi - lo), lo, hi)).collect();
            let val = oracle(&pos);
            PointAndValue::new(to_bits_vec(&pos), val.to_bits())
        })
        .collect()
}

struct RunOutcome {
    best_value: f64,
    best_position: Vec<f64>,
    iterations_run: usize,
    moves_requested: usize,
    run: OptimizationRun,
    best_values_per_iteration: Vec<f64>,
}

/// Drives one whole optimization: the engine decides, this loop computes the
/// movement arithmetic and evaluates the oracle.
fn run_optimization(
    dims: usize,
    lo: f64,
    hi: f64,
    oracle: &dyn Fn(&[f64]) -> f64,
    opts: FireflyOptions,
) -> RunOutcome {
    let bounds = Bounds::new(lo.to_bits(), hi.to_bits()).unwrap();
    let domain = ProblemDomain::new(dims, bounds).unwrap();
    let beta0 = f64::from_bits(opts.attractiveness_coefficient);
    let gamma = f64::from_bits(opts.light_absorption_coefficient);
    let jitter = f64::from_bits(opts.movement_jitter_coefficient);
    let initial = initial_population(&opts, dims, lo, hi, oracle);
    let mut run = perform_firefly_swarm_optimization(domain, Some(opts), initial).unwrap();
    let mut moves_requested: usize = 0;
    let mut best_values_per_iteration: Vec<f64> = Vec::new();
    let mut seen_iterations: usize = 0;
    loop {
        let step = run.advance();
        if run.iterations_run > seen_iterations {
            seen_iterations = run.iterations_run;
            if let Some(best) = &run.swarm.best_solution {
                best_values_per_iteration.push(f64::from_bits(best.value));
            }
        }
        match step {
            RunStep::Working => {}
            RunStep::MoveNeeded(req) => {
                moves_requested += 1;
                let mover = from_bits_vec(&req.mover_position);
                let target = from_bits_vec(&req.target_position);
                let mut r2 = 0.0;
                for i in 0..mover.len() {
                    let d = mover[i] - target[i];
                    r2 += d * d;
                }
                let beta = beta0 * (-gamma * r2).exp();
                let mut moved: Vec<f64> = Vec::new();
                for i in 0..mover.len() {
                    let u = unit(req.jitter_draws[i]);
                    let x = mover[i] + beta * (target[i] - mover[i]) + jitter * (u - 0.5);
                    moved.push(clamp(x, lo, hi));
                }
                let val = oracle(&moved);
                run.submit_move(to_bits_vec(&moved), val.to_bits());
            }
            RunStep::Finished(best) => {
                return RunOutcome {
                    best_value: f64::from_bits(best.value),
                    best_position: from_bits_vec(&best.position),
                    iterations_run: run.iterations_run,
                    moves_requested,
                    run,
                    best_values_per_iteration,
                };
            }
        }
    }
}

fn sphere(p: &[f64]) -> f64 {
    p.iter().map(|x| x * x).sum()
}

fn small_options(swarm_size: usize, maximum_iterations: usize, stuck: usize) -> FireflyOptions {
    let mut opts = FireflyOptions::default();
    opts.swarm_size = swarm_size;
    opts.maximum_iterations = maximum_iterations;
    opts.stuck_run_iterations_count = stuck;
    opts
}

#[test]
fn sphere_two_dimensional_converges() {
    let opts = small_options(20, 200, 200);
    let outcome = run_optimization(2, -5.0, 5.0, &sphere, opts);
    assert!(outcome.best_value < 1e-3, "best value {}", outcome.best_value);
    assert!(outcome.best_position[0].abs() < 0.1);
    assert!(outcome.best_position[1].abs() < 0.1);
}

#[test]
fn identical_runs_are_bit_identical() {
    let opts = small_options(15, 60, 60);
    let a = run_optimization(3, -5.0, 5.0, &sphere, opts);
    let opts = small_options(15, 60, 60);
    let b = run_optimization(3, -5.0, 5.0, &sphere, opts);
    assert_eq!(a.best_value.to_bits(), b.best_value.to_bits());
    assert_eq!(to_bits_vec(&a.best_position), to_bits_vec(&b.best_position));
    assert_eq!(a.iterations_run, b.iterations_run);
    assert_eq!(a.moves_requested, b.moves_requested);
}

#[test]
fn best_value_is_non_increasing_across_iterations() {
    let opts = small_options(12, 80, 80);
    let outcome = run_optimization(2, -5.0, 5.0, &sphere, opts);
    let values = &outcome.best_values_per_iteration;
    assert!(!values.is_empty());
    for w in values.windows(2) {
        assert!(w[1] <= w[0], "best value increased: {} -> {}", w[0], w[1]);
    }
}

#[test]
fn constant_oracle_hits_stagnation_cutoff() {
    let constant = |_p: &[f64]| 1.0;
    let opts = small_options(5, 50, 3);
    let outcome = run_optimization(2, -5.0, 5.0, &constant, opts);
    // the first generation sets the best; every later one stagnates
    assert_eq!(outcome.iterations_run, 1 + 3);
    assert_eq!(outcome.best_value, 1.0);
}

#[test]
fn swarm_size_is_kept_after_the_run() {
    let opts = small_options(9, 20, 20);
    let outcome = run_optimization(2, -5.0, 5.0, &sphere, opts);
    assert_eq!(outcome.run.swarm.fireflies.len(), 9);
    assert_eq!(outcome.run.swarm.swarm_size, 9);
}

#[test]
fn population_is_sorted_brightest_last() {
    let opts = small_options(13, 25, 25);
    let outcome = run_optimization(2, -5.0, 5.0, &sphere, opts);
    let values: Vec<f64> =
        outcome.run.swarm.fireflies.iter().map(|f| f64::from_bits(f.value)).collect();
    for w in values.windows(2) {
        assert!(w[0] >= w[1], "population not descending: {} before {}", w[0], w[1]);
    }
}

#[test]
fn single_firefly_never_receives_a_move() {
    let opts = small_options(1, 10, 5);
    let outcome = run_optimization(2, -5.0, 5.0, &sphere, opts);
    assert_eq!(outcome.moves_requested, 0);
    // stagnation fires first: one improving generation, then five stuck ones
    assert_eq!(outcome.iterations_run, 1 + 5);
    // the single firefly never moved: it still sits at its initial position
    let opts = small_options(1, 10, 5);
    let initial = initial_population(&opts, 2, -5.0, 5.0, &sphere);
    assert_eq!(outcome.run.swarm.fireflies[0].position, initial[0].position);
}

#[test]
fn single_firefly_can_terminate_via_maximum_iterations() {
    let opts = small_options(1, 4, 50);
    let outcome = run_optimization(2, -5.0, 5.0, &sphere, opts);
    assert_eq!(outcome.moves_requested, 0);
    assert_eq!(outcome.iterations_run, 4);
}

#[test]
fn same_seed_gives_identical_draws() {
    let seed = [7u8; 16];
    let a = draw_matrix(&seed, 10, 3);
    let b = draw_matrix(&seed, 10, 3);
    assert_eq!(a, b);
    let other = draw_matrix(&[8u8; 16], 10, 3);
    assert_ne!(a, other);
}

#[test]
fn draws_are_not_degenerate() {
    let seed = [3u8; 16];
    let m = draw_matrix(&seed, 2, 4);
    // a stream that echoed its seed or a constant would fail this
    assert_ne!(m[0][0], m[0][1]);
    assert_ne!(m[0], m[1]);
}

#[test]
fn default_options_hold_the_documented_values() {
    let opts = FireflyOptions::default();
    assert_eq!(opts.swarm_size, 150);
    assert_eq!(opts.maximum_iterations, 5000);
    assert_eq!(opts.stuck_run_iterations_count, 500);
    assert_eq!(f64::from_bits(opts.attractiveness_coefficient), 0.8);
    assert_eq!(f64::from_bits(opts.light_absorption_coefficient), 0.025);
    assert_eq!(f64::from_bits(opts.movement_jitter_coefficient), 0.1);
}

#[test]
fn inverted_bounds_are_rejected() {
    let r = Bounds::new(5.0f64.to_bits(), (-5.0f64).to_bits());
    assert_eq!(r.unwrap_err(), FireflyError::InvalidBounds);
    let bounds = Bounds::new((-5.0f64).to_bits(), 5.0f64.to_bits()).unwrap();
    assert_eq!(
        ProblemDomain::new(0, bounds).unwrap_err(),
        FireflyError::InvalidConfiguration
    );
}

#[test]
fn bounds_membership_follows_the_real_order() {
    let bounds = Bounds::new((-5.0f64).to_bits(), 5.0f64.to_bits()).unwrap();
    assert!(bounds.check_within(0.0f64.to_bits()));
    assert!(bounds.check_within((-5.0f64).to_bits()));
    assert!(bounds.check_within(5.0f64.to_bits()));
    assert!(bounds.check_within((-0.0f64).to_bits()));
    assert!(!bounds.check_within((-6.0f64).to_bits()));
    assert!(!bounds.check_within(6.0f64.to_bits()));
}

#[test]
fn zero_hyperparameters_are_rejected() {
    let bounds = Bounds::new((-5.0f64).to_bits(), 5.0f64.to_bits()).unwrap();
    let domain = ProblemDomain::new(2, bounds).unwrap();
    let mut opts = small_options(0, 10, 10);
    let r = perform_firefly_swarm_optimization(domain, Some(opts), Vec::new());
    assert_eq!(r.err().unwrap(), FireflyError::InvalidConfiguration);
    opts = small_options(3, 0, 10);
    let r = perform_firefly_swarm_optimization(domain, Some(opts), Vec::new());
    assert_eq!(r.err().unwrap(), FireflyError::InvalidConfiguration);
}

#[test]
fn mismatched_population_is_rejected() {
    let bounds = Bounds::new((-5.0f64).to_bits(), 5.0f64.to_bits()).unwrap();
    let domain = ProblemDomain::new(2, bounds).unwrap();
    let opts = small_options(3, 10, 10);
    // wrong count
    let r = perform_firefly_swarm_optimization(domain, Some(opts), Vec::new());
    assert_eq!(r.err().unwrap(), FireflyError::PopulationMismatch);
    // out-of-bounds coordinate
    let opts = small_options(1, 10, 10);
    let bad = vec![PointAndValue::new(to_bits_vec(&[9.0, 0.0]), 81.0f64.to_bits())];
    let r = perform_firefly_swarm_optimization(domain, Some(opts), bad);
    assert_eq!(r.err().unwrap(), FireflyError::PopulationMismatch);
    // wrong dimensionality
    let opts = small_options(1, 10, 10);
    let bad = vec![PointAndValue::new(to_bits_vec(&[1.0]), 1.0f64.to_bits())];
    let r = perform_firefly_swarm_optimization(domain, Some(opts), bad);
    assert_eq!(r.err().unwrap(), FireflyError::PopulationMismatch);
}

#[test]
fn seed_reuse_reproduces_the_initial_population() {
    let opts = small_options(6, 5, 5);
    let a = initial_population(&opts, 2, -5.0, 5.0, &sphere);
    let b = initial_population(&opts, 2, -5.0, 5.0, &sphere);
    assert_eq!(a.len(), b.len());
    for (x, y) in a.iter().zip(b.iter()) {
        assert_eq!(x.position, y.position);
        assert_eq!(x.value, y.value);
    }
}

#[test]
fn negative_objective_values_order_correctly() {
    // minimizing f(x) = x over [-5, 5]: values cross zero, so the ordering
    // of negative bit patterns matters; the optimum sits at the lower bound
    let linear = |p: &[f64]| p[0];
    let opts = small_options(10, 50, 50);
    let outcome = run_optimization(1, -5.0, 5.0, &linear, opts);
    assert!(outcome.best_value <= -4.5, "best value {}", outcome.best_value);
    let values: Vec<f64> =
        outcome.run.swarm.fireflies.iter().map(|f| f64::from_bits(f.value)).collect();
    for w in values.windows(2) {
        assert!(w[0] >= w[1], "population not descending: {} before {}", w[0], w[1]);
    }
}
