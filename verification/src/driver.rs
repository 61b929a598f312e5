//! The run driver: repeatedly runs generations and applies the stopping
//! policy.
//!
//! Two counters govern the run: `iterations_run`, capped by the configured
//! maximum, and `iterations_since_improvement`, reset whenever a generation
//! improves the best-known solution and otherwise incremented; the run stops
//! as soon as either the cap is reached or the stagnation cutoff is hit.
//! The driver is driven like the swarm: [`OptimizationRun::advance`] makes
//! progress or hands out a [`MoveRequest`], [`OptimizationRun::submit_move`]
//! answers one, and the run ends with a [`RunStep::Finished`] carrying the
//! best solution found.  A finished run always carries a solution: the
//! stopping policy cannot fire before the first generation completes, and
//! the first finalized firefly of the first generation always sets one.

use vstd::prelude::*;

use crate::options::{spec_default_options, FireflyOptions};
use crate::problem::{spec_order_key, FireflyError, ProblemDomain};
use crate::rng::pcg_output;
use crate::swarm::{
    best_not_worse, copy_words, initial_views, position_ok, views, FireflySwarm, IterationStep,
    MoveRequest, PointAndValue,
};

verus! {

/// What one call of [`OptimizationRun::advance`] did.
pub enum RunStep {
    /// Internal progress; call again.
    Working,
    /// A movement is needed; answer through [`OptimizationRun::submit_move`].
    MoveNeeded(MoveRequest),
    /// The stopping policy fired; here is the best solution of the run.
    Finished(PointAndValue),
}

/// One optimization run: the swarm plus the stopping policy's state.
pub struct OptimizationRun {
    pub swarm: FireflySwarm,
    pub maximum_iterations: usize,
    pub stuck_run_iterations_count: usize,
    /// Completed generations.
    pub iterations_run: usize,
    /// Completed generations since the last improvement of the best-known
    /// solution.
    pub iterations_since_improvement: usize,
    pub finished: bool,
}

/// The configuration in force: the given one, or the defaults.
pub open spec fn spec_options_or_default(o: Option<FireflyOptions>) -> FireflyOptions {
    match o {
        Some(x) => x,
        None => spec_default_options(),
    }
}

impl OptimizationRun {
    /// The stopping policy, read at an idle point (no generation open):
    /// the iteration cap is reached, or the run has stagnated.
    pub open spec fn should_stop_now(self) -> bool {
        self.iterations_run == self.maximum_iterations || self.iterations_since_improvement
            >= self.stuck_run_iterations_count
    }

    pub open spec fn awaiting(self) -> bool {
        self.swarm.awaiting()
    }

    /// Well-formedness: a well-formed swarm, positive limits, counters in
    /// range, a generation open only while the cap is not reached, and a
    /// best solution present as soon as one generation has completed.
    pub open spec fn wf(self) -> bool {
        &&& self.swarm.wf()
        &&& self.maximum_iterations >= 1
        &&& self.stuck_run_iterations_count >= 1
        &&& self.iterations_run <= self.maximum_iterations
        &&& self.iterations_since_improvement <= self.iterations_run
        &&& (self.swarm.in_iteration() ==> self.iterations_run < self.maximum_iterations
            && !self.finished)
        &&& (self.finished ==> !self.swarm.in_iteration() && self.swarm.best_solution is Some)
        &&& (self.iterations_run >= 1 ==> self.swarm.best_solution is Some)
    }

    /// One step of the run.  At an idle point the stopping policy is
    /// consulted: if it fires the run finishes with the best solution,
    /// otherwise a new generation begins.  Within a generation the swarm's
    /// step is forwarded, and a completed generation updates the two
    /// counters: the stagnation counter resets exactly when the generation
    /// improved the best-known solution.
    pub fn advance(&mut self) -> (step: RunStep)
        requires
            old(self).wf(),
            !old(self).finished,
            !old(self).awaiting(),
        ensures
            final(self).wf(),
            final(self).maximum_iterations == old(self).maximum_iterations,
            final(self).stuck_run_iterations_count == old(self).stuck_run_iterations_count,
            final(self).swarm.domain == old(self).swarm.domain,
            final(self).swarm.swarm_size == old(self).swarm.swarm_size,
            best_not_worse(old(self).swarm.best_solution, final(self).swarm.best_solution),
            // the run finishes exactly at an idle point where the policy fires
            (step is Finished) <==> (!old(self).swarm.in_iteration()
                && old(self).should_stop_now()),
            (step matches RunStep::Finished(best) ==> {
                &&& final(self).finished
                &&& final(self).iterations_run == old(self).iterations_run
                &&& final(self).iterations_since_improvement == old(
                    self,
                ).iterations_since_improvement
                &&& final(self).swarm.best_solution == old(self).swarm.best_solution
                &&& final(self).swarm.fireflies@ == old(self).swarm.fireflies@
                &&& (old(self).swarm.best_solution matches Some(q) && best.position@
                    == q.position@ && best.value == q.value)
                &&& best.position@.len() == old(self).swarm.domain.input_dimensions
                &&& forall|k: int|
                    0 <= k < best.position@.len() ==> old(
                        self,
                    ).swarm.domain.bounds.holds_within(#[trigger] best.position@[k])
            }),
            // an idle point where the policy does not fire opens a generation
            (!old(self).swarm.in_iteration() && !old(self).should_stop_now() ==> {
                &&& step is Working
                &&& !final(self).finished
                &&& final(self).swarm.in_iteration()
                &&& !final(self).swarm.awaiting()
                &&& final(self).iterations_run == old(self).iterations_run
                &&& final(self).iterations_since_improvement == old(
                    self,
                ).iterations_since_improvement
                &&& final(self).swarm.fireflies@ == old(self).swarm.fireflies@
                &&& final(self).swarm.best_solution == old(self).swarm.best_solution
            }),
            // within a generation the swarm's step is forwarded
            (old(self).swarm.in_iteration() ==> {
                &&& !(step is Finished)
                &&& !final(self).finished
                &&& (step matches RunStep::MoveNeeded(req) ==> {
                    let st0 = old(self).swarm.st();
                    &&& final(self).swarm.awaiting()
                    &&& final(self).iterations_run == old(self).iterations_run
                    &&& final(self).iterations_since_improvement == old(
                        self,
                    ).iterations_since_improvement
                    &&& final(self).swarm.fireflies@ == old(self).swarm.fireflies@
                    &&& final(self).swarm.best_solution == old(self).swarm.best_solution
                    &&& req.mover_position@ == st0.working.position@
                    &&& req.target_position@ == old(
                        self,
                    ).swarm.fireflies@[st0.neighbor_index as int].position@
                    &&& req.jitter_draws@.len() == old(self).swarm.dims()
                    &&& forall|k: int|
                        0 <= k < req.jitter_draws@.len() ==> req.jitter_draws@[k] == pcg_output(
                            st0.working.rng.spec_seed(),
                            (st0.working.rng.spec_drawn() + k) as nat,
                        )
                })
                &&& (final(self).swarm.in_iteration() ==> final(self).iterations_run == old(
                    self,
                ).iterations_run && final(self).iterations_since_improvement == old(
                    self,
                ).iterations_since_improvement)
                // a generation just completed: count it, and reset the
                // stagnation counter exactly on improvement
                &&& (!final(self).swarm.in_iteration() ==> {
                    let improved = match old(self).swarm.st().best_at_start@ {
                        None => true,
                        Some(v0) => final(self).swarm.best_solution matches Some(q)
                            && spec_order_key(q.value) < spec_order_key(v0),
                    };
                    &&& step is Working
                    &&& final(self).iterations_run == old(self).iterations_run + 1
                    &&& final(self).iterations_since_improvement == (if improved {
                        0int
                    } else {
                        old(self).iterations_since_improvement + 1
                    })
                    &&& final(self).swarm.best_solution is Some
                })
            }),
    {
        if self.swarm.iteration.is_none() {
            if self.iterations_run == self.maximum_iterations
                || self.iterations_since_improvement >= self.stuck_run_iterations_count {
                self.finished = true;
                match &self.swarm.best_solution {
                    Some(q) => {
                        let best = PointAndValue {
                            position: copy_words(&q.position),
                            value: q.value,
                        };
                        return RunStep::Finished(best);
                    },
                    None => {
                        return vstd::pervasive::unreached();
                    },
                }
            } else {
                self.swarm.begin_iteration();
                return RunStep::Working;
            }
        }
        let step0 = self.swarm.advance_iteration();
        match step0 {
            IterationStep::Working => RunStep::Working,
            IterationStep::MoveNeeded(req) => RunStep::MoveNeeded(req),
            IterationStep::Finished(res) => {
                self.iterations_run = self.iterations_run + 1;
                if res.new_global_minimum {
                    self.iterations_since_improvement = 0;
                } else {
                    self.iterations_since_improvement = self.iterations_since_improvement + 1;
                }
                RunStep::Working
            },
        }
    }

    /// Answers the outstanding move request; forwarded to the swarm, whose
    /// working firefly adopts the moved position and value unconditionally.
    pub fn submit_move(&mut self, new_position: Vec<u64>, new_value: u64)
        requires
            old(self).wf(),
            old(self).awaiting(),
            position_ok(new_position@, old(self).swarm.domain),
        ensures
            final(self).wf(),
            final(self).maximum_iterations == old(self).maximum_iterations,
            final(self).stuck_run_iterations_count == old(self).stuck_run_iterations_count,
            final(self).iterations_run == old(self).iterations_run,
            final(self).iterations_since_improvement == old(self).iterations_since_improvement,
            final(self).finished == old(self).finished,
            final(self).swarm.domain == old(self).swarm.domain,
            final(self).swarm.swarm_size == old(self).swarm.swarm_size,
            final(self).swarm.fireflies@ == old(self).swarm.fireflies@,
            final(self).swarm.best_solution == old(self).swarm.best_solution,
            final(self).swarm.in_iteration(),
            !final(self).swarm.awaiting(),
            final(self).swarm.st().main_index == old(self).swarm.st().main_index,
            final(self).swarm.st().neighbor_index == old(self).swarm.st().neighbor_index + 1,
            final(self).swarm.st().working.position@ == new_position@,
            final(self).swarm.st().working.value == new_value,
    {
        self.swarm.submit_move(new_position, new_value);
    }
}

/// Builds a run from the domain, the configuration (or the defaults) and
/// the evaluated initial population.  A non-positive hyperparameter is a
/// configuration error; a population that does not match the configured
/// swarm size, dimensionality or bounds is a population mismatch.
pub fn perform_firefly_swarm_optimization(
    domain: ProblemDomain,
    options: Option<FireflyOptions>,
    initial_population: Vec<PointAndValue>,
) -> (r: Result<OptimizationRun, FireflyError>)
    requires
        domain.valid(),
    ensures
        ({
            let opts = spec_options_or_default(options);
            &&& (r is Ok <==> opts.valid() && initial_population@.len() == opts.swarm_size && (
            forall|i: int|
                0 <= i < initial_population@.len() ==> position_ok(
                    #[trigger] initial_population@[i].position@,
                    domain,
                )))
            &&& (!opts.valid() ==> r == Err::<OptimizationRun, FireflyError>(
                FireflyError::InvalidConfiguration,
            ))
            &&& (opts.valid() && r is Err ==> r == Err::<OptimizationRun, FireflyError>(
                FireflyError::PopulationMismatch,
            ))
            &&& (r matches Ok(run) ==> {
                &&& run.wf()
                &&& !run.finished
                &&& run.iterations_run == 0
                &&& run.iterations_since_improvement == 0
                &&& !run.swarm.in_iteration()
                &&& run.swarm.domain == domain
                &&& run.swarm.swarm_size == opts.swarm_size
                &&& run.maximum_iterations == opts.maximum_iterations
                &&& run.stuck_run_iterations_count == opts.stuck_run_iterations_count
                &&& run.swarm.best_solution is None
                &&& views(run.swarm.fireflies@).to_multiset() == initial_views(
                    initial_population@,
                    opts.zero_to_one_random_generator_seed@,
                ).to_multiset()
            })
        }),
{
    let opts = match options {
        Some(o) => o,
        None => FireflyOptions::default(),
    };
    if !opts.check_valid() {
        return Err(FireflyError::InvalidConfiguration);
    }
    match FireflySwarm::initialize(domain, &opts, initial_population) {
        Ok(swarm) => Ok(
            OptimizationRun {
                swarm,
                maximum_iterations: opts.maximum_iterations,
                stuck_run_iterations_count: opts.stuck_run_iterations_count,
                iterations_run: 0,
                iterations_since_improvement: 0,
                finished: false,
            },
        ),
        Err(e) => Err(e),
    }
}

} // verus!
