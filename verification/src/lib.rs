//! A Firefly Algorithm swarm optimizer: a population-based metaheuristic for
//! minimizing a black-box, continuous, bounded objective function.
//!
//! The engine works on plain 64-bit words: every real number crossing the
//! library boundary is carried as the bit pattern of an IEEE-754 double, and
//! objective values are ordered by the total-order key of that pattern (see
//! [`problem::order_key`]).  The floating-point arithmetic of the movement
//! rule and the objective function itself are supplied by the caller, who is
//! driven through a step protocol: the engine decides which firefly moves
//! toward which brighter neighbor and hands out the random draws, the caller
//! computes the new position and its objective value and submits both back.

pub mod driver;
pub mod options;
pub mod problem;
pub mod rng;
pub mod swarm;
