//! The problem domain as the optimizer sees it: rectangular bounds, the
//! dimensionality of the search space, and the library's error taxonomy.
//!
//! Real numbers are carried as the bit patterns of IEEE-754 doubles.  The
//! optimizer never does arithmetic on them; all it needs is their order,
//! which [`order_key`] provides: a monotone bijection from the bit pattern
//! of a double to a `u64` whose natural `<=` agrees with the total order on
//! doubles (negative numbers below positive ones, ascending within each
//! sign).  "Lower objective value" therefore means "smaller order key".

use vstd::prelude::*;

verus! {

/// The sign bit of an IEEE-754 double's bit pattern.
pub const SIGN_BIT: u64 = 0x8000_0000_0000_0000;

/// Monotone order key of a double's bit pattern: flips the sign bit for
/// non-negative patterns and all bits for negative ones, so that `u64`
/// comparison of keys is the ascending total order on the doubles.
pub open spec fn spec_order_key(bits: u64) -> u64 {
    if bits >= SIGN_BIT {
        !bits
    } else {
        bits | SIGN_BIT
    }
}

/// Executable twin of [`spec_order_key`].
pub fn order_key(bits: u64) -> (r: u64)
    ensures
        r == spec_order_key(bits),
{
    if bits >= SIGN_BIT {
        !bits
    } else {
        bits | SIGN_BIT
    }
}

/// Everything that can go wrong constructing or running an optimization.
#[derive(Clone, Copy, Debug, PartialEq, Eq, Structural)]
pub enum FireflyError {
    /// The domain's lower bound lies above its upper bound.
    InvalidBounds,
    /// A hyperparameter that must be positive (swarm size, iteration counts,
    /// dimensionality) is zero.
    InvalidConfiguration,
    /// The initial population handed to the engine does not match the
    /// configured swarm size, dimensionality or bounds.
    PopulationMismatch,
}

/// One pair of scalar bounds, replicated across every dimension of the
/// domain.  Both ends are bit patterns of doubles; the invariant
/// `lower <= upper` is stated through their order keys.
#[derive(Clone, Copy, Debug, PartialEq, Eq, Structural)]
pub struct Bounds {
    pub lower: u64,
    pub upper: u64,
}

impl Bounds {
    /// The invariant: the lower end does not lie above the upper end.
    pub open spec fn valid(self) -> bool {
        spec_order_key(self.lower) <= spec_order_key(self.upper)
    }

    /// Whether the coordinate `c` lies inside the bounds.
    pub open spec fn holds_within(self, c: u64) -> bool {
        spec_order_key(self.lower) <= spec_order_key(c) <= spec_order_key(self.upper)
    }

    /// Builds bounds, rejecting a lower end above the upper end.
    pub fn new(lower: u64, upper: u64) -> (r: Result<Bounds, FireflyError>)
        ensures
            r is Ok <==> spec_order_key(lower) <= spec_order_key(upper),
            r matches Ok(b) ==> b.lower == lower && b.upper == upper && b.valid(),
            r is Err ==> r == Err::<Bounds, FireflyError>(FireflyError::InvalidBounds),
    {
        if order_key(lower) <= order_key(upper) {
            Ok(Bounds { lower, upper })
        } else {
            Err(FireflyError::InvalidBounds)
        }
    }

    /// Executable twin of [`Bounds::holds_within`].
    pub fn check_within(&self, c: u64) -> (r: bool)
        ensures
            r == self.holds_within(c),
    {
        let kl = order_key(self.lower);
        let kc = order_key(c);
        let ku = order_key(self.upper);
        kl <= kc && kc <= ku
    }
}

/// The oracle's interface as the engine needs it: how many coordinates a
/// position has, and the rectangular domain they must stay in.
#[derive(Clone, Copy, Debug, PartialEq, Eq, Structural)]
pub struct ProblemDomain {
    pub input_dimensions: usize,
    pub bounds: Bounds,
}

impl ProblemDomain {
    pub open spec fn valid(self) -> bool {
        self.input_dimensions >= 1 && self.bounds.valid()
    }

    /// Builds a domain, rejecting zero dimensions and invalid bounds.
    pub fn new(input_dimensions: usize, bounds: Bounds) -> (r: Result<ProblemDomain, FireflyError>)
        ensures
            r is Ok <==> input_dimensions >= 1 && bounds.valid(),
            r matches Ok(d) ==> d.input_dimensions == input_dimensions && d.bounds == bounds
                && d.valid(),
            !bounds.valid() ==> r == Err::<ProblemDomain, FireflyError>(FireflyError::InvalidBounds),
            bounds.valid() && input_dimensions == 0 ==> r == Err::<ProblemDomain, FireflyError>(
                FireflyError::InvalidConfiguration,
            ),
    {
        if !(order_key(bounds.lower) <= order_key(bounds.upper)) {
            Err(FireflyError::InvalidBounds)
        } else if input_dimensions == 0 {
            Err(FireflyError::InvalidConfiguration)
        } else {
            Ok(ProblemDomain { input_dimensions, bounds })
        }
    }
}

} // verus!
