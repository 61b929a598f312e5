//! Deterministic random streams.
//!
//! Every random draw the optimizer makes comes from a PCG generator
//! (`rand_pcg::Pcg64Mcg`) seeded with 16 bytes.  The generator's output is a
//! pure function of its seed, so the whole stream is named by the
//! uninterpreted function [`pcg_output`]: the draw at index `i` of the stream
//! seeded with `seed` is `pcg_output(seed, i)`.  This is what makes runs
//! reproducible: contracts downstream speak only of `pcg_output`.

use vstd::prelude::*;

verus! {

/// The `u64` at position `index` of the output stream of a
/// `rand_pcg::Pcg64Mcg` generator seeded with the 16 bytes `seed`.
/// The generator is a pure state machine, so this is a function of the seed
/// and the index alone, identical in every process and on every machine.
pub uninterp spec fn pcg_output(seed: Seq<u8>, index: nat) -> u64;

#[verifier::external_type_specification]
#[verifier::external_body]
pub struct ExPcg64Mcg(rand_pcg::Mcg128Xsl64);

/// Relies on `rand_pcg::Mcg128Xsl64::from_seed` (`rand::SeedableRng`): the
/// generator state is a pure function of the 16 seed bytes.
#[verifier::external_body]
fn pcg_from_seed(seed: &[u8; 16]) -> rand_pcg::Pcg64Mcg {
    <rand_pcg::Pcg64Mcg as rand::SeedableRng>::from_seed(*seed)
}

/// Relies on the derived `Clone` of `rand_pcg::Mcg128Xsl64`, which copies
/// the 128-bit state: the copy continues the very same output stream.
#[verifier::external_body]
fn pcg_clone(generator: &rand_pcg::Pcg64Mcg) -> rand_pcg::Pcg64Mcg {
    generator.clone()
}

/// A deterministic stream of `u64` draws: a `Pcg64Mcg` generator together
/// with the ghost record of the seed it was built from and of how many
/// draws were already taken.  The generator field stays private so that
/// every value of this type is built by [`SeedStream::from_seed`] or
/// [`SeedStream::duplicate`], which keep the generator in step with the
/// ghost record; the contract of [`SeedStream::next_u64`] relies on that.
pub struct SeedStream {
    inner: rand_pcg::Pcg64Mcg,
    seed: Ghost<Seq<u8>>,
    drawn: Ghost<nat>,
}

impl SeedStream {
    /// The 16 bytes this stream was seeded with.
    pub closed spec fn spec_seed(self) -> Seq<u8> {
        self.seed@
    }

    /// How many draws were already taken from this stream.
    pub closed spec fn spec_drawn(self) -> nat {
        self.drawn@
    }

    /// Opens the stream of the given seed at its first element.
    pub fn from_seed(seed: &[u8; 16]) -> (r: SeedStream)
        ensures
            r.spec_seed() == seed@,
            r.spec_drawn() == 0,
    {
        SeedStream { inner: pcg_from_seed(seed), seed: Ghost(seed@), drawn: Ghost(0nat) }
    }

    /// Relies on `rand_pcg::Mcg128Xsl64::next_u64` (`rand::RngCore`): one
    /// multiply on the 128-bit state plus a fixed output permutation, a pure
    /// function of the state, so the draw equals the next element of the
    /// seed's stream.
    #[verifier::external_body]
    pub fn next_u64(&mut self) -> (r: u64)
        ensures
            r == pcg_output(old(self).spec_seed(), old(self).spec_drawn()),
            final(self).spec_seed() == old(self).spec_seed(),
            final(self).spec_drawn() == old(self).spec_drawn() + 1,
    {
        rand::RngCore::next_u64(&mut self.inner)
    }

    /// A copy that continues this stream: same seed, same position.
    pub fn duplicate(&self) -> (r: SeedStream)
        ensures
            r.spec_seed() == self.spec_seed(),
            r.spec_drawn() == self.spec_drawn(),
    {
        SeedStream { inner: pcg_clone(&self.inner), seed: Ghost(self.seed@), drawn: Ghost(self.drawn@) }
    }
}

/// The raw draws behind the initial placement of the population: `count`
/// rows of `dimensions` draws each, row `i` column `k` being draw number
/// `i * dimensions + k` of the seed's stream.  The caller maps each draw to
/// a uniform real within the domain's bounds; the same seed always yields
/// the same matrix.
pub fn draw_matrix(seed: &[u8; 16], count: usize, dimensions: usize) -> (r: Vec<Vec<u64>>)
    ensures
        r@.len() == count,
        forall|i: int| 0 <= i < count ==> #[trigger] r@[i]@.len() == dimensions,
        forall|i: int, k: int|
            0 <= i < count && 0 <= k < dimensions ==> #[trigger] r@[i]@[k] == pcg_output(
                seed@,
                (i * dimensions + k) as nat,
            ),
{
    let mut stream = SeedStream::from_seed(seed);
    let mut r: Vec<Vec<u64>> = Vec::new();
    let mut i: usize = 0;
    while i < count
        invariant
            i <= count,
            r@.len() == i,
            stream.spec_seed() == seed@,
            stream.spec_drawn() == i * dimensions,
            forall|t: int| 0 <= t < i ==> #[trigger] r@[t]@.len() == dimensions,
            forall|t: int, k: int|
                0 <= t < i && 0 <= k < dimensions ==> #[trigger] r@[t]@[k] == pcg_output(
                    seed@,
                    (t * dimensions + k) as nat,
                ),
        decreases count - i,
    {
        let mut row: Vec<u64> = Vec::new();
        let mut k: usize = 0;
        while k < dimensions
            invariant
                k <= dimensions,
                row@.len() == k,
                stream.spec_seed() == seed@,
                stream.spec_drawn() == i * dimensions + k,
                forall|t: int|
                    0 <= t < k ==> #[trigger] row@[t] == pcg_output(
                        seed@,
                        (i * dimensions + t) as nat,
                    ),
            decreases dimensions - k,
        {
            let d = stream.next_u64();
            row.push(d);
            k += 1;
        }
        r.push(row);
        i += 1;
        proof {
            assert(stream.spec_drawn() == i * dimensions) by (nonlinear_arith)
                requires
                    stream.spec_drawn() == (i - 1) * dimensions + dimensions,
            ;
        }
    }
    r
}

} // verus!
