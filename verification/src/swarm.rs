//! The swarm engine: the population of fireflies, the pairwise attraction
//! pass of one generation, and the tracking of the best solution seen.
//!
//! The engine owns every decision of the algorithm — which firefly is
//! compared with which brighter neighbor, which random draws feed the
//! jitter, when the best-known solution is replaced, how the next
//! generation is ordered — while the caller supplies the two things the
//! engine cannot compute itself: the floating-point movement arithmetic and
//! the objective oracle.  One generation is therefore a small protocol:
//! [`FireflySwarm::begin_iteration`] opens it, repeated calls of
//! [`FireflySwarm::advance_iteration`] either make internal progress or hand
//! out a [`MoveRequest`], and each request is answered through
//! [`FireflySwarm::submit_move`] with the moved position and its freshly
//! evaluated objective value, which the working firefly adopts
//! unconditionally, as the classical algorithm prescribes.
//!
//! The population is kept sorted by objective value in descending order of
//! order key — the brightest firefly (smallest value) last — so the brighter
//! neighbors of the firefly at index `i` are exactly the suffix starting at
//! `i + 1` of the pre-generation snapshot.

use vstd::prelude::*;

use crate::options::FireflyOptions;
use crate::problem::{spec_order_key, order_key, FireflyError, ProblemDomain};
use crate::rng::{pcg_output, SeedStream};

verus! {

/// A position together with the oracle's value at it, both as IEEE-754 bit
/// patterns.
pub struct PointAndValue {
    pub position: Vec<u64>,
    pub value: u64,
}

impl PointAndValue {
    pub fn new(position: Vec<u64>, value: u64) -> (r: Self)
        ensures
            r.position@ == position@,
            r.value == value,
    {
        Self { position, value }
    }
}

/// What one generation reports back: whether it improved the best-known
/// solution.
pub struct IterationResult {
    pub new_global_minimum: bool,
}

impl IterationResult {
    pub fn new(new_global_minimum: bool) -> (r: Self)
        ensures
            r.new_global_minimum == new_global_minimum,
    {
        Self { new_global_minimum }
    }
}

/// One candidate solution: its position, the cached objective value at that
/// position, and the private random stream feeding its movement jitter.
pub struct Firefly {
    pub position: Vec<u64>,
    pub value: u64,
    pub rng: SeedStream,
}

/// The mathematical content of a firefly: position, value, and the state of
/// its private stream (seed and number of draws taken).
pub open spec fn ff_view(f: Firefly) -> (Seq<u64>, u64, Seq<u8>, nat) {
    (f.position@, f.value, f.rng.spec_seed(), f.rng.spec_drawn())
}

/// The views of a whole population, index by index.
pub open spec fn views(s: Seq<Firefly>) -> Seq<(Seq<u64>, u64, Seq<u8>, nat)> {
    Seq::new(s.len(), |i: int| ff_view(s[i]))
}

/// Descending by order key of the objective value: the brightest (smallest
/// value) firefly stands last.
pub open spec fn sorted_desc(s: Seq<Firefly>) -> bool {
    forall|i: int, j: int|
        #![trigger s[i], s[j]]
        0 <= i < j < s.len() ==> spec_order_key(s[i].value) >= spec_order_key(s[j].value)
}

/// A position of the right dimensionality whose coordinates all lie within
/// the domain's bounds.
pub open spec fn position_ok(p: Seq<u64>, domain: ProblemDomain) -> bool {
    &&& p.len() == domain.input_dimensions
    &&& forall|k: int| 0 <= k < p.len() ==> domain.bounds.holds_within(#[trigger] p[k])
}

pub open spec fn ff_ok(f: Firefly, domain: ProblemDomain) -> bool {
    position_ok(f.position@, domain)
}

proof fn lemma_len_mismatch_not_ok(p: Seq<u64>, domain: ProblemDomain)
    requires
        p.len() != domain.input_dimensions,
    ensures
        !position_ok(p, domain),
{
}

proof fn lemma_coord_out_not_ok(p: Seq<u64>, domain: ProblemDomain, k: int)
    requires
        0 <= k < p.len(),
        !domain.bounds.holds_within(p[k]),
    ensures
        !position_ok(p, domain),
{
}

/// The little-endian bytes of one `u64`.
pub open spec fn u64_le_bytes(x: u64) -> Seq<u8> {
    seq![
        (x % 256) as u8,
        ((x >> 8) % 256) as u8,
        ((x >> 16) % 256) as u8,
        ((x >> 24) % 256) as u8,
        ((x >> 32) % 256) as u8,
        ((x >> 40) % 256) as u8,
        ((x >> 48) % 256) as u8,
        ((x >> 56) % 256) as u8,
    ]
}

/// The 16-byte seed of agent `index`'s private jitter stream: the two
/// consecutive draws `2 * index` and `2 * index + 1` of the master stream,
/// laid out little-endian.  The mapping from agent index to sub-seed is
/// fixed, so per-agent streams do not depend on evaluation order.
pub open spec fn derived_agent_seed(master: Seq<u8>, index: nat) -> Seq<u8> {
    u64_le_bytes(pcg_output(master, 2 * index)) + u64_le_bytes(pcg_output(master, 2 * index + 1))
}

/// The view a freshly initialized firefly must have: the position and value
/// of entry `i` of the initial population, and the untouched stream derived
/// for index `i`.
pub open spec fn initial_views(init: Seq<PointAndValue>, master: Seq<u8>) -> Seq<
    (Seq<u64>, u64, Seq<u8>, nat),
> {
    Seq::new(init.len(), |i: int| (init[i].position@, init[i].value, derived_agent_seed(master, i as nat), 0nat))
}

/// Packs two `u64` draws into the 16 little-endian bytes that seed an
/// agent's private stream.
fn seed_bytes(a: u64, b: u64) -> (r: [u8; 16])
    ensures
        r@ == u64_le_bytes(a) + u64_le_bytes(b),
{
    let r: [u8; 16] = [
        (a % 256) as u8,
        ((a >> 8) % 256) as u8,
        ((a >> 16) % 256) as u8,
        ((a >> 24) % 256) as u8,
        ((a >> 32) % 256) as u8,
        ((a >> 40) % 256) as u8,
        ((a >> 48) % 256) as u8,
        ((a >> 56) % 256) as u8,
        (b % 256) as u8,
        ((b >> 8) % 256) as u8,
        ((b >> 16) % 256) as u8,
        ((b >> 24) % 256) as u8,
        ((b >> 32) % 256) as u8,
        ((b >> 40) % 256) as u8,
        ((b >> 48) % 256) as u8,
        ((b >> 56) % 256) as u8,
    ];
    proof {
        assert(r@ =~= u64_le_bytes(a) + u64_le_bytes(b));
    }
    r
}

/// An element-wise copy of a position vector.
pub(crate) fn copy_words(v: &Vec<u64>) -> (r: Vec<u64>)
    ensures
        r@ == v@,
{
    let mut r: Vec<u64> = Vec::new();
    let mut i: usize = 0;
    while i < v.len()
        invariant
            i <= v@.len(),
            r@.len() == i,
            forall|k: int| 0 <= k < i ==> r@[k] == v@[k],
        decreases v@.len() - i,
    {
        r.push(v[i]);
        i += 1;
    }
    proof {
        assert(r@ =~= v@);
    }
    r
}

/// A copy of a firefly that continues the same jitter stream.
fn clone_firefly(f: &Firefly) -> (r: Firefly)
    ensures
        ff_view(r) == ff_view(*f),
{
    Firefly { position: copy_words(&f.position), value: f.value, rng: f.rng.duplicate() }
}

/// The index at which a firefly of order key `key` joins a population
/// sorted descending: after every element at least as large, before the
/// first strictly smaller one.
pub open spec fn spec_insert_pos(s: Seq<Firefly>, key: u64) -> int
    decreases s.len(),
{
    if s.len() == 0 {
        0
    } else if spec_order_key(s[0].value) >= key {
        1 + spec_insert_pos(s.drop_first(), key)
    } else {
        0
    }
}

proof fn lemma_insert_pos_char(s: Seq<Firefly>, key: u64, p: int)
    requires
        0 <= p <= s.len(),
        forall|i: int| 0 <= i < p ==> spec_order_key(#[trigger] s[i].value) >= key,
        p < s.len() ==> spec_order_key(s[p].value) < key,
    ensures
        spec_insert_pos(s, key) == p,
    decreases s.len(),
{
    if p == 0 {
    } else {
        assert(spec_order_key(s[0].value) >= key);
        let t = s.drop_first();
        assert forall|i: int| 0 <= i < p - 1 implies spec_order_key(#[trigger] t[i].value)
            >= key by {
            assert(t[i] == s[i + 1]);
        }
        if p - 1 < t.len() {
            assert(t[p - 1] == s[p]);
        }
        lemma_insert_pos_char(t, key, p - 1);
    }
}

/// Inserts `f` into a population sorted descending by order key, keeping it
/// sorted; the result is exactly the old sequence with `f` inserted at
/// [`spec_insert_pos`].
fn insert_sorted(v: &mut Vec<Firefly>, f: Firefly)
    requires
        sorted_desc(old(v)@),
    ensures
        sorted_desc(final(v)@),
        final(v)@.len() == old(v)@.len() + 1,
        final(v)@ == old(v)@.insert(
            spec_insert_pos(old(v)@, spec_order_key(f.value)),
            f,
        ),
        exists|p: int| 0 <= p <= old(v)@.len() && final(v)@ == old(v)@.insert(p, f),
        forall|i: int|
            0 <= i < final(v)@.len() ==> final(v)@[i] == f || old(v)@.contains(#[trigger] final(v)@[i]),
{
    let key_f = order_key(f.value);
    let mut p: usize = 0;
    while p < v.len() && order_key(v[p].value) >= key_f
        invariant
            p <= v@.len(),
            v@ == old(v)@,
            key_f == spec_order_key(f.value),
            forall|i: int| 0 <= i < p ==> spec_order_key(v@[i].value) >= key_f,
        decreases v@.len() - p,
    {
        p += 1;
    }
    let ghost s0 = v@;
    let ghost pp = p as int;
    v.insert(p, f);
    proof {
        lemma_insert_pos_char(s0, spec_order_key(f.value), pp);
        assert(v@ == s0.insert(pp, f));
        assert forall|i: int, j: int|
            #![trigger v@[i], v@[j]]
            0 <= i < j < v@.len() implies spec_order_key(v@[i].value) >= spec_order_key(
            v@[j].value,
        ) by {
            if i < pp {
                assert(v@[i] == s0[i]);
            } else if i == pp {
                assert(v@[i] == f);
            } else {
                assert(v@[i] == s0[i - 1]);
            }
            if j < pp {
                assert(v@[j] == s0[j]);
            } else if j == pp {
                assert(v@[j] == f);
            } else {
                assert(v@[j] == s0[j - 1]);
            }
            if j >= pp + 1 && pp < s0.len() {
                assert(spec_order_key(s0[pp].value) < key_f);
            }
        }
        assert forall|i: int|
            0 <= i < v@.len() implies v@[i] == f || s0.contains(#[trigger] v@[i]) by {
            if i < pp {
                assert(v@[i] == s0[i]);
            } else if i > pp {
                assert(v@[i] == s0[i - 1]);
            }
        }
    }
}

/// Relates `views` across an insertion.
proof fn lemma_views_insert(s: Seq<Firefly>, p: int, f: Firefly)
    requires
        0 <= p <= s.len(),
    ensures
        views(s.insert(p, f)) == views(s).insert(p, ff_view(f)),
{
    assert(views(s.insert(p, f)) =~= views(s).insert(p, ff_view(f)));
}

/// The in-progress state of one generation: the finalized part of the next
/// generation, the working copy of the firefly currently under comparison,
/// the two scan cursors, and the improvement bookkeeping.
pub struct IterationState {
    /// Finalized working copies, kept sorted; one per main index already
    /// scanned.
    pub next_generation: Vec<Firefly>,
    /// The working copy of the firefly at `main_index`, accumulating the
    /// movements of this generation.
    pub working: Firefly,
    /// Index into the pre-generation snapshot of the firefly being moved.
    pub main_index: usize,
    /// Index of the next snapshot firefly to compare `working` against.
    pub neighbor_index: usize,
    /// Whether a [`MoveRequest`] has been handed out and not yet answered.
    pub awaiting_move: bool,
    /// Whether this generation has improved the best-known solution.
    pub improved: bool,
    /// The best-known value when the generation began, for the meaning of
    /// `improved`.
    pub best_at_start: Ghost<Option<u64>>,
}

/// One pairwise attraction the caller must carry out: move the firefly at
/// `mover_position` toward the brighter `target_position`, using one jitter
/// draw per coordinate, then evaluate the oracle at the result and submit
/// both back.
pub struct MoveRequest {
    pub mover_position: Vec<u64>,
    pub target_position: Vec<u64>,
    /// One raw draw of the mover's private stream per coordinate; the
    /// caller maps each to a uniform real in [0, 1].
    pub jitter_draws: Vec<u64>,
}

/// What one call of [`FireflySwarm::advance_iteration`] did.
pub enum IterationStep {
    /// Internal progress; call again.
    Working,
    /// A movement is needed; answer through [`FireflySwarm::submit_move`].
    MoveNeeded(MoveRequest),
    /// The generation is complete and the swarm re-sorted.
    Finished(IterationResult),
}

/// The value of the best-known solution, if any.
pub open spec fn spec_best_bits(b: Option<PointAndValue>) -> Option<u64> {
    match b {
        Some(p) => Some(p.value),
        None => None,
    }
}

/// The best-known solution never gets worse: once present it stays present,
/// with a value no larger in the total order.
pub open spec fn best_not_worse(pre: Option<PointAndValue>, post: Option<PointAndValue>) -> bool {
    match pre {
        Some(p) => post matches Some(q) && spec_order_key(q.value) <= spec_order_key(p.value),
        None => true,
    }
}

/// The best-known solution is non-increasing across a whole run: the
/// step-wise guarantee composes, so however many steps lie between two
/// observations, the later best is no worse than the earlier one.
pub proof fn lemma_best_not_worse_transitive(
    a: Option<PointAndValue>,
    b: Option<PointAndValue>,
    c: Option<PointAndValue>,
)
    requires
        best_not_worse(a, b),
        best_not_worse(b, c),
    ensures
        best_not_worse(a, c),
{
}

/// The swarm: the sorted population, the best solution seen so far, and the
/// state of the generation in progress, if one is.
pub struct FireflySwarm {
    pub domain: ProblemDomain,
    pub swarm_size: usize,
    /// The population; between generations and throughout a generation this
    /// is the sorted pre-generation snapshot.
    pub fireflies: Vec<Firefly>,
    pub best_solution: Option<PointAndValue>,
    pub iteration: Option<IterationState>,
}

impl FireflySwarm {
    pub open spec fn dims(self) -> int {
        self.domain.input_dimensions as int
    }

    pub open spec fn in_iteration(self) -> bool {
        self.iteration is Some
    }

    pub open spec fn st(self) -> IterationState {
        self.iteration->Some_0
    }

    pub open spec fn awaiting(self) -> bool {
        self.in_iteration() && self.st().awaiting_move
    }

    pub open spec fn best_ok(self) -> bool {
        match self.best_solution {
            Some(p) => position_ok(p.position@, self.domain),
            None => true,
        }
    }

    /// The invariant of a generation in progress.
    pub open spec fn iter_ok(self) -> bool {
        match self.iteration {
            Some(st) => {
                &&& st.next_generation@.len() == st.main_index
                &&& st.main_index < self.swarm_size
                &&& st.main_index < st.neighbor_index <= self.swarm_size
                &&& sorted_desc(st.next_generation@)
                &&& forall|i: int|
                    0 <= i < st.next_generation@.len() ==> ff_ok(
                        #[trigger] st.next_generation@[i],
                        self.domain,
                    )
                &&& ff_ok(st.working, self.domain)
                &&& (st.awaiting_move ==> st.neighbor_index < self.swarm_size
                    && spec_order_key(self.fireflies@[st.neighbor_index as int].value)
                    < spec_order_key(st.working.value))
                &&& match st.best_at_start@ {
                    None => (st.improved <==> st.main_index >= 1) && (!st.improved
                        ==> self.best_solution is None),
                    Some(v0) => self.best_solution matches Some(p) && spec_order_key(p.value)
                        <= spec_order_key(v0) && (st.improved <==> spec_order_key(p.value)
                        < spec_order_key(v0)),
                }
            },
            None => true,
        }
    }

    /// Well-formedness: valid domain, full sorted in-bounds population,
    /// in-bounds best, and a consistent generation state.
    pub open spec fn wf(self) -> bool {
        &&& self.domain.valid()
        &&& self.swarm_size >= 1
        &&& self.fireflies@.len() == self.swarm_size
        &&& sorted_desc(self.fireflies@)
        &&& forall|i: int|
            0 <= i < self.fireflies@.len() ==> ff_ok(#[trigger] self.fireflies@[i], self.domain)
        &&& self.best_ok()
        &&& self.iter_ok()
    }

    /// Builds the swarm from an evaluated initial population: pairs entry
    /// `i` with the private stream derived for index `i`, sorts, and starts
    /// with no best-known solution.  Rejects a population whose size does
    /// not match the configured swarm size or whose positions do not fit
    /// the domain.
    pub fn initialize(
        domain: ProblemDomain,
        options: &FireflyOptions,
        initial_population: Vec<PointAndValue>,
    ) -> (r: Result<FireflySwarm, FireflyError>)
        requires
            domain.valid(),
            options.valid(),
        ensures
            r is Ok <==> initial_population@.len() == options.swarm_size && (forall|i: int|
                0 <= i < initial_population@.len() ==> position_ok(
                    #[trigger] initial_population@[i].position@,
                    domain,
                )),
            r is Err ==> r == Err::<FireflySwarm, FireflyError>(FireflyError::PopulationMismatch),
            r matches Ok(s) ==> {
                &&& s.wf()
                &&& s.domain == domain
                &&& s.swarm_size == options.swarm_size
                &&& s.best_solution is None
                &&& !s.in_iteration()
                &&& views(s.fireflies@).to_multiset() == initial_views(
                    initial_population@,
                    options.zero_to_one_random_generator_seed@,
                ).to_multiset()
            },
    {
        if initial_population.len() != options.swarm_size {
            return Err(FireflyError::PopulationMismatch);
        }
        let mut i: usize = 0;
        while i < initial_population.len()
            invariant
                i <= initial_population@.len(),
                forall|k: int|
                    0 <= k < i ==> position_ok(
                        #[trigger] initial_population@[k].position@,
                        domain,
                    ),
            decreases initial_population@.len() - i,
        {
            let p = &initial_population[i];
            proof {
                assert(*p == initial_population@[i as int]);
            }
            if p.position.len() != domain.input_dimensions {
                proof {
                    lemma_len_mismatch_not_ok(initial_population@[i as int].position@, domain);
                }
                return Err(FireflyError::PopulationMismatch);
            }
            let mut k: usize = 0;
            while k < p.position.len()
                invariant
                    k <= p.position@.len(),
                    i < initial_population@.len(),
                    *p == initial_population@[i as int],
                    forall|t: int| 0 <= t < k ==> domain.bounds.holds_within(#[trigger] p.position@[t]),
                decreases p.position@.len() - k,
            {
                if !domain.bounds.check_within(p.position[k]) {
                    proof {
                        lemma_coord_out_not_ok(
                            initial_population@[i as int].position@,
                            domain,
                            k as int,
                        );
                    }
                    return Err(FireflyError::PopulationMismatch);
                }
                k += 1;
            }
            i += 1;
        }

        let ghost master = options.zero_to_one_random_generator_seed@;
        let mut seed_gen = SeedStream::from_seed(&options.zero_to_one_random_generator_seed);
        let mut fireflies: Vec<Firefly> = Vec::new();
        proof {
            assert(views(fireflies@) =~= initial_views(initial_population@, master).take(0));
        }
        let mut i: usize = 0;
        while i < initial_population.len()
            invariant
                i <= initial_population@.len(),
                initial_population@.len() == options.swarm_size,
                domain.valid(),
                forall|k: int|
                    0 <= k < initial_population@.len() ==> position_ok(
                        #[trigger] initial_population@[k].position@,
                        domain,
                    ),
                seed_gen.spec_seed() == master,
                seed_gen.spec_drawn() == 2 * i,
                fireflies@.len() == i,
                sorted_desc(fireflies@),
                forall|k: int| 0 <= k < fireflies@.len() ==> ff_ok(#[trigger] fireflies@[k], domain),
                views(fireflies@).to_multiset() == initial_views(
                    initial_population@,
                    master,
                ).take(i as int).to_multiset(),
            decreases initial_population@.len() - i,
        {
            let a = seed_gen.next_u64();
            let b = seed_gen.next_u64();
            let seed16 = seed_bytes(a, b);
            let rng = SeedStream::from_seed(&seed16);
            let position = copy_words(&initial_population[i].position);
            let f = Firefly { position, value: initial_population[i].value, rng };
            proof {
                assert(ff_view(f) == initial_views(initial_population@, master)[i as int]);
            }
            let ghost before = fireflies@;
            insert_sorted(&mut fireflies, f);
            proof {
                broadcast use vstd::seq_lib::group_to_multiset_ensures;

                let p = choose|p: int| 0 <= p <= before.len() && fireflies@ == before.insert(p, f);
                lemma_views_insert(before, p, f);
                assert(views(fireflies@).to_multiset() == views(before).to_multiset().insert(
                    ff_view(f),
                ));
                let iv = initial_views(initial_population@, master);
                assert(iv.take(i + 1) =~= iv.take(i as int).push(iv[i as int]));
                assert(iv.take(i + 1).to_multiset() == iv.take(i as int).to_multiset().insert(
                    iv[i as int],
                ));
            }
            i += 1;
        }
        proof {
            let iv = initial_views(initial_population@, master);
            assert(iv.take(initial_population@.len() as int) =~= iv);
        }
        Ok(
            FireflySwarm {
                domain,
                swarm_size: options.swarm_size,
                fireflies,
                best_solution: None,
                iteration: None,
            },
        )
    }

    /// Opens one generation: the working copy of the firefly at index 0 is
    /// taken, the scan cursors are set, and the best-known value at entry
    /// is recorded for the meaning of the generation's improvement flag.
    pub fn begin_iteration(&mut self)
        requires
            old(self).wf(),
            !old(self).in_iteration(),
        ensures
            final(self).wf(),
            final(self).domain == old(self).domain,
            final(self).swarm_size == old(self).swarm_size,
            final(self).fireflies@ == old(self).fireflies@,
            final(self).best_solution == old(self).best_solution,
            final(self).in_iteration(),
            !final(self).awaiting(),
            final(self).st().main_index == 0,
            final(self).st().neighbor_index == 1,
            final(self).st().next_generation@.len() == 0,
            !final(self).st().improved,
            ff_view(final(self).st().working) == ff_view(old(self).fireflies@[0]),
            final(self).st().best_at_start@ == spec_best_bits(old(self).best_solution),
    {
        let working = clone_firefly(&self.fireflies[0]);
        let ghost b0 = spec_best_bits(self.best_solution);
        self.iteration = Some(
            IterationState {
                next_generation: Vec::new(),
                working,
                main_index: 0,
                neighbor_index: 1,
                awaiting_move: false,
                improved: false,
                best_at_start: Ghost(b0),
            },
        );
    }

    /// One step of the generation in progress.  Either the scan cursor
    /// passes a neighbor that is not brighter, or a brighter neighbor is
    /// found and a [`MoveRequest`] with the per-coordinate jitter draws is
    /// handed out, or the working firefly's scan is complete: the best
    /// solution is updated if the firefly strictly improves on it, the
    /// firefly joins the (sorted) next generation, and either the next
    /// working copy is taken or the generation ends and the new population
    /// replaces the old.
    pub fn advance_iteration(&mut self) -> (step: IterationStep)
        requires
            old(self).wf(),
            old(self).in_iteration(),
            !old(self).awaiting(),
        ensures
            final(self).wf(),
            final(self).domain == old(self).domain,
            final(self).swarm_size == old(self).swarm_size,
            best_not_worse(old(self).best_solution, final(self).best_solution),
            // a neighbor that is not brighter is skipped
            ({
                let s0 = *old(self);
                let st0 = s0.st();
                let s1 = *final(self);
                st0.neighbor_index < s0.swarm_size && spec_order_key(
                    s0.fireflies@[st0.neighbor_index as int].value,
                ) >= spec_order_key(st0.working.value) ==> {
                    &&& step is Working
                    &&& s1.fireflies@ == s0.fireflies@
                    &&& s1.best_solution == s0.best_solution
                    &&& s1.in_iteration()
                    &&& !s1.awaiting()
                    &&& s1.st().main_index == st0.main_index
                    &&& s1.st().neighbor_index == st0.neighbor_index + 1
                    &&& s1.st().next_generation@ == st0.next_generation@
                    &&& s1.st().improved == st0.improved
                    &&& s1.st().best_at_start@ == st0.best_at_start@
                    &&& ff_view(s1.st().working) == ff_view(st0.working)
                }
            }),
            // a brighter neighbor asks for a movement
            ({
                let s0 = *old(self);
                let st0 = s0.st();
                let s1 = *final(self);
                st0.neighbor_index < s0.swarm_size && spec_order_key(
                    s0.fireflies@[st0.neighbor_index as int].value,
                ) < spec_order_key(st0.working.value) ==> {
                    &&& step matches IterationStep::MoveNeeded(req) && {
                        &&& req.mover_position@ == st0.working.position@
                        &&& req.target_position@
                            == s0.fireflies@[st0.neighbor_index as int].position@
                        &&& req.jitter_draws@.len() == s0.dims()
                        &&& forall|k: int|
                            0 <= k < req.jitter_draws@.len() ==> req.jitter_draws@[k]
                                == pcg_output(
                                st0.working.rng.spec_seed(),
                                (st0.working.rng.spec_drawn() + k) as nat,
                            )
                    }
                    &&& s1.fireflies@ == s0.fireflies@
                    &&& s1.best_solution == s0.best_solution
                    &&& s1.in_iteration()
                    &&& s1.awaiting()
                    &&& s1.st().main_index == st0.main_index
                    &&& s1.st().neighbor_index == st0.neighbor_index
                    &&& s1.st().next_generation@ == st0.next_generation@
                    &&& s1.st().improved == st0.improved
                    &&& s1.st().best_at_start@ == st0.best_at_start@
                    &&& s1.st().working.position@ == st0.working.position@
                    &&& s1.st().working.value == st0.working.value
                    &&& s1.st().working.rng.spec_seed() == st0.working.rng.spec_seed()
                    &&& s1.st().working.rng.spec_drawn() == st0.working.rng.spec_drawn()
                        + s0.dims()
                }
            }),
            // the scan is complete: the working firefly is finalized
            ({
                let s0 = *old(self);
                let st0 = s0.st();
                let s1 = *final(self);
                let improve0 = match s0.best_solution {
                    None => true,
                    Some(b) => spec_order_key(st0.working.value) < spec_order_key(b.value),
                };
                st0.neighbor_index == s0.swarm_size ==> {
                    &&& (improve0 ==> (s1.best_solution matches Some(q) && q.position@
                        == st0.working.position@ && q.value == st0.working.value))
                    &&& (!improve0 ==> s1.best_solution == s0.best_solution)
                    &&& (st0.main_index + 1 < s0.swarm_size ==> {
                        &&& step is Working
                        &&& s1.fireflies@ == s0.fireflies@
                        &&& s1.in_iteration()
                        &&& !s1.awaiting()
                        &&& s1.st().main_index == st0.main_index + 1
                        &&& s1.st().neighbor_index == st0.main_index + 2
                        &&& s1.st().improved == (st0.improved || improve0)
                        &&& s1.st().best_at_start@ == st0.best_at_start@
                        &&& ff_view(s1.st().working) == ff_view(
                            s0.fireflies@[st0.main_index + 1],
                        )
                        &&& s1.st().next_generation@ == st0.next_generation@.insert(
                            spec_insert_pos(
                                st0.next_generation@,
                                spec_order_key(st0.working.value),
                            ),
                            st0.working,
                        )
                    })
                    &&& (st0.main_index + 1 == s0.swarm_size ==> {
                        &&& step matches IterationStep::Finished(res) && {
                            &&& res.new_global_minimum == (st0.improved || improve0)
                            &&& (res.new_global_minimum <==> match st0.best_at_start@ {
                                None => true,
                                Some(v0) => s1.best_solution matches Some(q) && spec_order_key(
                                    q.value,
                                ) < spec_order_key(v0),
                            })
                        }
                        &&& !s1.in_iteration()
                        &&& s1.best_solution is Some
                        &&& s1.fireflies@.len() == s0.swarm_size
                        &&& s1.fireflies@ == st0.next_generation@.insert(
                            spec_insert_pos(
                                st0.next_generation@,
                                spec_order_key(st0.working.value),
                            ),
                            st0.working,
                        )
                    })
                }
            }),
    {
        let n = self.swarm_size;
        let dims = self.domain.input_dimensions;
        let st_opt = self.iteration.take();
        let mut st = match st_opt {
            Some(st) => st,
            None => vstd::pervasive::unreached(),
        };
        if st.neighbor_index < n {
            let j = st.neighbor_index;
            if order_key(self.fireflies[j].value) < order_key(st.working.value) {
                let ghost seed0 = st.working.rng.spec_seed();
                let ghost drawn0 = st.working.rng.spec_drawn();
                let ghost w_pos = st.working.position@;
                let ghost w_val = st.working.value;
                let ghost ng0 = st.next_generation@;
                let ghost mi0 = st.main_index;
                let ghost imp0 = st.improved;
                let ghost bas0 = st.best_at_start@;
                let mover_position = copy_words(&st.working.position);
                let target_position = copy_words(&self.fireflies[j].position);
                let mut jitter_draws: Vec<u64> = Vec::new();
                let mut k: usize = 0;
                while k < dims
                    invariant
                        k <= dims,
                        jitter_draws@.len() == k,
                        st.working.rng.spec_seed() == seed0,
                        st.working.rng.spec_drawn() == drawn0 + k,
                        forall|t: int|
                            0 <= t < k ==> jitter_draws@[t] == pcg_output(
                                seed0,
                                (drawn0 + t) as nat,
                            ),
                        st.working.position@ == w_pos,
                        st.working.value == w_val,
                        st.next_generation@ == ng0,
                        st.main_index == mi0,
                        st.neighbor_index == j,
                        st.awaiting_move == false,
                        st.improved == imp0,
                        st.best_at_start@ == bas0,
                    decreases dims - k,
                {
                    let d = st.working.rng.next_u64();
                    jitter_draws.push(d);
                    k += 1;
                }
                st.awaiting_move = true;
                self.iteration = Some(st);
                return IterationStep::MoveNeeded(
                    MoveRequest { mover_position, target_position, jitter_draws },
                );
            } else {
                st.neighbor_index = j + 1;
                self.iteration = Some(st);
                return IterationStep::Working;
            }
        }
        // the scan of the working firefly is complete: finalize it
        let IterationState {
            next_generation: mut next_gen,
            working,
            main_index,
            neighbor_index: _,
            awaiting_move: _,
            improved: was_improved,
            best_at_start,
        } = st;
        let improve = match &self.best_solution {
            None => true,
            Some(b) => order_key(working.value) < order_key(b.value),
        };
        if improve {
            self.best_solution = Some(
                PointAndValue { position: copy_words(&working.position), value: working.value },
            );
        }
        let new_improved = was_improved || improve;
        insert_sorted(&mut next_gen, working);
        let next_main = main_index + 1;
        if next_main < n {
            let working2 = clone_firefly(&self.fireflies[next_main]);
            self.iteration = Some(
                IterationState {
                    next_generation: next_gen,
                    working: working2,
                    main_index: next_main,
                    neighbor_index: next_main + 1,
                    awaiting_move: false,
                    improved: new_improved,
                    best_at_start,
                },
            );
            IterationStep::Working
        } else {
            self.fireflies = next_gen;
            IterationStep::Finished(IterationResult { new_global_minimum: new_improved })
        }
    }

    /// Adopts the answer of the outstanding move request: the working
    /// firefly takes the moved position and its freshly evaluated objective
    /// value unconditionally — movement toward a brighter neighbor is
    /// accepted, not re-validated — and the scan goes on with the next
    /// neighbor.
    pub fn submit_move(&mut self, new_position: Vec<u64>, new_value: u64)
        requires
            old(self).wf(),
            old(self).awaiting(),
            position_ok(new_position@, old(self).domain),
        ensures
            final(self).wf(),
            final(self).domain == old(self).domain,
            final(self).swarm_size == old(self).swarm_size,
            final(self).fireflies@ == old(self).fireflies@,
            final(self).best_solution == old(self).best_solution,
            final(self).in_iteration(),
            !final(self).awaiting(),
            final(self).st().main_index == old(self).st().main_index,
            final(self).st().neighbor_index == old(self).st().neighbor_index + 1,
            final(self).st().next_generation@ == old(self).st().next_generation@,
            final(self).st().improved == old(self).st().improved,
            final(self).st().best_at_start@ == old(self).st().best_at_start@,
            final(self).st().working.position@ == new_position@,
            final(self).st().working.value == new_value,
            final(self).st().working.rng.spec_seed() == old(self).st().working.rng.spec_seed(),
            final(self).st().working.rng.spec_drawn() == old(self).st().working.rng.spec_drawn(),
    {
        match &mut self.iteration {
            Some(st) => {
                st.working.position = new_position;
                st.working.value = new_value;
                st.awaiting_move = false;
                st.neighbor_index = st.neighbor_index + 1;
            },
            None => {},
        }
    }
}

} // verus!
