//! Random streams: one seeded generator per path, and historical
//! resampling driven by it.
use rand::rngs::StdRng;
use rand::{Rng, SeedableRng};
use vstd::prelude::*;

use crate::error::SimError;
use crate::seeding::{derived_seed, lemma_antithetic_pair, path_seed};

verus! {

#[verifier::external_type_specification]
#[verifier::external_body]
pub struct ExStdRng(StdRng);

/// The generator that `StdRng::seed_from_u64` builds from a seed.
pub uninterp spec fn stream_of(seed: u64) -> StdRng;

/// Relies on rand's `SeedableRng::seed_from_u64` for `StdRng`: a fresh
/// generator that depends on the seed alone.
#[verifier::external_body]
fn seeded(seed: u64) -> (r: StdRng)
    ensures
        r == stream_of(seed),
{
    StdRng::seed_from_u64(seed)
}

/// The random stream that drives path `index`: a generator seeded with
/// `path_seed(base, index, antithetic)`, so both members of an antithetic
/// pair draw the same sequence.
pub fn path_stream(base: u64, index: usize, antithetic: bool) -> (r: StdRng)
    ensures
        r == stream_of(derived_seed(base, index as nat, antithetic)),
{
    seeded(path_seed(base, index, antithetic))
}

/// Both members of an antithetic pair `(2k, 2k + 1)` start from equal
/// generators, so they draw the same sequence.
pub proof fn lemma_pair_streams_equal(base: u64, k: nat)
    ensures
        stream_of(derived_seed(base, 2 * k, true)) == stream_of(derived_seed(base, 2 * k + 1, true)),
{
    lemma_antithetic_pair(base, k);
}

/// Relies on rand's `Rng::random_range` over `0..n`: an index drawn
/// uniformly below `n`. It panics on an empty range, so `n` is positive.
#[verifier::external_body]
fn draw_index(rng: &mut StdRng, n: usize) -> (r: usize)
    requires
        n > 0,
    ensures
        r < n,
{
    rng.random_range(0..n)
}

/// The entries of `history` at `indices`, in order.
pub fn gather<T: Copy>(history: &Vec<T>, indices: &Vec<usize>) -> (r: Vec<T>)
    requires
        forall|t: int| 0 <= t < indices.len() ==> #[trigger] indices[t] < history.len(),
    ensures
        r.len() == indices.len(),
        forall|t: int| 0 <= t < indices.len() ==> #[trigger] r[t] == history[indices[t] as int],
{
    let mut out: Vec<T> = Vec::new();
    let mut t: usize = 0;
    while t < indices.len()
        invariant
            t <= indices.len(),
            out.len() == t,
            forall|u: int| 0 <= u < indices.len() ==> #[trigger] indices[u] < history.len(),
            forall|u: int| 0 <= u < t ==> #[trigger] out[u] == history[indices[u] as int],
        decreases indices.len() - t,
    {
        out.push(history[indices[t]]);
        t = t + 1;
    }
    out
}

/// `steps` indices drawn from `rng`, each below `n`.
fn draw_indices(rng: &mut StdRng, n: usize, steps: usize) -> (r: Vec<usize>)
    requires
        n > 0,
    ensures
        r.len() == steps,
        forall|t: int| 0 <= t < steps ==> #[trigger] r[t] < n,
{
    let mut out: Vec<usize> = Vec::new();
    let mut t: usize = 0;
    while t < steps
        invariant
            t <= steps,
            n > 0,
            out.len() == t,
            forall|u: int| 0 <= u < t ==> #[trigger] out[u] < n,
        decreases steps - t,
    {
        let j = draw_index(rng, n);
        out.push(j);
        t = t + 1;
    }
    out
}

/// Draws `steps` entries of `history` uniformly with replacement: `steps`
/// indices from `rng`, then the entries at them. An empty history cannot
/// be resampled.
pub fn resample<T: Copy>(rng: &mut StdRng, history: &Vec<T>, steps: usize) -> (r: Result<
    Vec<T>,
    SimError,
>)
    ensures
        history.len() == 0 <==> r == Err::<Vec<T>, SimError>(SimError::EmptyHistory),
        r is Ok ==> exists|idx: Seq<usize>|
            {
                &&& idx.len() == steps
                &&& forall|t: int| 0 <= t < steps ==> #[trigger] idx[t] < history.len()
                &&& r->Ok_0@ == idx.map_values(|i: usize| history@[i as int])
            },
        r is Ok || r == Err::<Vec<T>, SimError>(SimError::EmptyHistory),
{
    if history.len() == 0 {
        return Err(SimError::EmptyHistory);
    }
    let indices = draw_indices(rng, history.len(), steps);
    let draws = gather(history, &indices);
    assert(draws@ =~= indices@.map_values(|i: usize| history@[i as int]));
    Ok(draws)
}

} // verus!
