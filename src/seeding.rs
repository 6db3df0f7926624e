//! Per-path seeds and antithetic pairing.
use vstd::prelude::*;

verus! {

/// Seed of path `index`: the base seed plus the index, or plus half the
/// index when antithetic pairs `(2k, 2k + 1)` share one stream; the sum
/// wraps modulo 2^64.
pub open spec fn derived_seed(base: u64, index: nat, antithetic: bool) -> u64 {
    let offset: int = if antithetic { index as int / 2 } else { index as int };
    ((base as int + offset) % 0x1_0000_0000_0000_0000) as u64
}

/// Whether path `index` negates its standard-normal draws: the second
/// member of each antithetic pair does.
pub open spec fn mirrored(index: nat, antithetic: bool) -> bool {
    antithetic && index % 2 == 1
}

/// Seed of the random stream that drives path `index`.
pub fn path_seed(base: u64, index: usize, antithetic: bool) -> (r: u64)
    ensures
        r == derived_seed(base, index as nat, antithetic),
{
    let offset: u64 = if antithetic { (index / 2) as u64 } else { index as u64 };
    base.wrapping_add(offset)
}

/// Whether path `index` is the mirrored member of an antithetic pair.
pub fn is_mirrored(index: usize, antithetic: bool) -> (r: bool)
    ensures
        r == mirrored(index as nat, antithetic),
{
    antithetic && index % 2 == 1
}

/// Both members of an antithetic pair `(2k, 2k + 1)` draw from one stream,
/// and only the second member negates its standard-normal draws.
pub proof fn lemma_antithetic_pair(base: u64, k: nat)
    ensures
        derived_seed(base, 2 * k, true) == derived_seed(base, 2 * k + 1, true),
        !mirrored(2 * k, true),
        mirrored(2 * k + 1, true),
{
    assert((2 * k) as int / 2 == k as int);
    assert((2 * k + 1) as int / 2 == k as int);
}

/// Without antithetic pairing, distinct path indices below 2^64 get
/// distinct seeds.
pub proof fn lemma_plain_seeds_distinct(base: u64, i: nat, j: nat)
    requires
        i < 0x1_0000_0000_0000_0000,
        j < 0x1_0000_0000_0000_0000,
        i != j,
    ensures
        derived_seed(base, i, false) != derived_seed(base, j, false),
{
}

} // verus!
