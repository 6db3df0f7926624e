//! Assembly of price paths and of an ensemble's terminal values.
use vstd::prelude::*;

use crate::error::SimError;

verus! {

/// `path` starts at `init` and each later entry is a possible result of
/// `step` on the entry before it and the matching shock.
pub open spec fn follows<P, S, F: Fn(P, S) -> P>(
    path: Seq<P>,
    init: P,
    shocks: Seq<S>,
    step: F,
) -> bool {
    &&& path.len() == shocks.len() + 1
    &&& path[0] == init
    &&& forall|t: int|
        0 <= t < shocks.len() ==> #[trigger] step.ensures((path[t], shocks[t]), path[t + 1])
}

/// Builds a path of `shocks.len() + 1` values: `init`, then one application
/// of `step` per shock, each to the value before it.
pub fn scan_path<P: Copy, S: Copy, F: Fn(P, S) -> P>(init: P, shocks: &Vec<S>, step: F) -> (path:
    Vec<P>)
    requires
        forall|p: P, s: S| #[trigger] step.requires((p, s)),
    ensures
        follows(path@, init, shocks@, step),
{
    let mut path: Vec<P> = Vec::new();
    path.push(init);
    let mut current = init;
    let mut t: usize = 0;
    while t < shocks.len()
        invariant
            t <= shocks.len(),
            path.len() == t + 1,
            path[0] == init,
            current == path[t as int],
            forall|p: P, s: S| #[trigger] step.requires((p, s)),
            forall|u: int|
                0 <= u < t ==> #[trigger] step.ensures((path[u], shocks[u]), path[u + 1]),
        decreases shocks.len() - t,
    {
        let next = step(current, shocks[t]);
        path.push(next);
        current = next;
        t = t + 1;
    }
    path
}

/// Two paths that start together agree at every step when each step maps
/// their shocks to the same value, whatever the value before it: a
/// deterministic step fed equal shocks, or mirrored shocks that the step
/// cannot tell apart, yields the same path twice.
pub proof fn lemma_paths_agree<P, S, F: Fn(P, S) -> P>(
    a: Seq<P>,
    b: Seq<P>,
    init: P,
    shocks_a: Seq<S>,
    shocks_b: Seq<S>,
    step: F,
)
    requires
        follows(a, init, shocks_a, step),
        follows(b, init, shocks_b, step),
        shocks_a.len() == shocks_b.len(),
        forall|p: P, t: int, x: P, y: P|
            0 <= t < shocks_a.len() && #[trigger] step.ensures((p, shocks_a[t]), x)
                && #[trigger] step.ensures((p, shocks_b[t]), y) ==> x == y,
    ensures
        a == b,
{
    let n = shocks_a.len();
    assert forall|t: int| 0 <= t <= n implies a[t] == b[t] by {
        lemma_prefix_agrees(a, b, init, shocks_a, shocks_b, step, t);
    }
    assert(a =~= b);
}

proof fn lemma_prefix_agrees<P, S, F: Fn(P, S) -> P>(
    a: Seq<P>,
    b: Seq<P>,
    init: P,
    shocks_a: Seq<S>,
    shocks_b: Seq<S>,
    step: F,
    t: int,
)
    requires
        follows(a, init, shocks_a, step),
        follows(b, init, shocks_b, step),
        shocks_a.len() == shocks_b.len(),
        forall|p: P, t: int, x: P, y: P|
            0 <= t < shocks_a.len() && #[trigger] step.ensures((p, shocks_a[t]), x)
                && #[trigger] step.ensures((p, shocks_b[t]), y) ==> x == y,
        0 <= t <= shocks_a.len(),
    ensures
        a[t] == b[t],
    decreases t,
{
    if t > 0 {
        let s = t - 1;
        lemma_prefix_agrees(a, b, init, shocks_a, shocks_b, step, s);
        assert(step.ensures((a[s], shocks_a[s]), a[s + 1]));
        assert(step.ensures((b[s], shocks_b[s]), b[s + 1]));
    }
}

/// The last value of every path, in path order; an empty ensemble is
/// rejected.
pub fn terminal_values<P: Copy>(paths: &Vec<Vec<P>>) -> (r: Result<Vec<P>, SimError>)
    requires
        forall|i: int| 0 <= i < paths.len() ==> #[trigger] paths[i].len() > 0,
    ensures
        paths.len() == 0 <==> r == Err::<Vec<P>, SimError>(SimError::EmptyEnsemble),
        r is Ok ==> {
            let v = r->Ok_0;
            &&& v.len() == paths.len()
            &&& forall|i: int| 0 <= i < v.len() ==> v[i] == #[trigger] paths[i]@.last()
        },
        r is Ok || r == Err::<Vec<P>, SimError>(SimError::EmptyEnsemble),
{
    if paths.len() == 0 {
        return Err(SimError::EmptyEnsemble);
    }
    let mut out: Vec<P> = Vec::with_capacity(paths.len());
    let mut i: usize = 0;
    while i < paths.len()
        invariant
            i <= paths.len(),
            out.len() == i,
            forall|k: int| 0 <= k < paths.len() ==> #[trigger] paths[k].len() > 0,
            forall|k: int| 0 <= k < i ==> out[k] == #[trigger] paths[k]@.last(),
        decreases paths.len() - i,
    {
        let row = &paths[i];
        out.push(row[row.len() - 1]);
        i = i + 1;
    }
    Ok(out)
}

} // verus!
