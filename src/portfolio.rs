//! Portfolio preparation: the common history window of the selected assets,
//! tail alignment of their return series, and the layout of their
//! correlation matrix.
use vstd::prelude::*;

verus! {

/// Fewest price records an asset needs before it may enter a portfolio.
pub const MIN_RECORDS: usize = 30;

/// Why a portfolio cannot be built.
#[derive(Clone, Copy, Debug, PartialEq, Eq, Structural)]
pub enum PortfolioError {
    /// No asset was selected.
    NoTickers,
    /// The selected asset at this position has no loaded history.
    MissingTicker(usize),
    /// The selected asset at this position has fewer than `MIN_RECORDS`
    /// price records.
    InsufficientData(usize),
    /// The correlation matrix of the selected assets is not positive
    /// definite.
    NotPositiveDefinite,
}

/// An asset may enter a portfolio when its history is loaded and holds at
/// least `MIN_RECORDS` records.
pub open spec fn usable(records: Option<usize>) -> bool {
    records matches Some(n) && n >= MIN_RECORDS
}

/// `w` is the length of the shortest return series: one fewer than the
/// fewest records among the selected assets.
pub open spec fn is_common_window(records: Seq<Option<usize>>, w: usize) -> bool {
    &&& forall|i: int| 0 <= i < records.len() ==> w + 1 <= (#[trigger] records[i])->Some_0
    &&& exists|i: int| 0 <= i < records.len() && w + 1 == (#[trigger] records[i])->Some_0
}

/// What choosing the history window yields for the record counts of the
/// selected assets, in selection order (`None` for an asset without data):
/// the first asset that is missing or too short is reported, an empty
/// selection is refused, and otherwise the window is the shortest series.
pub open spec fn window_result(records: Seq<Option<usize>>, r: Result<usize, PortfolioError>) -> bool {
    match r {
        Ok(w) => records.len() > 0 && (forall|j: int| 0 <= j < records.len() ==> usable(
            #[trigger] records[j],
        )) && is_common_window(records, w),
        Err(PortfolioError::NoTickers) => records.len() == 0,
        Err(PortfolioError::MissingTicker(i)) => i < records.len() && records[i as int] is None
            && forall|j: int| 0 <= j < i ==> usable(#[trigger] records[j]),
        Err(PortfolioError::InsufficientData(i)) => i < records.len() && records[i as int] is Some
            && records[i as int]->Some_0 < MIN_RECORDS && forall|j: int|
            0 <= j < i ==> usable(#[trigger] records[j]),
        Err(PortfolioError::NotPositiveDefinite) => false,
    }
}

/// Chooses the common history window of the selected assets from their
/// record counts, in selection order.
pub fn history_window(records: &Vec<Option<usize>>) -> (r: Result<usize, PortfolioError>)
    ensures
        window_result(records@, r),
{
    let mut min_len: usize = usize::MAX;
    let mut i: usize = 0;
    while i < records.len()
        invariant
            i <= records.len(),
            forall|j: int| 0 <= j < i ==> usable(#[trigger] records@[j]),
            i > 0 ==> is_common_window(records@.take(i as int), min_len),
        decreases records.len() - i,
    {
        match records[i] {
            None => {
                return Err(PortfolioError::MissingTicker(i));
            },
            Some(n) => {
                if n < MIN_RECORDS {
                    return Err(PortfolioError::InsufficientData(i));
                }
                let w = n - 1;
                if i == 0 || w < min_len {
                    min_len = w;
                }
                proof {
                    let after = records@.take(i as int + 1);
                    assert(after[i as int] == records@[i as int]);
                    if i > 0 {
                        let before = records@.take(i as int);
                        assert forall|j: int| 0 <= j < i implies after[j] == before[j] by {}
                        assert forall|j: int| 0 <= j < after.len() implies min_len + 1
                            <= (#[trigger] after[j])->Some_0 by {
                            if j < i {
                                assert(after[j] == before[j]);
                            }
                        }
                        if min_len == w {
                            assert(min_len + 1 == after[i as int]->Some_0);
                        } else {
                            let k = choose|k: int|
                                0 <= k < before.len() && min_len + 1 == (
                                #[trigger] before[k])->Some_0;
                            assert(after[k] == before[k]);
                        }
                    }
                }
            },
        }
        i = i + 1;
    }
    if records.len() == 0 {
        return Err(PortfolioError::NoTickers);
    }
    proof {
        assert(records@.take(records.len() as int) =~= records@);
    }
    Ok(min_len)
}

/// When every selected asset has loaded history but one has fewer than
/// `MIN_RECORDS` records, no window is chosen: the selection is refused
/// with an insufficient-data error for that asset or an earlier one.
pub proof fn lemma_short_history_rejected(
    records: Seq<Option<usize>>,
    i: int,
    r: Result<usize, PortfolioError>,
)
    requires
        forall|j: int| 0 <= j < records.len() ==> (#[trigger] records[j]) is Some,
        0 <= i < records.len(),
        records[i]->Some_0 < MIN_RECORDS,
        window_result(records, r),
    ensures
        r matches Err(PortfolioError::InsufficientData(j)) && j <= i,
{
    match r {
        Ok(_) => {
            assert(usable(records[i]));
        },
        Err(PortfolioError::MissingTicker(k)) => {
            assert(records[k as int] is Some);
        },
        Err(PortfolioError::InsufficientData(j)) => {
            if j > i {
                assert(usable(records[i]));
            }
        },
        _ => {},
    }
}

/// The most recent `window` entries of `v`, oldest first.
pub fn tail<T: Copy>(v: &Vec<T>, window: usize) -> (r: Vec<T>)
    requires
        window <= v.len(),
    ensures
        r@ == v@.subrange(v.len() - window, v.len() as int),
{
    let start = v.len() - window;
    let mut out: Vec<T> = Vec::new();
    let mut k: usize = start;
    while k < v.len()
        invariant
            start == v.len() - window,
            start <= k <= v.len(),
            out@ == v@.subrange(start as int, k as int),
        decreases v.len() - k,
    {
        out.push(v[k]);
        k = k + 1;
        assert(out@ =~= v@.subrange(start as int, k as int));
    }
    out
}

/// `m` is an `n` by `n` symmetric matrix with `diag` on its diagonal whose
/// entry above the diagonal at `(i, j)` is a possible result of
/// `pair(i, j)`.
pub open spec fn symmetric_layout<R, F: Fn(usize, usize) -> R>(
    m: Seq<Vec<R>>,
    n: nat,
    diag: R,
    pair: F,
) -> bool {
    &&& m.len() == n
    &&& forall|i: int| 0 <= i < n ==> (#[trigger] m[i]).len() == n
    &&& forall|i: int| 0 <= i < n ==> (#[trigger] m[i])[i] == diag
    &&& forall|i: int, j: int|
        0 <= i < j < n ==> pair.ensures((i as usize, j as usize), #[trigger] m[i][j])
    &&& forall|i: int, j: int| 0 <= i < n && 0 <= j < n ==> #[trigger] m[i][j] == m[j][i]
}

/// Lays out the correlation matrix of `n` assets: `diag` on the diagonal,
/// `pair(i, j)` once for each pair `i < j`, mirrored below the diagonal.
pub fn symmetric_matrix<R: Copy, F: Fn(usize, usize) -> R>(n: usize, diag: R, pair: F) -> (m: Vec<
    Vec<R>,
>)
    requires
        forall|i: usize, j: usize| i < j < n ==> #[trigger] pair.requires((i, j)),
    ensures
        symmetric_layout(m@, n as nat, diag, pair),
{
    let mut m: Vec<Vec<R>> = Vec::new();
    let mut i: usize = 0;
    while i < n
        invariant
            i <= n,
            m.len() == i,
            forall|i: usize, j: usize| i < j < n ==> #[trigger] pair.requires((i, j)),
            forall|k: int| 0 <= k < i ==> (#[trigger] m[k]).len() == n,
            forall|k: int| 0 <= k < i ==> (#[trigger] m[k])[k] == diag,
            forall|k: int, l: int|
                0 <= k < i && k < l < n ==> pair.ensures((k as usize, l as usize), #[trigger] m[k][l]),
            forall|k: int, l: int| 0 <= l < k < i ==> #[trigger] m[k][l] == m[l][k],
        decreases n - i,
    {
        let mut row: Vec<R> = Vec::new();
        let mut j: usize = 0;
        while j < n
            invariant
                i < n,
                j <= n,
                m.len() == i,
                row.len() == j,
                forall|i: usize, j: usize| i < j < n ==> #[trigger] pair.requires((i, j)),
                forall|k: int| 0 <= k < i ==> (#[trigger] m[k]).len() == n,
                forall|l: int| 0 <= l < j && l < i ==> #[trigger] row[l] == m[l][i as int],
                j > i ==> row[i as int] == diag,
                forall|l: int|
                    i < l < j ==> pair.ensures((i, l as usize), #[trigger] row[l]),
            decreases n - j,
        {
            if j < i {
                let v = m[j][i];
                row.push(v);
            } else if j == i {
                row.push(diag);
            } else {
                let v = pair(i, j);
                row.push(v);
            }
            j = j + 1;
        }
        m.push(row);
        i = i + 1;
    }
    m
}

/// A single asset's correlation matrix is the 1 by 1 matrix holding the
/// diagonal value alone.
pub proof fn lemma_single_asset_layout<R, F: Fn(usize, usize) -> R>(
    m: Seq<Vec<R>>,
    diag: R,
    pair: F,
)
    requires
        symmetric_layout(m, 1, diag, pair),
    ensures
        m.len() == 1,
        m[0]@ == seq![diag],
{
    assert(m[0]@ =~= seq![diag]);
}

} // verus!
