//! Data-parallel tabulation, delegated to rayon.

use vstd::prelude::*;

use rayon::iter::IndexedParallelIterator;
use rayon::iter::IntoParallelIterator;
use rayon::iter::ParallelIterator;

verus! {

/// Builds the vector `[f(0), f(1), ..., f(n - 1)]`, evaluating `f` on the
/// indices in parallel.
///
/// Relies on rayon's `IntoParallelIterator` for ranges,
/// `ParallelIterator::map`, and `IndexedParallelIterator::collect_into_vec`:
/// mapping an indexed parallel iterator keeps it indexed, and
/// `collect_into_vec` stores each item at its index, so position `i` of the
/// result holds what `f` returned for `i`, whatever the degree of
/// parallelism.
#[verifier::external_body]
pub(crate) fn par_tabulate<T, F>(n: usize, f: F) -> (r: Vec<T>)
    where
        T: Send,
        F: Fn(usize) -> T + Send + Sync,
    requires
        forall|i: usize| i < n ==> call_requires(f, (i,)),
    ensures
        r@.len() == n,
        forall|i: int| 0 <= i < n ==> call_ensures(f, ((i as usize),), r@[i]),
{
    let mut out = Vec::new();
    (0..n).into_par_iter().map(f).collect_into_vec(&mut out);
    out
}

} // verus!
