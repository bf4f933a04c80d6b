//! Byzantine-fault-tolerant gradient aggregation.
//!
//! Aggregation is a coordinate-wise trimmed mean: per dimension, the values are sorted and the
//! lowest and highest are dropped before averaging, so a minority of faulty peers cannot drag the
//! result to an extreme. This module validates the round (at least one gradient, one shared
//! dimensionality), lays out each coordinate's column, sorts it stably in IEEE order and bounds
//! the kept window; averaging the kept float values is the caller's part.

use vstd::prelude::*;

use crate::binary32::{nan, order_key, Binary32};
use crate::error::DomainError;
use crate::gradient::Gradient;

verus! {

/// The reference aggregation coordinator.
#[derive(Default)]
pub struct PrimeCoordinatorAdapter;

impl PrimeCoordinatorAdapter {
    /// The coordinator.
    pub fn new() -> (r: PrimeCoordinatorAdapter)
        ensures
            r == PrimeCoordinatorAdapter,
    {
        PrimeCoordinatorAdapter
    }
}

/// All gradients have dimensionality `dim`.
pub open spec fn all_of_dimension(gradients: Seq<Gradient>, dim: nat) -> bool {
    forall|i: int| 0 <= i < gradients.len() ==> #[trigger] gradients[i]@.len() == dim
}

/// Validate a round: the shared dimensionality of a non-empty set of gradients. An empty round
/// and a round mixing dimensionalities are refused.
pub fn aggregation_dimension(gradients: &Vec<Gradient>) -> (r: Result<usize, DomainError>)
    ensures
        gradients@.len() == 0 ==> (r matches Err(DomainError::Invalid(m)) && m@
            == "cannot aggregate zero gradients"@),
        gradients@.len() > 0 && !all_of_dimension(gradients@, gradients@[0]@.len()) ==> (r matches Err(
            DomainError::Invalid(m),
        ) && m@ == "gradients must share dimensionality"@),
        gradients@.len() > 0 && all_of_dimension(gradients@, gradients@[0]@.len()) ==> r == Ok::<
            usize,
            DomainError,
        >(gradients@[0]@.len() as usize),
        r matches Ok(dim) ==> gradients@.len() > 0 && dim == gradients@[0]@.len()
            && all_of_dimension(gradients@, dim as nat),
{
    if gradients.len() == 0 {
        return Err(DomainError::Invalid(String::from_str("cannot aggregate zero gradients")));
    }
    let dim = gradients[0].len();
    let mut i: usize = 0;
    while i < gradients.len()
        invariant
            0 < gradients@.len(),
            dim == gradients@[0]@.len(),
            i <= gradients@.len(),
            forall|j: int| 0 <= j < i ==> #[trigger] gradients@[j]@.len() == dim,
        decreases gradients.len() - i,
    {
        if gradients[i].len() != dim {
            return Err(
                DomainError::Invalid(String::from_str("gradients must share dimensionality")),
            );
        }
        i = i + 1;
    }
    Ok(dim)
}

/// The `i`-th coordinate of every gradient, in round order.
pub fn column_of(gradients: &Vec<Gradient>, i: usize) -> (r: Vec<Binary32>)
    requires
        forall|j: int| 0 <= j < gradients@.len() ==> i < (#[trigger] gradients@[j])@.len(),
    ensures
        r@.len() == gradients@.len(),
        forall|j: int| 0 <= j < gradients@.len() ==> r@[j] == (#[trigger] gradients@[j])@[i as int],
{
    let mut out: Vec<Binary32> = Vec::new();
    let mut j: usize = 0;
    while j < gradients.len()
        invariant
            j <= gradients@.len(),
            forall|k: int| 0 <= k < gradients@.len() ==> i < (#[trigger] gradients@[k])@.len(),
            out@.len() == j,
            forall|k: int| 0 <= k < j ==> out@[k] == (#[trigger] gradients@[k])@[i as int],
        decreases gradients.len() - j,
    {
        let g = &gradients[j];
        let v = g.as_slice()[i];
        out.push(v);
        j = j + 1;
    }
    out
}

/// The bounds `[lo, hi)` of a sorted column that the trimmed mean averages: the lowest and the
/// highest value are dropped when there are more than two samples.
pub fn trimmed_bounds(len: usize) -> (r: (usize, usize))
    ensures
        len > 2 ==> r == (1usize, (len - 1) as usize),
        len <= 2 ==> r == (0usize, len),
{
    if len > 2 {
        (1, len - 1)
    } else {
        (0, len)
    }
}

/// No value of the column is a NaN.
pub open spec fn no_nan(s: Seq<Binary32>) -> bool {
    forall|i: int| 0 <= i < s.len() ==> !nan(#[trigger] s[i])
}

/// The values are in ascending IEEE order.
pub open spec fn ascending(s: Seq<Binary32>) -> bool {
    forall|a: int, b: int| 0 <= a < b < s.len() ==> order_key(#[trigger] s[a]) <= order_key(#[trigger] s[b])
}

/// `perm` maps `n` positions one-to-one onto `0 .. n`.
pub open spec fn index_permutation(perm: Seq<int>, n: nat) -> bool {
    &&& perm.len() == n
    &&& forall|k: int| 0 <= k < n ==> 0 <= #[trigger] perm[k] < n
    &&& forall|a: int, b: int| 0 <= a < b < n ==> #[trigger] perm[a] != #[trigger] perm[b]
}

/// `sorted` holds the values of `column` in ascending order, equal values keeping their order
/// in `column` (a stable sort).
pub open spec fn stable_sort_of(sorted: Seq<Binary32>, column: Seq<Binary32>) -> bool {
    &&& sorted.len() == column.len()
    &&& ascending(sorted)
    &&& exists|perm: Seq<int>|
        #![trigger index_permutation(perm, column.len())]
        index_permutation(perm, column.len()) && (forall|k: int|
            0 <= k < sorted.len() ==> #[trigger] sorted[k] == column[perm[k]]) && (forall|a: int, b: int|
            0 <= a < b < sorted.len() && order_key(#[trigger] sorted[a]) == order_key(
                #[trigger] sorted[b],
            ) ==> perm[a] < perm[b])
}

/// Sort a column of a round into ascending order, stably. A NaN has no place in that order.
pub fn sort_column(column: &Vec<Binary32>) -> (r: Vec<Binary32>)
    requires
        no_nan(column@),
    ensures
        stable_sort_of(r@, column@),
{
    let mut out: Vec<Binary32> = Vec::new();
    let ghost mut perm: Seq<int> = Seq::empty();
    let mut k: usize = 0;
    while k < column.len()
        invariant
            k <= column@.len(),
            no_nan(column@),
            out@.len() == k,
            ascending(out@),
            index_permutation(perm, k as nat),
            forall|t: int| 0 <= t < k ==> #[trigger] out@[t] == column@[perm[t]],
            forall|a: int, b: int|
                0 <= a < b < k && order_key(#[trigger] out@[a]) == order_key(#[trigger] out@[b])
                    ==> perm[a] < perm[b],
        decreases column.len() - k,
    {
        let x = column[k];
        assert(!nan(x));
        let mut p: usize = 0;
        while p < out.len() && !x.lt(out[p])
            invariant
                p <= out@.len(),
                !nan(x),
                out@.len() == k,
                k < column@.len(),
                no_nan(column@),
                index_permutation(perm, k as nat),
                forall|t: int| 0 <= t < k ==> #[trigger] out@[t] == column@[perm[t]],
                forall|t: int| 0 <= t < p ==> order_key(#[trigger] out@[t]) <= order_key(x),
            decreases out.len() - p,
        {
            assert(!nan(out@[p as int])) by {
                assert(out@[p as int] == column@[perm[p as int]]);
            }
            p = p + 1;
        }
        proof {
            if p < out@.len() {
                assert(!nan(out@[p as int])) by {
                    assert(out@[p as int] == column@[perm[p as int]]);
                }
            }
        }
        let ghost old_out = out@;
        let ghost old_perm = perm;
        out.insert(p, x);
        proof {
            perm = old_perm.insert(p as int, k as int);
            assert(out@ == old_out.insert(p as int, x));
            assert forall|a: int, b: int| 0 <= a < b < out@.len() implies order_key(
                #[trigger] out@[a],
            ) <= order_key(#[trigger] out@[b]) by {
                if b < p {
                } else if b == p {
                    assert(out@[a] == old_out[a]);
                } else if a == p {
                    assert(out@[b] == old_out[b - 1]);
                    assert(p < old_out.len());
                    assert(order_key(x) < order_key(old_out[p as int]));
                    if b - 1 > p {
                        assert(order_key(old_out[p as int]) <= order_key(old_out[b - 1]));
                    }
                } else if a < p {
                    assert(out@[a] == old_out[a] && out@[b] == old_out[b - 1]);
                } else {
                    assert(out@[a] == old_out[a - 1] && out@[b] == old_out[b - 1]);
                }
            }
            assert forall|t: int| 0 <= t < k + 1 implies #[trigger] out@[t] == column@[perm[t]] by {
                if t < p {
                    assert(out@[t] == old_out[t] && perm[t] == old_perm[t]);
                } else if t == p {
                } else {
                    assert(out@[t] == old_out[t - 1] && perm[t] == old_perm[t - 1]);
                }
            }
            assert forall|t: int| 0 <= t < k + 1 implies 0 <= #[trigger] perm[t] < k + 1 by {
                if t < p {
                    assert(perm[t] == old_perm[t]);
                } else if t > p {
                    assert(perm[t] == old_perm[t - 1]);
                }
            }
            assert forall|a: int, b: int| 0 <= a < b < k + 1 implies #[trigger] perm[a]
                != #[trigger] perm[b] by {
                if b < p {
                    assert(perm[a] == old_perm[a] && perm[b] == old_perm[b]);
                } else if b == p {
                    assert(perm[a] == old_perm[a]);
                } else if a == p {
                    assert(perm[b] == old_perm[b - 1]);
                } else if a < p {
                    assert(perm[a] == old_perm[a] && perm[b] == old_perm[b - 1]);
                } else {
                    assert(perm[a] == old_perm[a - 1] && perm[b] == old_perm[b - 1]);
                }
            }
            assert forall|a: int, b: int|
                0 <= a < b < k + 1 && order_key(#[trigger] out@[a]) == order_key(
                    #[trigger] out@[b],
                ) implies perm[a] < perm[b] by {
                if b < p {
                    assert(out@[a] == old_out[a] && out@[b] == old_out[b]);
                    assert(perm[a] == old_perm[a] && perm[b] == old_perm[b]);
                } else if b == p {
                    assert(perm[a] == old_perm[a]);
                } else if a == p {
                    assert(out@[b] == old_out[b - 1]);
                    assert(order_key(x) < order_key(old_out[p as int]));
                    if b - 1 > p {
                        assert(order_key(old_out[p as int]) <= order_key(old_out[b - 1]));
                    }
                    assert(false);
                } else if a < p {
                    assert(out@[a] == old_out[a] && out@[b] == old_out[b - 1]);
                    assert(perm[a] == old_perm[a] && perm[b] == old_perm[b - 1]);
                } else {
                    assert(out@[a] == old_out[a - 1] && out@[b] == old_out[b - 1]);
                    assert(perm[a] == old_perm[a - 1] && perm[b] == old_perm[b - 1]);
                }
            }
        }
        k = k + 1;
    }
    proof {
        assert(index_permutation(perm, column@.len()));
    }
    out
}

/// Law (Byzantine robustness of the trimmed mean): once a column of more than two values is
/// sorted, the window that `trimmed_bounds` keeps holds only values strictly below a value that
/// exceeds every other value of the column, and only values strictly above one that is exceeded
/// by every other. A lone outlier, high or low, never reaches the average.
pub proof fn law_trim_excludes_a_lone_extreme(column: Seq<Binary32>, sorted: Seq<Binary32>, i: int, k: int)
    requires
        no_nan(column),
        stable_sort_of(sorted, column),
        column.len() > 2,
        0 <= i < column.len(),
        1 <= k < column.len() - 1,
    ensures
        (forall|j: int| 0 <= j < column.len() && j != i ==> order_key(#[trigger] column[j]) < order_key(
            column[i],
        )) ==> order_key(sorted[k]) < order_key(column[i]),
        (forall|j: int| 0 <= j < column.len() && j != i ==> order_key(#[trigger] column[j]) > order_key(
            column[i],
        )) ==> order_key(sorted[k]) > order_key(column[i]),
{
    let n = column.len();
    let perm = choose|perm: Seq<int>|
        #![trigger index_permutation(perm, column.len())]
        index_permutation(perm, column.len()) && (forall|t: int|
            0 <= t < sorted.len() ==> #[trigger] sorted[t] == column[perm[t]]) && (forall|a: int, b: int|
            0 <= a < b < sorted.len() && order_key(#[trigger] sorted[a]) == order_key(
                #[trigger] sorted[b],
            ) ==> perm[a] < perm[b]);
    assert(sorted[k] == column[perm[k]]);
    assert(sorted[n - 1] == column[perm[n - 1]]);
    assert(sorted[0] == column[perm[0]]);
    assert(perm[k] != perm[n - 1]);
    assert(perm[k] != perm[0]);
    assert(order_key(sorted[k]) <= order_key(sorted[n - 1]));
    assert(order_key(sorted[0]) <= order_key(sorted[k]));
    if forall|j: int| 0 <= j < column.len() && j != i ==> order_key(#[trigger] column[j]) < order_key(
        column[i],
    ) {
        if order_key(sorted[k]) >= order_key(column[i]) {
            if perm[k] != i {
                assert(order_key(column[perm[k]]) < order_key(column[i]));
            }
            if perm[n - 1] != i {
                assert(order_key(column[perm[n - 1]]) < order_key(column[i]));
            }
            assert(false);
        }
    }
    if forall|j: int| 0 <= j < column.len() && j != i ==> order_key(#[trigger] column[j]) > order_key(
        column[i],
    ) {
        if order_key(sorted[k]) <= order_key(column[i]) {
            if perm[k] != i {
                assert(order_key(column[perm[k]]) > order_key(column[i]));
            }
            if perm[0] != i {
                assert(order_key(column[perm[0]]) > order_key(column[i]));
            }
            assert(false);
        }
    }
}

} // verus!
