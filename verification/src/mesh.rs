//! Reading flat C arrays of triples: mesh vertices (3 scalars each) and triangles
//! (3 vertex indices each).

use vstd::prelude::*;

verus! {

/// The `k`-th triple of a flat sequence: its elements `3k`, `3k + 1`, `3k + 2`.
pub open spec fn triple_at<T>(flat: Seq<T>, k: int) -> Seq<T> {
    seq![flat[3 * k], flat[3 * k + 1], flat[3 * k + 2]]
}

/// The number of scalars that `count` triples take, if it fits in a `usize`.
pub fn scalar_len(count: usize) -> (r: Option<usize>)
    ensures
        r == (if count * 3 <= usize::MAX { Some((count * 3) as usize) } else { None }),
{
    count.checked_mul(3)
}

/// The first `count` triples of `flat`, in order.
pub fn group_triples<T: Copy>(flat: &[T], count: usize) -> (r: Vec<[T; 3]>)
    requires
        count * 3 <= flat@.len(),
    ensures
        r@.len() == count,
        forall|k: int| 0 <= k < count ==> (#[trigger] r@[k])@ == triple_at(flat@, k),
{
    let mut r: Vec<[T; 3]> = Vec::new();
    let n: usize = flat.len();
    let mut k: usize = 0;
    while k < count
        invariant
            k <= count,
            count * 3 <= flat@.len(),
            n == flat@.len(),
            r@.len() == k,
            forall|j: int| 0 <= j < k ==> (#[trigger] r@[j])@ == triple_at(flat@, j),
        decreases count - k,
    {
        assert(3 * k + 2 < flat@.len()) by (nonlinear_arith)
            requires k < count, count * 3 <= n, n == flat@.len();
        let b: usize = 3 * k;
        let t: [T; 3] = [flat[b], flat[b + 1], flat[b + 2]];
        assert(t@ == triple_at(flat@, k as int));
        r.push(t);
        k = k + 1;
    }
    r
}

} // verus!
