use vstd::prelude::*;

verus! {

/// Whether a cluster of `size` pixels reaches the speckle-filter area `f * f`.
pub open spec fn reaches_speckle_area(size: int, f: int) -> bool {
    size >= f * f
}

/// Indices `i < n`, in increasing order, whose cluster size reaches the speckle-filter area.
pub open spec fn kept_indices(sizes: Seq<usize>, f: int, n: int) -> Seq<usize>
    decreases n,
{
    if n <= 0 {
        Seq::<usize>::empty()
    } else if reaches_speckle_area(sizes[n - 1] as int, f) {
        kept_indices(sizes, f, n - 1).push((n - 1) as usize)
    } else {
        kept_indices(sizes, f, n - 1)
    }
}

/// Speckle filter test, exact for every size and filter width (no overflow).
pub fn meets_speckle_area(size: usize, filter_speckle: usize) -> (r: bool)
    ensures
        r == reaches_speckle_area(size as int, filter_speckle as int),
{
    if filter_speckle == 0 {
        true
    } else {
        let q = size / filter_speckle;
        proof {
            let f = filter_speckle as int;
            let s = size as int;
            let qi = q as int;
            assert(s == f * qi + s % f) by (nonlinear_arith)
                requires f > 0, qi == s / f;
            assert(0 <= s % f < f) by (nonlinear_arith)
                requires f > 0;
            if qi >= f {
                assert(f * qi >= f * f) by (nonlinear_arith)
                    requires qi >= f, f > 0;
            } else {
                assert(f * qi <= f * (f - 1)) by (nonlinear_arith)
                    requires qi <= f - 1, f > 0;
                assert(f * (f - 1) + f == f * f) by (nonlinear_arith);
            }
        }
        q >= filter_speckle
    }
}

/// Color-mode emission order: the engine's output cluster indices, last first.
pub fn color_emission_order(output: &Vec<u32>) -> (r: Vec<u32>)
    ensures
        r@.len() == output@.len(),
        forall|i: int| 0 <= i < r@.len() ==> #[trigger] r@[i] == output@[output@.len() - 1 - i],
{
    let mut r: Vec<u32> = Vec::new();
    let n = output.len();
    let mut k: usize = n;
    while k > 0
        invariant
            0 <= k <= n,
            n == output@.len(),
            r@.len() == n - k,
            forall|i: int| 0 <= i < r@.len() ==> #[trigger] r@[i] == output@[n - 1 - i],
        decreases k,
    {
        k = k - 1;
        r.push(output[k]);
    }
    r
}

/// Binary-mode emission: the indices of the clusters, in their native order, whose pixel
/// area reaches `filter_speckle * filter_speckle`; the others are dropped.
pub fn binary_emission_indices(sizes: &Vec<usize>, filter_speckle: usize) -> (r: Vec<usize>)
    ensures
        r@ == kept_indices(sizes@, filter_speckle as int, sizes@.len() as int),
        forall|i: int, j: int| 0 <= i < j < r@.len() ==> r@[i] < r@[j],
        forall|i: int| 0 <= i < r@.len() ==> #[trigger] r@[i] < sizes@.len(),
{
    let mut r: Vec<usize> = Vec::new();
    let mut i: usize = 0;
    while i < sizes.len()
        invariant
            0 <= i <= sizes@.len(),
            r@ == kept_indices(sizes@, filter_speckle as int, i as int),
            forall|a: int, b: int| 0 <= a < b < r@.len() ==> r@[a] < r@[b],
            forall|a: int| 0 <= a < r@.len() ==> #[trigger] r@[a] < i,
        decreases sizes@.len() - i,
    {
        if meets_speckle_area(sizes[i], filter_speckle) {
            r.push(i);
        }
        i = i + 1;
    }
    r
}

} // verus!
