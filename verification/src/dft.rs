use vstd::prelude::*;

use num_complex::Complex32;
use crate::sums::weighted_sum;
use crate::sums::wsum;

verus! {

/// The forward transform's summation stage.
///
/// `x` is the time series already lifted to complex values, and `rows[k]`
/// holds the exponential factor of every term of output bin `k` (the factor
/// at angle `-2*pi*k*n/N` for term `n`). Bin `k` of the result is exactly
/// the multiply–accumulate of `x` against `rows[k]`; an empty time series
/// yields an empty bin sequence and no division or summation at all.
pub fn dft_sums(x: &[Complex32], rows: &[Vec<Complex32>]) -> (r: Vec<Complex32>)
    requires
        rows@.len() == x@.len(),
        forall|k: int| 0 <= k < rows@.len() ==> (#[trigger] rows@[k])@.len() == x@.len(),
    ensures
        r@.len() == x@.len(),
        forall|k: int| 0 <= k < r@.len() ==> #[trigger] r@[k] == wsum(
            x@,
            rows@[k]@,
            x@.len() as int,
        ),
{
    let mut out: Vec<Complex32> = Vec::new();
    let mut k: usize = 0;
    while k < rows.len()
        invariant
            k <= rows@.len(),
            rows@.len() == x@.len(),
            forall|j: int| 0 <= j < rows@.len() ==> (#[trigger] rows@[j])@.len() == x@.len(),
            out@.len() == k as int,
            forall|j: int| 0 <= j < k as int ==> #[trigger] out@[j] == wsum(
                x@,
                rows@[j]@,
                x@.len() as int,
            ),
        decreases rows@.len() - k,
    {
        let bin = weighted_sum(x, rows[k].as_slice());
        out.push(bin);
        k = k + 1;
    }
    out
}

} // verus!
