use vstd::prelude::*;

use num_complex::Complex32;
use crate::cx::cadd;
use crate::cx::cadd_val;
use crate::cx::cmul;
use crate::cx::cmul_val;

verus! {

/// The complex value that a left-to-right multiply–accumulate over the first
/// `n` positions of `xs` and `ws` produces: the accumulator starts as
/// `xs[0]*ws[0]` and each later position `i` contributes `xs[i]*ws[i]` by one
/// addition on the right.
pub open spec fn wsum(xs: Seq<Complex32>, ws: Seq<Complex32>, n: int) -> Complex32
    recommends
        1 <= n <= xs.len(),
        n <= ws.len(),
    decreases n,
{
    if n <= 1 {
        cmul_val(xs[0], ws[0])
    } else {
        cadd_val(wsum(xs, ws, n - 1), cmul_val(xs[n - 1], ws[n - 1]))
    }
}

/// Multiply each element of `xs` by the element of `ws` at the same position
/// and sum the products left to right.
pub fn weighted_sum(xs: &[Complex32], ws: &[Complex32]) -> (r: Complex32)
    requires
        xs@.len() == ws@.len(),
        xs@.len() >= 1,
    ensures
        r == wsum(xs@, ws@, xs@.len() as int),
{
    let mut acc = cmul(xs[0], ws[0]);
    let mut i: usize = 1;
    while i < xs.len()
        invariant
            1 <= i <= xs@.len(),
            xs@.len() == ws@.len(),
            acc == wsum(xs@, ws@, i as int),
        decreases xs@.len() - i,
    {
        acc = cadd(acc, cmul(xs[i], ws[i]));
        i = i + 1;
    }
    acc
}

} // verus!
