use vstd::prelude::*;

use num_complex::Complex32;
use crate::sums::weighted_sum;
use crate::sums::wsum;
use vstd::arithmetic::div_mod::lemma_add_mod_noop;
use vstd::arithmetic::div_mod::lemma_mod_add_multiples_vanish;
use vstd::arithmetic::div_mod::lemma_small_mod;

verus! {

/// A frequency-bin driven signal generator: the summation side of the
/// inverse transform, one sample per call.
///
/// It borrows a bin sequence of length `N >= 1` and keeps one piece of
/// state, a cursor in `[0, N)` that advances by one, wrapping modulo `N`,
/// each time a sample is produced. The bins themselves are never changed.
pub struct SignalGenerator<'b> {
    bins: &'b [Complex32],
    index: usize,
}

impl<'b> SignalGenerator<'b> {
    /// The borrowed bin sequence.
    pub closed spec fn spec_bins(&self) -> Seq<Complex32> {
        self.bins@
    }

    /// The cursor: the time index of the sample the next call produces.
    pub closed spec fn spec_index(&self) -> int {
        self.index as int
    }

    /// A generator is well formed when it holds at least one bin and its
    /// cursor lies inside the bin sequence.
    pub open spec fn wf(&self) -> bool {
        &&& self.spec_bins().len() >= 1
        &&& 0 <= self.spec_index() < self.spec_bins().len()
    }

    /// Build a generator over `bins` with the cursor at zero.
    ///
    /// An empty bin sequence is rejected here, explicitly and exactly:
    /// every later sample divides work by the bin count, so construction
    /// fails fast instead of deferring the fault to first use.
    pub fn new(bins: &'b [Complex32]) -> (r: Option<Self>)
        ensures
            r is Some <==> bins@.len() >= 1,
            r matches Some(g) ==> g.wf() && g.spec_bins() == bins@ && g.spec_index() == 0,
    {
        if bins.len() == 0 {
            None
        } else {
            Some(SignalGenerator { bins, index: 0 })
        }
    }

    /// The number of bins, `N`.
    pub fn len(&self) -> (n: usize)
        ensures
            n == self.spec_bins().len(),
    {
        self.bins.len()
    }

    /// The current cursor value.
    pub fn index(&self) -> (n: usize)
        ensures
            n == self.spec_index(),
    {
        self.index
    }

    /// Produce the sample at the current cursor and advance the cursor by
    /// one, wrapping modulo the bin count.
    ///
    /// `factors` holds one inverse-transform factor per bin for the current
    /// cursor value `n`: the caller supplies the scaled exponential
    /// `(1/N) * e^(i*2*pi*k*n/N)` at position `k`. The sample returned is
    /// exactly the multiply–accumulate of the bins against those factors,
    /// and the bins are left untouched.
    pub fn next(&mut self, factors: &[Complex32]) -> (r: Complex32)
        requires
            old(self).wf(),
            factors@.len() == old(self).spec_bins().len(),
        ensures
            final(self).wf(),
            final(self).spec_bins() == old(self).spec_bins(),
            final(self).spec_index() == (old(self).spec_index() + 1) % (
            old(self).spec_bins().len() as int),
            r == wsum(old(self).spec_bins(), factors@, old(self).spec_bins().len() as int),
    {
        let r = weighted_sum(self.bins, factors);
        let n = self.bins.len();
        self.index = (self.index + 1) % n;
        r
    }
}

/// The cursor value a generator holds after producing `steps` samples,
/// starting from cursor `start` over `n` bins: each sample moves the cursor
/// by one, wrapping modulo `n`.
pub open spec fn cursor_after(start: int, steps: int, n: int) -> int
    recommends
        0 <= start < n,
        0 <= steps,
    decreases steps,
{
    if steps <= 0 {
        start
    } else {
        (cursor_after(start, steps - 1, n) + 1) % n
    }
}

/// Stepping the cursor one sample at a time adds up: after `steps` samples
/// the cursor stands at `(start + steps) % n`.
pub proof fn lemma_cursor_after_linear(start: int, steps: int, n: int)
    requires
        n >= 1,
        0 <= start < n,
        0 <= steps,
    ensures
        cursor_after(start, steps, n) == (start + steps) % n,
    decreases steps,
{
    if steps == 0 {
        lemma_small_mod(start as nat, n as nat);
    } else {
        lemma_cursor_after_linear(start, steps - 1, n);
        if n == 1 {
            assert(cursor_after(start, steps, n) == (start + steps) % n) by (nonlinear_arith)
                requires
                    n == 1,
                    cursor_after(start, steps, n) == (cursor_after(start, steps - 1, n) + 1) % n,
            ;
        } else {
            lemma_small_mod(1nat, n as nat);
            lemma_add_mod_noop(start + steps - 1, 1, n);
        }
    }
}

/// The generator's cursor is periodic: producing `n` further samples brings
/// it back to where it stood. Together with `next`'s contract — the sample
/// is a fixed function of the bins and the factors for the cursor, and the
/// bins never change — the stream of samples repeats with period `n`.
pub proof fn lemma_cursor_period(start: int, steps: int, n: int)
    requires
        n >= 1,
        0 <= start < n,
        0 <= steps,
    ensures
        cursor_after(start, steps + n, n) == cursor_after(start, steps, n),
{
    lemma_cursor_after_linear(start, steps, n);
    lemma_cursor_after_linear(start, steps + n, n);
    lemma_mod_add_multiples_vanish(start + steps, n);
}

/// The sample a fresh generator over `bins` produces at step `t`, when it
/// is driven by a fixed factor table `rows` that assigns to each cursor
/// value the inverse-transform factors for that time index: by `next`'s
/// contract, the multiply–accumulate of the bins against the row of the
/// cursor the generator holds after `t` earlier samples.
pub open spec fn sample_stream(
    bins: Seq<Complex32>,
    rows: Seq<Seq<Complex32>>,
    t: int,
) -> Complex32
    recommends
        bins.len() >= 1,
        rows.len() == bins.len(),
        0 <= t,
{
    wsum(bins, rows[cursor_after(0, t, bins.len() as int)], bins.len() as int)
}

/// Periodicity of the generated signal: over `N` bins, the sample at step
/// `t + N` equals the sample at step `t`, whatever the bins and the factor
/// table hold — sampling `2N` consecutive values yields the first `N`
/// values repeated, because the cursor wraps modulo `N` and neither the
/// bins nor the table ever changes.
pub proof fn lemma_sample_stream_periodic(
    bins: Seq<Complex32>,
    rows: Seq<Seq<Complex32>>,
    t: int,
)
    requires
        bins.len() >= 1,
        rows.len() == bins.len(),
        0 <= t,
    ensures
        sample_stream(bins, rows, t + bins.len() as int) == sample_stream(bins, rows, t),
{
    lemma_cursor_period(0, t, bins.len() as int);
}

} // verus!
