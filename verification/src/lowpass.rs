use vstd::prelude::*;

verus! {

/// Whether a single-precision bit pattern encodes a positive cutoff
/// frequency.
///
/// In the IEEE-754 single format, the patterns whose value is a positive
/// number are exactly those with the sign bit clear that are neither zero
/// nor a NaN: the interval from `0x0000_0001` (the smallest subnormal) up
/// to `0x7F80_0000` (positive infinity). Everything above `0x7F80_0000` on
/// the sign-clear side is a NaN, and every pattern with the sign bit set is
/// negative, a NaN, or negative zero.
pub open spec fn valid_cutoff_bits(bits: u32) -> bool {
    0 < bits <= 0x7F80_0000u32
}

/// Decide whether a cutoff frequency, given as the bit pattern of a
/// single-precision number, is admissible for the low-pass filter.
///
/// The filter's smoothing coefficient is `alpha = 1 / (1 + RC)` with
/// `RC = 1 / (cutoff * 2 * pi)`, so a cutoff that is not a positive number
/// is a precondition violation: construction must fail fast here rather
/// than let an undefined coefficient surface as garbage samples later.
pub fn cutoff_is_valid(bits: u32) -> (r: bool)
    ensures
        r == valid_cutoff_bits(bits),
{
    0 < bits && bits <= 0x7F80_0000
}

} // verus!
