use vstd::prelude::*;

use num_complex::Complex32;

verus! {

/// `num_complex::Complex<T>` carried as an opaque value: the library never
/// reads a component of a complex number, it only combines whole values
/// through the two arithmetic wrappers below.
#[verifier::external_type_specification]
#[verifier::external_body]
#[verifier::reject_recursive_types(T)]
pub struct ExComplex<T>(num_complex::Complex<T>);

pub uninterp spec fn cadd_val(a: Complex32, b: Complex32) -> Complex32;

pub uninterp spec fn cmul_val(a: Complex32, b: Complex32) -> Complex32;

/// Relies on `num_complex`'s `Add` impl for `Complex32`: componentwise
/// addition of the two operands, a pure function of its arguments, named
/// `cadd_val` here.
#[verifier::external_body]
pub(crate) fn cadd(a: Complex32, b: Complex32) -> (r: Complex32)
    ensures
        r == cadd_val(a, b),
{
    a + b
}

/// Relies on `num_complex`'s `Mul` impl for `Complex32`: the usual complex
/// product `(a.re*b.re - a.im*b.im, a.re*b.im + a.im*b.re)`, a pure function
/// of its arguments, named `cmul_val` here.
#[verifier::external_body]
pub(crate) fn cmul(a: Complex32, b: Complex32) -> (r: Complex32)
    ensures
        r == cmul_val(a, b),
{
    a * b
}

} // verus!
