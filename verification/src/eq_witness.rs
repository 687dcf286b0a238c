//! The type-equality witness capability, supplied by the `typewit` crate.
//!
//! A `TypeEq<L, R>` value can only be constructed (without `unsafe`) when
//! `L` and `R` are the same type, and its two casts are no-ops that return
//! their argument unchanged. The wrappers here state exactly that, over the
//! kind registry's spec functions.

use vstd::prelude::*;
use typewit::TypeEq;
use crate::registry::{Integer, NonZeroInt};

verus! {

#[verifier::external_type_specification]
#[verifier::external_body]
#[verifier::reject_recursive_types(L)]
#[verifier::reject_recursive_types(R)]
pub struct ExTypeEq<L: ?Sized, R: ?Sized>(TypeEq<L, R>);

/// Relies on `typewit::TypeEq::NEW`: the reflexive witness that a type
/// equals itself.
#[verifier::external_body]
pub(crate) fn type_eq_refl<T>() -> (r: TypeEq<T, T>) {
    TypeEq::NEW
}

/// Relies on `typewit::TypeEq::to_right`: a `TypeEq<L, R>` exists only when
/// `L` and `R` are the same type, and the cast is a no-op that returns its
/// argument, so the result stands for the same mathematical integer.
#[verifier::external_body]
pub(crate) fn transport<L: Integer, R: Integer>(te: TypeEq<L, R>, n: L) -> (r: R)
    ensures
        r.to_int() == n.to_int(),
{
    te.to_right(n)
}

/// Relies on `typewit::TypeEq::to_left`: the same no-op cast in the other
/// direction, here carrying a refinement value back to the generic type.
#[verifier::external_body]
pub(crate) fn transport_nonzero<M: NonZeroInt, N: NonZeroInt>(te: TypeEq<M, N>, z: N) -> (r: M)
    ensures
        r.raw_int() == z.raw_int(),
{
    te.to_left(z)
}

} // verus!
