//! The kind registry: the closed family of twelve integer kinds, each
//! paired with its non-zero refinement type and with a witness tag whose
//! active variant identifies the concrete kind.

use vstd::prelude::*;
use typewit::TypeEq;
use crate::eq_witness::type_eq_refl;
use crate::nonzero::{
    NonZeroI8, NonZeroI16, NonZeroI32, NonZeroI64, NonZeroI128, NonZeroIsize,
    NonZeroU8, NonZeroU16, NonZeroU32, NonZeroU64, NonZeroU128, NonZeroUsize,
};

verus! {

/// An integer kind of the closed twelve-kind family.
///
/// Each implementing type is paired with its non-zero refinement type and
/// can produce the witness tag identifying its concrete kind.
pub trait Integer: Copy + Sized {
    /// The refinement type paired with this kind.
    type NonZero;

    /// The value, as a mathematical integer.
    spec fn to_int(self) -> int;

    /// Two values of one kind with the same mathematical value are equal.
    proof fn to_int_injective(a: Self, b: Self)
        requires
            a.to_int() == b.to_int(),
        ensures
            a == b,
    ;

    /// The witness tag of this kind. The active variant carries the
    /// type-equality proofs identifying `Self` and `Self::NonZero` with
    /// the concrete pair of types.
    fn witness() -> IntegerWit<Self, Self::NonZero>;
}

/// A non-zero refinement type of the closed family.
pub trait NonZeroInt: Copy + Sized {
    /// The integer kind this type refines.
    type Zeroable;

    /// The wrapped value, as a mathematical integer.
    spec fn raw_int(self) -> int;

    /// Two values wrapping the same mathematical value are equal.
    proof fn raw_int_injective(a: Self, b: Self)
        requires
            a.raw_int() == b.raw_int(),
        ensures
            a == b,
    ;
}

/// The kind tag: exactly one variant per integer kind. The variant that is
/// active for an instantiation carries equality witnesses identifying the
/// generic parameters `W` and `Z` with that kind's concrete integer type
/// and refinement type.
#[verifier::reject_recursive_types(W)]
#[verifier::reject_recursive_types(Z)]
pub enum IntegerWit<W, Z> {
    I8(TypeEq<W, i8>, TypeEq<Z, NonZeroI8>),
    I16(TypeEq<W, i16>, TypeEq<Z, NonZeroI16>),
    I32(TypeEq<W, i32>, TypeEq<Z, NonZeroI32>),
    I64(TypeEq<W, i64>, TypeEq<Z, NonZeroI64>),
    I128(TypeEq<W, i128>, TypeEq<Z, NonZeroI128>),
    Isize(TypeEq<W, isize>, TypeEq<Z, NonZeroIsize>),
    U8(TypeEq<W, u8>, TypeEq<Z, NonZeroU8>),
    U16(TypeEq<W, u16>, TypeEq<Z, NonZeroU16>),
    U32(TypeEq<W, u32>, TypeEq<Z, NonZeroU32>),
    U64(TypeEq<W, u64>, TypeEq<Z, NonZeroU64>),
    U128(TypeEq<W, u128>, TypeEq<Z, NonZeroU128>),
    Usize(TypeEq<W, usize>, TypeEq<Z, NonZeroUsize>),
}

impl Integer for i8 {
    type NonZero = NonZeroI8;

    open spec fn to_int(self) -> int {
        self as int
    }

    proof fn to_int_injective(a: i8, b: i8) {
    }

    fn witness() -> IntegerWit<i8, NonZeroI8> {
        IntegerWit::I8(type_eq_refl(), type_eq_refl())
    }
}

impl Integer for i16 {
    type NonZero = NonZeroI16;

    open spec fn to_int(self) -> int {
        self as int
    }

    proof fn to_int_injective(a: i16, b: i16) {
    }

    fn witness() -> IntegerWit<i16, NonZeroI16> {
        IntegerWit::I16(type_eq_refl(), type_eq_refl())
    }
}

impl Integer for i32 {
    type NonZero = NonZeroI32;

    open spec fn to_int(self) -> int {
        self as int
    }

    proof fn to_int_injective(a: i32, b: i32) {
    }

    fn witness() -> IntegerWit<i32, NonZeroI32> {
        IntegerWit::I32(type_eq_refl(), type_eq_refl())
    }
}

impl Integer for i64 {
    type NonZero = NonZeroI64;

    open spec fn to_int(self) -> int {
        self as int
    }

    proof fn to_int_injective(a: i64, b: i64) {
    }

    fn witness() -> IntegerWit<i64, NonZeroI64> {
        IntegerWit::I64(type_eq_refl(), type_eq_refl())
    }
}

impl Integer for i128 {
    type NonZero = NonZeroI128;

    open spec fn to_int(self) -> int {
        self as int
    }

    proof fn to_int_injective(a: i128, b: i128) {
    }

    fn witness() -> IntegerWit<i128, NonZeroI128> {
        IntegerWit::I128(type_eq_refl(), type_eq_refl())
    }
}

impl Integer for isize {
    type NonZero = NonZeroIsize;

    open spec fn to_int(self) -> int {
        self as int
    }

    proof fn to_int_injective(a: isize, b: isize) {
    }

    fn witness() -> IntegerWit<isize, NonZeroIsize> {
        IntegerWit::Isize(type_eq_refl(), type_eq_refl())
    }
}

impl Integer for u8 {
    type NonZero = NonZeroU8;

    open spec fn to_int(self) -> int {
        self as int
    }

    proof fn to_int_injective(a: u8, b: u8) {
    }

    fn witness() -> IntegerWit<u8, NonZeroU8> {
        IntegerWit::U8(type_eq_refl(), type_eq_refl())
    }
}

impl Integer for u16 {
    type NonZero = NonZeroU16;

    open spec fn to_int(self) -> int {
        self as int
    }

    proof fn to_int_injective(a: u16, b: u16) {
    }

    fn witness() -> IntegerWit<u16, NonZeroU16> {
        IntegerWit::U16(type_eq_refl(), type_eq_refl())
    }
}

impl Integer for u32 {
    type NonZero = NonZeroU32;

    open spec fn to_int(self) -> int {
        self as int
    }

    proof fn to_int_injective(a: u32, b: u32) {
    }

    fn witness() -> IntegerWit<u32, NonZeroU32> {
        IntegerWit::U32(type_eq_refl(), type_eq_refl())
    }
}

impl Integer for u64 {
    type NonZero = NonZeroU64;

    open spec fn to_int(self) -> int {
        self as int
    }

    proof fn to_int_injective(a: u64, b: u64) {
    }

    fn witness() -> IntegerWit<u64, NonZeroU64> {
        IntegerWit::U64(type_eq_refl(), type_eq_refl())
    }
}

impl Integer for u128 {
    type NonZero = NonZeroU128;

    open spec fn to_int(self) -> int {
        self as int
    }

    proof fn to_int_injective(a: u128, b: u128) {
    }

    fn witness() -> IntegerWit<u128, NonZeroU128> {
        IntegerWit::U128(type_eq_refl(), type_eq_refl())
    }
}

impl Integer for usize {
    type NonZero = NonZeroUsize;

    open spec fn to_int(self) -> int {
        self as int
    }

    proof fn to_int_injective(a: usize, b: usize) {
    }

    fn witness() -> IntegerWit<usize, NonZeroUsize> {
        IntegerWit::Usize(type_eq_refl(), type_eq_refl())
    }
}

} // verus!
