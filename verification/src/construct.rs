//! Generic construction of a non-zero value, dispatched over the closed
//! kind family through the registry's witness tags.

use vstd::prelude::*;
use crate::eq_witness::{transport, transport_nonzero};
use crate::nonzero::{
    NonZeroI8, NonZeroI16, NonZeroI32, NonZeroI64, NonZeroI128, NonZeroIsize,
    NonZeroU8, NonZeroU16, NonZeroU32, NonZeroU64, NonZeroU128, NonZeroUsize,
};
use crate::registry::{Integer, IntegerWit, NonZeroInt};

verus! {

/// The single failure of this library: the supplied value's representation
/// is zero for its kind.
#[derive(Clone, Copy, Debug, PartialEq, Eq, Structural)]
pub struct ZeroValueRejected;

/// Builds the non-zero refinement value of `n`'s kind from `n`.
///
/// Succeeds exactly when `n` is not zero, and the value built wraps
/// exactly `n`. The witness tag of `n`'s kind is fetched from the
/// registry, the active variant's equality proofs carry `n` to its
/// concrete kind and the refinement value back, and the zero check runs
/// on the concrete kind.
pub fn construct_checked<I, NZ>(n: I) -> (r: Result<NZ, ZeroValueRejected>)
    where
        I: Integer<NonZero = NZ>,
        NZ: NonZeroInt<Zeroable = I>,
    ensures
        r is Ok <==> n.to_int() != 0,
        r matches Ok(z) ==> z.raw_int() == n.to_int(),
{
    match I::witness() {
        IntegerWit::I8(te, tz) => {
            let v: i8 = transport(te, n);
            match NonZeroI8::new(v) {
                Some(z) => Ok(transport_nonzero(tz, z)),
                None => Err(ZeroValueRejected),
            }
        }
        IntegerWit::I16(te, tz) => {
            let v: i16 = transport(te, n);
            match NonZeroI16::new(v) {
                Some(z) => Ok(transport_nonzero(tz, z)),
                None => Err(ZeroValueRejected),
            }
        }
        IntegerWit::I32(te, tz) => {
            let v: i32 = transport(te, n);
            match NonZeroI32::new(v) {
                Some(z) => Ok(transport_nonzero(tz, z)),
                None => Err(ZeroValueRejected),
            }
        }
        IntegerWit::I64(te, tz) => {
            let v: i64 = transport(te, n);
            match NonZeroI64::new(v) {
                Some(z) => Ok(transport_nonzero(tz, z)),
                None => Err(ZeroValueRejected),
            }
        }
        IntegerWit::I128(te, tz) => {
            let v: i128 = transport(te, n);
            match NonZeroI128::new(v) {
                Some(z) => Ok(transport_nonzero(tz, z)),
                None => Err(ZeroValueRejected),
            }
        }
        IntegerWit::Isize(te, tz) => {
            let v: isize = transport(te, n);
            match NonZeroIsize::new(v) {
                Some(z) => Ok(transport_nonzero(tz, z)),
                None => Err(ZeroValueRejected),
            }
        }
        IntegerWit::U8(te, tz) => {
            let v: u8 = transport(te, n);
            match NonZeroU8::new(v) {
                Some(z) => Ok(transport_nonzero(tz, z)),
                None => Err(ZeroValueRejected),
            }
        }
        IntegerWit::U16(te, tz) => {
            let v: u16 = transport(te, n);
            match NonZeroU16::new(v) {
                Some(z) => Ok(transport_nonzero(tz, z)),
                None => Err(ZeroValueRejected),
            }
        }
        IntegerWit::U32(te, tz) => {
            let v: u32 = transport(te, n);
            match NonZeroU32::new(v) {
                Some(z) => Ok(transport_nonzero(tz, z)),
                None => Err(ZeroValueRejected),
            }
        }
        IntegerWit::U64(te, tz) => {
            let v: u64 = transport(te, n);
            match NonZeroU64::new(v) {
                Some(z) => Ok(transport_nonzero(tz, z)),
                None => Err(ZeroValueRejected),
            }
        }
        IntegerWit::U128(te, tz) => {
            let v: u128 = transport(te, n);
            match NonZeroU128::new(v) {
                Some(z) => Ok(transport_nonzero(tz, z)),
                None => Err(ZeroValueRejected),
            }
        }
        IntegerWit::Usize(te, tz) => {
            let v: usize = transport(te, n);
            match NonZeroUsize::new(v) {
                Some(z) => Ok(transport_nonzero(tz, z)),
                None => Err(ZeroValueRejected),
            }
        }
    }
}

/// Builds the non-zero refinement value of `n`'s kind from a value that is
/// known not to be zero.
pub fn __nonzero_new_unwrap<I, NZ>(n: I) -> (r: NZ)
    where
        I: Integer<NonZero = NZ>,
        NZ: NonZeroInt<Zeroable = I>,
    requires
        n.to_int() != 0,
    ensures
        r.raw_int() == n.to_int(),
{
    match construct_checked(n) {
        Ok(z) => z,
        Err(_) => vstd::pervasive::unreached(),
    }
}

/// Round-trip identity: for any kind, a refinement value built from `n`
/// reads back as exactly `n`. Here `z` is any value wrapping `n`'s
/// mathematical value (as `construct_checked` ensures of a success), and
/// `back` is what reading `z` returns (as `get` ensures).
pub proof fn lemma_round_trip<I, NZ>(n: I, z: NZ, back: I)
    where
        I: Integer<NonZero = NZ>,
        NZ: NonZeroInt<Zeroable = I>,
    requires
        z.raw_int() == n.to_int(),
        back.to_int() == z.raw_int(),
    ensures
        back == n,
{
    I::to_int_injective(back, n);
}

/// Determinism: for any kind, two refinement values built from the same
/// value are identical; construction has no hidden state.
pub proof fn lemma_construct_deterministic<I, NZ>(n: I, z1: NZ, z2: NZ)
    where
        I: Integer<NonZero = NZ>,
        NZ: NonZeroInt<Zeroable = I>,
    requires
        z1.raw_int() == n.to_int(),
        z2.raw_int() == n.to_int(),
    ensures
        z1 == z2,
{
    NZ::raw_int_injective(z1, z2);
}

} // verus!
