//! The twelve refinement types, one per primitive integer kind.
//!
//! Each type wraps one primitive integer and maintains the invariant that
//! the wrapped value is never zero. The checked constructors here are the
//! only way to produce a value of these types.

use vstd::prelude::*;
use crate::registry::NonZeroInt;

verus! {

/// Non-zero refinement of `i8`.
#[derive(Clone, Copy)]
pub struct NonZeroI8 {
    raw: i8,
}

impl NonZeroI8 {
    #[verifier::type_invariant]
    spec fn inv(self) -> bool {
        self.raw != 0
    }

    /// Checked constructor: succeeds exactly when `v` is not zero.
    pub fn new(v: i8) -> (r: Option<NonZeroI8>)
        ensures
            r is Some <==> v != 0,
            r matches Some(z) ==> z.raw_int() == v as int,
    {
        if v != 0 {
            Some(NonZeroI8 { raw: v })
        } else {
            None
        }
    }

    /// The wrapped value; never zero.
    pub fn get(self) -> (r: i8)
        ensures
            r as int == self.raw_int(),
            r != 0,
    {
        proof {
            use_type_invariant(&self);
        }
        self.raw
    }
}

impl NonZeroInt for NonZeroI8 {
    type Zeroable = i8;

    closed spec fn raw_int(self) -> int {
        self.raw as int
    }

    proof fn raw_int_injective(a: NonZeroI8, b: NonZeroI8) {
    }
}

/// Non-zero refinement of `i16`.
#[derive(Clone, Copy)]
pub struct NonZeroI16 {
    raw: i16,
}

impl NonZeroI16 {
    #[verifier::type_invariant]
    spec fn inv(self) -> bool {
        self.raw != 0
    }

    /// Checked constructor: succeeds exactly when `v` is not zero.
    pub fn new(v: i16) -> (r: Option<NonZeroI16>)
        ensures
            r is Some <==> v != 0,
            r matches Some(z) ==> z.raw_int() == v as int,
    {
        if v != 0 {
            Some(NonZeroI16 { raw: v })
        } else {
            None
        }
    }

    /// The wrapped value; never zero.
    pub fn get(self) -> (r: i16)
        ensures
            r as int == self.raw_int(),
            r != 0,
    {
        proof {
            use_type_invariant(&self);
        }
        self.raw
    }
}

impl NonZeroInt for NonZeroI16 {
    type Zeroable = i16;

    closed spec fn raw_int(self) -> int {
        self.raw as int
    }

    proof fn raw_int_injective(a: NonZeroI16, b: NonZeroI16) {
    }
}

/// Non-zero refinement of `i32`.
#[derive(Clone, Copy)]
pub struct NonZeroI32 {
    raw: i32,
}

impl NonZeroI32 {
    #[verifier::type_invariant]
    spec fn inv(self) -> bool {
        self.raw != 0
    }

    /// Checked constructor: succeeds exactly when `v` is not zero.
    pub fn new(v: i32) -> (r: Option<NonZeroI32>)
        ensures
            r is Some <==> v != 0,
            r matches Some(z) ==> z.raw_int() == v as int,
    {
        if v != 0 {
            Some(NonZeroI32 { raw: v })
        } else {
            None
        }
    }

    /// The wrapped value; never zero.
    pub fn get(self) -> (r: i32)
        ensures
            r as int == self.raw_int(),
            r != 0,
    {
        proof {
            use_type_invariant(&self);
        }
        self.raw
    }
}

impl NonZeroInt for NonZeroI32 {
    type Zeroable = i32;

    closed spec fn raw_int(self) -> int {
        self.raw as int
    }

    proof fn raw_int_injective(a: NonZeroI32, b: NonZeroI32) {
    }
}

/// Non-zero refinement of `i64`.
#[derive(Clone, Copy)]
pub struct NonZeroI64 {
    raw: i64,
}

impl NonZeroI64 {
    #[verifier::type_invariant]
    spec fn inv(self) -> bool {
        self.raw != 0
    }

    /// Checked constructor: succeeds exactly when `v` is not zero.
    pub fn new(v: i64) -> (r: Option<NonZeroI64>)
        ensures
            r is Some <==> v != 0,
            r matches Some(z) ==> z.raw_int() == v as int,
    {
        if v != 0 {
            Some(NonZeroI64 { raw: v })
        } else {
            None
        }
    }

    /// The wrapped value; never zero.
    pub fn get(self) -> (r: i64)
        ensures
            r as int == self.raw_int(),
            r != 0,
    {
        proof {
            use_type_invariant(&self);
        }
        self.raw
    }
}

impl NonZeroInt for NonZeroI64 {
    type Zeroable = i64;

    closed spec fn raw_int(self) -> int {
        self.raw as int
    }

    proof fn raw_int_injective(a: NonZeroI64, b: NonZeroI64) {
    }
}

/// Non-zero refinement of `i128`.
#[derive(Clone, Copy)]
pub struct NonZeroI128 {
    raw: i128,
}

impl NonZeroI128 {
    #[verifier::type_invariant]
    spec fn inv(self) -> bool {
        self.raw != 0
    }

    /// Checked constructor: succeeds exactly when `v` is not zero.
    pub fn new(v: i128) -> (r: Option<NonZeroI128>)
        ensures
            r is Some <==> v != 0,
            r matches Some(z) ==> z.raw_int() == v as int,
    {
        if v != 0 {
            Some(NonZeroI128 { raw: v })
        } else {
            None
        }
    }

    /// The wrapped value; never zero.
    pub fn get(self) -> (r: i128)
        ensures
            r as int == self.raw_int(),
            r != 0,
    {
        proof {
            use_type_invariant(&self);
        }
        self.raw
    }
}

impl NonZeroInt for NonZeroI128 {
    type Zeroable = i128;

    closed spec fn raw_int(self) -> int {
        self.raw as int
    }

    proof fn raw_int_injective(a: NonZeroI128, b: NonZeroI128) {
    }
}

/// Non-zero refinement of `isize`.
#[derive(Clone, Copy)]
pub struct NonZeroIsize {
    raw: isize,
}

impl NonZeroIsize {
    #[verifier::type_invariant]
    spec fn inv(self) -> bool {
        self.raw != 0
    }

    /// Checked constructor: succeeds exactly when `v` is not zero.
    pub fn new(v: isize) -> (r: Option<NonZeroIsize>)
        ensures
            r is Some <==> v != 0,
            r matches Some(z) ==> z.raw_int() == v as int,
    {
        if v != 0 {
            Some(NonZeroIsize { raw: v })
        } else {
            None
        }
    }

    /// The wrapped value; never zero.
    pub fn get(self) -> (r: isize)
        ensures
            r as int == self.raw_int(),
            r != 0,
    {
        proof {
            use_type_invariant(&self);
        }
        self.raw
    }
}

impl NonZeroInt for NonZeroIsize {
    type Zeroable = isize;

    closed spec fn raw_int(self) -> int {
        self.raw as int
    }

    proof fn raw_int_injective(a: NonZeroIsize, b: NonZeroIsize) {
    }
}

/// Non-zero refinement of `u8`.
#[derive(Clone, Copy)]
pub struct NonZeroU8 {
    raw: u8,
}

impl NonZeroU8 {
    #[verifier::type_invariant]
    spec fn inv(self) -> bool {
        self.raw != 0
    }

    /// Checked constructor: succeeds exactly when `v` is not zero.
    pub fn new(v: u8) -> (r: Option<NonZeroU8>)
        ensures
            r is Some <==> v != 0,
            r matches Some(z) ==> z.raw_int() == v as int,
    {
        if v != 0 {
            Some(NonZeroU8 { raw: v })
        } else {
            None
        }
    }

    /// The wrapped value; never zero.
    pub fn get(self) -> (r: u8)
        ensures
            r as int == self.raw_int(),
            r != 0,
    {
        proof {
            use_type_invariant(&self);
        }
        self.raw
    }
}

impl NonZeroInt for NonZeroU8 {
    type Zeroable = u8;

    closed spec fn raw_int(self) -> int {
        self.raw as int
    }

    proof fn raw_int_injective(a: NonZeroU8, b: NonZeroU8) {
    }
}

/// Non-zero refinement of `u16`.
#[derive(Clone, Copy)]
pub struct NonZeroU16 {
    raw: u16,
}

impl NonZeroU16 {
    #[verifier::type_invariant]
    spec fn inv(self) -> bool {
        self.raw != 0
    }

    /// Checked constructor: succeeds exactly when `v` is not zero.
    pub fn new(v: u16) -> (r: Option<NonZeroU16>)
        ensures
            r is Some <==> v != 0,
            r matches Some(z) ==> z.raw_int() == v as int,
    {
        if v != 0 {
            Some(NonZeroU16 { raw: v })
        } else {
            None
        }
    }

    /// The wrapped value; never zero.
    pub fn get(self) -> (r: u16)
        ensures
            r as int == self.raw_int(),
            r != 0,
    {
        proof {
            use_type_invariant(&self);
        }
        self.raw
    }
}

impl NonZeroInt for NonZeroU16 {
    type Zeroable = u16;

    closed spec fn raw_int(self) -> int {
        self.raw as int
    }

    proof fn raw_int_injective(a: NonZeroU16, b: NonZeroU16) {
    }
}

/// Non-zero refinement of `u32`.
#[derive(Clone, Copy)]
pub struct NonZeroU32 {
    raw: u32,
}

impl NonZeroU32 {
    #[verifier::type_invariant]
    spec fn inv(self) -> bool {
        self.raw != 0
    }

    /// Checked constructor: succeeds exactly when `v` is not zero.
    pub fn new(v: u32) -> (r: Option<NonZeroU32>)
        ensures
            r is Some <==> v != 0,
            r matches Some(z) ==> z.raw_int() == v as int,
    {
        if v != 0 {
            Some(NonZeroU32 { raw: v })
        } else {
            None
        }
    }

    /// The wrapped value; never zero.
    pub fn get(self) -> (r: u32)
        ensures
            r as int == self.raw_int(),
            r != 0,
    {
        proof {
            use_type_invariant(&self);
        }
        self.raw
    }
}

impl NonZeroInt for NonZeroU32 {
    type Zeroable = u32;

    closed spec fn raw_int(self) -> int {
        self.raw as int
    }

    proof fn raw_int_injective(a: NonZeroU32, b: NonZeroU32) {
    }
}

/// Non-zero refinement of `u64`.
#[derive(Clone, Copy)]
pub struct NonZeroU64 {
    raw: u64,
}

impl NonZeroU64 {
    #[verifier::type_invariant]
    spec fn inv(self) -> bool {
        self.raw != 0
    }

    /// Checked constructor: succeeds exactly when `v` is not zero.
    pub fn new(v: u64) -> (r: Option<NonZeroU64>)
        ensures
            r is Some <==> v != 0,
            r matches Some(z) ==> z.raw_int() == v as int,
    {
        if v != 0 {
            Some(NonZeroU64 { raw: v })
        } else {
            None
        }
    }

    /// The wrapped value; never zero.
    pub fn get(self) -> (r: u64)
        ensures
            r as int == self.raw_int(),
            r != 0,
    {
        proof {
            use_type_invariant(&self);
        }
        self.raw
    }
}

impl NonZeroInt for NonZeroU64 {
    type Zeroable = u64;

    closed spec fn raw_int(self) -> int {
        self.raw as int
    }

    proof fn raw_int_injective(a: NonZeroU64, b: NonZeroU64) {
    }
}

/// Non-zero refinement of `u128`.
#[derive(Clone, Copy)]
pub struct NonZeroU128 {
    raw: u128,
}

impl NonZeroU128 {
    #[verifier::type_invariant]
    spec fn inv(self) -> bool {
        self.raw != 0
    }

    /// Checked constructor: succeeds exactly when `v` is not zero.
    pub fn new(v: u128) -> (r: Option<NonZeroU128>)
        ensures
            r is Some <==> v != 0,
            r matches Some(z) ==> z.raw_int() == v as int,
    {
        if v != 0 {
            Some(NonZeroU128 { raw: v })
        } else {
            None
        }
    }

    /// The wrapped value; never zero.
    pub fn get(self) -> (r: u128)
        ensures
            r as int == self.raw_int(),
            r != 0,
    {
        proof {
            use_type_invariant(&self);
        }
        self.raw
    }
}

impl NonZeroInt for NonZeroU128 {
    type Zeroable = u128;

    closed spec fn raw_int(self) -> int {
        self.raw as int
    }

    proof fn raw_int_injective(a: NonZeroU128, b: NonZeroU128) {
    }
}

/// Non-zero refinement of `usize`.
#[derive(Clone, Copy)]
pub struct NonZeroUsize {
    raw: usize,
}

impl NonZeroUsize {
    #[verifier::type_invariant]
    spec fn inv(self) -> bool {
        self.raw != 0
    }

    /// Checked constructor: succeeds exactly when `v` is not zero.
    pub fn new(v: usize) -> (r: Option<NonZeroUsize>)
        ensures
            r is Some <==> v != 0,
            r matches Some(z) ==> z.raw_int() == v as int,
    {
        if v != 0 {
            Some(NonZeroUsize { raw: v })
        } else {
            None
        }
    }

    /// The wrapped value; never zero.
    pub fn get(self) -> (r: usize)
        ensures
            r as int == self.raw_int(),
            r != 0,
    {
        proof {
            use_type_invariant(&self);
        }
        self.raw
    }
}

impl NonZeroInt for NonZeroUsize {
    type Zeroable = usize;

    closed spec fn raw_int(self) -> int {
        self.raw as int
    }

    proof fn raw_int_injective(a: NonZeroUsize, b: NonZeroUsize) {
    }
}

} // verus!
