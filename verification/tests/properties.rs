use notzero::{
    construct_checked, NonZeroI8, NonZeroI16, NonZeroI32, NonZeroI64, NonZeroI128,
    NonZeroIsize, NonZeroU8, NonZeroU16, NonZeroU32, NonZeroU64, NonZeroU128,
    NonZeroUsize, ZeroValueRejected,
};

#[test]
fn zero_rejected_every_kind() {
    assert!(matches!(construct_checked::<i8, NonZeroI8>(0), Err(ZeroValueRejected)));
    assert!(matches!(construct_checked::<i16, NonZeroI16>(0), Err(ZeroValueRejected)));
    assert!(matches!(construct_checked::<i32, NonZeroI32>(0), Err(ZeroValueRejected)));
    assert!(matches!(construct_checked::<i64, NonZeroI64>(0), Err(ZeroValueRejected)));
    assert!(matches!(construct_checked::<i128, NonZeroI128>(0), Err(ZeroValueRejected)));
    assert!(matches!(construct_checked::<isize, NonZeroIsize>(0), Err(ZeroValueRejected)));
    assert!(matches!(construct_checked::<u8, NonZeroU8>(0), Err(ZeroValueRejected)));
    assert!(matches!(construct_checked::<u16, NonZeroU16>(0), Err(ZeroValueRejected)));
    assert!(matches!(construct_checked::<u32, NonZeroU32>(0), Err(ZeroValueRejected)));
    assert!(matches!(construct_checked::<u64, NonZeroU64>(0), Err(ZeroValueRejected)));
    assert!(matches!(construct_checked::<u128, NonZeroU128>(0), Err(ZeroValueRejected)));
    assert!(matches!(construct_checked::<usize, NonZeroUsize>(0), Err(ZeroValueRejected)));
}

#[test]
fn boundary_max_every_kind() {
    let z: NonZeroI8 = construct_checked(i8::MAX).unwrap();
    assert_eq!(z.get(), i8::MAX);
    let z: NonZeroI16 = construct_checked(i16::MAX).unwrap();
    assert_eq!(z.get(), i16::MAX);
    let z: NonZeroI32 = construct_checked(i32::MAX).unwrap();
    assert_eq!(z.get(), i32::MAX);
    let z: NonZeroI64 = construct_checked(i64::MAX).unwrap();
    assert_eq!(z.get(), i64::MAX);
    let z: NonZeroI128 = construct_checked(i128::MAX).unwrap();
    assert_eq!(z.get(), i128::MAX);
    let z: NonZeroIsize = construct_checked(isize::MAX).unwrap();
    assert_eq!(z.get(), isize::MAX);
    let z: NonZeroU8 = construct_checked(u8::MAX).unwrap();
    assert_eq!(z.get(), u8::MAX);
    let z: NonZeroU16 = construct_checked(u16::MAX).unwrap();
    assert_eq!(z.get(), u16::MAX);
    let z: NonZeroU32 = construct_checked(u32::MAX).unwrap();
    assert_eq!(z.get(), u32::MAX);
    let z: NonZeroU64 = construct_checked(u64::MAX).unwrap();
    assert_eq!(z.get(), u64::MAX);
    let z: NonZeroU128 = construct_checked(u128::MAX).unwrap();
    assert_eq!(z.get(), u128::MAX);
    let z: NonZeroUsize = construct_checked(usize::MAX).unwrap();
    assert_eq!(z.get(), usize::MAX);
}

#[test]
fn boundary_min_signed_kinds() {
    let z: NonZeroI8 = construct_checked(i8::MIN).unwrap();
    assert_eq!(z.get(), i8::MIN);
    let z: NonZeroI16 = construct_checked(i16::MIN).unwrap();
    assert_eq!(z.get(), i16::MIN);
    let z: NonZeroI32 = construct_checked(i32::MIN).unwrap();
    assert_eq!(z.get(), i32::MIN);
    let z: NonZeroI64 = construct_checked(i64::MIN).unwrap();
    assert_eq!(z.get(), i64::MIN);
    let z: NonZeroI128 = construct_checked(i128::MIN).unwrap();
    assert_eq!(z.get(), i128::MIN);
    let z: NonZeroIsize = construct_checked(isize::MIN).unwrap();
    assert_eq!(z.get(), isize::MIN);
}

#[test]
fn scenario_unsigned_16() {
    let z: NonZeroU16 = construct_checked(2u16).unwrap();
    assert_eq!(z.get(), 2u16);
}

#[test]
fn scenario_signed_8_negative() {
    let z: NonZeroI8 = construct_checked(-4i8).unwrap();
    assert_eq!(z.get(), -4i8);
}

#[test]
fn scenario_unsigned_8_zero() {
    let r: Result<NonZeroU8, ZeroValueRejected> = construct_checked(0u8);
    assert!(matches!(r, Err(ZeroValueRejected)));
}

#[test]
fn scenario_unsigned_8_max() {
    let z: NonZeroU8 = construct_checked(255u8).unwrap();
    assert_eq!(z.get(), 255u8);
}

#[test]
fn scenario_signed_8_min() {
    let z: NonZeroI8 = construct_checked(-128i8).unwrap();
    assert_eq!(z.get(), -128i8);
}

#[test]
fn round_trip_sample_values() {
    for v in [-128i8, -4, -1, 1, 44, 127] {
        let z: NonZeroI8 = construct_checked(v).unwrap();
        assert_eq!(z.get(), v);
    }
    for v in [1u64, 2, 44, u64::MAX] {
        let z: NonZeroU64 = construct_checked(v).unwrap();
        assert_eq!(z.get(), v);
    }
}

#[test]
fn construction_is_deterministic() {
    let a: NonZeroU32 = construct_checked(7u32).unwrap();
    let b: NonZeroU32 = construct_checked(7u32).unwrap();
    assert_eq!(a.get(), b.get());
    let c: NonZeroI64 = notzero::__nonzero_new_unwrap(-9i64);
    let d: NonZeroI64 = notzero::__nonzero_new_unwrap(-9i64);
    assert_eq!(c.get(), d.get());
}

#[test]
fn checked_constructor_per_type() {
    assert!(NonZeroI8::new(0).is_none());
    assert!(NonZeroUsize::new(0).is_none());
    assert_eq!(NonZeroI8::new(-5).unwrap().get(), -5i8);
    assert_eq!(NonZeroUsize::new(5).unwrap().get(), 5usize);
}

#[test]
fn unwrap_agrees_with_checked() {
    let a: NonZeroU16 = notzero::__nonzero_new_unwrap(44u16);
    let b: NonZeroU16 = construct_checked(44u16).unwrap();
    assert_eq!(a.get(), b.get());
}
