use xenon::convert::{InvalidValueError, TryFromWasm};

#[test]
fn narrowing_fails_outside_range() {
    assert_eq!(u8::try_from_wasm(255), Ok(255u8));
    assert_eq!(u8::try_from_wasm(256), Err(InvalidValueError("u8")));
    assert_eq!(u16::try_from_wasm(65535), Ok(65535u16));
    assert_eq!(u16::try_from_wasm(65536), Err(InvalidValueError("u16")));
    assert_eq!(i8::try_from_wasm(-128), Ok(-128i8));
    assert_eq!(i8::try_from_wasm(128), Err(InvalidValueError("i8")));
    assert_eq!(i8::try_from_wasm(-129), Err(InvalidValueError("i8")));
    assert_eq!(i16::try_from_wasm(-32769), Err(InvalidValueError("i16")));
    assert_eq!(i16::try_from_wasm(32767), Ok(32767i16));
}

#[test]
fn wide_types_round_trip() {
    assert_eq!(u32::try_from_wasm(u32::MAX), Ok(u32::MAX));
    assert_eq!(usize::try_from_wasm(u32::MAX), Ok(u32::MAX as usize));
    assert_eq!(u64::try_from_wasm(u64::MAX), Ok(u64::MAX));
    assert_eq!(i32::try_from_wasm(i32::MIN), Ok(i32::MIN));
    assert_eq!(isize::try_from_wasm(-5), Ok(-5isize));
    assert_eq!(i64::try_from_wasm(i64::MIN), Ok(i64::MIN));
}

#[test]
fn bool_accepts_only_zero_and_one() {
    assert_eq!(bool::try_from_wasm(0), Ok(false));
    assert_eq!(bool::try_from_wasm(1), Ok(true));
    assert_eq!(bool::try_from_wasm(2), Err(InvalidValueError("bool")));
    assert_eq!(bool::try_from_wasm(u32::MAX), Err(InvalidValueError("bool")));
}
