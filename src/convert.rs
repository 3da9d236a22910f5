//! Marshaling of guest values into host parameter types.
use vstd::prelude::*;

verus! {

/// A guest value did not stand for a value of the named host type.
#[derive(Clone, Copy, Debug, PartialEq, Eq)]
pub struct InvalidValueError(pub &'static str);

/// A host type that a syscall parameter can be converted into from the
/// guest's own value type.
pub trait TryFromWasm: Sized {
    /// The guest value type that carries this host type.
    type WasmTy;

    /// Whether the guest value stands for some value of this type.
    spec fn in_range(value: Self::WasmTy) -> bool;

    /// The guest value that stands for this host value.
    spec fn to_wasm(self) -> Self::WasmTy;

    /// The name of this type, which a refusal carries.
    spec fn host_type() -> Seq<char>;

    /// Converts a guest value, failing exactly on values outside the range;
    /// a value in range comes back as the host value that it stands for.
    fn try_from_wasm(value: Self::WasmTy) -> (r: Result<Self, InvalidValueError>)
        ensures
            r is Ok <==> Self::in_range(value),
            r matches Ok(x) ==> x.to_wasm() == value,
            r matches Err(e) ==> e.0@ == Self::host_type(),
    ;
}

impl TryFromWasm for u8 {
    type WasmTy = u32;

    open spec fn in_range(value: u32) -> bool {
        value <= u8::MAX
    }

    open spec fn to_wasm(self) -> u32 {
        self as u32
    }

    open spec fn host_type() -> Seq<char> {
        "u8"@
    }

    fn try_from_wasm(value: u32) -> (r: Result<u8, InvalidValueError>) {
        if value <= u8::MAX as u32 {
            Ok(value as u8)
        } else {
            Err(InvalidValueError("u8"))
        }
    }
}

impl TryFromWasm for u16 {
    type WasmTy = u32;

    open spec fn in_range(value: u32) -> bool {
        value <= u16::MAX
    }

    open spec fn to_wasm(self) -> u32 {
        self as u32
    }

    open spec fn host_type() -> Seq<char> {
        "u16"@
    }

    fn try_from_wasm(value: u32) -> (r: Result<u16, InvalidValueError>) {
        if value <= u16::MAX as u32 {
            Ok(value as u16)
        } else {
            Err(InvalidValueError("u16"))
        }
    }
}

impl TryFromWasm for u32 {
    type WasmTy = u32;

    open spec fn in_range(value: u32) -> bool {
        true
    }

    open spec fn to_wasm(self) -> u32 {
        self
    }

    open spec fn host_type() -> Seq<char> {
        "u32"@
    }

    fn try_from_wasm(value: u32) -> (r: Result<u32, InvalidValueError>) {
        Ok(value)
    }
}

impl TryFromWasm for usize {
    type WasmTy = u32;

    open spec fn in_range(value: u32) -> bool {
        value <= usize::MAX
    }

    open spec fn to_wasm(self) -> u32 {
        self as u32
    }

    open spec fn host_type() -> Seq<char> {
        "usize"@
    }

    fn try_from_wasm(value: u32) -> (r: Result<usize, InvalidValueError>) {
        Ok(value as usize)
    }
}

impl TryFromWasm for u64 {
    type WasmTy = u64;

    open spec fn in_range(value: u64) -> bool {
        true
    }

    open spec fn to_wasm(self) -> u64 {
        self
    }

    open spec fn host_type() -> Seq<char> {
        "u64"@
    }

    fn try_from_wasm(value: u64) -> (r: Result<u64, InvalidValueError>) {
        Ok(value)
    }
}

impl TryFromWasm for i8 {
    type WasmTy = i32;

    open spec fn in_range(value: i32) -> bool {
        i8::MIN <= value <= i8::MAX
    }

    open spec fn to_wasm(self) -> i32 {
        self as i32
    }

    open spec fn host_type() -> Seq<char> {
        "i8"@
    }

    fn try_from_wasm(value: i32) -> (r: Result<i8, InvalidValueError>) {
        if i8::MIN as i32 <= value && value <= i8::MAX as i32 {
            Ok(value as i8)
        } else {
            Err(InvalidValueError("i8"))
        }
    }
}

impl TryFromWasm for i16 {
    type WasmTy = i32;

    open spec fn in_range(value: i32) -> bool {
        i16::MIN <= value <= i16::MAX
    }

    open spec fn to_wasm(self) -> i32 {
        self as i32
    }

    open spec fn host_type() -> Seq<char> {
        "i16"@
    }

    fn try_from_wasm(value: i32) -> (r: Result<i16, InvalidValueError>) {
        if i16::MIN as i32 <= value && value <= i16::MAX as i32 {
            Ok(value as i16)
        } else {
            Err(InvalidValueError("i16"))
        }
    }
}

impl TryFromWasm for i32 {
    type WasmTy = i32;

    open spec fn in_range(value: i32) -> bool {
        true
    }

    open spec fn to_wasm(self) -> i32 {
        self
    }

    open spec fn host_type() -> Seq<char> {
        "i32"@
    }

    fn try_from_wasm(value: i32) -> (r: Result<i32, InvalidValueError>) {
        Ok(value)
    }
}

impl TryFromWasm for isize {
    type WasmTy = i32;

    open spec fn in_range(value: i32) -> bool {
        isize::MIN <= value <= isize::MAX
    }

    open spec fn to_wasm(self) -> i32 {
        self as i32
    }

    open spec fn host_type() -> Seq<char> {
        "isize"@
    }

    fn try_from_wasm(value: i32) -> (r: Result<isize, InvalidValueError>) {
        Ok(value as isize)
    }
}

impl TryFromWasm for i64 {
    type WasmTy = i64;

    open spec fn in_range(value: i64) -> bool {
        true
    }

    open spec fn to_wasm(self) -> i64 {
        self
    }

    open spec fn host_type() -> Seq<char> {
        "i64"@
    }

    fn try_from_wasm(value: i64) -> (r: Result<i64, InvalidValueError>) {
        Ok(value)
    }
}

impl TryFromWasm for bool {
    type WasmTy = u32;

    open spec fn in_range(value: u32) -> bool {
        value == 0 || value == 1
    }

    open spec fn to_wasm(self) -> u32 {
        if self {
            1
        } else {
            0
        }
    }

    open spec fn host_type() -> Seq<char> {
        "bool"@
    }

    fn try_from_wasm(value: u32) -> (r: Result<bool, InvalidValueError>) {
        match value {
            0 => Ok(false),
            1 => Ok(true),
            _ => Err(InvalidValueError("bool")),
        }
    }
}

/// Every guest integer outside a target type's range is refused, every one
/// inside converts to the host value that gives it back, and a guest word
/// converts to `bool` only when it is 0 or 1.
pub proof fn lemma_marshaling_ranges(w: u32, s: i32)
    ensures
        <u8 as TryFromWasm>::in_range(w) <==> w <= 255,
        <u8 as TryFromWasm>::in_range(w) ==> (w as u8).to_wasm() == w,
        <u16 as TryFromWasm>::in_range(w) <==> w <= 65535,
        <u16 as TryFromWasm>::in_range(w) ==> (w as u16).to_wasm() == w,
        <i8 as TryFromWasm>::in_range(s) <==> -128 <= s <= 127,
        <i8 as TryFromWasm>::in_range(s) ==> (s as i8).to_wasm() == s,
        <i16 as TryFromWasm>::in_range(s) <==> -32768 <= s <= 32767,
        <i16 as TryFromWasm>::in_range(s) ==> (s as i16).to_wasm() == s,
        <usize as TryFromWasm>::in_range(w),
        (w as usize).to_wasm() == w,
        <isize as TryFromWasm>::in_range(s),
        (s as isize).to_wasm() == s,
        <bool as TryFromWasm>::in_range(w) <==> (w == 0 || w == 1),
        <bool as TryFromWasm>::in_range(w) ==> (if w == 1 { true } else { false }).to_wasm() == w,
{
}

} // verus!
