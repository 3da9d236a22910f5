//! What the syscalls decide and compute, on guest memory handed in as bytes
//! and on the shared state. Reading the guest's memory and parameters, and
//! printing, logging, drawing and spawning, happen around these functions.
use vstd::prelude::*;
use vstd::string::StringExecFns;
use vstd::utf8::{decode_utf8, valid_utf8};
use crate::binary_data::BinaryDataView;
use crate::bitmap::{
    self, check_error, expected_len, zlib_inflated, BitmapError, BitmapRef, BitmapView,
    MAX_IMAGE_SIZE, CompressedBitmapRef, PixelColor,
};
use crate::env::{EnvData, EnvDataView};
use crate::error::Error;
use crate::registration::{Registration, RegistrationKind, WakerFunc};

verus! {

/// `ptr + len`, or the largest address where that sum does not fit.
pub open spec fn range_end(ptr: usize, len: usize) -> usize {
    if ptr + len <= usize::MAX {
        (ptr + len) as usize
    } else {
        usize::MAX
    }
}

/// Whether `[ptr, ptr + len)` lies inside a memory of `size` bytes.
pub open spec fn in_bounds(size: nat, ptr: usize, len: usize) -> bool {
    ptr + len <= size
}

/// The error for a range outside guest memory.
pub open spec fn range_error(ptr: usize, len: usize) -> Error {
    Error::InvalidMemoryRange { start: ptr, end: range_end(ptr, len) }
}

/// Whether `n` is the length of the longest prefix of `b` that is valid UTF-8.
pub open spec fn valid_up_to(b: Seq<u8>, n: nat) -> bool {
    &&& n <= b.len()
    &&& valid_utf8(b.subrange(0, n as int))
    &&& forall|k: int| n < k <= b.len() ==> !valid_utf8(#[trigger] b.subrange(0, k))
}

/// Relies on `core::str::from_utf8`: `Ok` exactly when the bytes are valid
/// UTF-8, holding the characters they encode; otherwise the error's
/// `valid_up_to` is the length of the longest valid prefix.
#[verifier::external_body]
fn utf8_str(b: &[u8]) -> (r: Result<&str, usize>)
    ensures
        match r {
            Ok(s) => valid_utf8(b@) && s@ == decode_utf8(b@),
            Err(n) => !valid_utf8(b@) && valid_up_to(b@, n as nat),
        },
{
    match core::str::from_utf8(b) {
        Ok(s) => Ok(s),
        Err(e) => Err(e.valid_up_to()),
    }
}

/// Checks `[ptr, ptr + len)` against a guest memory of `size` bytes and
/// returns the end of the range.
pub fn memory_range(size: usize, ptr: usize, len: usize) -> (r: Result<usize, Error>)
    ensures
        match r {
            Ok(end) => in_bounds(size as nat, ptr, len) && end == ptr + len,
            Err(e) => !in_bounds(size as nat, ptr, len) && e == range_error(ptr, len),
        },
{
    if len <= usize::MAX - ptr {
        let end = ptr + len;
        if end <= size {
            return Ok(end);
        }
        Err(Error::InvalidMemoryRange { start: ptr, end })
    } else {
        Err(Error::InvalidMemoryRange { start: ptr, end: usize::MAX })
    }
}

/// The guest memory bytes `[ptr, ptr + len)`.
pub fn read_memory<'a>(memory: &'a [u8], ptr: usize, len: usize) -> (r: Result<&'a [u8], Error>)
    ensures
        match r {
            Ok(b) => in_bounds(memory@.len(), ptr, len) && b@ == memory@.subrange(
                ptr as int,
                ptr + len,
            ),
            Err(e) => !in_bounds(memory@.len(), ptr, len) && e == range_error(ptr, len),
        },
{
    let end = memory_range(memory.len(), ptr, len)?;
    Ok(vstd::slice::slice_subrange(memory, ptr, end))
}

/// The text that `[ptr, ptr + len)` of guest memory holds, or why it holds none.
pub open spec fn text_in(memory: Seq<u8>, ptr: usize, len: usize) -> Result<Seq<char>, Error> {
    if !in_bounds(memory.len(), ptr, len) {
        Err(range_error(ptr, len))
    } else {
        let b = memory.subrange(ptr as int, ptr + len);
        if valid_utf8(b) {
            Ok(decode_utf8(b))
        } else {
            Err(Error::InvalidUtf8 { start: ptr, len, valid_up_to: choose|n: usize| valid_up_to(b, n as nat) })
        }
    }
}

/// Reads a UTF-8 string out of guest memory.
pub fn read_str<'a>(memory: &'a [u8], ptr: usize, len: usize) -> (r: Result<&'a str, Error>)
    ensures
        match r {
            Ok(s) => text_in(memory@, ptr, len) == Ok::<Seq<char>, Error>(s@),
            Err(Error::InvalidUtf8 { start, len: l, valid_up_to: n }) => {
                &&& text_in(memory@, ptr, len) is Err
                &&& in_bounds(memory@.len(), ptr, len)
                &&& start == ptr && l == len
                &&& valid_up_to(memory@.subrange(ptr as int, ptr + len), n as nat)
            },
            Err(e) => text_in(memory@, ptr, len) == Err::<Seq<char>, Error>(e),
        },
{
    let bytes = read_memory(memory, ptr, len)?;
    match utf8_str(bytes) {
        Ok(s) => Ok(s),
        Err(n) => Err(Error::InvalidUtf8 { start: ptr, len, valid_up_to: n }),
    }
}

/// The `print` syscall: the text at `[ptr, ptr + len)` of guest memory,
/// followed by a newline when `newline` is set.
pub fn print(memory: &[u8], ptr: usize, len: usize, newline: bool) -> (r: Result<String, Error>)
    ensures
        match r {
            Ok(s) => text_in(memory@, ptr, len) matches Ok(t) && s@ == t + if newline {
                seq!['\n']
            } else {
                Seq::<char>::empty()
            },
            Err(Error::InvalidUtf8 { start, len: l, valid_up_to: n }) => {
                &&& text_in(memory@, ptr, len) is Err
                &&& in_bounds(memory@.len(), ptr, len)
                &&& start == ptr && l == len
                &&& valid_up_to(memory@.subrange(ptr as int, ptr + len), n as nat)
            },
            Err(e) => text_in(memory@, ptr, len) == Err::<Seq<char>, Error>(e),
        },
{
    let text = read_str(memory, ptr, len)?;
    let mut out = String::from_str(text);
    if newline {
        out.append("\n");
        proof {
            reveal_strlit("\n");
            assert("\n"@ =~= seq!['\n']);
        }
    } else {
        proof {
            assert(out@ =~= text@ + Seq::<char>::empty());
        }
    }
    Ok(out)
}

/// The severity of a guest log message.
#[derive(Clone, Copy, Debug, PartialEq, Eq, Structural)]
pub enum LogLevel {
    Error,
    Warn,
    Info,
    Debug,
    Trace,
}

/// The level that a guest's level number names: 1 for errors up to 5 for traces.
pub open spec fn level_of(level: u32) -> Option<LogLevel> {
    if level == 1 {
        Some(LogLevel::Error)
    } else if level == 2 {
        Some(LogLevel::Warn)
    } else if level == 3 {
        Some(LogLevel::Info)
    } else if level == 4 {
        Some(LogLevel::Debug)
    } else if level == 5 {
        Some(LogLevel::Trace)
    } else {
        None
    }
}

/// The `log` syscall: the level and the text to log.
pub fn log(memory: &[u8], level: u32, ptr: usize, len: usize) -> (r: Result<(LogLevel, &str), Error>)
    ensures
        level_of(level) is None ==> r == Err::<(LogLevel, &str), Error>(Error::InvalidLogLevel(level)),
        level_of(level) is Some ==> match r {
            Ok((l, s)) => level_of(level) == Some(l) && text_in(memory@, ptr, len) == Ok::<
                Seq<char>,
                Error,
            >(s@),
            Err(Error::InvalidUtf8 { start, len: l, valid_up_to: n }) => {
                &&& text_in(memory@, ptr, len) is Err
                &&& in_bounds(memory@.len(), ptr, len)
                &&& start == ptr && l == len
                &&& valid_up_to(memory@.subrange(ptr as int, ptr + len), n as nat)
            },
            Err(e) => text_in(memory@, ptr, len) == Err::<Seq<char>, Error>(e),
        },
{
    let lvl = match level {
        1 => LogLevel::Error,
        2 => LogLevel::Warn,
        3 => LogLevel::Info,
        4 => LogLevel::Debug,
        5 => LogLevel::Trace,
        _ => return Err(Error::InvalidLogLevel(level)),
    };
    let text = read_str(memory, ptr, len)?;
    Ok((lvl, text))
}

/// Whether guest handle `id` names a live entry of the table.
pub open spec fn live(table: BinaryDataView, id: i32) -> bool {
    id >= 0 && table.get(id as int) is Some
}

fn index_from_id(id: i32) -> (r: Result<usize, Error>)
    ensures
        match r {
            Ok(i) => id >= 0 && i == id,
            Err(e) => id < 0 && e == Error::InvalidId(id),
        },
{
    if id >= 0 {
        Ok(id as usize)
    } else {
        Err(Error::InvalidId(id))
    }
}

/// The `clone_binary_data` syscall: stores a copy of a live entry and
/// returns the copy's handle.
pub fn clone_binary_data(env: &mut EnvData, id: i32) -> (r: Result<i32, Error>)
    requires
        old(env).wf(),
    ensures
        final(env).wf(),
        final(env)@.notified == old(env)@.notified,
        live(old(env)@.table, id) ==> ({
            let pushed = old(env)@.table.push(old(env)@.table.get(id as int).unwrap());
            &&& final(env)@.table == pushed.0
            &&& r == Ok::<i32, Error>(pushed.1 as i32)
        }),
        !live(old(env)@.table, id) ==> r == Err::<i32, Error>(Error::InvalidId(id)) && final(env)@
            == old(env)@,
{
    let index = index_from_id(id)?;
    let data = match env.get_binary_data(index) {
        Some(d) => vstd::slice::slice_to_vec(d),
        None => return Err(Error::InvalidId(id)),
    };
    let handle = env.push_binary_data(data.as_slice());
    Ok(handle as i32)
}

/// The `drop_binary_data` syscall: removes a live entry.
pub fn drop_binary_data(env: &mut EnvData, id: i32) -> (r: Result<(), Error>)
    requires
        old(env).wf(),
    ensures
        final(env).wf(),
        final(env)@.notified == old(env)@.notified,
        live(old(env)@.table, id) ==> r is Ok && final(env)@.table == old(env)@.table.remove(
            id as usize,
        ).0,
        !live(old(env)@.table, id) ==> r == Err::<(), Error>(Error::InvalidId(id)) && final(env)@
            == old(env)@,
{
    let index = index_from_id(id)?;
    match env.remove_binary_data(index) {
        Some(_) => Ok(()),
        None => Err(Error::InvalidId(id)),
    }
}

/// The `load_compressed_bitmap` syscall: stores a copy of guest memory
/// `[ptr, ptr + len)` and returns its handle.
pub fn load_compressed_bitmap(env: &mut EnvData, memory: &[u8], ptr: usize, len: usize) -> (r: Result<i32, Error>)
    requires
        old(env).wf(),
    ensures
        final(env).wf(),
        final(env)@.notified == old(env)@.notified,
        in_bounds(memory@.len(), ptr, len) ==> ({
            let pushed = old(env)@.table.push(memory@.subrange(ptr as int, ptr + len));
            &&& final(env)@.table == pushed.0
            &&& r == Ok::<i32, Error>(pushed.1 as i32)
        }),
        !in_bounds(memory@.len(), ptr, len) ==> r == Err::<i32, Error>(range_error(ptr, len))
            && final(env)@ == old(env)@,
{
    let bytes = read_memory(memory, ptr, len)?;
    let handle = env.push_binary_data(bytes);
    Ok(handle as i32)
}

/// The little-endian bytes of a word.
pub open spec fn le_bytes(v: u32) -> Seq<u8> {
    seq![v as u8, (v >> 8u32) as u8, (v >> 16u32) as u8, (v >> 24u32) as u8]
}

/// `memory` with the word `v` written little-endian at `at`.
pub open spec fn with_word(memory: Seq<u8>, at: usize, v: u32) -> Seq<u8> {
    memory.subrange(0, at as int) + le_bytes(v) + memory.subrange(at + 4, memory.len() as int)
}

/// Writes `v` little-endian at `at` of guest memory.
pub fn write_u32_le(memory: &mut [u8], at: usize, v: u32) -> (r: Result<(), Error>)
    ensures
        in_bounds(old(memory)@.len(), at, 4) ==> r is Ok && final(memory)@ == with_word(
            old(memory)@,
            at,
            v,
        ),
        !in_bounds(old(memory)@.len(), at, 4) ==> r == Err::<(), Error>(range_error(at, 4))
            && final(memory)@ == old(memory)@,
{
    let _ = memory_range(memory.len(), at, 4)?;
    memory[at] = v as u8;
    memory[at + 1] = (v >> 8) as u8;
    memory[at + 2] = (v >> 16) as u8;
    memory[at + 3] = (v >> 24) as u8;
    proof {
        assert(memory@ =~= with_word(old(memory)@, at, v));
    }
    Ok(())
}

/// The code and the two diagnostic words that a bitmap error is reported
/// to the guest as.
pub open spec fn error_words(err: BitmapError) -> (i32, u32, u32) {
    match err {
        BitmapError::NoWidth => (-1i32, 0u32, 0u32),
        BitmapError::NoHeight => (-2i32, 0u32, 0u32),
        BitmapError::InvalidDimensions { width, height } => (-3i32, width as u32, height as u32),
        BitmapError::LengthMismatch { expected, actual } => (-4i32, expected as u32, actual as u32),
        BitmapError::DecompressionFailed(_) => (-5i32, 0u32, 0u32),
    }
}

/// The code and the two diagnostic words of a bitmap error.
pub fn bitmap_error_to_wasm(err: BitmapError) -> (r: (i32, u32, u32))
    ensures
        r == error_words(err),
{
    match err {
        BitmapError::NoWidth => (-1, 0, 0),
        BitmapError::NoHeight => (-2, 0, 0),
        BitmapError::InvalidDimensions { width, height } => (-3, width as u32, height as u32),
        BitmapError::LengthMismatch { expected, actual } => (-4, expected as u32, actual as u32),
        BitmapError::DecompressionFailed(_) => (-5, 0, 0),
    }
}

/// Guest memory after reporting `err` at `e1_ptr` and `e2_ptr`, and what the
/// syscall returns: the error's code, or the failure of a write.
pub open spec fn reported(memory: Seq<u8>, err: BitmapError, e1_ptr: usize, e2_ptr: usize) -> (
    Seq<u8>,
    Result<i32, Error>,
) {
    reported_words(memory, error_words(err), e1_ptr, e2_ptr)
}

/// Guest memory after writing the two words of `words` at `e1_ptr` and
/// `e2_ptr`, and the code returned: `words.0`, or the failure of a write.
pub open spec fn reported_words(memory: Seq<u8>, words: (i32, u32, u32), e1_ptr: usize, e2_ptr: usize) -> (
    Seq<u8>,
    Result<i32, Error>,
) {
    let (code, e1, e2) = words;
    if !in_bounds(memory.len(), e1_ptr, 4) {
        (memory, Err(range_error(e1_ptr, 4)))
    } else if !in_bounds(memory.len(), e2_ptr, 4) {
        (with_word(memory, e1_ptr, e1), Err(range_error(e2_ptr, 4)))
    } else {
        (with_word(with_word(memory, e1_ptr, e1), e2_ptr, e2), Ok(code))
    }
}

fn report_bitmap_error(memory: &mut [u8], err: BitmapError, e1_ptr: usize, e2_ptr: usize) -> (r: Result<i32, Error>)
    ensures
        (final(memory)@, r) == reported(old(memory)@, err, e1_ptr, e2_ptr),
{
    let (code, e1, e2) = bitmap_error_to_wasm(err);
    write_u32_le(memory, e1_ptr, e1)?;
    write_u32_le(memory, e2_ptr, e2)?;
    Ok(code)
}

/// The `load_bitmap` syscall: reads a `width` by `height` bitmap from guest
/// memory at `ptr` and stores it, returning its handle; a bitmap that does not
/// check out is reported to the guest (a negative code, two words written at
/// `e1_ptr` and `e2_ptr`) and stores nothing.
pub fn load_bitmap(
    env: &mut EnvData,
    memory: &mut [u8],
    width: u8,
    height: u8,
    ptr: usize,
    e1_ptr: usize,
    e2_ptr: usize,
) -> (r: Result<i32, Error>)
    requires
        old(env).wf(),
    ensures
        final(env).wf(),
        final(env)@.notified == old(env)@.notified,
        ({
            let len = expected_len(width, height) as usize;
            let m = old(memory)@;
            if !in_bounds(m.len(), ptr, len) {
                r == Err::<i32, Error>(range_error(ptr, len)) && final(env)@ == old(env)@
                    && final(memory)@ == m
            } else {
                match check_error(width, height, len as nat) {
                    None => {
                        let pushed = old(env)@.table.push(m.subrange(ptr as int, ptr + len));
                        &&& final(env)@.table == pushed.0
                        &&& r == Ok::<i32, Error>(pushed.1 as i32)
                        &&& final(memory)@ == m
                    },
                    Some(e) => {
                        &&& (final(memory)@, r) == reported(m, e, e1_ptr, e2_ptr)
                        &&& final(env)@ == old(env)@
                    },
                }
            }
        }),
{
    let expected = bitmap::expected_data_len(width, height);
    let checked = {
        let bytes = read_memory(memory, ptr, expected)?;
        match BitmapRef::new(width, height, bytes) {
            Ok(b) => Ok(env.push_binary_data(b.data())),
            Err(e) => Err(e),
        }
    };
    match checked {
        Ok(handle) => Ok(handle as i32),
        Err(e) => report_bitmap_error(memory, e, e1_ptr, e2_ptr),
    }
}

/// The word a pixel colour is handed to the guest as: 0 for none, then 1, 2
/// and 3 for black, white and transparent.
pub open spec fn pixel_word(pixel: Option<PixelColor>) -> u32 {
    match pixel {
        None => 0,
        Some(PixelColor::Black) => 1,
        Some(PixelColor::White) => 2,
        Some(PixelColor::Transparent) => 3,
    }
}

/// The word a pixel colour is handed to the guest as.
pub fn pixel_to_wasm(pixel: Option<PixelColor>) -> (r: u32)
    ensures
        r == pixel_word(pixel),
{
    match pixel {
        None => 0,
        Some(PixelColor::Black) => 1,
        Some(PixelColor::White) => 2,
        Some(PixelColor::Transparent) => 3,
    }
}

/// The pixel colour a guest word names, if any.
pub fn wasm_to_pixel(pixel: u32) -> (r: Option<PixelColor>)
    ensures
        r is Some <==> 1 <= pixel <= 3,
        r is Some ==> pixel_word(r) == pixel,
{
    match pixel {
        1 => Some(PixelColor::Black),
        2 => Some(PixelColor::White),
        3 => Some(PixelColor::Transparent),
        _ => None,
    }
}

/// The pixel that a `width` by `height` bitmap over `data` has at `(x, y)`;
/// data that does not fit the dimensions has none.
pub open spec fn entry_pixel(data: Seq<u8>, width: u8, height: u8, x: u8, y: u8) -> Option<PixelColor> {
    if check_error(width, height, data.len()) is None {
        BitmapView { width, height, data }.pixel(x, y)
    } else {
        None
    }
}

/// The `get_bitmap_pixel` syscall: the word for the colour of pixel `(x, y)`
/// of entry `id` read as a `width` by `height` bitmap.
pub fn get_bitmap_pixel(env: &EnvData, id: i32, width: u8, height: u8, x: u8, y: u8) -> (r: Result<u32, Error>)
    ensures
        live(env@.table, id) ==> r == Ok::<u32, Error>(
            pixel_word(entry_pixel(env@.table.get(id as int).unwrap(), width, height, x, y)),
        ),
        !live(env@.table, id) ==> r == Err::<u32, Error>(Error::InvalidId(id)),
{
    let index = index_from_id(id)?;
    let data = match env.get_binary_data(index) {
        Some(d) => d,
        None => return Err(Error::InvalidId(id)),
    };
    match BitmapRef::new(width, height, data) {
        Ok(bitmap) => Ok(pixel_to_wasm(bitmap.get_pixel(x, y))),
        Err(_) => Ok(pixel_to_wasm(None)),
    }
}

/// The `set_bitmap_pixel` syscall: sets pixel `(x, y)` of entry `id` read as
/// a `width` by `height` bitmap. Data that does not fit the dimensions is
/// left alone; a colour word that names no colour is refused.
pub fn set_bitmap_pixel(
    env: &mut EnvData,
    id: i32,
    width: u8,
    height: u8,
    x: u8,
    y: u8,
    pixel_color: u32,
) -> (r: Result<(), Error>)
    requires
        old(env).wf(),
    ensures
        final(env).wf(),
        final(env)@.notified == old(env)@.notified,
        !live(old(env)@.table, id) ==> r == Err::<(), Error>(Error::InvalidId(id)) && final(env)@
            == old(env)@,
        live(old(env)@.table, id) ==> ({
            let d = old(env)@.table.get(id as int).unwrap();
            if check_error(width, height, d.len()) is Some {
                r is Ok && final(env)@ == old(env)@
            } else if !(1 <= pixel_color <= 3) {
                r matches Err(Error::InvalidValue(_)) && final(env)@ == old(env)@
            } else {
                &&& r is Ok
                &&& final(env)@.table == BinaryDataView {
                    slots: old(env)@.table.slots.update(
                        id as int,
                        Some(
                            BitmapView { width, height, data: d }.with_pixel(
                                x,
                                y,
                                color_of_word(pixel_color),
                            ).data,
                        ),
                    ),
                    free: old(env)@.table.free,
                }
            }
        }),
{
    let index = index_from_id(id)?;
    let mut data = match env.replace_binary_data(index, Vec::new()) {
        Ok(prev) => prev,
        Err(_) => return Err(Error::InvalidId(id)),
    };
    let ghost d = data@;
    let outcome = match bitmap::check(width, height, data.as_slice()) {
        Ok(()) => match wasm_to_pixel(pixel_color) {
            Some(pixel) => {
                bitmap::set_pixel_internal(width, height, x, y, pixel, data.as_mut_slice());
                Ok(())
            },
            None => Err(Error::InvalidValue("PixelColor")),
        },
        Err(_) => Ok(()),
    };
    let _ = env.replace_binary_data(index, data);
    proof {
        if check_error(width, height, d.len()) is Some || !(1 <= pixel_color <= 3) {
            assert(env@.table.slots =~= old(env)@.table.slots);
            assert(env@ == old(env)@);
        } else {
            assert(env@.table.slots =~= old(env)@.table.slots.update(id as int, Some(data@)));
        }
    }
    outcome
}

/// The colour a guest colour word names (words 1 to 3).
pub open spec fn color_of_word(word: u32) -> PixelColor {
    if word == 1 {
        PixelColor::Black
    } else if word == 2 {
        PixelColor::White
    } else {
        PixelColor::Transparent
    }
}

/// The `draw_bitmap` syscall's decision: whether entry `id`, read as a
/// `width` by `height` bitmap, is to be drawn. An entry whose data does not
/// fit the dimensions is silently not drawn.
pub fn draw_bitmap(env: &EnvData, id: i32, width: u8, height: u8) -> (r: Result<bool, Error>)
    ensures
        live(env@.table, id) ==> r == Ok::<bool, Error>(
            check_error(width, height, env@.table.get(id as int).unwrap().len()) is None,
        ),
        !live(env@.table, id) ==> r == Err::<bool, Error>(Error::InvalidId(id)),
{
    let index = index_from_id(id)?;
    match env.get_binary_data(index) {
        Some(data) => Ok(BitmapRef::new(width, height, data).is_ok()),
        None => Err(Error::InvalidId(id)),
    }
}

/// The `draw_compressed_bitmap` syscall's check: entry `id` must be live.
pub fn draw_compressed_bitmap(env: &EnvData, id: i32) -> (r: Result<usize, Error>)
    ensures
        live(env@.table, id) ==> r == Ok::<usize, Error>(id as usize),
        !live(env@.table, id) ==> r == Err::<usize, Error>(Error::InvalidId(id)),
{
    let index = index_from_id(id)?;
    match env.get_binary_data(index) {
        Some(_) => Ok(index),
        None => Err(Error::InvalidId(id)),
    }
}

/// The `decompress_bitmap` syscall: inflates entry `id` in place into a
/// `width` by `height` bitmap, returning 0; a failure is reported to the
/// guest as for `load_bitmap` and leaves the entry as it was.
pub fn decompress_bitmap(
    env: &mut EnvData,
    memory: &mut [u8],
    id: i32,
    width: u8,
    height: u8,
    e1_ptr: usize,
    e2_ptr: usize,
) -> (r: Result<i32, Error>)
    requires
        old(env).wf(),
    ensures
        final(env).wf(),
        final(env)@.notified == old(env)@.notified,
        !live(old(env)@.table, id) ==> r == Err::<i32, Error>(Error::InvalidId(id)) && final(env)@
            == old(env)@ && final(memory)@ == old(memory)@,
        live(old(env)@.table, id) ==> ({
            let d = old(env)@.table.get(id as int).unwrap();
            match zlib_inflated(d, MAX_IMAGE_SIZE as nat) {
                Some(z) => match check_error(width, height, z.len()) {
                    None => {
                        &&& r == Ok::<i32, Error>(0)
                        &&& final(memory)@ == old(memory)@
                        &&& final(env)@.table == BinaryDataView {
                            slots: old(env)@.table.slots.update(id as int, Some(z)),
                            free: old(env)@.table.free,
                        }
                    },
                    Some(e) => {
                        &&& (final(memory)@, r) == reported(old(memory)@, e, e1_ptr, e2_ptr)
                        &&& final(env)@ == old(env)@
                    },
                },
                None => {
                    &&& (final(memory)@, r) == reported_words(old(memory)@, (-5i32, 0u32, 0u32), e1_ptr, e2_ptr)
                    &&& final(env)@ == old(env)@
                },
            }
        }),
{
    let index = index_from_id(id)?;
    let mut buf = bitmap::bitmap_buffer();
    let outcome = match env.get_binary_data(index) {
        Some(data) => {
            let compressed = CompressedBitmapRef::new(width, height, data);
            match compressed.decompress_to_ref(buf.as_mut_slice()) {
                Ok(bitmap) => Ok(vstd::slice::slice_to_vec(bitmap.data())),
                Err(e) => Err(e),
            }
        },
        None => return Err(Error::InvalidId(id)),
    };
    match outcome {
        Ok(bytes) => {
            let _ = env.replace_binary_data(index, bytes);
            Ok(0)
        },
        Err(e) => report_bitmap_error(memory, e, e1_ptr, e2_ptr),
    }
}

/// The `schedule_timer` syscall's decision: the registration to queue once
/// `micros` microseconds have passed from `now`, calling the guest function
/// found in the table slot with `data`; an empty slot is refused.
pub fn schedule_timer(slot: Option<WakerFunc>, data: u32, now: u64, micros: u64) -> (r: Result<Registration, Error>)
    ensures
        match slot {
            Some(f) => r == Ok::<Registration, Error>(
                Registration {
                    kind: RegistrationKind::Timer(
                        if now + micros <= u64::MAX {
                            (now + micros) as u64
                        } else {
                            u64::MAX
                        },
                    ),
                    data,
                    wake: f,
                },
            ),
            None => r == Err::<Registration, Error>(Error::NullFunction),
        },
{
    match slot {
        Some(f) => {
            let deadline = if micros <= u64::MAX - now { now + micros } else { u64::MAX };
            Ok(Registration::new_timer(deadline, data, f))
        },
        None => Err(Error::NullFunction),
    }
}

/// The `schedule_io` syscall's decision. The host offers the guest no I/O
/// sources, so once the function slot is checked, every source id is refused
/// as unknown and nothing is registered.
pub fn schedule_io(slot: Option<WakerFunc>, id: i32) -> (r: Result<(), Error>)
    ensures
        slot is None ==> r == Err::<(), Error>(Error::NullFunction),
        slot is Some ==> r == Err::<(), Error>(Error::InvalidId(id)),
{
    match slot {
        Some(_) => Err(Error::InvalidId(id)),
        None => Err(Error::NullFunction),
    }
}

} // verus!
