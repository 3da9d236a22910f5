use xenon::env::EnvData;
use xenon::error::Error;
use xenon::syscall::{
    bitmap_error_to_wasm, clone_binary_data, decompress_bitmap, draw_bitmap, draw_compressed_bitmap,
    drop_binary_data, get_bitmap_pixel, load_bitmap, load_compressed_bitmap, log, memory_range,
    pixel_to_wasm, print, read_str, set_bitmap_pixel, wasm_to_pixel, write_u32_le, LogLevel,
};
use xenon::bitmap::{BitmapError, PixelColor};

#[test]
fn print_out_of_range_fails() {
    let memory = b"hello".to_vec();
    assert_eq!(print(&memory, 3, 3, false), Err(Error::InvalidMemoryRange { start: 3, end: 6 }));
    assert_eq!(
        print(&memory, usize::MAX, 2, false),
        Err(Error::InvalidMemoryRange { start: usize::MAX, end: usize::MAX })
    );
}

#[test]
fn print_emits_text_and_newline() {
    let memory = "xx héllo".as_bytes().to_vec();
    assert_eq!(print(&memory, 3, 6, false).unwrap(), "héllo");
    assert_eq!(print(&memory, 3, 6, true).unwrap(), "héllo\n");
    assert_eq!(print(&memory, 0, 0, true).unwrap(), "\n");
}

#[test]
fn print_invalid_utf8_reports_valid_prefix() {
    let memory = vec![b'a', b'b', 0xff, b'c'];
    assert_eq!(
        print(&memory, 0, 4, false),
        Err(Error::InvalidUtf8 { start: 0, len: 4, valid_up_to: 2 })
    );
    assert_eq!(read_str(&memory, 3, 1), Ok("c"));
}

#[test]
fn log_checks_level_first() {
    let memory = b"warn me".to_vec();
    assert_eq!(log(&memory, 2, 0, 4), Ok((LogLevel::Warn, "warn")));
    assert_eq!(log(&memory, 5, 5, 2), Ok((LogLevel::Trace, "me")));
    assert_eq!(log(&memory, 0, 0, 4), Err(Error::InvalidLogLevel(0)));
    assert_eq!(log(&memory, 6, 100, 4), Err(Error::InvalidLogLevel(6)));
    assert_eq!(log(&memory, 1, 6, 4), Err(Error::InvalidMemoryRange { start: 6, end: 10 }));
}

#[test]
fn memory_range_bounds() {
    assert_eq!(memory_range(10, 2, 8), Ok(10));
    assert_eq!(memory_range(10, 2, 9), Err(Error::InvalidMemoryRange { start: 2, end: 11 }));
}

#[test]
fn clone_and_drop_binary_data() {
    let mut env = EnvData::new();
    let h = env.push_binary_data(&[1, 2]);
    assert_eq!(clone_binary_data(&mut env, h as i32), Ok(1));
    assert_eq!(env.get_binary_data(1), Some(&[1u8, 2][..]));
    assert_eq!(clone_binary_data(&mut env, -1), Err(Error::InvalidId(-1)));
    assert_eq!(clone_binary_data(&mut env, 9), Err(Error::InvalidId(9)));
    assert_eq!(drop_binary_data(&mut env, 0), Ok(()));
    assert_eq!(drop_binary_data(&mut env, 0), Err(Error::InvalidId(0)));
    assert_eq!(drop_binary_data(&mut env, -3), Err(Error::InvalidId(-3)));
    assert_eq!(clone_binary_data(&mut env, 1), Ok(0));
}

#[test]
fn load_compressed_bitmap_copies_memory() {
    let mut env = EnvData::new();
    let memory = vec![9, 8, 7, 6];
    assert_eq!(load_compressed_bitmap(&mut env, &memory, 1, 2), Ok(0));
    assert_eq!(env.get_binary_data(0), Some(&[8u8, 7][..]));
    assert_eq!(
        load_compressed_bitmap(&mut env, &memory, 3, 2),
        Err(Error::InvalidMemoryRange { start: 3, end: 5 })
    );
    assert_eq!(env.get_binary_data(1), None);
}

#[test]
fn load_bitmap_stores_checked_bitmap() {
    let mut env = EnvData::new();
    let mut memory = vec![0u8; 64];
    memory[4..20].copy_from_slice(&[0x55; 16]);
    assert_eq!(load_bitmap(&mut env, &mut memory, 8, 8, 4, 40, 44), Ok(0));
    assert_eq!(env.get_binary_data(0), Some(&[0x55u8; 16][..]));
    assert_eq!(&memory[40..48], &[0u8; 8]);
}

#[test]
fn load_bitmap_reports_bad_dimensions() {
    let mut env = EnvData::new();
    let mut memory = vec![0u8; 20000];
    assert_eq!(load_bitmap(&mut env, &mut memory, 241, 1, 0, 100, 104), Ok(-3));
    assert_eq!(&memory[100..104], &241u32.to_le_bytes());
    assert_eq!(&memory[104..108], &1u32.to_le_bytes());
    assert_eq!(env.get_binary_data(0), None);
}

#[test]
fn load_bitmap_out_of_range() {
    let mut env = EnvData::new();
    let mut memory = vec![0u8; 10];
    assert_eq!(
        load_bitmap(&mut env, &mut memory, 8, 8, 0, 0, 4),
        Err(Error::InvalidMemoryRange { start: 0, end: 16 })
    );
    assert_eq!(env.get_binary_data(0), None);
}

#[test]
fn short_all_zero_bitmap_fails_length_check() {
    // An 8 by 8 bitmap needs 16 bytes; 8 zero bytes are reported as a length
    // mismatch: code -4, expected length, actual length.
    let err = xenon::bitmap::check(8, 8, &[0u8; 8]).unwrap_err();
    assert_eq!(err, BitmapError::LengthMismatch { expected: 16, actual: 8 });
    assert_eq!(bitmap_error_to_wasm(err), (-4, 16, 8));
}

#[test]
fn error_words_for_each_bitmap_error() {
    assert_eq!(bitmap_error_to_wasm(BitmapError::NoWidth), (-1, 0, 0));
    assert_eq!(bitmap_error_to_wasm(BitmapError::NoHeight), (-2, 0, 0));
    assert_eq!(bitmap_error_to_wasm(BitmapError::InvalidDimensions { width: 250, height: 3 }), (-3, 250, 3));
    assert_eq!(
        bitmap_error_to_wasm(BitmapError::DecompressionFailed(miniz_oxide::inflate::TINFLStatus::Failed)),
        (-5, 0, 0)
    );
}

#[test]
fn write_word_little_endian() {
    let mut memory = vec![0u8; 6];
    assert_eq!(write_u32_le(&mut memory, 1, 0x0403_0201), Ok(()));
    assert_eq!(memory, vec![0, 1, 2, 3, 4, 0]);
    assert_eq!(write_u32_le(&mut memory, 3, 7), Err(Error::InvalidMemoryRange { start: 3, end: 7 }));
    assert_eq!(memory, vec![0, 1, 2, 3, 4, 0]);
}

#[test]
fn pixel_words() {
    assert_eq!(pixel_to_wasm(None), 0);
    assert_eq!(pixel_to_wasm(Some(PixelColor::Black)), 1);
    assert_eq!(pixel_to_wasm(Some(PixelColor::White)), 2);
    assert_eq!(pixel_to_wasm(Some(PixelColor::Transparent)), 3);
    assert_eq!(wasm_to_pixel(0), None);
    assert_eq!(wasm_to_pixel(2), Some(PixelColor::White));
    assert_eq!(wasm_to_pixel(4), None);
}

#[test]
fn bitmap_pixel_syscalls() {
    let mut env = EnvData::new();
    let id = env.push_binary_data(&[0u8; 2]) as i32; // a 4 by 2 bitmap, all black
    assert_eq!(get_bitmap_pixel(&env, id, 4, 2, 1, 1), Ok(1));
    assert_eq!(set_bitmap_pixel(&mut env, id, 4, 2, 1, 1, 2), Ok(()));
    assert_eq!(get_bitmap_pixel(&env, id, 4, 2, 1, 1), Ok(2));
    assert_eq!(env.get_binary_data(0), Some(&[0u8, 0b0001_0000][..]));
    assert!(matches!(set_bitmap_pixel(&mut env, id, 4, 2, 0, 0, 9), Err(Error::InvalidValue(_))));
    // Dimensions that do not fit the data: nothing read, nothing written.
    assert_eq!(get_bitmap_pixel(&env, id, 8, 2, 1, 1), Ok(0));
    assert_eq!(set_bitmap_pixel(&mut env, id, 8, 2, 1, 1, 3), Ok(()));
    assert_eq!(env.get_binary_data(0), Some(&[0u8, 0b0001_0000][..]));
    assert_eq!(get_bitmap_pixel(&env, 5, 4, 2, 0, 0), Err(Error::InvalidId(5)));
    assert_eq!(draw_bitmap(&env, id, 4, 2), Ok(true));
    assert_eq!(draw_bitmap(&env, id, 4, 3), Ok(false));
    assert_eq!(draw_bitmap(&env, -1, 4, 2), Err(Error::InvalidId(-1)));
    assert_eq!(draw_compressed_bitmap(&env, id), Ok(0));
    assert_eq!(draw_compressed_bitmap(&env, 1), Err(Error::InvalidId(1)));
}

#[test]
fn decompress_bitmap_in_place() {
    let raw = [0x55u8; 4]; // 4 by 4, all white
    let compressed = miniz_oxide::deflate::compress_to_vec_zlib(&raw, 6);
    let mut env = EnvData::new();
    let mut memory = vec![0u8; 16];
    let id = env.push_binary_data(&compressed) as i32;
    assert_eq!(decompress_bitmap(&mut env, &mut memory, id, 4, 4, 0, 4), Ok(0));
    assert_eq!(env.get_binary_data(0), Some(&raw[..]));

    let id2 = env.push_binary_data(&compressed) as i32;
    assert_eq!(decompress_bitmap(&mut env, &mut memory, id2, 8, 4, 0, 4), Ok(-4));
    assert_eq!(&memory[0..8], &[8, 0, 0, 0, 4, 0, 0, 0]);
    assert_eq!(env.get_binary_data(1), Some(&compressed[..]));

    let id3 = env.push_binary_data(&[1, 2, 3]) as i32;
    assert_eq!(decompress_bitmap(&mut env, &mut memory, id3, 4, 4, 8, 12), Ok(-5));
    assert_eq!(decompress_bitmap(&mut env, &mut memory, 40, 4, 4, 8, 12), Err(Error::InvalidId(40)));
}
