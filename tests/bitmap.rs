use xenon::bitmap::{
    bitmap_buffer, check, expected_data_len, Bitmap, BitmapError, BitmapRef, BitmapRefMut,
    CompressedBitmap, CompressedBitmapRef, PixelColor, MAX_IMAGE_SIZE,
};

#[test]
fn expected_lengths() {
    assert_eq!(expected_data_len(0, 10), 0);
    assert_eq!(expected_data_len(1, 1), 1);
    assert_eq!(expected_data_len(4, 3), 3);
    assert_eq!(expected_data_len(5, 3), 6);
    assert_eq!(expected_data_len(240, 255), 60 * 255);
    assert_eq!(expected_data_len(255, 255), 64 * 255);
    assert_eq!(bitmap_buffer().len(), MAX_IMAGE_SIZE);
}

#[test]
fn check_errors() {
    assert_eq!(check(8, 2, &[0; 4]), Ok(()));
    assert_eq!(check(241, 2, &[0; 4]), Err(BitmapError::InvalidDimensions { width: 241, height: 2 }));
    assert_eq!(check(8, 2, &[0; 5]), Err(BitmapError::LengthMismatch { expected: 4, actual: 5 }));
}

#[test]
fn set_then_get_changes_one_pixel() {
    let mut bitmap = Bitmap::new(5, 2, &[0u8; 4]).unwrap();
    bitmap.set_pixel(4, 1, PixelColor::White);
    bitmap.set_pixel(1, 0, PixelColor::Transparent);
    bitmap.set_pixel(9, 0, PixelColor::White);
    for y in 0..2u8 {
        for x in 0..5u8 {
            let expected = match (x, y) {
                (4, 1) => PixelColor::White,
                (1, 0) => PixelColor::Transparent,
                _ => PixelColor::Black,
            };
            assert_eq!(bitmap.get_pixel(x, y), Some(expected));
        }
    }
    assert_eq!(bitmap.get_pixel(5, 0), None);
    assert_eq!(bitmap.get_pixel(0, 2), None);
    bitmap.set_pixel(4, 1, PixelColor::Black);
    assert_eq!(bitmap.get_pixel(4, 1), Some(PixelColor::Black));
    assert_eq!(bitmap.as_ref().data(), &[0b0011_0000, 0, 0, 0][..]);
}

#[test]
fn unwritten_pattern_reads_transparent() {
    let bitmap = BitmapRef::new(4, 1, &[0b1000_0000]).unwrap();
    assert_eq!(bitmap.get_pixel(0, 0), Some(PixelColor::Transparent));
    assert_eq!(bitmap.get_pixel(1, 0), Some(PixelColor::Black));
}

#[test]
fn encoded_forms() {
    assert_eq!(Bitmap::from_encoded(&[]).unwrap_err(), BitmapError::NoWidth);
    assert_eq!(Bitmap::from_encoded(&[4]).unwrap_err(), BitmapError::NoHeight);
    let b = Bitmap::from_encoded(&[4, 1, 0b0100_0000]).unwrap();
    assert_eq!((b.width(), b.height()), (4, 1));
    assert_eq!(b.get_pixel(0, 0), Some(PixelColor::White));
    let r = BitmapRef::from_encoded(&[4, 2, 0]).unwrap_err();
    assert_eq!(r, BitmapError::LengthMismatch { expected: 2, actual: 1 });
    let mut bytes = [2u8, 1, 0];
    let mut m = BitmapRefMut::from_encoded(&mut bytes).unwrap();
    m.set_pixel(1, 0, PixelColor::White);
    assert_eq!(m.get_pixel(1, 0), Some(PixelColor::White));
    assert_eq!(m.data(), &[0b0001_0000][..]);
    let image = m.to_image();
    assert_eq!(image.get_pixel(1, 0), Some(PixelColor::White));
    assert_eq!(bytes, [2, 1, 0b0001_0000]);
}

#[test]
fn pixels_skip_transparent() {
    // 3 by 2: row 0 black, transparent, white; row 1 transparent, transparent, black.
    let bitmap = Bitmap::new(3, 2, &[0b0011_0100, 0b1111_0000]).unwrap();
    let mut pixels = bitmap.pixels();
    let mut seen = Vec::new();
    while let Some(p) = pixels.next() {
        seen.push((p.x, p.y, p.on));
    }
    assert_eq!(seen, vec![(0, 0, true), (2, 0, false), (2, 1, true)]);
    assert!(pixels.next().is_none());
    assert!(pixels.next().is_none());
    let empty = Bitmap::new(0, 3, &[]).unwrap();
    assert!(empty.pixels().next().is_none());
}

#[test]
fn to_image_copies() {
    let data = [0x55u8, 0xff];
    let r = BitmapRef::new(4, 2, &data).unwrap();
    let owned = r.to_image();
    assert_eq!(owned.get_pixel(3, 0), Some(PixelColor::White));
    assert_eq!(owned.get_pixel(3, 1), Some(PixelColor::Transparent));
    assert_eq!(owned.clone(), owned);
}

#[test]
fn decompression() {
    let raw = [0u8, 0x55, 0xff];
    let mut encoded = vec![4u8, 3];
    encoded.extend(miniz_oxide::deflate::compress_to_vec_zlib(&raw, 6));
    let c = CompressedBitmap::new(&encoded).unwrap();
    assert_eq!((c.width(), c.height()), (4, 3));
    let mut buf = bitmap_buffer();
    let r = c.decompress_to_ref(&mut buf).unwrap();
    assert_eq!(r.data(), &raw[..]);
    let owned = c.clone().decompress().unwrap();
    assert_eq!(owned.get_pixel(0, 1), Some(PixelColor::White));
    let mut buf2 = bitmap_buffer();
    let mut m = c.decompress_to_ref_mut(&mut buf2).unwrap();
    m.set_pixel(0, 0, PixelColor::White);
    assert_eq!(m.get_pixel(0, 0), Some(PixelColor::White));

    let cr = CompressedBitmapRef::from_encoded(&encoded).unwrap();
    assert_eq!(cr.decompress().unwrap().get_pixel(2, 2), Some(PixelColor::Transparent));
    let wrong = CompressedBitmapRef::new(8, 3, &encoded[2..]);
    let mut buf3 = bitmap_buffer();
    assert_eq!(
        wrong.decompress_to_ref(&mut buf3).unwrap_err(),
        BitmapError::LengthMismatch { expected: 6, actual: 3 }
    );
    let garbage = CompressedBitmapRef::new(4, 3, &[1, 2, 3]);
    assert!(matches!(garbage.decompress(), Err(BitmapError::DecompressionFailed(_))));
    assert_eq!(CompressedBitmap::new(&[1]).unwrap_err(), BitmapError::NoHeight);
    assert!(matches!(CompressedBitmapRef::from_encoded(&[]), Err(BitmapError::NoWidth)));
}

#[test]
fn pixel_color_codes() {
    assert_eq!(PixelColor::try_from_u32(0), Ok(PixelColor::Black));
    assert_eq!(PixelColor::try_from_u32(1), Ok(PixelColor::White));
    assert_eq!(PixelColor::try_from_u32(3), Ok(PixelColor::Transparent));
    assert!(PixelColor::try_from_u32(2).is_err());
}
