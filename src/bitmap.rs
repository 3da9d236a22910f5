//! Two-bit-per-pixel bitmaps: rows of `ceil(width / 4)` bytes, the first
//! pixel of each byte in its two highest bits. `0b00` is black, `0b01` is
//! white and `0b11` is transparent; the pattern `0b10`, which no write
//! produces, reads as transparent.
use vstd::prelude::*;

verus! {

pub const MAX_BITMAP_WIDTH: u8 = 240;

pub const MAX_BITMAP_HEIGHT: u8 = 255;

/// The largest number of bytes a bitmap can hold: two bits per pixel, at
/// most the widest row, at most the tallest bitmap.
pub const MAX_IMAGE_SIZE: usize = 2 * 30 * 255;

/// The colour of one bitmap pixel.
#[derive(Clone, Copy, Debug, PartialEq, Eq, Hash, Structural)]
pub enum PixelColor {
    Black,
    White,
    Transparent,
}

/// A word that names no pixel colour.
#[derive(Clone, Copy, Debug, PartialEq, Eq, Hash, Default, Structural)]
pub struct InvalidPixelColorError;

/// The two-bit code that a colour is stored as.
pub open spec fn color_code(c: PixelColor) -> u8 {
    match c {
        PixelColor::Black => 0,
        PixelColor::White => 1,
        PixelColor::Transparent => 3,
    }
}

/// The colour that a two-bit code reads as.
pub open spec fn color_of_bits(bits: u8) -> PixelColor {
    if bits == 0 {
        PixelColor::Black
    } else if bits == 1 {
        PixelColor::White
    } else {
        PixelColor::Transparent
    }
}

impl PixelColor {
    /// The colour stored as `value`, the colour's two-bit code.
    pub fn try_from_u32(value: u32) -> (r: Result<PixelColor, InvalidPixelColorError>)
        ensures
            match r {
                Ok(c) => value == color_code(c) as u32,
                Err(_) => value != 0 && value != 1 && value != 3,
            },
    {
        match value {
            0 => Ok(PixelColor::Black),
            1 => Ok(PixelColor::White),
            3 => Ok(PixelColor::Transparent),
            _ => Err(InvalidPixelColorError),
        }
    }
}

/// miniz_oxide's inflater status, carried opaque in a decompression error.
#[verifier::external_type_specification]
#[verifier::external_body]
pub struct ExTINFLStatus(miniz_oxide::inflate::TINFLStatus);

/// Why bytes do not make a bitmap.
#[derive(Clone, Copy, Debug, PartialEq, Eq)]
pub enum BitmapError {
    /// The encoded form has no width byte.
    NoWidth,
    /// The encoded form has no height byte.
    NoHeight,
    /// The width is over the largest allowed.
    InvalidDimensions { width: u8, height: u8 },
    /// The pixel data does not have the length that the dimensions ask for.
    LengthMismatch { expected: usize, actual: usize },
    /// The compressed data did not inflate.
    DecompressionFailed(miniz_oxide::inflate::TINFLStatus),
}

/// Bytes per row: four pixels to a byte, the last byte padded.
pub open spec fn row_bytes(width: u8) -> nat {
    (width as nat + 3) / 4
}

/// The number of data bytes a `width` by `height` bitmap has.
pub open spec fn expected_len(width: u8, height: u8) -> nat {
    row_bytes(width) * height as nat
}

/// Whether `len` data bytes make a valid `width` by `height` bitmap.
pub open spec fn dims_ok(width: u8, height: u8, len: nat) -> bool {
    width <= MAX_BITMAP_WIDTH && len == expected_len(width, height)
}

/// Why `len` data bytes do not make a `width` by `height` bitmap, if they do not.
pub open spec fn check_error(width: u8, height: u8, len: nat) -> Option<BitmapError> {
    if width > MAX_BITMAP_WIDTH {
        Some(BitmapError::InvalidDimensions { width, height })
    } else if len != expected_len(width, height) {
        Some(
            BitmapError::LengthMismatch {
                expected: expected_len(width, height) as usize,
                actual: len as usize,
            },
        )
    } else {
        None
    }
}

/// Why an encoded bitmap (a width byte, a height byte, then the pixel data)
/// does not decode, if it does not.
pub open spec fn encoded_error(encoded: Seq<u8>) -> Option<BitmapError> {
    if encoded.len() == 0 {
        Some(BitmapError::NoWidth)
    } else if encoded.len() == 1 {
        Some(BitmapError::NoHeight)
    } else {
        check_error(encoded[0], encoded[1], (encoded.len() - 2) as nat)
    }
}

/// The mathematical model of a bitmap: its dimensions and its data bytes.
pub struct BitmapView {
    pub width: u8,
    pub height: u8,
    pub data: Seq<u8>,
}

impl BitmapView {
    /// Whether the data has the length that the dimensions ask for.
    pub open spec fn valid(self) -> bool {
        dims_ok(self.width, self.height, self.data.len())
    }

    /// The colour of pixel `(x, y)`, or `None` outside the bitmap.
    pub open spec fn pixel(self, x: u8, y: u8) -> Option<PixelColor> {
        pixel_at(self.width, self.height, self.data, x, y)
    }

    /// The bitmap with pixel `(x, y)` set to `c`.
    pub open spec fn with_pixel(self, x: u8, y: u8, c: PixelColor) -> BitmapView {
        BitmapView { data: data_with_pixel(self.width, self.height, self.data, x, y, c), ..self }
    }

    /// The bitmap that an encoded form decodes to, when it decodes.
    pub open spec fn decoded(encoded: Seq<u8>) -> BitmapView {
        BitmapView { width: encoded[0], height: encoded[1], data: encoded.subrange(2, encoded.len() as int) }
    }
}

/// The byte that holds pixel `(x, y)`.
pub open spec fn pixel_index(width: u8, x: u8, y: u8) -> int {
    x as int / 4 + row_bytes(width) * y as int
}

/// How far pixel `x`'s two bits sit from the low end of its byte.
pub open spec fn pixel_shift(x: u8) -> u8 {
    (6 - 2 * (x % 4)) as u8
}

/// The colour of pixel `(x, y)`, or `None` outside the bitmap.
pub open spec fn pixel_at(width: u8, height: u8, data: Seq<u8>, x: u8, y: u8) -> Option<PixelColor> {
    if x < width && y < height {
        Some(color_of_bits(((data[pixel_index(width, x, y)] >> pixel_shift(x)) & 3u8) as u8))
    } else {
        None
    }
}

/// `b` with the two bits at `shift` holding `c`.
pub open spec fn with_bits(b: u8, shift: u8, c: PixelColor) -> u8 {
    match c {
        PixelColor::Black => b & !(3u8 << shift),
        PixelColor::White => (b & !(3u8 << shift)) | (1u8 << shift),
        PixelColor::Transparent => b | (3u8 << shift),
    }
}

/// The data after setting pixel `(x, y)` to `c`; outside the bitmap nothing changes.
pub open spec fn data_with_pixel(
    width: u8,
    height: u8,
    data: Seq<u8>,
    x: u8,
    y: u8,
    c: PixelColor,
) -> Seq<u8> {
    if x < width && y < height {
        let i = pixel_index(width, x, y);
        data.update(i, with_bits(data[i], pixel_shift(x), c))
    } else {
        data
    }
}

proof fn lemma_bits_write(b: u8, s: u8, t: u8)
    requires
        s == 0 || s == 2 || s == 4 || s == 6,
        t == 0 || t == 2 || t == 4 || t == 6,
    ensures
        ((b & !(3u8 << s)) >> t) & 3u8 == if s == t { 0u8 } else { (b >> t) & 3u8 },
        (((b & !(3u8 << s)) | (1u8 << s)) >> t) & 3u8 == if s == t { 1u8 } else { (b >> t) & 3u8 },
        ((b | (3u8 << s)) >> t) & 3u8 == if s == t { 3u8 } else { (b >> t) & 3u8 },
{
    assert(((b & !(3u8 << s)) >> t) & 3u8 == if s == t { 0u8 } else { (b >> t) & 3u8 })
        by (bit_vector)
        requires
            s == 0 || s == 2 || s == 4 || s == 6,
            t == 0 || t == 2 || t == 4 || t == 6,
    ;
    assert((((b & !(3u8 << s)) | (1u8 << s)) >> t) & 3u8 == if s == t { 1u8 } else { (b >> t) & 3u8 })
        by (bit_vector)
        requires
            s == 0 || s == 2 || s == 4 || s == 6,
            t == 0 || t == 2 || t == 4 || t == 6,
    ;
    assert(((b | (3u8 << s)) >> t) & 3u8 == if s == t { 3u8 } else { (b >> t) & 3u8 })
        by (bit_vector)
        requires
            s == 0 || s == 2 || s == 4 || s == 6,
            t == 0 || t == 2 || t == 4 || t == 6,
    ;
}

proof fn lemma_index_in_bounds(width: u8, height: u8, x: u8, y: u8)
    requires
        x < width,
        y < height,
    ensures
        0 <= pixel_index(width, x, y) < expected_len(width, height),
{
    let rb = row_bytes(width) as int;
    let a = x as int / 4;
    assert(a < rb);
    assert(a + rb * y < rb * (y + 1)) by (nonlinear_arith)
        requires a < rb;
    assert(rb * (y + 1) <= rb * height) by (nonlinear_arith)
        requires y + 1 <= height, rb >= 0;
}

proof fn lemma_row_order(rb: int, a1: int, a2: int, y1: int, y2: int)
    requires
        0 <= a1 < rb,
        0 <= a2,
        0 <= y1 < y2,
    ensures
        a1 + rb * y1 < a2 + rb * y2,
{
    assert(rb * y1 + rb <= rb * y2) by (nonlinear_arith)
        requires y1 + 1 <= y2, rb >= 0;
}

proof fn lemma_index_distinct(width: u8, x1: u8, y1: u8, x2: u8, y2: u8)
    requires
        x1 < width,
        x2 < width,
        pixel_index(width, x1, y1) == pixel_index(width, x2, y2),
        x1 % 4 == x2 % 4,
    ensures
        x1 == x2,
        y1 == y2,
{
    let rb = row_bytes(width) as int;
    let a1 = x1 as int / 4;
    let a2 = x2 as int / 4;
    assert(a1 < rb && a2 < rb);
    if y1 < y2 {
        lemma_row_order(rb, a1, a2, y1 as int, y2 as int);
    } else if y2 < y1 {
        lemma_row_order(rb, a2, a1, y2 as int, y1 as int);
    }
}

/// Setting a pixel changes that pixel to the colour given and no other pixel.
pub proof fn lemma_set_then_get(
    width: u8,
    height: u8,
    data: Seq<u8>,
    x: u8,
    y: u8,
    c: PixelColor,
    px: u8,
    py: u8,
)
    requires
        dims_ok(width, height, data.len()),
    ensures
        data_with_pixel(width, height, data, x, y, c).len() == data.len(),
        pixel_at(width, height, data_with_pixel(width, height, data, x, y, c), px, py) == if px == x
            && py == y && x < width && y < height {
            Some(c)
        } else {
            pixel_at(width, height, data, px, py)
        },
{
    if x < width && y < height {
        lemma_index_in_bounds(width, height, x, y);
    }
    if x < width && y < height && px < width && py < height {
        lemma_index_in_bounds(width, height, px, py);
        let i = pixel_index(width, x, y);
        let j = pixel_index(width, px, py);
        let s = pixel_shift(x);
        let t = pixel_shift(px);
        lemma_bits_write(data[i], s, t);
        if i == j && (px != x || py != y) {
            if x % 4 == px % 4 {
                lemma_index_distinct(width, x, y, px, py);
            }
        }
    }
}

/// The number of data bytes a `width` by `height` bitmap has.
pub fn expected_data_len(width: u8, height: u8) -> (r: usize)
    ensures
        r == expected_len(width, height),
{
    let width_extra_byte: usize = if width % 4 == 0 { 0 } else { 1 };
    let width_bytes = (width / 4) as usize + width_extra_byte;
    let height_lines = height as usize;
    assert(width_bytes <= 64 && height_lines <= 255);
    assert(width_bytes * height_lines <= 64 * 255) by (nonlinear_arith)
        requires width_bytes <= 64, height_lines <= 255;
    width_bytes * height_lines
}

/// A zeroed buffer large enough for any bitmap's data.
pub fn bitmap_buffer() -> (r: Vec<u8>)
    ensures
        r@.len() == MAX_IMAGE_SIZE,
        forall|i: int| 0 <= i < r@.len() ==> r@[i] == 0,
{
    let mut v: Vec<u8> = Vec::new();
    let mut i: usize = 0;
    while i < MAX_IMAGE_SIZE
        invariant
            i <= MAX_IMAGE_SIZE,
            v@.len() == i,
            forall|k: int| 0 <= k < i ==> v@[k] == 0,
        decreases MAX_IMAGE_SIZE - i,
    {
        v.push(0);
        i = i + 1;
    }
    v
}

/// Whether `data` is the pixel data of a `width` by `height` bitmap.
pub fn check(width: u8, height: u8, data: &[u8]) -> (r: Result<(), BitmapError>)
    ensures
        r == match check_error(width, height, data@.len()) {
            Some(e) => Err(e),
            None => Ok(()),
        },
{
    if width > MAX_BITMAP_WIDTH {
        return Err(BitmapError::InvalidDimensions { width, height });
    }
    let expected_len = expected_data_len(width, height);
    if expected_len != data.len() {
        return Err(BitmapError::LengthMismatch { expected: expected_len, actual: data.len() });
    }
    Ok(())
}

fn get_index_pos_internal(width: u8, x: u8, y: u8) -> (r: (usize, u8))
    ensures
        r.0 == pixel_index(width, x, y),
        r.1 == pixel_shift(x),
        r.1 < 8,
    no_unwind
{
    let row = (width as usize + 3) / 4;
    assert(row * (y as usize) <= 64 * 255) by (nonlinear_arith)
        requires row <= 64, y <= 255;
    let index = (x / 4) as usize + row * y as usize;
    let shift = 6 - 2 * (x % 4);
    (index, shift)
}

fn get_pixel_internal(width: u8, height: u8, x: u8, y: u8, data: &[u8]) -> (r: Option<PixelColor>)
    requires
        dims_ok(width, height, data@.len()),
    ensures
        r == pixel_at(width, height, data@, x, y),
{
    if x < width && y < height {
        proof {
            lemma_index_in_bounds(width, height, x, y);
        }
        let (index, shift) = get_index_pos_internal(width, x, y);
        let bits = (data[index] >> shift) & 3;
        if bits == 0 {
            Some(PixelColor::Black)
        } else if bits == 1 {
            Some(PixelColor::White)
        } else {
            Some(PixelColor::Transparent)
        }
    } else {
        None
    }
}

fn with_bits_exec(b: u8, shift: u8, color: PixelColor) -> (r: u8)
    requires
        shift < 8,
    ensures
        r == with_bits(b, shift, color),
    no_unwind
{
    match color {
        PixelColor::Black => b & !(3u8 << shift),
        PixelColor::White => (b & !(3u8 << shift)) | (1u8 << shift),
        PixelColor::Transparent => b | (3u8 << shift),
    }
}

pub(crate) fn set_pixel_internal(width: u8, height: u8, x: u8, y: u8, color: PixelColor, data: &mut [u8])
    requires
        dims_ok(width, height, old(data)@.len()),
    ensures
        final(data)@ == data_with_pixel(width, height, old(data)@, x, y, color),
    no_unwind
{
    if x < width && y < height {
        proof {
            lemma_index_in_bounds(width, height, x, y);
        }
        let (index, shift) = get_index_pos_internal(width, x, y);
        let nb = with_bits_exec(data[index], shift, color);
        data[index] = nb;
    }
}

} // verus!

verus! {

/// A bitmap that owns its data.
#[derive(Debug, PartialEq, Eq, Hash)]
pub struct Bitmap {
    width: u8,
    height: u8,
    data: Vec<u8>,
}

impl View for Bitmap {
    type V = BitmapView;

    closed spec fn view(&self) -> BitmapView {
        BitmapView { width: self.width, height: self.height, data: self.data@ }
    }
}

impl Clone for Bitmap {
    fn clone(&self) -> (r: Self)
        ensures
            r@ == self@,
    {
        proof {
            use_type_invariant(self);
        }
        Bitmap { width: self.width, height: self.height, data: vstd::slice::slice_to_vec(self.data.as_slice()) }
    }
}

impl Bitmap {
    #[verifier::type_invariant]
    spec fn inv(&self) -> bool {
        dims_ok(self.width, self.height, self.data@.len())
    }

    /// A bitmap of the given dimensions holding a copy of `data`, if the
    /// length fits the dimensions.
    pub fn new(width: u8, height: u8, data: &[u8]) -> (r: Result<Self, BitmapError>)
        ensures
            match r {
                Ok(b) => check_error(width, height, data@.len()) is None && b@ == BitmapView {
                    width,
                    height,
                    data: data@,
                },
                Err(e) => check_error(width, height, data@.len()) == Some(e),
            },
    {
        match check(width, height, data) {
            Ok(()) => Ok(Bitmap { width, height, data: vstd::slice::slice_to_vec(data) }),
            Err(e) => Err(e),
        }
    }

    /// Decodes a width byte, a height byte, then the pixel data.
    pub fn from_encoded(encoded: &[u8]) -> (r: Result<Self, BitmapError>)
        ensures
            match r {
                Ok(b) => encoded_error(encoded@) is None && b@ == BitmapView::decoded(encoded@),
                Err(e) => encoded_error(encoded@) == Some(e),
            },
    {
        if encoded.len() == 0 {
            return Err(BitmapError::NoWidth);
        }
        if encoded.len() == 1 {
            return Err(BitmapError::NoHeight);
        }
        Self::new(encoded[0], encoded[1], vstd::slice::slice_subrange(encoded, 2, encoded.len()))
    }

    pub fn width(&self) -> (r: u8)
        ensures
            r == self@.width,
    {
        self.width
    }

    pub fn height(&self) -> (r: u8)
        ensures
            r == self@.height,
    {
        self.height
    }

    /// Sets pixel `(x, y)` to `color`; a pixel outside the bitmap is ignored.
    pub fn set_pixel(&mut self, x: u8, y: u8, color: PixelColor)
        ensures
            final(self)@ == old(self)@.with_pixel(x, y, color),
            final(self)@.valid(),
    {
        proof {
            use_type_invariant(&*self);
            lemma_set_then_get(self.width, self.height, self.data@, x, y, color, 0, 0);
        }
        if x < self.width && y < self.height {
            proof {
                lemma_index_in_bounds(self.width, self.height, x, y);
            }
            let (index, shift) = get_index_pos_internal(self.width, x, y);
            let nb = with_bits_exec(self.data[index], shift, color);
            self.data[index] = nb;
        }
    }

    /// The colour of pixel `(x, y)`, or `None` outside the bitmap.
    pub fn get_pixel(&self, x: u8, y: u8) -> (r: Option<PixelColor>)
        ensures
            r == self@.pixel(x, y),
    {
        proof {
            use_type_invariant(self);
        }
        get_pixel_internal(self.width, self.height, x, y, self.data.as_slice())
    }

    /// A borrowed view of this bitmap.
    pub fn as_ref(&self) -> (r: BitmapRef<'_>)
        ensures
            r@ == self@,
    {
        proof {
            use_type_invariant(self);
        }
        BitmapRef { width: self.width, height: self.height, data: self.data.as_slice() }
    }

    /// The opaque pixels of this bitmap, row by row.
    pub fn pixels(&self) -> (r: Pixels<'_>)
        ensures
            r.bitmap()@ == self@,
            r.position() == 0,
    {
        Pixels::start(self.as_ref())
    }
}

/// A bitmap over borrowed data.
#[derive(Clone, Copy, Debug, PartialEq, Eq, Hash)]
pub struct BitmapRef<'data> {
    width: u8,
    height: u8,
    data: &'data [u8],
}

impl<'data> View for BitmapRef<'data> {
    type V = BitmapView;

    closed spec fn view(&self) -> BitmapView {
        BitmapView { width: self.width, height: self.height, data: self.data@ }
    }
}

impl<'data> BitmapRef<'data> {
    #[verifier::type_invariant]
    spec fn inv(&self) -> bool {
        dims_ok(self.width, self.height, self.data@.len())
    }

    /// A bitmap over `data`, if its length fits the dimensions.
    pub fn new(width: u8, height: u8, data: &'data [u8]) -> (r: Result<Self, BitmapError>)
        ensures
            match r {
                Ok(b) => check_error(width, height, data@.len()) is None && b@ == BitmapView {
                    width,
                    height,
                    data: data@,
                },
                Err(e) => check_error(width, height, data@.len()) == Some(e),
            },
    {
        match check(width, height, data) {
            Ok(()) => Ok(BitmapRef { width, height, data }),
            Err(e) => Err(e),
        }
    }

    /// A bitmap over `data` that is already known to fit the dimensions.
    pub fn new_prechecked(width: u8, height: u8, data: &'data [u8]) -> (r: Self)
        requires
            dims_ok(width, height, data@.len()),
        ensures
            r@ == (BitmapView { width, height, data: data@ }),
    {
        BitmapRef { width, height, data }
    }

    /// Decodes a width byte, a height byte, then the pixel data.
    pub fn from_encoded(encoded: &'data [u8]) -> (r: Result<Self, BitmapError>)
        ensures
            match r {
                Ok(b) => encoded_error(encoded@) is None && b@ == BitmapView::decoded(encoded@),
                Err(e) => encoded_error(encoded@) == Some(e),
            },
    {
        if encoded.len() == 0 {
            return Err(BitmapError::NoWidth);
        }
        if encoded.len() == 1 {
            return Err(BitmapError::NoHeight);
        }
        Self::new(encoded[0], encoded[1], vstd::slice::slice_subrange(encoded, 2, encoded.len()))
    }

    pub fn width(&self) -> (r: u8)
        ensures
            r == self@.width,
    {
        self.width
    }

    pub fn height(&self) -> (r: u8)
        ensures
            r == self@.height,
    {
        self.height
    }

    /// The data bytes.
    pub fn data(&self) -> (r: &'data [u8])
        ensures
            r@ == self@.data,
            self@.valid(),
    {
        proof {
            use_type_invariant(self);
        }
        self.data
    }

    /// The colour of pixel `(x, y)`, or `None` outside the bitmap.
    pub fn get_pixel(&self, x: u8, y: u8) -> (r: Option<PixelColor>)
        ensures
            r == self@.pixel(x, y),
    {
        proof {
            use_type_invariant(self);
        }
        get_pixel_internal(self.width, self.height, x, y, self.data)
    }

    /// An owned copy of this bitmap.
    pub fn to_image(self) -> (r: Bitmap)
        ensures
            r@ == self@,
    {
        proof {
            use_type_invariant(&self);
        }
        Bitmap { width: self.width, height: self.height, data: vstd::slice::slice_to_vec(self.data) }
    }

    /// The opaque pixels of this bitmap, row by row.
    pub fn pixels(&self) -> (r: Pixels<'data>)
        ensures
            r.bitmap()@ == self@,
            r.position() == 0,
    {
        Pixels::start(*self)
    }
}

/// A bitmap over mutably borrowed data.
#[derive(Debug, PartialEq, Eq, Hash)]
pub struct BitmapRefMut<'data> {
    width: u8,
    height: u8,
    data: &'data mut [u8],
}

impl<'data> View for BitmapRefMut<'data> {
    type V = BitmapView;

    closed spec fn view(&self) -> BitmapView {
        BitmapView { width: self.width, height: self.height, data: (*self.data)@ }
    }
}

impl<'data> BitmapRefMut<'data> {
    #[verifier::type_invariant]
    spec fn inv(&self) -> bool {
        dims_ok(self.width, self.height, (*self.data)@.len())
    }

    /// A bitmap over `data`, if its length fits the dimensions.
    pub fn new(width: u8, height: u8, data: &'data mut [u8]) -> (r: Result<Self, BitmapError>)
        ensures
            match r {
                Ok(b) => check_error(width, height, old(data)@.len()) is None && b@ == BitmapView {
                    width,
                    height,
                    data: old(data)@,
                },
                Err(e) => check_error(width, height, old(data)@.len()) == Some(e),
            },
    {
        match check(width, height, data) {
            Ok(()) => Ok(BitmapRefMut { width, height, data }),
            Err(e) => Err(e),
        }
    }

    pub fn width(&self) -> (r: u8)
        ensures
            r == self@.width,
    {
        self.width
    }

    pub fn height(&self) -> (r: u8)
        ensures
            r == self@.height,
    {
        self.height
    }

    /// Sets pixel `(x, y)` to `color`; a pixel outside the bitmap is ignored.
    pub fn set_pixel(&mut self, x: u8, y: u8, color: PixelColor)
        ensures
            final(self)@ == old(self)@.with_pixel(x, y, color),
    {
        proof {
            use_type_invariant(&*self);
            lemma_set_then_get(self.width, self.height, (*self.data)@, x, y, color, 0, 0);
        }
        set_pixel_internal(self.width, self.height, x, y, color, self.data);
    }

    /// The colour of pixel `(x, y)`, or `None` outside the bitmap.
    pub fn get_pixel(&self, x: u8, y: u8) -> (r: Option<PixelColor>)
        ensures
            r == self@.pixel(x, y),
    {
        proof {
            use_type_invariant(self);
        }
        get_pixel_internal(self.width, self.height, x, y, self.data)
    }

    /// Decodes a width byte, a height byte, then the pixel data.
    pub fn from_encoded(encoded: &'data mut [u8]) -> (r: Result<Self, BitmapError>)
        ensures
            match r {
                Ok(b) => encoded_error(old(encoded)@) is None && b@ == BitmapView::decoded(old(encoded)@),
                Err(e) => encoded_error(old(encoded)@) == Some(e),
            },
    {
        if encoded.len() == 0 {
            return Err(BitmapError::NoWidth);
        }
        if encoded.len() == 1 {
            return Err(BitmapError::NoHeight);
        }
        let width = encoded[0];
        let height = encoded[1];
        let (_, rest) = encoded.split_at_mut(2);
        Self::new(width, height, rest)
    }

    /// The data bytes.
    pub fn data(&self) -> (r: &[u8])
        ensures
            r@ == self@.data,
    {
        &*self.data
    }

    /// A shared view of this bitmap.
    pub fn as_ref(&self) -> (r: BitmapRef<'_>)
        ensures
            r@ == self@,
    {
        proof {
            use_type_invariant(self);
        }
        BitmapRef { width: self.width, height: self.height, data: &*self.data }
    }

    /// An owned copy of this bitmap.
    pub fn to_image(self) -> (r: Bitmap)
        ensures
            r@ == self@,
    {
        proof {
            use_type_invariant(&self);
        }
        Bitmap { width: self.width, height: self.height, data: vstd::slice::slice_to_vec(&*self.data) }
    }

    /// The opaque pixels of this bitmap, row by row.
    pub fn pixels(&self) -> (r: Pixels<'_>)
        ensures
            r.bitmap()@ == self@,
            r.position() == 0,
    {
        Pixels::start(self.as_ref())
    }
}

/// What miniz_oxide's zlib inflation of `data` into an output buffer of
/// `cap` bytes yields: the inflated bytes, or `None` when the call fails.
pub uninterp spec fn zlib_inflated(data: Seq<u8>, cap: nat) -> Option<Seq<u8>>;

/// Relies on `miniz_oxide::inflate::decompress_slice_iter_to_slice`, called
/// with one input slice, a zlib header and the checksum checked: its outcome
/// depends on the data and the length of `out` alone; on success it returns
/// how many bytes it wrote, which are at the front of `out`; it writes nothing
/// past `out`.
#[verifier::external_body]
fn inflate_into(out: &mut [u8], data: &[u8]) -> (r: Result<usize, miniz_oxide::inflate::TINFLStatus>)
    ensures
        final(out)@.len() == old(out)@.len(),
        match r {
            Ok(n) => n <= old(out)@.len() && zlib_inflated(data@, old(out)@.len()) == Some(
                final(out)@.subrange(0, n as int),
            ),
            Err(_) => zlib_inflated(data@, old(out)@.len()) is None,
        },
{
    miniz_oxide::inflate::decompress_slice_iter_to_slice(out, core::iter::once(data), true, false)
}

/// What a decompression into a buffer of `cap` bytes returns: a failure of
/// the inflation itself, else the bitmap of the given dimensions over the
/// inflated bytes, or why those bytes do not fit the dimensions.
pub open spec fn decompress_outcome(
    width: u8,
    height: u8,
    data: Seq<u8>,
    cap: nat,
    r: Result<BitmapView, BitmapError>,
) -> bool {
    match zlib_inflated(data, cap) {
        None => r matches Err(BitmapError::DecompressionFailed(_)),
        Some(z) => match check_error(width, height, z.len()) {
            Some(e) => r == Err::<BitmapView, BitmapError>(e),
            None => r == Ok::<BitmapView, BitmapError>(BitmapView { width, height, data: z }),
        },
    }
}

fn inflate_to_ref<'buf>(width: u8, height: u8, data: &[u8], buf: &'buf mut [u8]) -> (r: Result<
    BitmapRef<'buf>,
    BitmapError,
>)
    ensures
        decompress_outcome(
            width,
            height,
            data@,
            old(buf)@.len(),
            match r {
                Ok(b) => Ok(b@),
                Err(e) => Err(e),
            },
        ),
{
    let len = match inflate_into(buf, data) {
        Ok(n) => n,
        Err(status) => return Err(BitmapError::DecompressionFailed(status)),
    };
    let buf: &'buf [u8] = buf;
    let out = vstd::slice::slice_subrange(buf, 0, len);
    BitmapRef::new(width, height, out)
}

fn inflate_to_ref_mut<'buf>(width: u8, height: u8, data: &[u8], buf: &'buf mut [u8]) -> (r: Result<
    BitmapRefMut<'buf>,
    BitmapError,
>)
    ensures
        decompress_outcome(
            width,
            height,
            data@,
            old(buf)@.len(),
            match r {
                Ok(b) => Ok(b@),
                Err(e) => Err(e),
            },
        ),
{
    let len = match inflate_into(buf, data) {
        Ok(n) => n,
        Err(status) => return Err(BitmapError::DecompressionFailed(status)),
    };
    let (out, _) = buf.split_at_mut(len);
    BitmapRefMut::new(width, height, out)
}

fn inflate_to_image(width: u8, height: u8, data: &[u8]) -> (r: Result<Bitmap, BitmapError>)
    ensures
        decompress_outcome(
            width,
            height,
            data@,
            MAX_IMAGE_SIZE as nat,
            match r {
                Ok(b) => Ok(b@),
                Err(e) => Err(e),
            },
        ),
{
    let mut bytes = bitmap_buffer();
    let len = match inflate_into(bytes.as_mut_slice(), data) {
        Ok(n) => n,
        Err(status) => return Err(BitmapError::DecompressionFailed(status)),
    };
    Bitmap::new(width, height, vstd::slice::slice_subrange(bytes.as_slice(), 0, len))
}

/// A compressed bitmap that owns its zlib stream.
#[derive(Clone, Debug, PartialEq, Eq, Hash)]
pub struct CompressedBitmap {
    width: u8,
    height: u8,
    data: Vec<u8>,
}

impl View for CompressedBitmap {
    type V = BitmapView;

    closed spec fn view(&self) -> BitmapView {
        BitmapView { width: self.width, height: self.height, data: self.data@ }
    }
}

impl CompressedBitmap {
    /// Reads a width byte and a height byte; the rest is the zlib stream.
    pub fn new(bytes: &[u8]) -> (r: Result<Self, BitmapError>)
        ensures
            match r {
                Ok(b) => bytes@.len() >= 2 && b@ == BitmapView::decoded(bytes@),
                Err(e) => {
                    &&& bytes@.len() < 2
                    &&& e == if bytes@.len() == 0 {
                        BitmapError::NoWidth
                    } else {
                        BitmapError::NoHeight
                    }
                },
            },
    {
        if bytes.len() == 0 {
            return Err(BitmapError::NoWidth);
        }
        if bytes.len() == 1 {
            return Err(BitmapError::NoHeight);
        }
        let data = vstd::slice::slice_to_vec(vstd::slice::slice_subrange(bytes, 2, bytes.len()));
        Ok(CompressedBitmap { width: bytes[0], height: bytes[1], data })
    }

    pub fn width(&self) -> (r: u8)
        ensures
            r == self@.width,
    {
        self.width
    }

    pub fn height(&self) -> (r: u8)
        ensures
            r == self@.height,
    {
        self.height
    }

    /// Inflates into a buffer of `MAX_IMAGE_SIZE` bytes and copies the
    /// result into an owned bitmap.
    pub fn decompress(self) -> (r: Result<Bitmap, BitmapError>)
        ensures
            decompress_outcome(
                self@.width,
                self@.height,
                self@.data,
                MAX_IMAGE_SIZE as nat,
                match r {
                    Ok(b) => Ok(b@),
                    Err(e) => Err(e),
                },
            ),
    {
        inflate_to_image(self.width, self.height, self.data.as_slice())
    }

    /// Inflates into `buf` and views the result as a bitmap.
    pub fn decompress_to_ref<'buf>(&self, buf: &'buf mut [u8]) -> (r: Result<BitmapRef<'buf>, BitmapError>)
        ensures
            decompress_outcome(
                self@.width,
                self@.height,
                self@.data,
                old(buf)@.len(),
                match r {
                    Ok(b) => Ok(b@),
                    Err(e) => Err(e),
                },
            ),
    {
        inflate_to_ref(self.width, self.height, self.data.as_slice(), buf)
    }

    /// Inflates into `buf` and views the result as a mutable bitmap.
    pub fn decompress_to_ref_mut<'buf>(&self, buf: &'buf mut [u8]) -> (r: Result<BitmapRefMut<'buf>, BitmapError>)
        ensures
            decompress_outcome(
                self@.width,
                self@.height,
                self@.data,
                old(buf)@.len(),
                match r {
                    Ok(b) => Ok(b@),
                    Err(e) => Err(e),
                },
            ),
    {
        inflate_to_ref_mut(self.width, self.height, self.data.as_slice(), buf)
    }
}

/// A compressed bitmap over a borrowed zlib stream.
pub struct CompressedBitmapRef<'data> {
    width: u8,
    height: u8,
    data: &'data [u8],
}

impl<'data> View for CompressedBitmapRef<'data> {
    type V = BitmapView;

    closed spec fn view(&self) -> BitmapView {
        BitmapView { width: self.width, height: self.height, data: self.data@ }
    }
}

impl<'data> CompressedBitmapRef<'data> {
    /// A compressed bitmap of the given dimensions over `data`.
    pub fn new(width: u8, height: u8, data: &'data [u8]) -> (r: Self)
        ensures
            r@ == (BitmapView { width, height, data: data@ }),
    {
        CompressedBitmapRef { width, height, data }
    }

    /// Reads a width byte and a height byte; the rest is the zlib stream.
    pub fn from_encoded(bytes: &'data [u8]) -> (r: Result<Self, BitmapError>)
        ensures
            match r {
                Ok(b) => bytes@.len() >= 2 && b@ == BitmapView::decoded(bytes@),
                Err(e) => {
                    &&& bytes@.len() < 2
                    &&& e == if bytes@.len() == 0 {
                        BitmapError::NoWidth
                    } else {
                        BitmapError::NoHeight
                    }
                },
            },
    {
        if bytes.len() == 0 {
            return Err(BitmapError::NoWidth);
        }
        if bytes.len() == 1 {
            return Err(BitmapError::NoHeight);
        }
        Ok(CompressedBitmapRef { width: bytes[0], height: bytes[1], data: vstd::slice::slice_subrange(bytes, 2, bytes.len()) })
    }

    pub fn width(&self) -> (r: u8)
        ensures
            r == self@.width,
    {
        self.width
    }

    pub fn height(&self) -> (r: u8)
        ensures
            r == self@.height,
    {
        self.height
    }

    /// Inflates into a buffer of `MAX_IMAGE_SIZE` bytes and copies the
    /// result into an owned bitmap.
    pub fn decompress(self) -> (r: Result<Bitmap, BitmapError>)
        ensures
            decompress_outcome(
                self@.width,
                self@.height,
                self@.data,
                MAX_IMAGE_SIZE as nat,
                match r {
                    Ok(b) => Ok(b@),
                    Err(e) => Err(e),
                },
            ),
    {
        inflate_to_image(self.width, self.height, self.data)
    }

    /// Inflates into `buf` and views the result as a bitmap.
    pub fn decompress_to_ref<'buf>(&self, buf: &'buf mut [u8]) -> (r: Result<BitmapRef<'buf>, BitmapError>)
        ensures
            decompress_outcome(
                self@.width,
                self@.height,
                self@.data,
                old(buf)@.len(),
                match r {
                    Ok(b) => Ok(b@),
                    Err(e) => Err(e),
                },
            ),
    {
        inflate_to_ref(self.width, self.height, self.data, buf)
    }

    /// Inflates into `buf` and views the result as a mutable bitmap.
    pub fn decompress_to_ref_mut<'buf>(&self, buf: &'buf mut [u8]) -> (r: Result<BitmapRefMut<'buf>, BitmapError>)
        ensures
            decompress_outcome(
                self@.width,
                self@.height,
                self@.data,
                old(buf)@.len(),
                match r {
                    Ok(b) => Ok(b@),
                    Err(e) => Err(e),
                },
            ),
    {
        inflate_to_ref_mut(self.width, self.height, self.data, buf)
    }
}

} // verus!

verus! {

/// An opaque pixel: `on` for black, off for white.
#[derive(Clone, Copy, Debug, PartialEq, Eq, Hash, Structural)]
pub struct Pixel {
    pub x: u8,
    pub y: u8,
    pub on: bool,
}

/// The colour of the pixel at row-major position `q`, or `None` past the end.
pub open spec fn pixel_at_pos(v: BitmapView, q: int) -> Option<PixelColor> {
    if v.width > 0 && 0 <= q < v.width as int * v.height as int {
        v.pixel((q % v.width as int) as u8, (q / v.width as int) as u8)
    } else {
        None
    }
}

/// The opaque pixels of a bitmap in row-major order; transparent pixels are
/// skipped.
pub struct Pixels<'data> {
    x: u8,
    y: u8,
    bitmap: BitmapRef<'data>,
}

impl<'data> Pixels<'data> {
    #[verifier::type_invariant]
    spec fn inv(&self) -> bool {
        &&& self.bitmap@.width > 0 ==> self.x < self.bitmap@.width
        &&& self.bitmap@.width == 0 ==> self.x == 0 && self.y == 0
        &&& self.y <= self.bitmap@.height
        &&& self.y == self.bitmap@.height ==> self.x == 0
    }

    /// The bitmap walked over.
    pub closed spec fn bitmap(&self) -> BitmapRef<'data> {
        self.bitmap
    }

    /// The row-major position of the next pixel to look at.
    pub closed spec fn position(&self) -> int {
        self.y as int * self.bitmap@.width as int + self.x as int
    }

    fn start(bitmap: BitmapRef<'data>) -> (r: Self)
        ensures
            r.bitmap() == bitmap,
            r.position() == 0,
    {
        Pixels { x: 0, y: 0, bitmap }
    }

    /// The next opaque pixel at or after the current position, if any; every
    /// pixel passed over on the way is transparent. Once it returns `None` the
    /// position is past the last pixel, so every later call returns `None`.
    pub fn next(&mut self) -> (r: Option<Pixel>)
        ensures
            final(self).bitmap() == old(self).bitmap(),
            match r {
                Some(px) => {
                    let v = old(self).bitmap()@;
                    let p = px.y as int * v.width as int + px.x as int;
                    &&& px.x < v.width && px.y < v.height
                    &&& old(self).position() <= p
                    &&& v.pixel(px.x, px.y) == Some(
                        if px.on {
                            PixelColor::Black
                        } else {
                            PixelColor::White
                        },
                    )
                    &&& pixel_at_pos(v, p) == v.pixel(px.x, px.y)
                    &&& forall|q: int|
                        old(self).position() <= q < p ==> pixel_at_pos(v, q) == Some(
                            PixelColor::Transparent,
                        )
                    &&& final(self).position() == p + 1
                },
                None => {
                    let v = old(self).bitmap()@;
                    &&& forall|q: int|
                        old(self).position() <= q < v.width as int * v.height as int
                            ==> pixel_at_pos(v, q) == Some(PixelColor::Transparent)
                    &&& final(self).position() == v.width as int * v.height as int
                },
            },
    {
        proof {
            use_type_invariant(&*self);
        }
        let ghost start = self.position();
        let ghost v = self.bitmap@;
        loop
            invariant
                self.bitmap == old(self).bitmap,
                v == self.bitmap@,
                start == old(self).position(),
                start <= self.position(),
                self.bitmap@.width > 0 ==> self.x < self.bitmap@.width,
                self.bitmap@.width == 0 ==> self.x == 0 && self.y == 0,
                self.y <= self.bitmap@.height,
                self.y == self.bitmap@.height ==> self.x == 0,
                forall|q: int|
                    start <= q < self.position() ==> pixel_at_pos(v, q) == Some(
                        PixelColor::Transparent,
                    ),
            decreases v.width as int * v.height as int - self.position(),
        {
            let x = self.x;
            let y = self.y;
            let ghost p = self.position();
            let color = match self.bitmap.get_pixel(x, y) {
                Some(c) => c,
                None => {
                    proof {
                        if v.width > 0 {
                            assert(y == v.height);
                            assert(p == v.width as int * v.height as int) by (nonlinear_arith)
                                requires p == y as int * v.width as int + x as int, x == 0, y == v.height;
                        } else {
                            assert(v.width as int * v.height as int == 0) by (nonlinear_arith)
                                requires v.width == 0;
                        }
                        assert(v == old(self).bitmap()@);
                        assert(start == old(self).position());
                        assert(self.position() == p);
                        assert(p == v.width as int * v.height as int) by (nonlinear_arith)
                            requires
                                p == y as int * v.width as int + x as int,
                                v.width > 0 ==> y == v.height && x == 0,
                                v.width == 0 ==> x == 0 && y == 0,
                        ;
                        assert forall|q: int|
                            start <= q < v.width as int * v.height as int implies pixel_at_pos(v, q) == Some(
                                PixelColor::Transparent,
                            ) by {
                            assert(q < p);
                        }
                    }
                    return None;
                },
            };
            proof {
                let w = v.width as int;
                vstd::arithmetic::div_mod::lemma_fundamental_div_mod_converse(p, w, y as int, x as int);
                assert(y as int * w + x < w * v.height as int) by (nonlinear_arith)
                    requires x < w, y < v.height;
                assert(pixel_at_pos(v, p) == Some(color));
            }
            if x == self.bitmap.width - 1 {
                self.x = 0;
                self.y = y + 1;
                proof {
                    let w = v.width as int;
                    assert(self.position() == p + 1) by (nonlinear_arith)
                        requires self.position() == (y + 1) as int * w, p == y as int * w + x, x == w - 1;
                }
            } else {
                self.x = x + 1;
            }
            match color {
                PixelColor::Black => {
                    return Some(Pixel { x, y, on: true });
                },
                PixelColor::White => {
                    return Some(Pixel { x, y, on: false });
                },
                PixelColor::Transparent => {},
            }
        }
    }
}

} // verus!
