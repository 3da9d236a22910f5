//! The display's frame buffer: one bit per pixel, set for white, rows of
//! `LCD_X / 8` bytes, with the band of rows changed since the last refresh.
use vstd::prelude::*;

verus! {

pub const LCD_X: u8 = 144;

pub const LCD_Y: u8 = 168;

/// Bytes in the frame buffer: one bit per pixel.
pub const LCD_BUFFER_SIZE: usize = 3024;

/// Bytes in one row of the frame buffer.
pub const BYTES_PER_LINE: usize = 18;

/// The mathematical model of a frame buffer.
pub struct LcdBufferView {
    pub buf: Seq<u8>,
    pub min_changed: u8,
    pub max_changed: u8,
    pub clear: bool,
}

/// The byte and bit that hold pixel `(x, y)`.
pub open spec fn lcd_index(x: u8, y: u8) -> int {
    (x as int + LCD_X as int * y as int) / 8
}

/// Whether pixel `(x, y)` is white in `buf`.
pub open spec fn lcd_white(buf: Seq<u8>, x: u8, y: u8) -> bool {
    (buf[lcd_index(x, y)] >> (x & 7u8)) & 1u8 == 1u8
}

/// The frame buffer of the display.
#[derive(Clone, Copy, Debug, PartialEq, Eq, Hash)]
pub struct LcdBuffer {
    buf: [u8; LCD_BUFFER_SIZE],
    min_changed: u8,
    max_changed: u8,
    clear: bool,
}

impl View for LcdBuffer {
    type V = LcdBufferView;

    closed spec fn view(&self) -> LcdBufferView {
        LcdBufferView {
            buf: self.buf@,
            min_changed: self.min_changed,
            max_changed: self.max_changed,
            clear: self.clear,
        }
    }
}

impl LcdBuffer {
    /// An all-white buffer with nothing to refresh.
    pub fn new() -> (r: Self)
        ensures
            r@.buf.len() == LCD_BUFFER_SIZE,
            forall|i: int| 0 <= i < LCD_BUFFER_SIZE ==> r@.buf[i] == 0xff,
            r@.min_changed == LCD_Y,
            r@.max_changed == 0,
            !r@.clear,
    {
        LcdBuffer { buf: [0xffu8; LCD_BUFFER_SIZE], min_changed: LCD_Y, max_changed: 0, clear: false }
    }

    pub fn needs_clear(&self) -> (r: bool)
        ensures
            r == self@.clear,
    {
        self.clear
    }

    fn get_index_and_bit(x: u8, y: u8) -> (r: (usize, u8))
        requires
            x < LCD_X,
            y < LCD_Y,
        ensures
            r.0 == lcd_index(x, y),
            r.0 < LCD_BUFFER_SIZE,
            r.1 == x & 7u8,
            r.1 < 8,
    {
        assert(x as int + 144 * y as int <= 143 + 144 * 167) by (nonlinear_arith)
            requires x < 144, y < 168;
        let index = (x as usize + LCD_X as usize * y as usize) / 8;
        let bit = x & 7;
        assert(x & 7u8 < 8) by (bit_vector);
        (index, bit)
    }

    /// Sets pixel `(x, y)` white or black and widens the band of changed
    /// rows to take in row `y`; a pixel outside the display is ignored.
    pub fn set_pixel_internal(&mut self, x: u8, y: u8, white: bool)
        ensures
            final(self)@ == old(self)@.with_pixel(x, y, white),
    {
        if x < LCD_X && y < LCD_Y {
            let (index, bit) = Self::get_index_and_bit(x, y);
            if white {
                self.buf[index] = self.buf[index] | (1u8 << bit);
            } else {
                self.buf[index] = self.buf[index] & !(1u8 << bit);
            }
            let low = if y < self.min_changed { y } else { self.min_changed };
            let high = if y + 1 > self.max_changed { y + 1 } else { self.max_changed };
            self.min_changed = low;
            self.max_changed = if high > LCD_Y { LCD_Y } else { high };
            proof {
                assert(self@.buf =~= old(self)@.with_pixel(x, y, white).buf);
            }
        }
    }

    /// Sets pixel `(x, y)` given in display coordinates, which may lie
    /// anywhere; a pixel outside the display is ignored.
    pub fn set_pixel(&mut self, x: i32, y: i32, white: bool)
        ensures
            final(self)@ == if 0 <= x <= 255 && 0 <= y <= 255 {
                old(self)@.with_pixel(x as u8, y as u8, white)
            } else {
                old(self)@
            },
    {
        if 0 <= x && x <= 255 && 0 <= y && y <= 255 {
            self.set_pixel_internal(x as u8, y as u8, white);
        }
    }

    /// Sets every byte to `byte` and marks every row changed.
    pub fn fill(&mut self, byte: u8)
        ensures
            final(self)@ == (LcdBufferView {
                buf: Seq::new(LCD_BUFFER_SIZE as nat, |i: int| byte),
                min_changed: 0,
                max_changed: LCD_Y,
                clear: old(self)@.clear,
            }),
    {
        self.fill_bytes(byte);
        self.min_changed = 0;
        self.max_changed = LCD_Y;
    }

    fn fill_bytes(&mut self, byte: u8)
        ensures
            final(self)@ == (LcdBufferView { buf: Seq::new(LCD_BUFFER_SIZE as nat, |i: int| byte), ..old(self)@ }),
    {
        let mut i: usize = 0;
        while i < LCD_BUFFER_SIZE
            invariant
                i <= LCD_BUFFER_SIZE,
                self.buf@.len() == LCD_BUFFER_SIZE,
                forall|k: int| 0 <= k < i ==> self.buf@[k] == byte,
                self.min_changed == old(self).min_changed,
                self.max_changed == old(self).max_changed,
                self.clear == old(self).clear,
            decreases LCD_BUFFER_SIZE - i,
        {
            self.buf[i] = byte;
            i = i + 1;
        }
        proof {
            assert(self@.buf =~= Seq::new(LCD_BUFFER_SIZE as nat, |i: int| byte));
        }
    }

    /// Makes every pixel white, marks the buffer to be cleared on the display
    /// and leaves no rows to refresh.
    pub fn clear(&mut self)
        ensures
            final(self)@ == (LcdBufferView {
                buf: Seq::new(LCD_BUFFER_SIZE as nat, |i: int| 0xffu8),
                min_changed: LCD_Y,
                max_changed: 0,
                clear: true,
            }),
    {
        self.fill_bytes(0xff);
        self.min_changed = LCD_Y;
        self.max_changed = 0;
        self.clear = true;
    }

    /// Takes over everything `other` holds.
    pub fn copy_from_buffer(&mut self, other: &Self)
        ensures
            final(self)@ == other@,
    {
        *self = *other;
    }

    /// The bytes of row `n`.
    pub fn get_line(&self, n: usize) -> (r: &[u8])
        requires
            n < LCD_Y,
        ensures
            r@ == self@.buf.subrange(n * BYTES_PER_LINE, n * BYTES_PER_LINE + BYTES_PER_LINE),
    {
        let index = n * BYTES_PER_LINE;
        vstd::slice::slice_subrange(self.buf.as_slice(), index, index + BYTES_PER_LINE)
    }

    /// Records that the display shows the buffer: no rows left to refresh,
    /// nothing to clear.
    pub fn refreshed(&mut self)
        ensures
            final(self)@ == (LcdBufferView { min_changed: LCD_Y, max_changed: 0, clear: false, ..old(self)@ }),
    {
        self.min_changed = LCD_Y;
        self.max_changed = 0;
        self.clear = false;
    }

    /// Whether some rows changed since the last refresh.
    pub fn needs_refresh(&self) -> (r: bool)
        ensures
            r == (self@.min_changed != LCD_Y && self@.max_changed != 0),
    {
        self.min_changed != LCD_Y && self.max_changed != 0
    }
}

/// A byte with bit `bit` set for white or cleared for black.
pub open spec fn with_lcd_bit(b: u8, bit: u8, white: bool) -> u8 {
    if white {
        b | (1u8 << bit)
    } else {
        b & !(1u8 << bit)
    }
}

impl LcdBufferView {
    /// The buffer after setting pixel `(x, y)`: its bit changes and the band
    /// of changed rows takes in row `y`; outside the display nothing changes.
    pub open spec fn with_pixel(self, x: u8, y: u8, white: bool) -> LcdBufferView {
        if x < LCD_X && y < LCD_Y {
            let i = lcd_index(x, y);
            let high = if y + 1 > self.max_changed { y + 1 } else { self.max_changed as int };
            LcdBufferView {
                buf: self.buf.update(i, with_lcd_bit(self.buf[i], x & 7u8, white)),
                min_changed: if y < self.min_changed { y } else { self.min_changed },
                max_changed: if high > LCD_Y { LCD_Y } else { high as u8 },
                clear: self.clear,
            }
        } else {
            self
        }
    }
}

} // verus!

verus! {

proof fn lemma_lcd_bits(b: u8, s: u8, t: u8)
    requires
        s < 8,
        t < 8,
    ensures
        ((b | (1u8 << s)) >> t) & 1u8 == if s == t { 1u8 } else { (b >> t) & 1u8 },
        ((b & !(1u8 << s)) >> t) & 1u8 == if s == t { 0u8 } else { (b >> t) & 1u8 },
{
    assert(((b | (1u8 << s)) >> t) & 1u8 == if s == t { 1u8 } else { (b >> t) & 1u8 }) by (bit_vector)
        requires
            s < 8,
            t < 8,
    ;
    assert(((b & !(1u8 << s)) >> t) & 1u8 == if s == t { 0u8 } else { (b >> t) & 1u8 }) by (bit_vector)
        requires
            s < 8,
            t < 8,
    ;
}

proof fn lemma_lcd_index(x: u8, y: u8)
    requires
        x < LCD_X,
        y < LCD_Y,
    ensures
        lcd_index(x, y) == x as int / 8 + 18 * y as int,
        0 <= lcd_index(x, y) < LCD_BUFFER_SIZE,
        x & 7u8 == x % 8,
{
    assert((x as int + 144 * y as int) / 8 == x as int / 8 + 18 * y as int) by (nonlinear_arith)
        requires x >= 0, y >= 0;
    assert(x as int / 8 + 18 * y as int <= 17 + 18 * 167) by (nonlinear_arith)
        requires x < 144, y < 168;
    assert(x & 7u8 == x % 8) by (bit_vector);
}

/// Setting a pixel of the frame buffer makes that pixel white or black as
/// asked and leaves every other pixel as it was.
pub proof fn lemma_lcd_set_then_read(v: LcdBufferView, x: u8, y: u8, white: bool, px: u8, py: u8)
    requires
        v.buf.len() == LCD_BUFFER_SIZE,
        px < LCD_X,
        py < LCD_Y,
    ensures
        v.with_pixel(x, y, white).buf.len() == LCD_BUFFER_SIZE,
        lcd_white(v.with_pixel(x, y, white).buf, px, py) == if px == x && py == y {
            white
        } else {
            lcd_white(v.buf, px, py)
        },
{
    lemma_lcd_index(px, py);
    if x < LCD_X && y < LCD_Y {
        lemma_lcd_index(x, y);
        let i = lcd_index(x, y);
        lemma_lcd_bits(v.buf[i], x & 7u8, px & 7u8);
        if lcd_index(px, py) == i && (px != x || py != y) && px & 7u8 == x & 7u8 {
            let a = x as int / 8;
            let b = px as int / 8;
            assert(a < 18 && b < 18);
            if y < py {
                assert(a + 18 * y < b + 18 * py) by (nonlinear_arith)
                    requires a < 18, y < py, b >= 0;
            } else if py < y {
                assert(b + 18 * py < a + 18 * y) by (nonlinear_arith)
                    requires b < 18, py < y, a >= 0;
            }
        }
    }
}

} // verus!
