//! The parameters of the shape-drawing syscalls: colours, stroke alignment,
//! style and corner radii, checked and decoded from guest words and memory.
use vstd::prelude::*;
use crate::error::Error;
use crate::syscall::{in_bounds, range_error, read_memory};

verus! {

/// Where a shape's stroke lies relative to its outline.
#[derive(Clone, Copy, Debug, PartialEq, Eq, Hash, Structural)]
pub enum StrokeAlignment {
    Inside,
    Center,
    Outside,
}

/// How a shape is drawn; a colour is `true` for on (black) and `false` for
/// off (white), and `None` leaves that part undrawn.
#[derive(Clone, Copy, Debug, PartialEq, Eq, Hash, Structural)]
pub struct PrimitiveStyle {
    pub fill_color: Option<bool>,
    pub stroke_color: Option<bool>,
    pub stroke_width: u32,
    pub stroke_alignment: StrokeAlignment,
}

/// A width and a height.
#[derive(Clone, Copy, Debug, PartialEq, Eq, Hash, Default, Structural)]
pub struct Size {
    pub width: u32,
    pub height: u32,
}

/// The radii of a rounded rectangle's four corners.
#[derive(Clone, Copy, Debug, PartialEq, Eq, Hash, Default, Structural)]
pub struct CornerRadii {
    pub top_left: Size,
    pub top_right: Size,
    pub bottom_right: Size,
    pub bottom_left: Size,
}

/// The colour a guest colour word names: 0 for none, 1 for off, 2 for on.
pub open spec fn color_of(v: u32) -> Option<Option<bool>> {
    if v == 0 {
        Some(None)
    } else if v == 1 {
        Some(Some(false))
    } else if v == 2 {
        Some(Some(true))
    } else {
        None
    }
}

/// The alignment a guest word names: 0 inside, 1 centred, 2 outside.
pub open spec fn alignment_of(v: u32) -> Option<StrokeAlignment> {
    if v == 0 {
        Some(StrokeAlignment::Inside)
    } else if v == 1 {
        Some(StrokeAlignment::Center)
    } else if v == 2 {
        Some(StrokeAlignment::Outside)
    } else {
        None
    }
}

/// Decodes a guest colour word.
pub fn wasm_to_color(v: u32) -> (r: Result<Option<bool>, Error>)
    ensures
        match color_of(v) {
            Some(c) => r == Ok::<Option<bool>, Error>(c),
            None => r matches Err(Error::InvalidValue(_)),
        },
{
    match v {
        0 => Ok(None),
        1 => Ok(Some(false)),
        2 => Ok(Some(true)),
        _ => Err(Error::InvalidValue("Option<BinaryColor>")),
    }
}

/// Decodes a guest stroke alignment word.
pub fn wasm_to_stroke_align(v: u32) -> (r: Result<StrokeAlignment, Error>)
    ensures
        match alignment_of(v) {
            Some(a) => r == Ok::<StrokeAlignment, Error>(a),
            None => r matches Err(Error::InvalidValue(_)),
        },
{
    match v {
        0 => Ok(StrokeAlignment::Inside),
        1 => Ok(StrokeAlignment::Center),
        2 => Ok(StrokeAlignment::Outside),
        _ => Err(Error::InvalidValue("StrokeAlignment")),
    }
}

/// The style that the guest's style words give; the alignment is checked
/// first, then the fill colour, then the stroke colour.
pub fn style(
    fill_color: u32,
    stroke_color: u32,
    stroke_width: u32,
    stroke_alignment: u32,
) -> (r: Result<PrimitiveStyle, Error>)
    ensures
        r is Ok <==> alignment_of(stroke_alignment) is Some && color_of(fill_color) is Some && color_of(
            stroke_color,
        ) is Some,
        r matches Ok(s) ==> s == (PrimitiveStyle {
            fill_color: color_of(fill_color).unwrap(),
            stroke_color: color_of(stroke_color).unwrap(),
            stroke_width,
            stroke_alignment: alignment_of(stroke_alignment).unwrap(),
        }),
        r matches Err(e) ==> (e is InvalidValue),
{
    let alignment = wasm_to_stroke_align(stroke_alignment)?;
    let fill = wasm_to_color(fill_color)?;
    let stroke = wasm_to_color(stroke_color)?;
    Ok(PrimitiveStyle { fill_color: fill, stroke_color: stroke, stroke_width, stroke_alignment: alignment })
}

/// The little-endian word at `at` of `b`.
pub open spec fn le_u32(b: Seq<u8>, at: int) -> u32 {
    (b[at] as u32) | ((b[at + 1] as u32) << 8u32) | ((b[at + 2] as u32) << 16u32) | ((b[at + 3] as u32)
        << 24u32)
}

/// The size made of the two little-endian words at `at` of `b`.
pub open spec fn size_at(b: Seq<u8>, at: int) -> Size {
    Size { width: le_u32(b, at), height: le_u32(b, at + 4) }
}

fn read_u32_le(b: &[u8], at: usize) -> (r: u32)
    requires
        at + 4 <= b@.len(),
    ensures
        r == le_u32(b@, at as int),
{
    (b[at] as u32) | ((b[at + 1] as u32) << 8) | ((b[at + 2] as u32) << 16) | ((b[at + 3] as u32) << 24)
}

/// Reads the corner radii of a rounded rectangle from guest memory at `ptr`:
/// eight little-endian words, a width and a height for each corner, top left
/// first and then clockwise.
pub fn corner_radii(memory: &[u8], ptr: usize) -> (r: Result<CornerRadii, Error>)
    ensures
        in_bounds(memory@.len(), ptr, 32) ==> ({
            let b = memory@.subrange(ptr as int, ptr + 32);
            r == Ok::<CornerRadii, Error>(
                CornerRadii {
                    top_left: size_at(b, 0),
                    top_right: size_at(b, 8),
                    bottom_right: size_at(b, 16),
                    bottom_left: size_at(b, 24),
                },
            )
        }),
        !in_bounds(memory@.len(), ptr, 32) ==> r == Err::<CornerRadii, Error>(range_error(ptr, 32)),
{
    let b = read_memory(memory, ptr, 32)?;
    let top_left = Size { width: read_u32_le(b, 0), height: read_u32_le(b, 4) };
    let top_right = Size { width: read_u32_le(b, 8), height: read_u32_le(b, 12) };
    let bottom_right = Size { width: read_u32_le(b, 16), height: read_u32_le(b, 20) };
    let bottom_left = Size { width: read_u32_le(b, 24), height: read_u32_le(b, 28) };
    Ok(CornerRadii { top_left, top_right, bottom_right, bottom_left })
}

} // verus!
