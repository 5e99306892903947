use vstd::prelude::*;

verus! {

/// Number of sub-pixel steps per pixel: coordinates are fixed point with 16 fractional bits.
pub const SUBPIXEL: i64 = 65536;

/// A point in pixel space, each coordinate counted in `1 / SUBPIXEL` of a pixel.
#[derive(Clone, Copy, Debug, PartialEq, Eq, Structural)]
pub struct Point {
    pub x: i64,
    pub y: i64,
}

/// `p` lies in `[0, width) x [0, height)`, measured in pixels.
pub open spec fn inside(p: Point, width: int, height: int) -> bool {
    &&& 0 <= p.x < width * SUBPIXEL
    &&& 0 <= p.y < height * SUBPIXEL
}

/// Whether `p` lies in the frame `[0, width) x [0, height)`.
pub fn is_inside(p: Point, width: i32, height: i32) -> (r: bool)
    ensures
        r == inside(p, width as int, height as int),
{
    let w: i64 = width as i64 * SUBPIXEL;
    let h: i64 = height as i64 * SUBPIXEL;
    0 <= p.x && p.x < w && 0 <= p.y && p.y < h
}

} // verus!
