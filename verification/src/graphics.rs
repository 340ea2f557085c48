//! Rectangles and `Rgb565` colors as plain values, and the `embedded-graphics` operations the
//! drawing logic of this crate is computed with.
use vstd::prelude::*;

use embedded_graphics::geometry::{Point, Size};
use embedded_graphics::pixelcolor::raw::{RawU16, ToBytes};
use embedded_graphics::pixelcolor::{IntoStorage, Rgb565, RgbColor};
use embedded_graphics::primitives::Rectangle;

verus! {

/// A rectangle: its top left corner and its size, as `embedded_graphics` keeps them.
#[derive(Clone, Copy, PartialEq, Eq, Debug, Structural)]
pub struct Rect {
    pub x: i32,
    pub y: i32,
    pub width: u32,
    pub height: u32,
}

impl Rect {
    /// Whether the corner just past the bottom right stays within `i32`, which is what the
    /// arithmetic of `embedded_graphics` on the rectangle assumes.
    pub open spec fn fits(self) -> bool {
        &&& self.width <= i32::MAX
        &&& self.height <= i32::MAX
        &&& self.x + self.width <= i32::MAX
        &&& self.y + self.height <= i32::MAX
    }

    /// Whether the rectangle covers the pixel at `x`, `y`.
    pub open spec fn covers(self, x: int, y: int) -> bool {
        self.x <= x < self.x + self.width && self.y <= y < self.y + self.height
    }

    /// Whether the rectangle covers no pixel at all.
    pub open spec fn is_zero_sized(self) -> bool {
        self.width == 0 || self.height == 0
    }
}

/// The larger of two integers.
pub open spec fn max_int(a: int, b: int) -> int {
    if a >= b {
        a
    } else {
        b
    }
}

/// The smaller of two integers.
pub open spec fn min_int(a: int, b: int) -> int {
    if a <= b {
        a
    } else {
        b
    }
}

/// Whether `r` is what `Rectangle::intersection` gives for `a` and `b`: the rectangle both cover
/// when they share a pixel, and a zero sized rectangle otherwise.
pub open spec fn is_intersection(a: Rect, b: Rect, r: Rect) -> bool {
    let x0 = max_int(a.x as int, b.x as int);
    let x1 = min_int(a.x + a.width, b.x + b.width);
    let y0 = max_int(a.y as int, b.y as int);
    let y1 = min_int(a.y + a.height, b.y + b.height);
    if x0 < x1 && y0 < y1 {
        r == Rect { x: x0 as i32, y: y0 as i32, width: (x1 - x0) as u32, height: (y1 - y0) as u32 }
    } else {
        r.is_zero_sized()
    }
}

/// The raw `Rgb565` storage of red `r`, green `g` and blue `b`: five bits of red at the top,
/// six of green in the middle and five of blue at the bottom, with too large channel values
/// limited to their low bits.
pub open spec fn spec_rgb565(r: u8, g: u8, b: u8) -> u16 {
    ((((r & 31u8) as u16) << 11u16) | (((g & 63u8) as u16) << 5u16) | ((b & 31u8) as u16))
}

/// `Rgb565::new` followed by `into_storage` of `embedded_graphics`: the raw value of the color
/// with the given channels, too large channel values limited to their low bits.
#[verifier::external_body]
pub(crate) fn rgb565(r: u8, g: u8, b: u8) -> (raw: u16)
    ensures
        raw == spec_rgb565(r, g, b),
{
    Rgb565::new(r, g, b).into_storage()
}

/// `RgbColor::r` of the `Rgb565` color stored as `raw`: its top five bits.
#[verifier::external_body]
pub(crate) fn rgb565_r(raw: u16) -> (r: u8)
    ensures
        r == ((raw >> 11u16) as u8 & 31u8),
{
    Rgb565::from(RawU16::new(raw)).r()
}

/// `RgbColor::g` of the `Rgb565` color stored as `raw`: its middle six bits.
#[verifier::external_body]
pub(crate) fn rgb565_g(raw: u16) -> (g: u8)
    ensures
        g == ((raw >> 5u16) as u8 & 63u8),
{
    Rgb565::from(RawU16::new(raw)).g()
}

/// `RgbColor::b` of the `Rgb565` color stored as `raw`: its low five bits.
#[verifier::external_body]
pub(crate) fn rgb565_b(raw: u16) -> (b: u8)
    ensures
        b == (raw as u8 & 31u8),
{
    Rgb565::from(RawU16::new(raw)).b()
}

/// `ToBytes::to_be_bytes` of the `Rgb565` color stored as `raw`: its storage in big endian byte
/// order.
#[verifier::external_body]
pub(crate) fn rgb565_to_be_bytes(raw: u16) -> (bytes: [u8; 2])
    ensures
        bytes[0] == (raw >> 8u16) as u8,
        bytes[1] == raw as u8,
{
    Rgb565::from(RawU16::new(raw)).to_be_bytes()
}

/// `Rectangle::contains` of `embedded_graphics`: whether `rect` covers the point `x`, `y`. A
/// zero sized rectangle covers none.
#[verifier::external_body]
pub(crate) fn rect_contains(rect: Rect, x: i32, y: i32) -> (r: bool)
    requires
        rect.fits(),
    ensures
        r == rect.covers(x as int, y as int),
{
    Rectangle::new(Point::new(rect.x, rect.y), Size::new(rect.width, rect.height)).contains(
        Point::new(x, y),
    )
}

/// `Rectangle::intersection` of `embedded_graphics`: the rectangle both cover when they share a
/// pixel, and a zero sized rectangle otherwise.
#[verifier::external_body]
pub(crate) fn rect_intersection(a: Rect, b: Rect) -> (r: Rect)
    requires
        a.fits(),
        b.fits(),
    ensures
        is_intersection(a, b, r),
{
    let r = Rectangle::new(Point::new(a.x, a.y), Size::new(a.width, a.height)).intersection(
        &Rectangle::new(Point::new(b.x, b.y), Size::new(b.width, b.height)),
    );
    Rect { x: r.top_left.x, y: r.top_left.y, width: r.size.width, height: r.size.height }
}

/// A rectangle covers a pixel of the intersection exactly when both rectangles cover it.
pub proof fn lemma_intersection_covers(a: Rect, b: Rect, r: Rect, x: int, y: int)
    requires
        is_intersection(a, b, r),
    ensures
        r.covers(x, y) <==> a.covers(x, y) && b.covers(x, y),
{
}

} // verus!
