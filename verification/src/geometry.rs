//! Points, sizes, rectangles, and DPI scaling.
//!
//! Coordinates and sizes are plain pixel values.  Scaling to the current DPI
//! multiplies by the DPI and divides by the 96-per-inch baseline, rounding to
//! nearest, the way the native helper does.

use vstd::prelude::*;

verus! {

/// The baseline dots-per-inch at which coordinates are authored.
pub const BASE_DPI: u32 = 96;

/// A position in pixels, relative to a client area or the screen.
#[derive(Clone, Copy, Debug, PartialEq, Eq, Structural)]
pub struct Point {
    pub x: i32,
    pub y: i32,
}

/// An extent in pixels.
#[derive(Clone, Copy, Debug, PartialEq, Eq, Structural)]
pub struct Size {
    pub cx: i32,
    pub cy: i32,
}

/// An axis-aligned rectangle in pixels, edges inclusive-exclusive.
#[derive(Clone, Copy, Debug, PartialEq, Eq, Structural)]
pub struct Rect {
    pub left: i32,
    pub top: i32,
    pub right: i32,
    pub bottom: i32,
}

/// The monitor's current dots-per-inch, per axis.
#[derive(Clone, Copy, Debug, PartialEq, Eq, Structural)]
pub struct Dpi {
    pub x: u32,
    pub y: u32,
}

/// How many pixels the window frame (title bar, borders) adds around a
/// client area, as the window system reports for a given style.
#[derive(Clone, Copy, Debug, PartialEq, Eq, Structural)]
pub struct FrameExtents {
    pub left: u32,
    pub top: u32,
    pub right: u32,
    pub bottom: u32,
}

/// A length of `v` baseline pixels, scaled to `dpi` and rounded to nearest.
pub open spec fn scaled(v: int, dpi: int) -> int {
    (v * dpi + 48) / 96
}

/// Scales a nonnegative length to the given DPI.
pub fn scale_len(v: u32, dpi: u32) -> (r: u32)
    requires
        scaled(v as int, dpi as int) <= u32::MAX,
    ensures
        r == scaled(v as int, dpi as int),
{
    let wide: u64 = ((v as u64) * (dpi as u64) + 48) / 96;
    wide as u32
}

/// Scales a nonnegative coordinate to the given DPI.
pub fn scale_coord(v: i32, dpi: u32) -> (r: i32)
    requires
        v >= 0,
        scaled(v as int, dpi as int) <= i32::MAX,
    ensures
        r == scaled(v as int, dpi as int),
        r >= 0,
{
    let wide: u64 = ((v as u64) * (dpi as u64) + 48) / 96;
    wide as i32
}

/// Scales a position to the given DPI, each axis by its own factor.
pub fn scale_point(p: Point, dpi: Dpi) -> (r: Point)
    requires
        p.x >= 0,
        p.y >= 0,
        scaled(p.x as int, dpi.x as int) <= i32::MAX,
        scaled(p.y as int, dpi.y as int) <= i32::MAX,
    ensures
        r.x == scaled(p.x as int, dpi.x as int),
        r.y == scaled(p.y as int, dpi.y as int),
{
    Point { x: scale_coord(p.x, dpi.x), y: scale_coord(p.y, dpi.y) }
}

/// Scales an extent to the given DPI, each axis by its own factor.
pub fn scale_size(sz: Size, dpi: Dpi) -> (r: Size)
    requires
        sz.cx >= 0,
        sz.cy >= 0,
        scaled(sz.cx as int, dpi.x as int) <= i32::MAX,
        scaled(sz.cy as int, dpi.y as int) <= i32::MAX,
    ensures
        r.cx == scaled(sz.cx as int, dpi.x as int),
        r.cy == scaled(sz.cy as int, dpi.y as int),
{
    Size { cx: scale_coord(sz.cx, dpi.x), cy: scale_coord(sz.cy, dpi.y) }
}

/// Grows a client-area size by the frame the window style brings, yielding
/// the full window size.
pub fn adjust_window_size(client: Size, frame: FrameExtents) -> (r: Size)
    requires
        client.cx >= 0,
        client.cy >= 0,
        client.cx + frame.left + frame.right <= i32::MAX,
        client.cy + frame.top + frame.bottom <= i32::MAX,
    ensures
        r.cx == client.cx + frame.left + frame.right,
        r.cy == client.cy + frame.top + frame.bottom,
{
    let cx: i64 = client.cx as i64 + frame.left as i64 + frame.right as i64;
    let cy: i64 = client.cy as i64 + frame.top as i64 + frame.bottom as i64;
    Size { cx: cx as i32, cy: cy as i32 }
}

/// Where a window of size `sz` sits when centered on the rectangle `outer`:
/// each axis starts at the rectangle's midpoint less half the extent.
pub open spec fn centered_on(outer: Rect, sz: Size) -> Point {
    Point {
        x: (outer.left + (outer.right - outer.left) / 2 - sz.cx / 2) as i32,
        y: (outer.top + (outer.bottom - outer.top) / 2 - sz.cy / 2) as i32,
    }
}

/// Computes the top-left corner that centers a window of size `sz` on the
/// rectangle `outer`.
pub fn center_on(outer: Rect, sz: Size) -> (r: Point)
    requires
        outer.left <= outer.right,
        outer.top <= outer.bottom,
        sz.cx >= 0,
        sz.cy >= 0,
        i32::MIN <= outer.left + (outer.right - outer.left) / 2 - sz.cx / 2,
        i32::MIN <= outer.top + (outer.bottom - outer.top) / 2 - sz.cy / 2,
    ensures
        r == centered_on(outer, sz),
{
    let half_w: i64 = ((outer.right as i64 - outer.left as i64) as u64 / 2) as i64;
    let half_h: i64 = ((outer.bottom as i64 - outer.top as i64) as u64 / 2) as i64;
    let half_cx: i64 = ((sz.cx as u64) / 2) as i64;
    let half_cy: i64 = ((sz.cy as u64) / 2) as i64;
    let x: i64 = outer.left as i64 + half_w - half_cx;
    let y: i64 = outer.top as i64 + half_h - half_cy;
    Point { x: x as i32, y: y as i32 }
}

} // verus!
