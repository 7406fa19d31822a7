//! Screen rectangles in physical pixels.
use vstd::prelude::*;

verus! {

/// A screen rectangle: `left`/`top` inclusive, `right`/`bottom` exclusive.
#[derive(Clone, Copy, Debug, PartialEq, Eq, Structural)]
pub struct Rect {
    pub left: i32,
    pub top: i32,
    pub right: i32,
    pub bottom: i32,
}

/// The point lies inside the rectangle (right and bottom edges excluded).
pub open spec fn spec_contains(r: Rect, x: i32, y: i32) -> bool {
    r.left <= x && x < r.right && r.top <= y && y < r.bottom
}

/// Whether the point lies inside the rectangle (right and bottom edges excluded).
pub fn rect_contains(r: Rect, x: i32, y: i32) -> (b: bool)
    ensures
        b == spec_contains(r, x, y),
{
    r.left <= x && x < r.right && r.top <= y && y < r.bottom
}

/// `v` clamped into `[lo, hi]` (`Ord::clamp`, which requires `lo <= hi`).
pub open spec fn spec_clamp(v: int, lo: int, hi: int) -> int {
    if v < lo { lo } else if v > hi { hi } else { v }
}

/// `i32::clamp`.
pub fn clamp_i32(v: i32, lo: i32, hi: i32) -> (r: i32)
    requires
        lo <= hi,
    ensures
        r == spec_clamp(v as int, lo as int, hi as int),
{
    if v < lo { lo } else if v > hi { hi } else { v }
}

/// `u32::clamp`.
pub fn clamp_u32(v: u32, lo: u32, hi: u32) -> (r: u32)
    requires
        lo <= hi,
    ensures
        r == spec_clamp(v as int, lo as int, hi as int),
{
    if v < lo { lo } else if v > hi { hi } else { v }
}

} // verus!
