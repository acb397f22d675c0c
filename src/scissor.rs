//! Scissor rectangles: a primitive's clip rectangle, in physical pixels,
//! clamped to the surface.
use vstd::prelude::*;

verus! {

/// A clip rectangle in physical pixels (already scaled from logical units),
/// given by its corners; it may stick out of the surface on any side.
#[derive(Clone, Copy, Debug, PartialEq, Eq, Structural)]
pub struct PixelRect {
    pub min_x: i64,
    pub min_y: i64,
    pub max_x: i64,
    pub max_y: i64,
}

/// A scissor rectangle inside the surface.
#[derive(Clone, Copy, Debug, PartialEq, Eq, Structural)]
pub struct ScissorRect {
    pub x: u32,
    pub y: u32,
    pub width: u32,
    pub height: u32,
}

/// `v` brought into `[lo, hi]` (for `lo <= hi`).
pub open spec fn clamp(v: int, lo: int, hi: int) -> int {
    if v < lo {
        lo
    } else if v > hi {
        hi
    } else {
        v
    }
}

/// The scissor of `clip` on a `width` by `height` surface: the minimum
/// corner clamped to `[0, surface]`, the maximum corner clamped to
/// `[minimum, surface]`.
pub open spec fn scissor_of(clip: PixelRect, width: u32, height: u32) -> ScissorRect {
    let x0 = clamp(clip.min_x as int, 0, width as int);
    let y0 = clamp(clip.min_y as int, 0, height as int);
    let x1 = clamp(clip.max_x as int, x0, width as int);
    let y1 = clamp(clip.max_y as int, y0, height as int);
    ScissorRect { x: x0 as u32, y: y0 as u32, width: (x1 - x0) as u32, height: (y1 - y0) as u32 }
}

fn clamp_exec(v: i64, lo: i64, hi: i64) -> (r: i64)
    requires
        lo <= hi,
    ensures
        r == clamp(v as int, lo as int, hi as int),
{
    if v < lo {
        lo
    } else if v > hi {
        hi
    } else {
        v
    }
}

/// The scissor rectangle for `clip` on a `surface_width` by
/// `surface_height` surface; it always lies inside the surface.
pub fn scissor_rect(clip: &PixelRect, surface_width: u32, surface_height: u32) -> (r: ScissorRect)
    ensures
        r == scissor_of(*clip, surface_width, surface_height),
        r.x as int + r.width as int <= surface_width as int,
        r.y as int + r.height as int <= surface_height as int,
{
    let w = surface_width as i64;
    let h = surface_height as i64;
    let x0 = clamp_exec(clip.min_x, 0, w);
    let y0 = clamp_exec(clip.min_y, 0, h);
    let x1 = clamp_exec(clip.max_x, x0, w);
    let y1 = clamp_exec(clip.max_y, y0, h);
    ScissorRect { x: x0 as u32, y: y0 as u32, width: (x1 - x0) as u32, height: (y1 - y0) as u32 }
}

} // verus!
