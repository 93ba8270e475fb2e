//! Integer scaling of the low-resolution canvas to the window.
use vstd::prelude::*;

verus! {

/// Width of the low-resolution canvas, in pixels.
pub const RES_WIDTH: u32 = 640;

/// Height of the low-resolution canvas, in pixels.
pub const RES_HEIGHT: u32 = 360;

/// `n / d` rounded to the nearest integer, halves rounded up.
pub open spec fn round_div(n: int, d: int) -> int {
    (2 * n + d) / (2 * d)
}

/// The whole multiple by which the canvas is magnified: the smaller of the
/// two window-to-canvas ratios, rounded to the nearest integer.
pub open spec fn canvas_scale_spec(width: int, height: int, canvas_width: int, canvas_height: int) -> int {
    let h = round_div(width, canvas_width);
    let v = round_div(height, canvas_height);
    if h <= v {
        h
    } else {
        v
    }
}

fn rounded_ratio(n: u32, d: u32) -> (r: u64)
    requires
        d > 0,
    ensures
        r == round_div(n as int, d as int),
{
    (2 * (n as u64) + (d as u64)) / (2 * (d as u64))
}

/// The magnification that fits a `canvas_width` by `canvas_height` canvas into
/// a `width` by `height` window by a whole multiple; the projection's scale is
/// its reciprocal. Zero when the window is under half the canvas in either
/// direction.
pub fn fit_canvas(width: u32, height: u32, canvas_width: u32, canvas_height: u32) -> (s: u64)
    requires
        canvas_width > 0,
        canvas_height > 0,
    ensures
        s == canvas_scale_spec(width as int, height as int, canvas_width as int, canvas_height as int),
{
    let h = rounded_ratio(width, canvas_width);
    let v = rounded_ratio(height, canvas_height);
    if h <= v {
        h
    } else {
        v
    }
}

} // verus!
