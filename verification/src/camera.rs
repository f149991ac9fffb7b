use vstd::prelude::*;
use crate::arith::{max_int, max_u32, min_int, min_u32};
use vstd::arithmetic::div_mod::{
    lemma_fundamental_div_mod, lemma_fundamental_div_mod_converse, lemma_mod_pos_bound,
};

verus! {

/// A pair of pixel counts, such as a position or a size on the screen.
#[derive(Clone, Copy, Debug, PartialEq, Eq, Structural)]
pub struct PixelPair {
    pub x: u32,
    pub y: u32,
}

/// The physical size of the window, in pixels.
#[derive(Clone, Copy, Debug, PartialEq, Eq, Structural)]
pub struct WindowSize {
    pub physical_width: u32,
    pub physical_height: u32,
}

/// The part of the window the game is drawn into.
#[derive(Clone, Copy, Debug, PartialEq, Eq, Structural)]
pub struct Viewport {
    pub physical_position: PixelPair,
    pub physical_size: PixelPair,
}

/// The inputs on which the fitting arithmetic is defined: a game area with no
/// empty side, and window sides that, scaled by the game's sides, fit in `u32`.
pub open spec fn fit_inputs_valid(window: WindowSize, width: u32, height: u32) -> bool {
    &&& width > 0
    &&& height > 0
    &&& window.physical_height * width <= u32::MAX
    &&& window.physical_width * height <= u32::MAX
}

/// Width of the largest box of the game's aspect that the window holds.
pub open spec fn fitted_width(window: WindowSize, width: u32, height: u32) -> int {
    min_int(window.physical_width as int, (window.physical_height * width) / (height as int))
}

/// Height of the largest box of the game's aspect that the window holds.
pub open spec fn fitted_height(window: WindowSize, width: u32, height: u32) -> int {
    min_int(window.physical_height as int, (window.physical_width * height) / (width as int))
}

/// Offset that centres a part of length `part` in a length `total`.
pub open spec fn centring_offset(total: int, part: int) -> int {
    (max_int(total, part) - part) / 2
}

/// The viewport that shows a `width` by `height` game area as large as the
/// window allows, keeping its aspect ratio, centred in the window.
pub open spec fn fitted_viewport(window: WindowSize, width: u32, height: u32) -> Viewport {
    let w = fitted_width(window, width, height);
    let h = fitted_height(window, width, height);
    Viewport {
        physical_position: PixelPair {
            x: centring_offset(window.physical_width as int, w) as u32,
            y: centring_offset(window.physical_height as int, h) as u32,
        },
        physical_size: PixelPair { x: w as u32, y: h as u32 },
    }
}

/// Fits a `width` by `height` game area into the window: the largest box of
/// the game's aspect ratio that the window holds, centred in the window.
pub fn window_to_viewport(window: &WindowSize, width: u32, height: u32) -> (viewport: Viewport)
    requires
        fit_inputs_valid(*window, width, height),
    ensures
        viewport == fitted_viewport(*window, width, height),
{
    let size_x: u32 = min_u32(window.physical_width, window.physical_height * width / height);
    let size_y: u32 = min_u32(window.physical_height, window.physical_width * height / width);
    let position_x: u32 = (max_u32(window.physical_width, size_x) - size_x) / 2;
    let position_y: u32 = (max_u32(window.physical_height, size_y) - size_y) / 2;
    Viewport {
        physical_position: PixelPair { x: position_x, y: position_y },
        physical_size: PixelPair { x: size_x, y: size_y },
    }
}

/// Floor division of a natural number: the quotient times the divisor lies
/// within one divisor below the dividend.
proof fn lemma_floor_div(x: int, d: int)
    requires
        x >= 0,
        d > 0,
    ensures
        x / d >= 0,
        d * (x / d) <= x,
        x < d * (x / d) + d,
{
    lemma_fundamental_div_mod(x, d);
    lemma_mod_pos_bound(x, d);
    assert(x / d >= 0) by (nonlinear_arith)
        requires
            x == d * (x / d) + (x % d),
            0 <= x % d < d,
            d > 0,
            x >= 0,
    ;
}

/// Which side of the fitted viewport meets the window's border, and the
/// exact size of the other side.
proof fn lemma_fitted_sides(window: WindowSize, width: u32, height: u32)
    requires
        fit_inputs_valid(window, width, height),
    ensures
        window.physical_width * height <= window.physical_height * width ==> {
            &&& fitted_width(window, width, height) == window.physical_width
            &&& fitted_height(window, width, height) == (window.physical_width * height) / (
            width as int)
        },
        window.physical_width * height > window.physical_height * width ==> {
            &&& fitted_height(window, width, height) == window.physical_height
            &&& fitted_width(window, width, height) == (window.physical_height * width) / (
            height as int)
        },
{
    let a = window.physical_width as int;
    let b = window.physical_height as int;
    let w = width as int;
    let h = height as int;
    let q1 = (b * w) / h;
    let q2 = (a * h) / w;
    assert(b * w >= 0 && a * h >= 0) by (nonlinear_arith)
        requires
            a >= 0,
            b >= 0,
            w > 0,
            h > 0,
    ;
    lemma_floor_div(b * w, h);
    lemma_floor_div(a * h, w);
    if a * h <= b * w {
        assert(q1 >= a) by (nonlinear_arith)
            requires
                a * h <= b * w,
                b * w < h * q1 + h,
                h > 0,
        ;
        assert(q2 <= b) by (nonlinear_arith)
            requires
                a * h <= b * w,
                w * q2 <= a * h,
                w > 0,
        ;
    } else {
        assert(q1 < a) by (nonlinear_arith)
            requires
                a * h > b * w,
                h * q1 <= b * w,
                h > 0,
        ;
        assert(q2 >= b) by (nonlinear_arith)
            requires
                a * h > b * w,
                a * h < w * q2 + w,
                w > 0,
        ;
    }
}

/// The viewport lies wholly inside the window.
pub proof fn law_viewport_inside_window(window: WindowSize, width: u32, height: u32)
    requires
        fit_inputs_valid(window, width, height),
    ensures
        ({
            let v = fitted_viewport(window, width, height);
            &&& v.physical_position.x + v.physical_size.x <= window.physical_width
            &&& v.physical_position.y + v.physical_size.y <= window.physical_height
        }),
{
    lemma_fitted_sides(window, width, height);
    lemma_floor_div(window.physical_height * width, height as int);
    lemma_floor_div(window.physical_width * height, width as int);
}

/// The viewport is centred in the window: the space left over on the two
/// sides of each axis differs by at most one pixel.
pub proof fn law_viewport_centred(window: WindowSize, width: u32, height: u32)
    requires
        fit_inputs_valid(window, width, height),
    ensures
        ({
            let v = fitted_viewport(window, width, height);
            let left_x = window.physical_width - (v.physical_position.x + v.physical_size.x);
            let left_y = window.physical_height - (v.physical_position.y + v.physical_size.y);
            &&& left_x - v.physical_position.x == 0 || left_x - v.physical_position.x == 1
            &&& left_y - v.physical_position.y == 0 || left_y - v.physical_position.y == 1
        }),
{
    lemma_fitted_sides(window, width, height);
    lemma_floor_div(window.physical_height * width, height as int);
    lemma_floor_div(window.physical_width * height, width as int);
}

/// The viewport is as large as the window allows: it spans the whole width or
/// the whole height of the window.
pub proof fn law_viewport_fills_one_side(window: WindowSize, width: u32, height: u32)
    requires
        fit_inputs_valid(window, width, height),
    ensures
        ({
            let v = fitted_viewport(window, width, height);
            v.physical_size.x == window.physical_width || v.physical_size.y
                == window.physical_height
        }),
{
    lemma_fitted_sides(window, width, height);
}

/// The viewport keeps the game's aspect ratio up to rounding: the side that
/// does not meet the window's border is the other side scaled by the game's
/// aspect ratio, rounded down.
pub proof fn law_viewport_keeps_aspect(window: WindowSize, width: u32, height: u32)
    requires
        fit_inputs_valid(window, width, height),
    ensures
        ({
            let v = fitted_viewport(window, width, height);
            let sx = v.physical_size.x as int;
            let sy = v.physical_size.y as int;
            ||| 0 <= sx * height - sy * width < width
            ||| 0 <= sy * width - sx * height < height
        }),
{
    lemma_fitted_sides(window, width, height);
    lemma_floor_div(window.physical_height * width, height as int);
    lemma_floor_div(window.physical_width * height, width as int);
    let a = window.physical_width as int;
    let b = window.physical_height as int;
    let w = width as int;
    let h = height as int;
    let v = fitted_viewport(window, width, height);
    if a * h <= b * w {
        let q2 = (a * h) / w;
        assert(v.physical_size.x == a && v.physical_size.y == q2);
        assert(0 <= a * h - q2 * w < w) by (nonlinear_arith)
            requires
                w * q2 <= a * h,
                a * h < w * q2 + w,
        ;
    } else {
        let q1 = (b * w) / h;
        assert(v.physical_size.y == b && v.physical_size.x == q1);
        assert(0 <= b * w - q1 * h < h) by (nonlinear_arith)
            requires
                h * q1 <= b * w,
                b * w < h * q1 + h,
        ;
    }
}

/// Scaling dividend and divisor by the same positive factor keeps the quotient.
proof fn lemma_div_scaled(x: int, y: int, k: int)
    requires
        x >= 0,
        y > 0,
        k > 0,
    ensures
        (x * k) / (y * k) == x / y,
{
    lemma_fundamental_div_mod(x, y);
    lemma_mod_pos_bound(x, y);
    let q = x / y;
    let r = x % y;
    assert(x * k == q * (y * k) + r * k && 0 <= r * k < y * k) by (nonlinear_arith)
        requires
            x == y * q + r,
            0 <= r < y,
            k > 0,
    ;
    lemma_fundamental_div_mod_converse(x * k, y * k, q, r * k);
}

/// Only the game's aspect ratio matters: scaling both sides of the game area
/// by the same factor gives the same viewport.
pub proof fn law_viewport_depends_on_aspect_only(
    window: WindowSize,
    width: u32,
    height: u32,
    scaled_width: u32,
    scaled_height: u32,
    factor: int,
)
    requires
        fit_inputs_valid(window, width, height),
        fit_inputs_valid(window, scaled_width, scaled_height),
        factor > 0,
        scaled_width == factor * width,
        scaled_height == factor * height,
    ensures
        fitted_viewport(window, scaled_width, scaled_height) == fitted_viewport(
            window,
            width,
            height,
        ),
{
    let a = window.physical_width as int;
    let b = window.physical_height as int;
    let w = width as int;
    let h = height as int;
    assert(b * w >= 0 && a * h >= 0) by (nonlinear_arith)
        requires
            a >= 0,
            b >= 0,
            w > 0,
            h > 0,
    ;
    lemma_div_scaled(b * w, h, factor);
    lemma_div_scaled(a * h, w, factor);
    assert(b * (factor * w) == (b * w) * factor && h * factor == factor * h && a * (factor * h)
        == (a * h) * factor && w * factor == factor * w) by (nonlinear_arith);
}

} // verus!
