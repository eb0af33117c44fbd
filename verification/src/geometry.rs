//! # Geometry
//!
//! Placing a source image inside a viewport: centred, never larger than the
//! viewport, and with the source's aspect ratio kept.
//!
//! All arithmetic is exact integer arithmetic. A scaled side is the exact
//! quotient rounded toward zero.

use vstd::arithmetic::div_mod::{lemma_div_by_multiple, lemma_multiply_divide_le, lemma_multiply_divide_lt};
use vstd::prelude::*;

verus! {

/// A rectangle in viewport coordinates: the top-left corner and the size.
#[derive(Clone, Copy, Debug, PartialEq, Eq, Structural)]
pub struct Rectangle {
    pub x: i32,
    pub y: i32,
    pub width: u32,
    pub height: u32,
}

/// The mathematical rectangle that a `Rectangle` stands for.
pub struct Region {
    pub x: int,
    pub y: int,
    pub width: int,
    pub height: int,
}

impl Region {
    /// The region lies wholly inside a viewport of the given size whose
    /// top-left corner is the origin.
    pub open spec fn inside(self, dst_width: int, dst_height: int) -> bool {
        &&& 0 <= self.x
        &&& 0 <= self.y
        &&& 0 <= self.width
        &&& 0 <= self.height
        &&& self.x + self.width <= dst_width
        &&& self.y + self.height <= dst_height
    }

    /// The free space left and right of the region differs by at most one
    /// pixel, and so does the free space above and below it; the odd pixel
    /// goes to the right and to the bottom.
    pub open spec fn centred(self, dst_width: int, dst_height: int) -> bool {
        &&& dst_width - 1 <= 2 * self.x + self.width <= dst_width
        &&& dst_height - 1 <= 2 * self.y + self.height <= dst_height
    }
}

impl View for Rectangle {
    type V = Region;

    open spec fn view(&self) -> Region {
        Region {
            x: self.x as int,
            y: self.y as int,
            width: self.width as int,
            height: self.height as int,
        }
    }
}

/// Every dimension that takes part in a fit is positive.
pub open spec fn positive_sizes(src_width: int, src_height: int, dst_width: int, dst_height: int) -> bool {
    src_width > 0 && src_height > 0 && dst_width > 0 && dst_height > 0
}

/// The source is smaller than the viewport in both directions.
pub open spec fn fits_unscaled(src_width: int, src_height: int, dst_width: int, dst_height: int) -> bool {
    src_width < dst_width && src_height < dst_height
}

/// The source's aspect ratio `src_width / src_height` is greater than the
/// viewport's `dst_width / dst_height`, compared as exact fractions.
pub open spec fn wider_than(src_width: int, src_height: int, dst_width: int, dst_height: int) -> bool {
    src_width * dst_height > dst_width * src_height
}

/// The offset that centres a span of length `inner` in one of length `outer`.
pub open spec fn centre_offset(outer: int, inner: int) -> int {
    (outer - inner) / 2
}

/// `side * to / from`, rounded toward zero: the length of `side` after a
/// scaling that maps a length of `from` to a length of `to`.
pub open spec fn scale_side(side: int, from: int, to: int) -> int {
    (side * to) / from
}

/// The source at its own size, centred in the viewport.
pub open spec fn full_region(src_width: int, src_height: int, dst_width: int, dst_height: int) -> Region {
    Region {
        x: centre_offset(dst_width, src_width),
        y: centre_offset(dst_height, src_height),
        width: src_width,
        height: src_height,
    }
}

/// The source scaled to the viewport's full width, centred vertically.
pub open spec fn fit_x_region(src_width: int, src_height: int, dst_width: int, dst_height: int) -> Region {
    let height = scale_side(src_height, src_width, dst_width);
    Region { x: 0, y: centre_offset(dst_height, height), width: dst_width, height }
}

/// The source scaled to the viewport's full height, centred horizontally.
pub open spec fn fit_y_region(src_width: int, src_height: int, dst_width: int, dst_height: int) -> Region {
    let width = scale_side(src_width, src_height, dst_height);
    Region { x: centre_offset(dst_width, width), y: 0, width, height: dst_height }
}

/// Where a source of the given size is drawn in a viewport of the given size.
///
/// Three cases, the first that applies: a source smaller than the viewport in
/// both directions keeps its size; a source of wider aspect than the viewport
/// takes the full width; any other source takes the full height. A source as
/// large as the viewport in both directions is thus fitted to the height.
pub open spec fn fit_region(src_width: int, src_height: int, dst_width: int, dst_height: int) -> Region {
    if fits_unscaled(src_width, src_height, dst_width, dst_height) {
        full_region(src_width, src_height, dst_width, dst_height)
    } else if wider_than(src_width, src_height, dst_width, dst_height) {
        fit_x_region(src_width, src_height, dst_width, dst_height)
    } else {
        fit_y_region(src_width, src_height, dst_width, dst_height)
    }
}

/// A fitted region lies inside the viewport and is centred in it.
pub proof fn lemma_fit_inside(src_width: int, src_height: int, dst_width: int, dst_height: int)
    requires
        positive_sizes(src_width, src_height, dst_width, dst_height),
    ensures
        fit_region(src_width, src_height, dst_width, dst_height).inside(dst_width, dst_height),
        fit_region(src_width, src_height, dst_width, dst_height).centred(dst_width, dst_height),
{
    if fits_unscaled(src_width, src_height, dst_width, dst_height) {
    } else if wider_than(src_width, src_height, dst_width, dst_height) {
        lemma_scaled_height_bounds(src_width, src_height, dst_width, dst_height);
    } else {
        lemma_scaled_width_bounds(src_width, src_height, dst_width, dst_height);
    }
}

/// A fitted region keeps the source's aspect ratio as closely as whole pixels
/// allow: an unscaled region has the source's size, and a scaled side is the
/// largest whole number that does not exceed the exact scaled length.
pub proof fn lemma_fit_keeps_aspect(src_width: int, src_height: int, dst_width: int, dst_height: int)
    requires
        positive_sizes(src_width, src_height, dst_width, dst_height),
    ensures
        ({
            let r = fit_region(src_width, src_height, dst_width, dst_height);
            if fits_unscaled(src_width, src_height, dst_width, dst_height) {
                r.width == src_width && r.height == src_height
            } else if wider_than(src_width, src_height, dst_width, dst_height) {
                &&& r.width == dst_width
                &&& r.height * src_width <= src_height * dst_width < (r.height + 1) * src_width
            } else {
                &&& r.height == dst_height
                &&& r.width * src_height <= src_width * dst_height < (r.width + 1) * src_height
            }
        }),
{
    lemma_floor_quotient(src_height * dst_width, src_width);
    lemma_floor_quotient(src_width * dst_height, src_height);
}

/// Fitting is idempotent: a source that already has the size of a fitted
/// region is given that same region again.
pub proof fn lemma_fit_idempotent(src_width: int, src_height: int, dst_width: int, dst_height: int)
    requires
        positive_sizes(src_width, src_height, dst_width, dst_height),
        fit_region(src_width, src_height, dst_width, dst_height).width > 0,
        fit_region(src_width, src_height, dst_width, dst_height).height > 0,
    ensures
        ({
            let r = fit_region(src_width, src_height, dst_width, dst_height);
            fit_region(r.width, r.height, dst_width, dst_height) == r
        }),
{
    let r = fit_region(src_width, src_height, dst_width, dst_height);
    if fits_unscaled(src_width, src_height, dst_width, dst_height) {
    } else if wider_than(src_width, src_height, dst_width, dst_height) {
        lemma_scaled_height_bounds(src_width, src_height, dst_width, dst_height);
        assert(r.height < dst_height);
        assert(dst_width * dst_height > dst_width * r.height) by (nonlinear_arith)
            requires
                dst_width > 0,
                r.height < dst_height,
        ;
        lemma_div_by_multiple(r.height, dst_width);
    } else {
        lemma_scaled_width_bounds(src_width, src_height, dst_width, dst_height);
        assert(r.width <= dst_width);
        assert(r.width * dst_height <= dst_width * dst_height) by (nonlinear_arith)
            requires
                dst_height > 0,
                r.width <= dst_width,
        ;
        lemma_div_by_multiple(r.width, dst_height);
    }
}

/// `a / b` is the floor of the exact quotient of a non-negative `a` by a
/// positive `b`.
proof fn lemma_floor_quotient(a: int, b: int)
    requires
        0 < b,
    ensures
        (a / b) * b <= a < (a / b + 1) * b,
{
    vstd::arithmetic::div_mod::lemma_fundamental_div_mod(a, b);
    vstd::arithmetic::div_mod::lemma_mod_bound(a, b);
    assert((a / b) * b == b * (a / b)) by (nonlinear_arith);
    assert((a / b + 1) * b == b * (a / b) + b) by (nonlinear_arith);
}

/// Under a wider source the scaled height is less than the viewport's.
proof fn lemma_scaled_height_bounds(src_width: int, src_height: int, dst_width: int, dst_height: int)
    requires
        positive_sizes(src_width, src_height, dst_width, dst_height),
        wider_than(src_width, src_height, dst_width, dst_height),
    ensures
        0 <= scale_side(src_height, src_width, dst_width) < dst_height,
{
    assert(src_height * dst_width == dst_width * src_height) by (nonlinear_arith);
    assert(0 <= src_height * dst_width) by (nonlinear_arith)
        requires
            src_height > 0,
            dst_width > 0,
    ;
    lemma_multiply_divide_lt(src_height * dst_width, src_width, dst_height);
    vstd::arithmetic::div_mod::lemma_div_pos_is_pos(src_height * dst_width, src_width);
}

/// Under a source that is not wider the scaled width is at most the
/// viewport's.
proof fn lemma_scaled_width_bounds(src_width: int, src_height: int, dst_width: int, dst_height: int)
    requires
        positive_sizes(src_width, src_height, dst_width, dst_height),
        !wider_than(src_width, src_height, dst_width, dst_height),
    ensures
        0 <= scale_side(src_width, src_height, dst_height) <= dst_width,
{
    assert(dst_width * src_height == src_height * dst_width) by (nonlinear_arith);
    assert(0 <= src_width * dst_height) by (nonlinear_arith)
        requires
            src_width > 0,
            dst_height > 0,
    ;
    lemma_multiply_divide_le(src_width * dst_height, src_height, dst_width);
    vstd::arithmetic::div_mod::lemma_div_pos_is_pos(src_width * dst_height, src_height);
}

/// Places a source smaller than the viewport at its own size, centred.
pub fn full_rect(src_width: u32, src_height: u32, dst_width: u32, dst_height: u32) -> (r: Rectangle)
    requires
        fits_unscaled(src_width as int, src_height as int, dst_width as int, dst_height as int),
    ensures
        r@ == full_region(src_width as int, src_height as int, dst_width as int, dst_height as int),
{
    let y: u32 = (dst_height - src_height) / 2;
    let x: u32 = (dst_width - src_width) / 2;
    Rectangle { x: x as i32, y: y as i32, width: src_width, height: src_height }
}

/// Scales a source of wider aspect than the viewport to the full width.
pub fn fit_x_rect(src_width: u32, src_height: u32, dst_width: u32, dst_height: u32) -> (r: Rectangle)
    requires
        positive_sizes(src_width as int, src_height as int, dst_width as int, dst_height as int),
        wider_than(src_width as int, src_height as int, dst_width as int, dst_height as int),
    ensures
        r@ == fit_x_region(src_width as int, src_height as int, dst_width as int, dst_height as int),
{
    proof {
        lemma_scaled_height_bounds(src_width as int, src_height as int, dst_width as int, dst_height as int);
        assert(src_height as int * dst_width as int <= 0xFFFF_FFFF * 0xFFFF_FFFF) by (nonlinear_arith)
            requires
                0 <= src_height as int <= 0xFFFF_FFFF,
                0 <= dst_width as int <= 0xFFFF_FFFF,
        ;
    }
    let scaled: u64 = (src_height as u64 * dst_width as u64) / (src_width as u64);
    let height: u32 = scaled as u32;
    let y: u32 = (dst_height - height) / 2;
    Rectangle { x: 0, y: y as i32, width: dst_width, height }
}

/// Scales a source that is not of wider aspect than the viewport to the
/// full height.
pub fn fit_y_rect(src_width: u32, src_height: u32, dst_width: u32, dst_height: u32) -> (r: Rectangle)
    requires
        positive_sizes(src_width as int, src_height as int, dst_width as int, dst_height as int),
        !wider_than(src_width as int, src_height as int, dst_width as int, dst_height as int),
    ensures
        r@ == fit_y_region(src_width as int, src_height as int, dst_width as int, dst_height as int),
{
    proof {
        lemma_scaled_width_bounds(src_width as int, src_height as int, dst_width as int, dst_height as int);
        assert(src_width as int * dst_height as int <= 0xFFFF_FFFF * 0xFFFF_FFFF) by (nonlinear_arith)
            requires
                0 <= src_width as int <= 0xFFFF_FFFF,
                0 <= dst_height as int <= 0xFFFF_FFFF,
        ;
    }
    let scaled: u64 = (src_width as u64 * dst_height as u64) / (src_height as u64);
    let width: u32 = scaled as u32;
    let x: u32 = (dst_width - width) / 2;
    Rectangle { x: x as i32, y: 0, width, height: dst_height }
}

/// Computes the rectangle in which a source of the given size is drawn in a
/// viewport of the given size.
///
/// The result depends on the four sizes alone. It lies inside the viewport
/// and is centred in it.
pub fn make_dst(src_width: u32, src_height: u32, dst_width: u32, dst_height: u32) -> (r: Rectangle)
    requires
        positive_sizes(src_width as int, src_height as int, dst_width as int, dst_height as int),
    ensures
        r@ == fit_region(src_width as int, src_height as int, dst_width as int, dst_height as int),
        r@.inside(dst_width as int, dst_height as int),
        r@.centred(dst_width as int, dst_height as int),
{
    proof {
        lemma_fit_inside(src_width as int, src_height as int, dst_width as int, dst_height as int);
        assert(src_width as int * dst_height as int <= 0xFFFF_FFFF * 0xFFFF_FFFF) by (nonlinear_arith)
            requires
                0 <= src_width as int <= 0xFFFF_FFFF,
                0 <= dst_height as int <= 0xFFFF_FFFF,
        ;
        assert(dst_width as int * src_height as int <= 0xFFFF_FFFF * 0xFFFF_FFFF) by (nonlinear_arith)
            requires
                0 <= dst_width as int <= 0xFFFF_FFFF,
                0 <= src_height as int <= 0xFFFF_FFFF,
        ;
    }
    if src_width < dst_width && src_height < dst_height {
        return full_rect(src_width, src_height, dst_width, dst_height);
    }
    if src_width as u64 * dst_height as u64 > dst_width as u64 * src_height as u64 {
        return fit_x_rect(src_width, src_height, dst_width, dst_height);
    }
    fit_y_rect(src_width, src_height, dst_width, dst_height)
}

} // verus!
