//! The screen-to-chart coordinate mapper: a small value type holding the
//! pixel layout and chart bounds of the render pass that produced it.
//!
//! A mapper is valid only for the viewport and canvas layout active when it
//! was built; the session replaces it wholesale on every successful render
//! pass.

use vstd::prelude::*;
use vstd::arithmetic::div_mod::{lemma_div_is_ordered, lemma_div_multiples_vanish,
    lemma_fundamental_div_mod, lemma_mod_division_less_than_divisor};
use crate::fixed::{COORD_LIMIT, div_fixed};
use crate::point::Point;
use crate::viewport::{Rect, rect_in_range, rect_valid};

verus! {

/// Largest canvas extent, in pixels, the engine accepts.
pub const PIXEL_LIMIT: i32 = 100_000;

/// Outer margin of the drawing area, in pixels.
pub const MARGIN: u32 = 30;

/// Pixel height (or width) of an axis-label strip.
pub const LABEL_AREA: u32 = 30;

/// Pixel height of the caption strip above the plotting area.
pub const CAPTION_AREA: u32 = 20;

/// The inverse transform of one render pass: the plotting area's pixel
/// bounds and the chart-space bounds it was built over.  Screen y grows
/// downward, chart y grows upward.
pub struct CoordinateMapper {
    pub px_left: i32,
    pub px_right: i32,
    pub px_top: i32,
    pub px_bottom: i32,
    pub chart_x: i64,
    pub chart_y: i64,
    pub chart_w: i64,
    pub chart_h: i64,
}

/// The mapper the layout rules produce for a viewport and canvas size.
pub open spec fn mapper_for(vp: Rect, canvas_width: u32, canvas_height: u32) -> CoordinateMapper {
    CoordinateMapper {
        px_left: (MARGIN + LABEL_AREA) as i32,
        px_right: (canvas_width - MARGIN) as i32,
        px_top: (MARGIN + CAPTION_AREA) as i32,
        px_bottom: (canvas_height - MARGIN - LABEL_AREA) as i32,
        chart_x: vp.x,
        chart_y: vp.y,
        chart_w: vp.width,
        chart_h: vp.height,
    }
}

impl CoordinateMapper {
    /// Well-formedness: a non-empty plotting area within the pixel limit,
    /// over a valid viewport within the coordinate range.
    pub open spec fn wf(self) -> bool {
        &&& 0 <= self.px_left < self.px_right <= PIXEL_LIMIT
        &&& 0 <= self.px_top < self.px_bottom <= PIXEL_LIMIT
        &&& 0 < self.chart_w
        &&& 0 < self.chart_h
        &&& -COORD_LIMIT <= self.chart_x
        &&& self.chart_x + self.chart_w <= COORD_LIMIT
        &&& -COORD_LIMIT <= self.chart_y
        &&& self.chart_y + self.chart_h <= COORD_LIMIT
    }

    /// The pixel lies inside the plotting area (margins and label strips
    /// excluded).
    pub open spec fn in_area(self, sx: int, sy: int) -> bool {
        self.px_left <= sx <= self.px_right && self.px_top <= sy <= self.px_bottom
    }

    /// The chart x-coordinate an in-area pixel column maps back to.
    pub open spec fn chart_x_at(self, sx: int) -> int {
        self.chart_x + (sx - self.px_left) * (self.chart_w as int) / (self.px_right - self.px_left)
    }

    /// The chart y-coordinate an in-area pixel row maps back to.
    pub open spec fn chart_y_at(self, sy: int) -> int {
        self.chart_y + (self.px_bottom - sy) * (self.chart_h as int) / (self.px_bottom - self.px_top)
    }

    /// The forward transform: the pixel column a chart x-coordinate is
    /// drawn at.
    pub open spec fn screen_x_at(self, cx: int) -> int {
        self.px_left + (cx - self.chart_x) * (self.px_right - self.px_left) / (self.chart_w as int)
    }

    /// The forward transform: the pixel row a chart y-coordinate is drawn
    /// at.
    pub open spec fn screen_y_at(self, cy: int) -> int {
        self.px_bottom - (cy - self.chart_y) * (self.px_bottom - self.px_top) / (self.chart_h as int)
    }

    /// Build the mapper for a render pass over `vp` on a canvas of the
    /// given pixel size.
    pub fn build(vp: &Rect, canvas_width: u32, canvas_height: u32) -> (m: CoordinateMapper)
        requires
            rect_in_range(*vp),
            rect_valid(*vp),
            canvas_width > MARGIN + MARGIN + LABEL_AREA,
            canvas_height > MARGIN + MARGIN + LABEL_AREA + CAPTION_AREA,
            canvas_width <= PIXEL_LIMIT,
            canvas_height <= PIXEL_LIMIT,
        ensures
            m == mapper_for(*vp, canvas_width, canvas_height),
            m.wf(),
    {
        CoordinateMapper {
            px_left: (MARGIN + LABEL_AREA) as i32,
            px_right: (canvas_width - MARGIN) as i32,
            px_top: (MARGIN + CAPTION_AREA) as i32,
            px_bottom: (canvas_height - MARGIN - LABEL_AREA) as i32,
            chart_x: vp.x,
            chart_y: vp.y,
            chart_w: vp.width,
            chart_h: vp.height,
        }
    }

    /// Map a screen pixel back to chart coordinates; `None` for every
    /// pixel outside the plotting area.
    pub fn coord(&self, sx: i32, sy: i32) -> (r: Option<Point>)
        requires
            self.wf(),
        ensures
            self.in_area(sx as int, sy as int) ==> r == Some(
                Point {
                    x: self.chart_x_at(sx as int) as i64,
                    y: self.chart_y_at(sy as int) as i64,
                },
            ),
            !self.in_area(sx as int, sy as int) ==> r is None,
    {
        if sx < self.px_left || sx > self.px_right || sy < self.px_top || sy > self.px_bottom {
            return None;
        }
        let dx: i64 = (sx - self.px_left) as i64;
        let dy: i64 = (self.px_bottom - sy) as i64;
        let w: i64 = (self.px_right - self.px_left) as i64;
        let h: i64 = (self.px_bottom - self.px_top) as i64;
        proof {
            assert(0 <= dx * self.chart_w <= 200_000_000_000_000) by (nonlinear_arith)
                requires
                    0 <= dx <= 100_000,
                    0 < self.chart_w <= 2_000_000_000,
            ;
            assert(0 <= dy * self.chart_h <= 200_000_000_000_000) by (nonlinear_arith)
                requires
                    0 <= dy <= 100_000,
                    0 < self.chart_h <= 2_000_000_000,
            ;
        }
        let cx: i64 = self.chart_x + div_fixed(dx * self.chart_w, w);
        let cy: i64 = self.chart_y + div_fixed(dy * self.chart_h, h);
        Some(Point { x: cx, y: cy })
    }
}

/// For `0 <= d` and `0 < small <= big`, dividing `d * big` by `small` and
/// projecting back loses less than one unit of `d`.
proof fn lemma_div_mul_round_trip(d: int, big: int, small: int)
    requires
        0 <= d,
        0 < small <= big,
    ensures
        d - 1 <= (d * big / small) * small / big <= d,
{
    let q = d * big / small;
    let r = (d * big) % small;
    lemma_mod_division_less_than_divisor(d * big, small);
    lemma_fundamental_div_mod(d * big, small);
    assert(small * q == d * big - r);
    assert(q * small == small * q) by (nonlinear_arith);
    lemma_div_is_ordered(q * small, d * big, big);
    lemma_div_multiples_vanish(d, big);
    assert(d * big == big * d) by (nonlinear_arith);
    assert(q * small / big <= d);
    assert((d - 1) * big <= q * small) by (nonlinear_arith)
        requires
            q * small == d * big - r,
            0 <= r < small,
            small <= big,
    ;
    lemma_div_is_ordered((d - 1) * big, q * small, big);
    lemma_div_multiples_vanish(d - 1, big);
    assert((d - 1) * big == big * (d - 1)) by (nonlinear_arith);
    assert(d - 1 <= q * small / big);
}

/// Round-trip consistency: a pixel inside the plotting area, mapped back
/// to chart coordinates and re-projected through the forward transform,
/// lands within one pixel of where it started.  This holds whenever the
/// viewport spans at least one fixed-point quantum per pixel on each axis.
pub proof fn lemma_round_trip(m: CoordinateMapper, sx: int, sy: int)
    requires
        m.wf(),
        m.in_area(sx, sy),
        m.chart_w >= m.px_right - m.px_left,
        m.chart_h >= m.px_bottom - m.px_top,
    ensures
        sx - 1 <= m.screen_x_at(m.chart_x_at(sx)) <= sx,
        sy <= m.screen_y_at(m.chart_y_at(sy)) <= sy + 1,
{
    let d = sx - m.px_left;
    let w = m.px_right - m.px_left;
    lemma_div_mul_round_trip(d, m.chart_w as int, w);
    let dy = m.px_bottom - sy;
    let h = m.px_bottom - m.px_top;
    lemma_div_mul_round_trip(dy, m.chart_h as int, h);
}

} // verus!
