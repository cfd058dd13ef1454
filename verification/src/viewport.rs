//! The viewport: a mutable axis-aligned rectangle in chart space, with
//! pan and zoom mutators.

use vstd::prelude::*;
use crate::fixed::{SCALE, div_fixed, trunc_div};
use crate::point::{Point, in_coord_range};

verus! {

/// An axis-aligned rectangle in fixed-point chart coordinates; `(x, y)` is
/// the bottom-left corner.  A valid render pass needs `width > 0` and
/// `height > 0`, but the mutators do not check this: a degenerate extent is
/// only caught lazily, at the next render pass.
#[derive(Clone, Copy, PartialEq, Eq, Structural, Debug)]
pub struct Rect {
    pub x: i64,
    pub y: i64,
    pub width: i64,
    pub height: i64,
}

/// The additive shift `translate` applies.
pub open spec fn rect_translated(r: Rect, delta: Point) -> Rect {
    Rect { x: (r.x + delta.x) as i64, y: (r.y + delta.y) as i64, width: r.width, height: r.height }
}

/// The multiplicative shift `scale` applies: the extent is scaled, the
/// corner stays put, so the center drifts unless the caller compensates.
pub open spec fn rect_scaled(r: Rect, factor: Point) -> Rect {
    Rect {
        x: r.x,
        y: r.y,
        width: trunc_div(r.width * factor.x, SCALE as int) as i64,
        height: trunc_div(r.height * factor.y, SCALE as int) as i64,
    }
}

/// A viewport a coordinate system can be built over.
pub open spec fn rect_valid(r: Rect) -> bool {
    r.width > 0 && r.height > 0
}

/// Both corners of the rectangle lie in the coordinate range the engine
/// admits for a render pass.
pub open spec fn rect_in_range(r: Rect) -> bool {
    in_coord_range(r.x as int) && in_coord_range(r.y as int) && in_coord_range(r.x + r.width)
        && in_coord_range(r.y + r.height)
}

impl Rect {
    /// Shift the viewport by `delta`; the extent is unchanged.  No bounds
    /// are checked: any representable shift is accepted.
    pub fn translate(&mut self, delta: Point)
        requires
            i64::MIN <= old(self).x + delta.x <= i64::MAX,
            i64::MIN <= old(self).y + delta.y <= i64::MAX,
        ensures
            *final(self) == rect_translated(*old(self), delta),
    {
        self.x = self.x + delta.x;
        self.y = self.y + delta.y;
    }

    /// Scale the extent by a fixed-point factor per axis; the corner is
    /// unchanged.  A zero or negative factor is accepted and silently
    /// produces a degenerate or inverted viewport, which the next render
    /// pass rejects.
    pub fn scale(&mut self, factor: Point)
        requires
            i64::MIN < old(self).width * factor.x <= i64::MAX,
            i64::MIN < old(self).height * factor.y <= i64::MAX,
        ensures
            *final(self) == rect_scaled(*old(self), factor),
    {
        self.width = div_fixed(self.width * factor.x, SCALE);
        self.height = div_fixed(self.height * factor.y, SCALE);
    }

    /// The rectangle as `(left, right, bottom, top)` bounds, the shape the
    /// coordinate-system builder takes.
    pub fn bounds(&self) -> (b: (i64, i64, i64, i64))
        requires
            i64::MIN <= self.x + self.width <= i64::MAX,
            i64::MIN <= self.y + self.height <= i64::MAX,
        ensures
            b.0 == self.x,
            b.1 == self.x + self.width,
            b.2 == self.y,
            b.3 == self.y + self.height,
    {
        (self.x, self.x + self.width, self.y, self.y + self.height)
    }
}

/// Translating by `delta` and then by its negation restores the viewport
/// exactly, whenever both shifts stay representable.
pub proof fn lemma_translate_inverse(r: Rect, delta: Point)
    requires
        i64::MIN <= r.x + delta.x <= i64::MAX,
        i64::MIN <= r.y + delta.y <= i64::MAX,
        i64::MIN < delta.x,
        i64::MIN < delta.y,
    ensures
        rect_translated(rect_translated(r, delta), (Point { x: (-delta.x) as i64, y: (-delta.y) as i64 })) == r,
{
}

/// Scaling with a zero x-factor yields a zero-width, hence invalid,
/// viewport, whatever the other factor is.
pub proof fn lemma_scale_zero_width(r: Rect, factor: Point)
    requires
        factor.x == 0,
    ensures
        rect_scaled(r, factor).width == 0,
        !rect_valid(rect_scaled(r, factor)),
{
}

} // verus!
