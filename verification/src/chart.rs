//! Chart-variant dispatch: from a viewport (and, for the vector variants,
//! two operand points) to the list of geometric primitives to draw.

use vstd::prelude::*;
use vstd::arithmetic::div_mod::{lemma_div_is_ordered_by_denominator, lemma_div_multiples_vanish};
use crate::fixed::{SCALE, div_fixed, trunc_div};
use crate::point::{Point, Rotation, point_in_range, point_rotated, point_scaled, point_translated,
    rotation_in_range};
use crate::viewport::{Rect, rect_in_range, rect_valid};

verus! {

/// The closed set of chart kinds the engine can generate.
#[derive(Clone, Copy, PartialEq, Eq, Structural, Debug)]
pub enum ChartType {
    ComplexCurve,
    VectorTranslate,
    VectorRotate,
    VectorScale,
}

/// The colors the primitives carry.
#[derive(Clone, Copy, PartialEq, Eq, Structural, Debug)]
pub enum Color {
    White,
    Black,
    Red,
    Green,
}

/// An ordered list of chart-space points connected in sequence.
#[derive(Clone, Debug)]
pub struct Polyline {
    pub points: Vec<Point>,
    pub color: Color,
}

/// A single filled or hollow circle at a chart-space point.
#[derive(Clone, Copy, PartialEq, Eq, Structural, Debug)]
pub struct Marker {
    pub at: Point,
    pub radius: u32,
    pub filled: bool,
    pub color: Color,
}

/// Everything one render pass hands to the rendering backend: mesh and
/// axis-label instructions first, then the data primitives.
#[derive(Clone, Debug)]
pub struct Frame {
    pub x_labels: u32,
    pub y_labels: u32,
    pub polylines: Vec<Polyline>,
    pub markers: Vec<Marker>,
}

/// Number of curve samples per render pass.
pub const RESOLUTION: i64 = 1000;

/// Marker radius for the vector variants.
pub const MARKER_RADIUS: u32 = 5;

/// Axis labels drawn per side.
pub const AXIS_LABELS: u32 = 3;

/// Spacing between successive sample x-values of the curve variant.
pub open spec fn curve_step(vp: Rect) -> int {
    vp.width as int / (RESOLUTION as int)
}

/// The i-th sample x-value, starting at the viewport's left edge.
pub open spec fn curve_sample_x(vp: Rect, i: int) -> int {
    vp.x + i * curve_step(vp)
}

/// The parabola the curve variant plots.
pub open spec fn curve_sample_y(x: int) -> int {
    trunc_div(x * x, SCALE as int)
}

/// A sample is kept only when its y-value lies strictly inside the
/// viewport's vertical range: a visibility filter, not a clip.
pub open spec fn curve_visible(vp: Rect, y: int) -> bool {
    vp.y < y < vp.y + vp.height
}

/// The visible samples among the first `n`, in x-order.
pub open spec fn curve_points_upto(vp: Rect, n: int) -> Seq<Point>
    decreases n,
{
    if n <= 0 {
        Seq::empty()
    } else {
        let x = curve_sample_x(vp, n - 1);
        let y = curve_sample_y(x);
        let rest = curve_points_upto(vp, n - 1);
        if curve_visible(vp, y) {
            rest.push(Point { x: x as i64, y: y as i64 })
        } else {
            rest
        }
    }
}

/// The polyline of the curve variant: all visible samples, in x-order.
pub open spec fn curve_points(vp: Rect) -> Seq<Point> {
    curve_points_upto(vp, RESOLUTION as int)
}

/// The second marker of a vector variant: the first operand transformed by
/// the variant's operation.
pub open spec fn vector_result(t: ChartType, v1: Point, v2: Point, rot: Rotation) -> Point {
    match t {
        ChartType::VectorTranslate => point_translated(v1, v2),
        ChartType::VectorRotate => point_rotated(v1, rot),
        ChartType::VectorScale => point_scaled(v1, v2.x as int),
        ChartType::ComplexCurve => v1,
    }
}

/// Sample the parabola over the viewport width at `RESOLUTION` evenly
/// spaced x-values, dropping every sample outside the vertical range.
pub fn sample_curve(vp: &Rect) -> (pts: Vec<Point>)
    requires
        rect_in_range(*vp),
        rect_valid(*vp),
    ensures
        pts@ == curve_points(*vp),
{
    let step: i64 = div_fixed(vp.width, RESOLUTION);
    let mut pts: Vec<Point> = Vec::new();
    let mut i: i64 = 0;
    proof {
        assert(curve_points_upto(*vp, 0) == Seq::<Point>::empty());
    }
    while i < RESOLUTION
        invariant
            0 <= i <= RESOLUTION,
            rect_in_range(*vp),
            rect_valid(*vp),
            step == curve_step(*vp),
            0 <= step <= 2_000_000,
            pts@ == curve_points_upto(*vp, i as int),
        decreases RESOLUTION - i,
    {
        proof {
            assert(0 <= i * step <= 2_000_000_000) by (nonlinear_arith)
                requires
                    0 <= i < 1000,
                    0 <= step <= 2_000_000,
            ;
        }
        let x: i64 = vp.x + i * step;
        proof {
            assert(x * x <= 9_000_000_000_000_000_000) by (nonlinear_arith)
                requires
                    -3_000_000_000 <= x <= 3_000_000_000,
            ;
            assert(x * x >= 0) by (nonlinear_arith);
        }
        let y: i64 = div_fixed(x * x, SCALE);
        if vp.y < y && y < vp.y + vp.height {
            pts.push(Point { x, y });
        }
        i = i + 1;
        proof {
            assert(pts@ == curve_points_upto(*vp, i as int));
        }
    }
    pts
}

/// Every point the curve variant emits satisfies the visibility filter:
/// its y-value lies strictly inside the viewport's vertical range.
pub proof fn lemma_curve_points_visible(vp: Rect, n: int)
    requires
        rect_in_range(vp),
        rect_valid(vp),
        0 <= n <= RESOLUTION as int,
    ensures
        forall|k: int|
            0 <= k < curve_points_upto(vp, n).len() ==> curve_visible(
                vp,
                curve_points_upto(vp, n)[k].y as int,
            ),
    decreases n,
{
    if n > 0 {
        lemma_curve_points_visible(vp, n - 1);
        let x = curve_sample_x(vp, n - 1);
        let y = curve_sample_y(x);
        let prev = curve_points_upto(vp, n - 1);
        let cur = curve_points_upto(vp, n);
        if curve_visible(vp, y) {
            assert(-2_000_000_000 <= vp.y < y < vp.y + vp.height <= 2_000_000_000);
            assert(cur == prev.push(Point { x: x as i64, y: y as i64 }));
            assert forall|k: int| 0 <= k < cur.len() implies curve_visible(
                vp,
                cur[k].y as int,
            ) by {
                if k < prev.len() {
                    assert(cur[k] == prev[k]);
                } else {
                    assert(cur[k].y as int == y);
                }
            }
        } else {
            assert(cur == prev);
        }
    }
}

/// The half-extent, in quanta, of the symmetric viewport a zoom factor
/// selects for the standalone curve entry: `RESOLUTION / (2 * zoom)` chart
/// units, widened by one unit.
pub open spec fn zoom_limit(zoom: int) -> int {
    trunc_div(1_000_000_000, 2 * zoom) + SCALE
}

/// The square viewport, centered on the origin, that a positive zoom
/// factor selects for the standalone curve entry.
pub fn curve_viewport(zoom: i64) -> (vp: Rect)
    requires
        0 < zoom <= 1_000_000_000,
    ensures
        vp.x == -zoom_limit(zoom as int),
        vp.y == -zoom_limit(zoom as int),
        vp.width == 2 * zoom_limit(zoom as int),
        vp.height == 2 * zoom_limit(zoom as int),
        rect_in_range(vp),
        rect_valid(vp),
{
    let limit: i64 = div_fixed(1_000_000_000, 2 * zoom) + SCALE;
    proof {
        lemma_div_multiples_vanish(500_000_000, 2);
        lemma_div_is_ordered_by_denominator(1_000_000_000, 2, 2 * zoom as int);
        assert(trunc_div(1_000_000_000, 2 * zoom as int) <= 500_000_000);
    }
    Rect { x: -limit, y: -limit, width: 2 * limit, height: 2 * limit }
}

/// What one render pass over the given state must emit: mesh instructions
/// with three labels per axis, then, for the curve variant, one black
/// polyline of the visible samples; for a vector variant, the first
/// operand as a red marker and the transformed result as a green one.
pub open spec fn frame_for(t: ChartType, vp: Rect, v1: Point, v2: Point, rot: Rotation, frame: Frame) -> bool {
    &&& frame.x_labels == AXIS_LABELS
    &&& frame.y_labels == AXIS_LABELS
    &&& t is ComplexCurve ==> frame.polylines@.len() == 1 && frame.markers@.len() == 0
        && frame.polylines@[0].points@ == curve_points(vp) && frame.polylines@[0].color
        == Color::Black
    &&& !(t is ComplexCurve) ==> frame.polylines@.len() == 0 && frame.markers@.len() == 2
        && frame.markers@[0] == (Marker {
        at: v1,
        radius: MARKER_RADIUS,
        filled: true,
        color: Color::Red,
    }) && frame.markers@[1] == (Marker {
        at: vector_result(t, v1, v2, rot),
        radius: MARKER_RADIUS,
        filled: true,
        color: Color::Green,
    })
}

/// Generate the primitives for one render pass.
pub fn generate(t: ChartType, vp: &Rect, v1: Point, v2: Point, rot: Rotation) -> (frame: Frame)
    requires
        rect_in_range(*vp),
        rect_valid(*vp),
        point_in_range(v1),
        point_in_range(v2),
        rotation_in_range(rot),
    ensures
        frame_for(t, *vp, v1, v2, rot, frame),
{
    let mut polylines: Vec<Polyline> = Vec::new();
    let mut markers: Vec<Marker> = Vec::new();
    match t {
        ChartType::ComplexCurve => {
            let points = sample_curve(vp);
            polylines.push(Polyline { points, color: Color::Black });
        },
        _ => {
            markers.push(Marker { at: v1, radius: MARKER_RADIUS, filled: true, color: Color::Red });
            let result: Point = match t {
                ChartType::VectorTranslate => v1.translate(v2),
                ChartType::VectorRotate => v1.rotate(rot),
                ChartType::VectorScale => v1.scale(v2.x),
                ChartType::ComplexCurve => v1,
            };
            markers.push(Marker {
                at: result,
                radius: MARKER_RADIUS,
                filled: true,
                color: Color::Green,
            });
        },
    }
    Frame { x_labels: AXIS_LABELS, y_labels: AXIS_LABELS, polylines, markers }
}

} // verus!
