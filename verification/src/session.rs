//! The chart session: the aggregate owning the current viewport, selected
//! variant, operand points, and the coordinate mapper of the latest render
//! pass.

use vstd::prelude::*;
use crate::chart::{ChartType, Frame, frame_for, generate};
use crate::fixed::COORD_LIMIT;
use crate::mapper::{CAPTION_AREA, CoordinateMapper, LABEL_AREA, MARGIN, PIXEL_LIMIT, mapper_for};
use crate::point::{Point, Rotation, point_in_range, rotation_in_range};
use crate::viewport::{Rect, rect_in_range, rect_scaled, rect_translated, rect_valid};

verus! {

/// The ways a session operation can fail.  Surface acquisition and frame
/// presentation are the rendering backend's part and are reported by the
/// embedding program; the engine itself only ever reports a geometry error.
#[derive(Clone, Copy, PartialEq, Eq, Structural, Debug)]
pub enum ChartError {
    /// The drawing surface could not be acquired.
    SurfaceAcquisition,
    /// The viewport bounds are degenerate or outside the admitted range.
    GeometryConstruction,
    /// The rendering backend failed to commit the frame.
    Presentation,
}

/// The viewport a fresh session starts with: a 200 by 200 unit box
/// centered on the origin.
pub open spec fn default_viewport() -> Rect {
    Rect { x: -100_000i64, y: -100_000i64, width: 200_000, height: 200_000 }
}

/// An interactive chart session.  The viewport and mapper are owned
/// exclusively; the operand fields are plain state the caller may set
/// freely between render passes.
pub struct Chart {
    viewport: Rect,
    canvas_width: u32,
    canvas_height: u32,
    mapper: CoordinateMapper,
    chart_type: ChartType,
    vector1: Point,
    vector2: Point,
    rotation: Rotation,
}

impl Chart {
    /// The current viewport.
    pub closed spec fn spec_viewport(self) -> Rect {
        self.viewport
    }

    /// The mapper of the latest render pass.  It goes stale the moment
    /// the viewport is mutated and is only replaced by `update`.
    pub closed spec fn spec_mapper(self) -> CoordinateMapper {
        self.mapper
    }

    /// The canvas size, in pixels, the session was created for.
    pub closed spec fn spec_canvas(self) -> (u32, u32) {
        (self.canvas_width, self.canvas_height)
    }

    /// The selected chart variant.
    pub closed spec fn spec_chart_type(self) -> ChartType {
        self.chart_type
    }

    /// First operand of the vector variants; drawn as the red marker.
    pub closed spec fn spec_vector1(self) -> Point {
        self.vector1
    }

    /// Second operand: the shift for `VectorTranslate`, and the source of
    /// the scalar factor (its x-component) for `VectorScale`.
    pub closed spec fn spec_vector2(self) -> Point {
        self.vector2
    }

    /// The rotation `VectorRotate` applies, as the fixed-point cosine and
    /// sine of its angle.
    pub closed spec fn spec_rotation(self) -> Rotation {
        self.rotation
    }

    /// Session invariant: the canvas leaves a non-empty plotting area and
    /// the stored mapper is well formed.  Established by `new`, preserved
    /// by every operation.
    pub closed spec fn wf(self) -> bool {
        &&& self.canvas_width > MARGIN + MARGIN + LABEL_AREA
        &&& self.canvas_height > MARGIN + MARGIN + LABEL_AREA + CAPTION_AREA
        &&& self.canvas_width <= PIXEL_LIMIT
        &&& self.canvas_height <= PIXEL_LIMIT
        &&& self.mapper.wf()
    }

    /// Create a session for a canvas of the given pixel size, with the
    /// default viewport and variant, and the mapper of a first render
    /// pass over them.  Fails when the canvas is too small to leave a
    /// plotting area.
    pub fn new(canvas_width: u32, canvas_height: u32) -> (r: Result<Chart, ChartError>)
        requires
            canvas_width <= PIXEL_LIMIT,
            canvas_height <= PIXEL_LIMIT,
        ensures
            (canvas_width > MARGIN + MARGIN + LABEL_AREA && canvas_height > MARGIN + MARGIN
                + LABEL_AREA + CAPTION_AREA) <==> r is Ok,
            r matches Ok(c) ==> c.wf() && c.spec_viewport() == default_viewport() && c.spec_chart_type()
                == ChartType::VectorTranslate && c.spec_vector1() == (Point { x: 0, y: 0 }) && c.spec_vector2()
                == (Point { x: 0, y: 0 }) && c.spec_rotation() == (Rotation { cos: 1000, sin: 0 })
                && c.spec_mapper() == mapper_for(default_viewport(), canvas_width, canvas_height),
            r is Err ==> r == Err::<Chart, ChartError>(ChartError::GeometryConstruction),
    {
        if canvas_width <= MARGIN + MARGIN + LABEL_AREA || canvas_height <= MARGIN + MARGIN
            + LABEL_AREA + CAPTION_AREA {
            return Err(ChartError::GeometryConstruction);
        }
        let viewport = Rect { x: -100_000, y: -100_000, width: 200_000, height: 200_000 };
        let mapper = CoordinateMapper::build(&viewport, canvas_width, canvas_height);
        Ok(
            Chart {
                viewport,
                canvas_width,
                canvas_height,
                mapper,
                chart_type: ChartType::VectorTranslate,
                vector1: Point { x: 0, y: 0 },
                vector2: Point { x: 0, y: 0 },
                rotation: Rotation { cos: 1000, sin: 0 },
            },
        )
    }

    /// Snapshot of the current viewport; no side effect.
    pub fn get_viewport(&self) -> (r: Rect)
        ensures
            r == self.spec_viewport(),
    {
        self.viewport
    }

    /// Shift the viewport.  The mapper is deliberately left untouched: it
    /// is stale from here until the next `update`.
    pub fn translate(&mut self, translation: Point)
        requires
            i64::MIN <= old(self).spec_viewport().x + translation.x <= i64::MAX,
            i64::MIN <= old(self).spec_viewport().y + translation.y <= i64::MAX,
        ensures
            final(self).spec_viewport() == rect_translated(old(self).spec_viewport(), translation),
            final(self).spec_chart_type() == old(self).spec_chart_type(),
            final(self).spec_vector1() == old(self).spec_vector1(),
            final(self).spec_vector2() == old(self).spec_vector2(),
            final(self).spec_rotation() == old(self).spec_rotation(),
            final(self).spec_mapper() == old(self).spec_mapper(),
            final(self).spec_canvas() == old(self).spec_canvas(),
            final(self).wf() == old(self).wf(),
    {
        self.viewport.translate(translation);
    }

    /// Scale the viewport extent.  As with `translate`, the mapper stays
    /// stale until the next `update`; a zero or negative factor silently
    /// degenerates the viewport, which the next `update` rejects.
    pub fn scale(&mut self, scale: Point)
        requires
            i64::MIN < old(self).spec_viewport().width * scale.x <= i64::MAX,
            i64::MIN < old(self).spec_viewport().height * scale.y <= i64::MAX,
        ensures
            final(self).spec_viewport() == rect_scaled(old(self).spec_viewport(), scale),
            final(self).spec_chart_type() == old(self).spec_chart_type(),
            final(self).spec_vector1() == old(self).spec_vector1(),
            final(self).spec_vector2() == old(self).spec_vector2(),
            final(self).spec_rotation() == old(self).spec_rotation(),
            final(self).spec_mapper() == old(self).spec_mapper(),
            final(self).spec_canvas() == old(self).spec_canvas(),
            final(self).wf() == old(self).wf(),
    {
        self.viewport.scale(scale);
    }

    /// Select the chart variant.  A pure state change: regeneration only
    /// happens at the next `update`, until which the stale mapper stays
    /// valid for its old viewport.
    pub fn set_variant(&mut self, t: ChartType)
        ensures
            final(self).spec_chart_type() == t,
            final(self).spec_viewport() == old(self).spec_viewport(),
            final(self).spec_vector1() == old(self).spec_vector1(),
            final(self).spec_vector2() == old(self).spec_vector2(),
            final(self).spec_rotation() == old(self).spec_rotation(),
            final(self).spec_mapper() == old(self).spec_mapper(),
            final(self).spec_canvas() == old(self).spec_canvas(),
            final(self).wf() == old(self).wf(),
    {
        self.chart_type = t;
    }

    /// Set the first operand point.
    pub fn set_vector1(&mut self, v: Point)
        ensures
            final(self).spec_vector1() == v,
            final(self).spec_viewport() == old(self).spec_viewport(),
            final(self).spec_chart_type() == old(self).spec_chart_type(),
            final(self).spec_vector2() == old(self).spec_vector2(),
            final(self).spec_rotation() == old(self).spec_rotation(),
            final(self).spec_mapper() == old(self).spec_mapper(),
            final(self).spec_canvas() == old(self).spec_canvas(),
            final(self).wf() == old(self).wf(),
    {
        self.vector1 = v;
    }

    /// Set the second operand point.
    pub fn set_vector2(&mut self, v: Point)
        ensures
            final(self).spec_vector2() == v,
            final(self).spec_viewport() == old(self).spec_viewport(),
            final(self).spec_chart_type() == old(self).spec_chart_type(),
            final(self).spec_vector1() == old(self).spec_vector1(),
            final(self).spec_rotation() == old(self).spec_rotation(),
            final(self).spec_mapper() == old(self).spec_mapper(),
            final(self).spec_canvas() == old(self).spec_canvas(),
            final(self).wf() == old(self).wf(),
    {
        self.vector2 = v;
    }

    /// Set the rotation `VectorRotate` applies, as the fixed-point cosine
    /// and sine of its angle.
    pub fn set_rotation(&mut self, rot: Rotation)
        ensures
            final(self).spec_rotation() == rot,
            final(self).spec_viewport() == old(self).spec_viewport(),
            final(self).spec_chart_type() == old(self).spec_chart_type(),
            final(self).spec_vector1() == old(self).spec_vector1(),
            final(self).spec_vector2() == old(self).spec_vector2(),
            final(self).spec_mapper() == old(self).spec_mapper(),
            final(self).spec_canvas() == old(self).spec_canvas(),
            final(self).wf() == old(self).wf(),
    {
        self.rotation = rot;
    }

    /// True when the current viewport can carry a render pass: positive
    /// extent, bounds in the admitted range.
    fn viewport_render_ok(&self) -> (b: bool)
        ensures
            b == (rect_valid(self.spec_viewport()) && rect_in_range(self.spec_viewport())),
    {
        let vp = self.viewport;
        if !(vp.width > 0 && vp.height > 0 && vp.x >= -COORD_LIMIT && vp.x <= COORD_LIMIT && vp.y
            >= -COORD_LIMIT && vp.y <= COORD_LIMIT) {
            return false;
        }
        let right = match vp.x.checked_add(vp.width) {
            Some(s) => s,
            None => {
                return false;
            },
        };
        let top = match vp.y.checked_add(vp.height) {
            Some(s) => s,
            None => {
                return false;
            },
        };
        -COORD_LIMIT <= right && right <= COORD_LIMIT && -COORD_LIMIT <= top && top <= COORD_LIMIT
    }

    /// Regenerate the primitives for the current variant, viewport and
    /// operands, and replace the mapper with a fresh one for them.  On a
    /// degenerate or out-of-range viewport it fails instead, and the
    /// whole session state, the prior mapper included, is retained.
    pub fn update(&mut self) -> (r: Result<Frame, ChartError>)
        requires
            old(self).wf(),
            point_in_range(old(self).spec_vector1()),
            point_in_range(old(self).spec_vector2()),
            rotation_in_range(old(self).spec_rotation()),
        ensures
            (rect_valid(old(self).spec_viewport()) && rect_in_range(old(self).spec_viewport()))
                <==> r is Ok,
            r matches Ok(frame) ==> frame_for(
                old(self).spec_chart_type(),
                old(self).spec_viewport(),
                old(self).spec_vector1(),
                old(self).spec_vector2(),
                old(self).spec_rotation(),
                frame,
            ) && final(self).spec_mapper() == mapper_for(
                old(self).spec_viewport(),
                old(self).spec_canvas().0,
                old(self).spec_canvas().1,
            ),
            r is Err ==> r == Err::<Frame, ChartError>(ChartError::GeometryConstruction)
                && *final(self) == *old(self),
            final(self).spec_viewport() == old(self).spec_viewport(),
            final(self).spec_chart_type() == old(self).spec_chart_type(),
            final(self).spec_vector1() == old(self).spec_vector1(),
            final(self).spec_vector2() == old(self).spec_vector2(),
            final(self).spec_rotation() == old(self).spec_rotation(),
            final(self).spec_canvas() == old(self).spec_canvas(),
            final(self).wf(),
    {
        if !self.viewport_render_ok() {
            return Err(ChartError::GeometryConstruction);
        }
        let frame = generate(self.chart_type, &self.viewport, self.vector1, self.vector2, self.rotation);
        self.mapper = CoordinateMapper::build(&self.viewport, self.canvas_width, self.canvas_height);
        Ok(frame)
    }

    /// Convert a screen pixel to chart coordinates through the mapper of
    /// the latest render pass; `None` for every pixel outside the
    /// plotting area.  After a viewport mutation and before the next
    /// `update`, the answer is still the old mapper's.
    pub fn coord(&self, x: i32, y: i32) -> (r: Option<Point>)
        requires
            self.wf(),
        ensures
            self.spec_mapper().in_area(x as int, y as int) ==> r == Some(
                Point {
                    x: self.spec_mapper().chart_x_at(x as int) as i64,
                    y: self.spec_mapper().chart_y_at(y as int) as i64,
                },
            ),
            !self.spec_mapper().in_area(x as int, y as int) ==> r is None,
    {
        self.mapper.coord(x, y)
    }
}

} // verus!
