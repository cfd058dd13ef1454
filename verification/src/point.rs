//! 2-D points in fixed-point chart coordinates, with the algebraic
//! operations the vector chart variants apply to them.

use vstd::prelude::*;
use crate::fixed::{COORD_LIMIT, SCALE, div_fixed, trunc_div};

verus! {

/// A 2-D value in fixed-point chart coordinates.
#[derive(Clone, Copy, PartialEq, Eq, Structural, Debug)]
pub struct Point {
    pub x: i64,
    pub y: i64,
}

/// A plane rotation, given by the fixed-point cosine and sine of its angle.
/// Resolving an angle into this pair is trigonometric work and is left to
/// the embedding program.
#[derive(Clone, Copy, PartialEq, Eq, Structural, Debug)]
pub struct Rotation {
    pub cos: i64,
    pub sin: i64,
}

/// A coordinate the engine admits for a render pass.
pub open spec fn in_coord_range(v: int) -> bool {
    -COORD_LIMIT <= v <= COORD_LIMIT
}

pub open spec fn point_in_range(p: Point) -> bool {
    in_coord_range(p.x as int) && in_coord_range(p.y as int)
}

/// A cosine or sine in fixed-point form has magnitude at most one unit.
pub open spec fn rotation_in_range(r: Rotation) -> bool {
    -SCALE <= r.cos <= SCALE && -SCALE <= r.sin <= SCALE
}

/// Component-wise sum.
pub open spec fn point_translated(p: Point, other: Point) -> Point {
    Point { x: (p.x + other.x) as i64, y: (p.y + other.y) as i64 }
}

/// Standard 2-D rotation-matrix application, scaled back to quanta.
pub open spec fn point_rotated(p: Point, rot: Rotation) -> Point {
    Point {
        x: trunc_div(p.x * rot.cos - p.y * rot.sin, SCALE as int) as i64,
        y: trunc_div(p.x * rot.sin + p.y * rot.cos, SCALE as int) as i64,
    }
}

/// Uniform scalar multiply of both components by a fixed-point factor.
pub open spec fn point_scaled(p: Point, factor: int) -> Point {
    Point {
        x: trunc_div(p.x * factor, SCALE as int) as i64,
        y: trunc_div(p.y * factor, SCALE as int) as i64,
    }
}

impl Point {
    pub fn init(x: i64, y: i64) -> (p: Point)
        ensures
            p.x == x,
            p.y == y,
    {
        Point { x, y }
    }

    pub fn translate(&self, other: Point) -> (r: Point)
        requires
            i64::MIN <= self.x + other.x <= i64::MAX,
            i64::MIN <= self.y + other.y <= i64::MAX,
        ensures
            r == point_translated(*self, other),
            r.x == self.x + other.x,
            r.y == self.y + other.y,
    {
        Point { x: self.x + other.x, y: self.y + other.y }
    }

    pub fn rotate(&self, rot: Rotation) -> (r: Point)
        requires
            point_in_range(*self),
            rotation_in_range(rot),
        ensures
            r == point_rotated(*self, rot),
    {
        proof {
            assert(-1_000_000_000_000 <= self.x * rot.cos <= 1_000_000_000_000
                && -1_000_000_000_000 <= self.y * rot.sin <= 1_000_000_000_000
                && -1_000_000_000_000 <= self.x * rot.sin <= 1_000_000_000_000
                && -1_000_000_000_000 <= self.y * rot.cos <= 1_000_000_000_000)
                by (nonlinear_arith)
                requires
                    -1_000_000_000 <= self.x <= 1_000_000_000,
                    -1_000_000_000 <= self.y <= 1_000_000_000,
                    -1000 <= rot.cos <= 1000,
                    -1000 <= rot.sin <= 1000,
            ;
        }
        let num_x: i64 = self.x * rot.cos - self.y * rot.sin;
        let num_y: i64 = self.x * rot.sin + self.y * rot.cos;
        Point { x: div_fixed(num_x, SCALE), y: div_fixed(num_y, SCALE) }
    }

    pub fn scale(&self, factor: i64) -> (r: Point)
        requires
            point_in_range(*self),
            in_coord_range(factor as int),
        ensures
            r == point_scaled(*self, factor as int),
    {
        proof {
            assert(-1_000_000_000_000_000_000 <= self.x * factor <= 1_000_000_000_000_000_000
                && -1_000_000_000_000_000_000 <= self.y * factor <= 1_000_000_000_000_000_000)
                by (nonlinear_arith)
                requires
                    -1_000_000_000 <= self.x <= 1_000_000_000,
                    -1_000_000_000 <= self.y <= 1_000_000_000,
                    -1_000_000_000 <= factor <= 1_000_000_000,
            ;
        }
        Point { x: div_fixed(self.x * factor, SCALE), y: div_fixed(self.y * factor, SCALE) }
    }
}

impl Default for Point {
    fn default() -> (p: Point)
        ensures
            p.x == 0,
            p.y == 0,
    {
        Point { x: 0, y: 0 }
    }
}

} // verus!
