//! The plain shapes that a drawing is made of. Coordinates count thousandths
//! of a point; x grows to the right and y grows downwards.
use vstd::prelude::*;

verus! {

/// A point of the drawing surface.
#[derive(Clone, Copy, Debug, PartialEq, Eq)]
pub struct Point {
    pub x: i128,
    pub y: i128,
}

pub struct PointView {
    pub x: int,
    pub y: int,
}

impl View for Point {
    type V = PointView;

    open spec fn view(&self) -> PointView {
        PointView { x: self.x as int, y: self.y as int }
    }
}

/// One straight stroke of the pen.
#[derive(Clone, Copy, Debug, PartialEq, Eq)]
pub struct LineSegment {
    pub from: Point,
    pub to: Point,
}

pub struct LineSegmentView {
    pub from: PointView,
    pub to: PointView,
}

impl View for LineSegment {
    type V = LineSegmentView;

    open spec fn view(&self) -> LineSegmentView {
        LineSegmentView { from: self.from@, to: self.to@ }
    }
}

/// The stroke from `(x0, y0)` to `(x1, y1)`.
pub open spec fn stroke(x0: int, y0: int, x1: int, y1: int) -> LineSegmentView {
    LineSegmentView { from: PointView { x: x0, y: y0 }, to: PointView { x: x1, y: y1 } }
}

/// The two strokes of a chamfered join: they run from the top rail and from
/// the bottom rail to one tip at mid-height.
#[derive(Clone, Copy, Debug, PartialEq, Eq)]
pub struct Chamfer {
    pub upper: LineSegment,
    pub lower: LineSegment,
}

pub struct ChamferView {
    pub upper: LineSegmentView,
    pub lower: LineSegmentView,
}

impl View for Chamfer {
    type V = ChamferView;

    open spec fn view(&self) -> ChamferView {
        ChamferView { upper: self.upper@, lower: self.lower@ }
    }
}

/// A box given by its centre and its size, in which a text is to be fitted
/// and centred. A size below zero holds no text.
#[derive(Clone, Copy, Debug, PartialEq, Eq)]
pub struct LabelBox {
    pub center: Point,
    pub width: i128,
    pub height: i128,
}

pub struct LabelBoxView {
    pub center: PointView,
    pub width: int,
    pub height: int,
}

impl View for LabelBox {
    type V = LabelBoxView;

    open spec fn view(&self) -> LabelBoxView {
        LabelBoxView {
            center: self.center@,
            width: self.width as int,
            height: self.height as int,
        }
    }
}

/// A box given by its sides.
#[derive(Clone, Copy, Debug, PartialEq, Eq)]
pub struct Area {
    pub left: i128,
    pub top: i128,
    pub right: i128,
    pub bottom: i128,
}

pub struct AreaView {
    pub left: int,
    pub top: int,
    pub right: int,
    pub bottom: int,
}

impl View for Area {
    type V = AreaView;

    open spec fn view(&self) -> AreaView {
        AreaView {
            left: self.left as int,
            top: self.top as int,
            right: self.right as int,
            bottom: self.bottom as int,
        }
    }
}

/// What the host says of the surface for one frame: where the surface of
/// the rows starts, and the rectangle outside of which nothing is shown.
#[derive(Clone, Copy, Debug, PartialEq, Eq)]
pub struct Frame {
    pub surface_top: i32,
    pub clip_left: i32,
    pub clip_top: i32,
    pub clip_right: i32,
    pub clip_bottom: i32,
}

/// The stroke from `(x0, y0)` to `(x1, y1)`.
pub fn line_segment(x0: i128, y0: i128, x1: i128, y1: i128) -> (s: LineSegment)
    ensures
        s@ == stroke(x0 as int, y0 as int, x1 as int, y1 as int),
{
    LineSegment { from: Point { x: x0, y: y0 }, to: Point { x: x1, y: y1 } }
}

} // verus!
