//! Points, viewports and the two anchor conventions, together with the one
//! affine conversion from window pixel space into an element's own space.

use vstd::prelude::*;

verus! {

/// A point or 2D vector with `i32` components, read in whichever coordinate
/// space its context fixes (window pixels, or an element's layout space).
#[derive(Clone, Copy, PartialEq, Eq, Structural, Debug)]
pub struct Point {
    pub x: i32,
    pub y: i32,
}

/// The mathematical counterpart of [`Point`]: unbounded integer components.
pub ghost struct PointModel {
    pub x: int,
    pub y: int,
}

impl View for Point {
    type V = PointModel;

    open spec fn view(&self) -> PointModel {
        PointModel { x: self.x as int, y: self.y as int }
    }
}

/// The window's drawable size in pixels.
#[derive(Clone, Copy, PartialEq, Eq, Structural, Debug)]
pub struct Viewport {
    pub width: i32,
    pub height: i32,
}

/// The mathematical counterpart of [`Viewport`].
pub ghost struct ViewportModel {
    pub width: int,
    pub height: int,
}

impl View for Viewport {
    type V = ViewportModel;

    open spec fn view(&self) -> ViewportModel {
        ViewportModel { width: self.width as int, height: self.height as int }
    }
}

/// How a draggable element's anchor point is to be read.
#[derive(Clone, Copy, PartialEq, Eq, Structural, Debug)]
pub enum Convention {
    /// The anchor is the rectangle's top-left corner in window pixel space;
    /// y grows downward, as the pointer's y does.
    TopLeftPixel,
    /// The anchor is the rectangle's center in a space whose origin is the
    /// viewport's center and whose y axis grows upward (inverted relative
    /// to pointer space).
    CenterWorld,
}

/// Componentwise sum of two points.
pub open spec fn add_model(a: PointModel, b: PointModel) -> PointModel {
    PointModel { x: a.x + b.x, y: a.y + b.y }
}

/// Componentwise difference of two points.
pub open spec fn sub_model(a: PointModel, b: PointModel) -> PointModel {
    PointModel { x: a.x - b.x, y: a.y - b.y }
}

/// Bound on the coordinates the host hands in (cursor positions, viewport
/// sides, element sizes).  Keeping them this small lets every sum and
/// difference the engine forms stay far inside `i32`'s range.
pub open spec fn small_coord(v: int) -> bool {
    -1_000_000 <= v <= 1_000_000
}

pub open spec fn small_point(p: PointModel) -> bool {
    small_coord(p.x) && small_coord(p.y)
}

/// Anchors may wander beyond the input bound while an element is dragged
/// towards a window edge, but never beyond three times it.
pub open spec fn anchor_coord(v: int) -> bool {
    -3_000_000 <= v <= 3_000_000
}

pub open spec fn anchor_point(p: PointModel) -> bool {
    anchor_coord(p.x) && anchor_coord(p.y)
}

pub open spec fn wf_viewport(v: ViewportModel) -> bool {
    0 <= v.width <= 1_000_000 && 0 <= v.height <= 1_000_000
}

/// The cursor position the host reports lies inside the window.
pub open spec fn in_viewport(c: PointModel, vp: ViewportModel) -> bool {
    0 <= c.x <= vp.width && 0 <= c.y <= vp.height
}

/// The affine conversion from pointer (window pixel) space into an
/// element's own space.  For the pixel convention it is the identity; for
/// the center/world convention the origin moves to the viewport center and
/// the y axis flips.
pub open spec fn local_of(cursor: PointModel, conv: Convention, vp: ViewportModel) -> PointModel {
    match conv {
        Convention::TopLeftPixel => cursor,
        Convention::CenterWorld => PointModel {
            x: cursor.x - vp.width / 2,
            y: vp.height / 2 - cursor.y,
        },
    }
}

/// Executable form of [`local_of`].
pub fn to_local(cursor: Point, conv: Convention, vp: Viewport) -> (r: Point)
    requires
        wf_viewport(vp@),
        in_viewport(cursor@, vp@),
    ensures
        r@ == local_of(cursor@, conv, vp@),
        small_point(r@),
{
    match conv {
        Convention::TopLeftPixel => cursor,
        Convention::CenterWorld => Point { x: cursor.x - vp.width / 2, y: vp.height / 2 - cursor.y },
    }
}

} // verus!
