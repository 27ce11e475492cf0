//! Draggable elements: a stable identity, a rectangle given by an anchor
//! point and a size, and the anchor convention the rectangle is read under.

use vstd::prelude::*;

use crate::geometry::Convention;
use crate::geometry::Point;
use crate::geometry::PointModel;
use crate::geometry::Viewport;
use crate::geometry::ViewportModel;
use crate::geometry::anchor_point;
use crate::geometry::in_viewport;
use crate::geometry::local_of;
use crate::geometry::to_local;
use crate::geometry::wf_viewport;

verus! {

/// A draggable rectangle on the canvas.  The engine never creates or
/// destroys elements; it only reads rectangles and writes the anchor of
/// the one element being dragged.
#[derive(Clone, Copy, PartialEq, Eq, Structural, Debug)]
pub struct Element {
    /// Identity, stable for the element's lifetime and chosen by the host.
    pub id: u64,
    /// Top-left corner or center, as `convention` says.
    pub anchor: Point,
    pub width: i32,
    pub height: i32,
    pub convention: Convention,
}

/// The mathematical counterpart of [`Element`].
pub ghost struct ElementModel {
    pub id: u64,
    pub anchor: PointModel,
    pub width: int,
    pub height: int,
    pub convention: Convention,
}

impl View for Element {
    type V = ElementModel;

    open spec fn view(&self) -> ElementModel {
        ElementModel {
            id: self.id,
            anchor: self.anchor@,
            width: self.width as int,
            height: self.height as int,
            convention: self.convention,
        }
    }
}

/// A well-formed element: nonnegative, bounded sides and a bounded anchor.
pub open spec fn wf_element(e: ElementModel) -> bool {
    &&& anchor_point(e.anchor)
    &&& 0 <= e.width <= 1_000_000
    &&& 0 <= e.height <= 1_000_000
}

/// The smallest corner of the element's rectangle, in its own space.
pub open spec fn rect_min(e: ElementModel) -> PointModel {
    match e.convention {
        Convention::TopLeftPixel => e.anchor,
        Convention::CenterWorld => PointModel {
            x: e.anchor.x - e.width / 2,
            y: e.anchor.y - e.height / 2,
        },
    }
}

/// Containment in the element's rectangle, inclusive on all four edges.
/// `p` is a point already expressed in the element's own space.
pub open spec fn rect_contains(e: ElementModel, p: PointModel) -> bool {
    &&& rect_min(e).x <= p.x <= rect_min(e).x + e.width
    &&& rect_min(e).y <= p.y <= rect_min(e).y + e.height
}

/// Whether the raw cursor position lands on the element, once converted
/// into the element's own space.
pub open spec fn hits(e: ElementModel, cursor: PointModel, vp: ViewportModel) -> bool {
    rect_contains(e, local_of(cursor, e.convention, vp))
}

/// True exactly when the element is well-formed; the guard a host calls
/// on elements it made from untrusted numbers.
pub fn element_ok(e: &Element) -> (r: bool)
    ensures
        r == wf_element(e@),
{
    -3_000_000 <= e.anchor.x && e.anchor.x <= 3_000_000 && -3_000_000 <= e.anchor.y && e.anchor.y
        <= 3_000_000 && 0 <= e.width && e.width <= 1_000_000 && 0 <= e.height && e.height
        <= 1_000_000
}

/// Executable form of [`hits`]: point-in-rectangle test against one
/// element, converting the cursor into the element's space first.
pub fn element_hit(e: &Element, cursor: Point, vp: Viewport) -> (r: bool)
    requires
        wf_element(e@),
        wf_viewport(vp@),
        in_viewport(cursor@, vp@),
    ensures
        r == hits(e@, cursor@, vp@),
{
    let p = to_local(cursor, e.convention, vp);
    let (min_x, min_y): (i32, i32) = match e.convention {
        Convention::TopLeftPixel => (e.anchor.x, e.anchor.y),
        Convention::CenterWorld => (e.anchor.x - e.width / 2, e.anchor.y - e.height / 2),
    };
    min_x <= p.x && p.x <= min_x + e.width && min_y <= p.y && p.y <= min_y + e.height
}

} // verus!
