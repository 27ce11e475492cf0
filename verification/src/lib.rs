//! A single-active-drag interaction engine for positioning rectangular
//! elements on a 2D canvas with a pointer.
//!
//! The engine is pure logic over plain integer coordinates: hit-testing to
//! pick the element under the cursor, a drag tracker that holds at most one
//! grabbed element together with the offset captured at grab time, and the
//! conversion between window pixel space and each element's own layout
//! space.  A host (windowing, input, rendering) feeds one `PointerSample`
//! per frame into [`tracker::tick`] and writes the mutated anchors back to
//! the screen.

pub mod element;
pub mod geometry;
pub mod laws;
pub mod tracker;
