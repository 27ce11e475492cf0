use drag_engine::element::Element;
use drag_engine::element::element_hit;
use drag_engine::element::element_ok;
use drag_engine::geometry::Convention;
use drag_engine::geometry::Point;
use drag_engine::geometry::Viewport;
use drag_engine::geometry::to_local;
use drag_engine::tracker::DragState;
use drag_engine::tracker::PointerSample;
use drag_engine::tracker::elements_ok;
use drag_engine::tracker::find_hit;
use drag_engine::tracker::sample_ok;
use drag_engine::tracker::state_ok;
use drag_engine::tracker::tick;

fn pixel_element(id: u64, x: i32, y: i32, w: i32, h: i32) -> Element {
    Element {
        id,
        anchor: Point { x, y },
        width: w,
        height: h,
        convention: Convention::TopLeftPixel,
    }
}

fn center_element(id: u64, x: i32, y: i32, w: i32, h: i32) -> Element {
    Element {
        id,
        anchor: Point { x, y },
        width: w,
        height: h,
        convention: Convention::CenterWorld,
    }
}

fn vp() -> Viewport {
    Viewport { width: 800, height: 600 }
}

fn sample(pressed: bool, released: bool, cursor: Option<(i32, i32)>) -> PointerSample {
    PointerSample {
        pressed,
        released,
        cursor: cursor.map(|(x, y)| Point { x, y }),
        viewport: vp(),
    }
}

#[test]
fn pixel_drag_scenario() {
    let mut elements = vec![pixel_element(1, 90, 10, 50, 50)];
    let mut state = DragState::Idle;

    // Press at (100, 20): inside the rectangle, so the drag starts with
    // offset (90 - 100, 10 - 20) = (-10, -10).
    tick(&mut state, &sample(true, false, Some((100, 20))), &mut elements);
    assert_eq!(state, DragState::Dragging { id: 1, offset: Point { x: -10, y: -10 } });
    assert_eq!(elements[0].anchor, Point { x: 90, y: 10 });

    // Move to (150, 60): anchor follows to (140, 50).
    tick(&mut state, &sample(false, false, Some((150, 60))), &mut elements);
    assert_eq!(elements[0].anchor, Point { x: 140, y: 50 });

    // Release: state is Idle again.
    tick(&mut state, &sample(false, true, Some((150, 60))), &mut elements);
    assert_eq!(state, DragState::Idle);

    // Further moves without a press change nothing.
    tick(&mut state, &sample(false, false, Some((300, 300))), &mut elements);
    assert_eq!(state, DragState::Idle);
    assert_eq!(elements[0].anchor, Point { x: 140, y: 50 });
}

#[test]
fn center_drag_scenario() {
    // Center convention, viewport 800x600: pixel (400, 200) converts to
    // world (400 - 400, 300 - 200) = (0, 100), the element's center.
    let mut elements = vec![center_element(9, 0, 100, 60, 60)];
    let mut state = DragState::Idle;

    tick(&mut state, &sample(true, false, Some((400, 200))), &mut elements);
    assert_eq!(state, DragState::Dragging { id: 9, offset: Point { x: 0, y: 0 } });
    assert_eq!(elements[0].anchor, Point { x: 0, y: 100 });

    // Moving the cursor 20 px right and 30 px down moves the center to
    // (20, 70): the world y axis is inverted relative to pointer space.
    tick(&mut state, &sample(false, false, Some((420, 230))), &mut elements);
    assert_eq!(elements[0].anchor, Point { x: 20, y: 70 });

    tick(&mut state, &sample(false, true, Some((420, 230))), &mut elements);
    assert_eq!(state, DragState::Idle);
}

#[test]
fn center_grab_keeps_offset() {
    // Grab away from the center: pixel (410, 190) is world (10, 110), so
    // the offset is (0 - 10, 100 - 110) = (-10, -10) and the element does
    // not jump to put its center under the cursor.
    let mut elements = vec![center_element(4, 0, 100, 60, 60)];
    let mut state = DragState::Idle;

    tick(&mut state, &sample(true, false, Some((410, 190))), &mut elements);
    assert_eq!(state, DragState::Dragging { id: 4, offset: Point { x: -10, y: -10 } });
    assert_eq!(elements[0].anchor, Point { x: 0, y: 100 });

    tick(&mut state, &sample(false, false, Some((400, 300))), &mut elements);
    // World cursor is (0, 0); the center lands at (-10, -10).
    assert_eq!(elements[0].anchor, Point { x: -10, y: -10 });
}

#[test]
fn overlapping_hit_prefers_first() {
    // Both rectangles contain (100, 100); the one registered first wins.
    let first = pixel_element(10, 60, 60, 80, 80);
    let second = pixel_element(20, 90, 90, 80, 80);
    let elements = vec![first, second];
    assert_eq!(find_hit(Point { x: 100, y: 100 }, vp(), &elements), Some(0));

    let mut elements = elements;
    let mut state = DragState::Idle;
    tick(&mut state, &sample(true, false, Some((100, 100))), &mut elements);
    assert_eq!(state, DragState::Dragging { id: 10, offset: Point { x: -40, y: -40 } });
}

#[test]
fn edge_cursor_hits() {
    // All four edges are inclusive: the right/bottom corner counts.
    let e = pixel_element(3, 10, 10, 50, 50);
    assert!(element_hit(&e, Point { x: 60, y: 60 }, vp()));
    assert!(element_hit(&e, Point { x: 10, y: 60 }, vp()));
    assert!(element_hit(&e, Point { x: 60, y: 10 }, vp()));
    assert!(element_hit(&e, Point { x: 10, y: 10 }, vp()));
    // One pixel past the edge does not.
    assert!(!element_hit(&e, Point { x: 61, y: 60 }, vp()));
    assert!(!element_hit(&e, Point { x: 60, y: 61 }, vp()));
    assert!(!element_hit(&e, Point { x: 9, y: 10 }, vp()));
}

#[test]
fn release_clears_state_anywhere() {
    let mut elements = vec![pixel_element(1, 90, 10, 50, 50)];
    let mut state = DragState::Idle;
    tick(&mut state, &sample(true, false, Some((100, 20))), &mut elements);
    assert!(matches!(state, DragState::Dragging { .. }));

    // Release with the cursor far away from the element still clears.
    tick(&mut state, &sample(false, true, Some((700, 500))), &mut elements);
    assert_eq!(state, DragState::Idle);

    // A move tick with no new press writes nothing.
    let before = elements[0].anchor;
    tick(&mut state, &sample(false, false, Some((5, 5))), &mut elements);
    assert_eq!(elements[0].anchor, before);
}

#[test]
fn repeated_move_same_anchor() {
    let mut elements = vec![pixel_element(1, 90, 10, 50, 50)];
    let mut state = DragState::Idle;
    tick(&mut state, &sample(true, false, Some((100, 20))), &mut elements);

    tick(&mut state, &sample(false, false, Some((150, 60))), &mut elements);
    let once = elements[0].anchor;
    tick(&mut state, &sample(false, false, Some((150, 60))), &mut elements);
    assert_eq!(elements[0].anchor, once);
}

#[test]
fn offset_preserved_across_moves() {
    let mut elements = vec![pixel_element(1, 90, 10, 50, 50)];
    let mut state = DragState::Idle;
    tick(&mut state, &sample(true, false, Some((100, 20))), &mut elements);

    // Anchor equals cursor + (-10, -10) on every move of the same drag.
    for &(cx, cy) in &[(150, 60), (20, 400), (799, 599), (0, 0), (123, 456)] {
        tick(&mut state, &sample(false, false, Some((cx, cy))), &mut elements);
        assert_eq!(elements[0].anchor, Point { x: cx - 10, y: cy - 10 });
        assert_eq!(state, DragState::Dragging { id: 1, offset: Point { x: -10, y: -10 } });
    }
}

#[test]
fn press_misses_all() {
    let mut elements = vec![pixel_element(1, 90, 10, 50, 50)];
    let mut state = DragState::Idle;
    assert_eq!(find_hit(Point { x: 500, y: 500 }, vp(), &elements), None);
    tick(&mut state, &sample(true, false, Some((500, 500))), &mut elements);
    assert_eq!(state, DragState::Idle);
    assert_eq!(elements[0].anchor, Point { x: 90, y: 10 });
}

#[test]
fn no_cursor_tick_is_noop() {
    let mut elements = vec![pixel_element(1, 90, 10, 50, 50)];
    let mut state = DragState::Idle;
    tick(&mut state, &sample(true, false, None), &mut elements);
    assert_eq!(state, DragState::Idle);
    assert_eq!(elements[0].anchor, Point { x: 90, y: 10 });

    // Same while dragging: no cursor, no write, no release.
    tick(&mut state, &sample(true, false, Some((100, 20))), &mut elements);
    let held = state;
    tick(&mut state, &sample(false, true, None), &mut elements);
    assert_eq!(state, held);
    assert_eq!(elements[0].anchor, Point { x: 90, y: 10 });
}

#[test]
fn press_while_dragging_keeps_grab() {
    let mut elements = vec![pixel_element(1, 0, 0, 50, 50), pixel_element(2, 200, 200, 50, 50)];
    let mut state = DragState::Idle;
    tick(&mut state, &sample(true, false, Some((10, 10))), &mut elements);
    assert_eq!(state, DragState::Dragging { id: 1, offset: Point { x: -10, y: -10 } });

    // A second press edge while something is held grabs nothing new, even
    // over another element; the held element follows the cursor there.
    tick(&mut state, &sample(true, false, Some((220, 220))), &mut elements);
    assert_eq!(state, DragState::Dragging { id: 1, offset: Point { x: -10, y: -10 } });
    assert_eq!(elements[0].anchor, Point { x: 210, y: 210 });
    assert_eq!(elements[1].anchor, Point { x: 200, y: 200 });
}

#[test]
fn dragged_element_removed_is_skipped() {
    let mut elements = vec![pixel_element(1, 90, 10, 50, 50)];
    let mut state = DragState::Idle;
    tick(&mut state, &sample(true, false, Some((100, 20))), &mut elements);
    assert!(matches!(state, DragState::Dragging { .. }));

    // The host destroyed the element mid-drag: the write is skipped but
    // the state stays Dragging until an explicit release.
    elements.clear();
    tick(&mut state, &sample(false, false, Some((150, 60))), &mut elements);
    assert!(matches!(state, DragState::Dragging { .. }));
    tick(&mut state, &sample(false, true, Some((150, 60))), &mut elements);
    assert_eq!(state, DragState::Idle);
}

#[test]
fn conversion_round_trip_is_consistent() {
    // The same conversion is used at grab time and at move time: grabbing
    // and moving back to the starting cursor leaves the anchor unchanged.
    let mut elements = vec![center_element(5, -40, 30, 80, 80)];
    let mut state = DragState::Idle;
    let start = elements[0].anchor;
    // World (-40, 30) is pixel (360, 270).
    tick(&mut state, &sample(true, false, Some((360, 270))), &mut elements);
    tick(&mut state, &sample(false, false, Some((100, 100))), &mut elements);
    assert_ne!(elements[0].anchor, start);
    tick(&mut state, &sample(false, false, Some((360, 270))), &mut elements);
    assert_eq!(elements[0].anchor, start);
}

#[test]
fn to_local_conventions() {
    let p = to_local(Point { x: 400, y: 200 }, Convention::CenterWorld, vp());
    assert_eq!(p, Point { x: 0, y: 100 });
    let q = to_local(Point { x: 400, y: 200 }, Convention::TopLeftPixel, vp());
    assert_eq!(q, Point { x: 400, y: 200 });
    let r = to_local(Point { x: 0, y: 0 }, Convention::CenterWorld, vp());
    assert_eq!(r, Point { x: -400, y: 300 });
    // Odd viewport sides: the half-size truncates towards zero.
    let odd = Viewport { width: 801, height: 601 };
    let s = to_local(Point { x: 401, y: 200 }, Convention::CenterWorld, odd);
    assert_eq!(s, Point { x: 1, y: 100 });
}

#[test]
fn guards_accept_and_reject() {
    let good = pixel_element(1, 90, 10, 50, 50);
    assert!(element_ok(&good));
    assert!(element_ok(&center_element(2, -3_000_000, 3_000_000, 0, 0)));
    assert!(!element_ok(&pixel_element(3, 0, 0, -1, 50)));
    assert!(!element_ok(&pixel_element(4, 0, 3_000_001, 50, 50)));
    assert!(!element_ok(&pixel_element(5, 0, 0, 1_000_001, 50)));

    assert!(elements_ok(&vec![good]));
    assert!(!elements_ok(&vec![good, pixel_element(6, 0, 0, -1, -1)]));
    assert!(elements_ok(&Vec::new()));

    assert!(sample_ok(&sample(false, false, None)));
    assert!(sample_ok(&sample(true, true, Some((800, 600)))));
    assert!(!sample_ok(&sample(false, false, Some((801, 600)))));
    assert!(!sample_ok(&sample(false, false, Some((-1, 0)))));
    let bad_vp = PointerSample {
        pressed: false,
        released: false,
        cursor: None,
        viewport: Viewport { width: -1, height: 600 },
    };
    assert!(!sample_ok(&bad_vp));

    assert!(state_ok(&DragState::Idle));
    assert!(state_ok(&DragState::Dragging { id: 1, offset: Point { x: -50, y: 0 } }));
    assert!(!state_ok(&DragState::Dragging { id: 1, offset: Point { x: 2_000_000, y: 0 } }));
}
