//! The drag tracker: hit-testing over the ordered element sequence, the
//! `Idle`/`Dragging` state machine, and the per-tick step that grabs,
//! moves and releases.

use vstd::prelude::*;

use crate::element::Element;
use crate::element::ElementModel;
use crate::element::hits;
use crate::element::rect_contains;
use crate::element::wf_element;
use crate::geometry::Point;
use crate::geometry::PointModel;
use crate::geometry::Viewport;
use crate::geometry::ViewportModel;
use crate::geometry::add_model;
use crate::geometry::in_viewport;
use crate::geometry::local_of;
use crate::geometry::small_point;
use crate::geometry::sub_model;
use crate::geometry::to_local;
use crate::geometry::wf_viewport;

verus! {

/// The tracker's state: nothing held, or exactly one element held together
/// with the offset `anchor - local cursor` captured when the drag started.
/// The offset exists exactly while an element is held.
#[derive(Clone, Copy, PartialEq, Eq, Structural, Debug)]
pub enum DragState {
    Idle,
    Dragging { id: u64, offset: Point },
}

/// The mathematical counterpart of [`DragState`].
pub ghost enum StateModel {
    Idle,
    Dragging { id: u64, offset: PointModel },
}

impl View for DragState {
    type V = StateModel;

    open spec fn view(&self) -> StateModel {
        match *self {
            DragState::Idle => StateModel::Idle,
            DragState::Dragging { id, offset } => StateModel::Dragging { id, offset: offset@ },
        }
    }
}

/// What the host reads from its input system once per tick: the pointer's
/// press/release edges, the cursor position in window pixel space if the
/// cursor is inside the window, and the viewport size.
#[derive(Clone, Copy, PartialEq, Eq, Structural, Debug)]
pub struct PointerSample {
    /// The button went down this very tick.
    pub pressed: bool,
    /// The button went up this very tick.
    pub released: bool,
    /// `None` when the cursor is outside the window; the whole tick is
    /// then a no-op.
    pub cursor: Option<Point>,
    pub viewport: Viewport,
}

/// The mathematical counterpart of [`PointerSample`].
pub ghost struct SampleModel {
    pub pressed: bool,
    pub released: bool,
    pub cursor: Option<PointModel>,
    pub viewport: ViewportModel,
}

impl View for PointerSample {
    type V = SampleModel;

    open spec fn view(&self) -> SampleModel {
        SampleModel {
            pressed: self.pressed,
            released: self.released,
            cursor: match self.cursor {
                Option::None => Option::None,
                Option::Some(c) => Option::Some(c@),
            },
            viewport: self.viewport@,
        }
    }
}

/// The element sequence as the mathematical sequence of element models.
pub open spec fn views(es: Seq<Element>) -> Seq<ElementModel> {
    es.map_values(|e: Element| e@)
}

/// A held offset stays within the input bound: it is captured from a
/// containment, so it can never exceed the element's size.
pub open spec fn wf_state(s: StateModel) -> bool {
    match s {
        StateModel::Idle => true,
        StateModel::Dragging { id, offset } => small_point(offset),
    }
}

pub open spec fn wf_sample(p: SampleModel) -> bool {
    &&& wf_viewport(p.viewport)
    &&& match p.cursor {
        Option::None => true,
        Option::Some(c) => in_viewport(c, p.viewport),
    }
}

pub open spec fn wf_elements(es: Seq<ElementModel>) -> bool {
    forall|i: int| 0 <= i < es.len() ==> wf_element(#[trigger] es[i])
}

/// No two elements share an identity.  The engine itself never needs
/// this — duplicates only mean the move step writes the first carrier —
/// but the laws that follow a single element across ticks do.
pub open spec fn unique_ids(es: Seq<ElementModel>) -> bool {
    forall|i: int, j: int|
        0 <= i < es.len() && 0 <= j < es.len() && i != j ==> (#[trigger] es[i]).id != (
        #[trigger] es[j]).id
}

/// Index of the first element at or after `i` whose rectangle contains the
/// cursor; `None` when no rectangle from `i` on does.
pub open spec fn first_hit_from(
    es: Seq<ElementModel>,
    i: int,
    cursor: PointModel,
    vp: ViewportModel,
) -> Option<int>
    decreases es.len() - i,
{
    if i < 0 || i >= es.len() {
        Option::None
    } else if hits(es[i], cursor, vp) {
        Option::Some(i)
    } else {
        first_hit_from(es, i + 1, cursor, vp)
    }
}

/// `first_hit_from` returns the least hit index at or after `i`, if any.
pub proof fn lemma_first_hit_from(
    es: Seq<ElementModel>,
    i: int,
    cursor: PointModel,
    vp: ViewportModel,
)
    requires
        0 <= i <= es.len(),
    ensures
        match first_hit_from(es, i, cursor, vp) {
            Option::Some(k) => i <= k < es.len() && hits(es[k], cursor, vp) && (forall|j: int|
                i <= j < k ==> !hits(#[trigger] es[j], cursor, vp)),
            Option::None => forall|j: int| i <= j < es.len() ==> !hits(#[trigger] es[j], cursor, vp),
        },
    decreases es.len() - i,
{
    if i < es.len() && !hits(es[i], cursor, vp) {
        lemma_first_hit_from(es, i + 1, cursor, vp);
    }
}

/// Index of the first element at or after `i` that carries identity `id`.
pub open spec fn find_id_from(es: Seq<ElementModel>, i: int, id: u64) -> Option<int>
    decreases es.len() - i,
{
    if i < 0 || i >= es.len() {
        Option::None
    } else if es[i].id == id {
        Option::Some(i)
    } else {
        find_id_from(es, i + 1, id)
    }
}

/// `find_id_from` returns the least index at or after `i` carrying `id`.
pub proof fn lemma_find_id_from(es: Seq<ElementModel>, i: int, id: u64)
    requires
        0 <= i <= es.len(),
    ensures
        match find_id_from(es, i, id) {
            Option::Some(k) => i <= k < es.len() && es[k].id == id && (forall|j: int|
                i <= j < k ==> (#[trigger] es[j]).id != id),
            Option::None => forall|j: int| i <= j < es.len() ==> (#[trigger] es[j]).id != id,
        },
    decreases es.len() - i,
{
    if i < es.len() && es[i].id != id {
        lemma_find_id_from(es, i + 1, id);
    }
}

/// Grab phase: on a fresh press with nothing held, the first element under
/// the cursor is grabbed and the offset `anchor - local cursor` captured;
/// otherwise the state is unchanged.
pub open spec fn grab_model(
    s: StateModel,
    pressed: bool,
    c: PointModel,
    vp: ViewportModel,
    es: Seq<ElementModel>,
) -> StateModel {
    if pressed && s is Idle {
        match first_hit_from(es, 0, c, vp) {
            Option::Some(i) => StateModel::Dragging {
                id: es[i].id,
                offset: sub_model(es[i].anchor, local_of(c, es[i].convention, vp)),
            },
            Option::None => StateModel::Idle,
        }
    } else {
        s
    }
}

/// Move phase: while an element is held and still present, its anchor is
/// rewritten to `local cursor + offset`; every other element, and every
/// other field of the held one, is unchanged.  A held identity that no
/// longer resolves skips the write.
pub open spec fn move_model(
    s: StateModel,
    c: PointModel,
    vp: ViewportModel,
    es: Seq<ElementModel>,
) -> Seq<ElementModel> {
    match s {
        StateModel::Idle => es,
        StateModel::Dragging { id, offset } => match find_id_from(es, 0, id) {
            Option::None => es,
            Option::Some(i) => es.update(
                i,
                ElementModel {
                    anchor: add_model(local_of(c, es[i].convention, vp), offset),
                    ..es[i]
                },
            ),
        },
    }
}

/// Release phase: a release edge empties the state, wherever the cursor is.
pub open spec fn release_model(s: StateModel, released: bool) -> StateModel {
    if released {
        StateModel::Idle
    } else {
        s
    }
}

/// The tracker state after one tick.
pub open spec fn step_state(s: StateModel, p: SampleModel, es: Seq<ElementModel>) -> StateModel {
    match p.cursor {
        Option::None => s,
        Option::Some(c) => release_model(grab_model(s, p.pressed, c, p.viewport, es), p.released),
    }
}

/// The element sequence after one tick.
pub open spec fn step_elements(
    s: StateModel,
    p: SampleModel,
    es: Seq<ElementModel>,
) -> Seq<ElementModel> {
    match p.cursor {
        Option::None => es,
        Option::Some(c) => move_model(
            grab_model(s, p.pressed, c, p.viewport, es),
            c,
            p.viewport,
            es,
        ),
    }
}

/// True exactly when the tracker state is well-formed; holds of `Idle`
/// and of every state [`tick`] itself produces.
pub fn state_ok(state: &DragState) -> (r: bool)
    ensures
        r == wf_state(state@),
{
    match *state {
        DragState::Idle => true,
        DragState::Dragging { id, offset } => -1_000_000 <= offset.x && offset.x <= 1_000_000
            && -1_000_000 <= offset.y && offset.y <= 1_000_000,
    }
}

/// True exactly when the host's sample is well-formed: a bounded viewport
/// and, when the cursor is present, a cursor inside it.
pub fn sample_ok(sample: &PointerSample) -> (r: bool)
    ensures
        r == wf_sample(sample@),
{
    let vp_ok = 0 <= sample.viewport.width && sample.viewport.width <= 1_000_000 && 0
        <= sample.viewport.height && sample.viewport.height <= 1_000_000;
    let cursor_ok = match sample.cursor {
        Option::None => true,
        Option::Some(c) => 0 <= c.x && c.x <= sample.viewport.width && 0 <= c.y && c.y
            <= sample.viewport.height,
    };
    vp_ok && cursor_ok
}

/// True exactly when every element in the sequence is well-formed.
pub fn elements_ok(elements: &Vec<Element>) -> (r: bool)
    ensures
        r == wf_elements(views(elements@)),
{
    let mut i: usize = 0;
    while i < elements.len()
        invariant
            0 <= i <= elements@.len(),
            forall|j: int| 0 <= j < i ==> wf_element(#[trigger] views(elements@)[j]),
        decreases elements@.len() - i,
    {
        assert(views(elements@)[i as int] == elements@[i as int]@);
        if !crate::element::element_ok(&elements[i]) {
            assert(!wf_element(views(elements@)[i as int]));
            return false;
        }
        i = i + 1;
    }
    true
}

/// Hit-tester: walks the elements once in their declared order and returns
/// the index of the first whose rectangle contains the cursor, inclusive
/// on all four edges.  Pure query, no side effect.
pub fn find_hit(cursor: Point, vp: Viewport, elements: &Vec<Element>) -> (r: Option<usize>)
    requires
        wf_viewport(vp@),
        in_viewport(cursor@, vp@),
        wf_elements(views(elements@)),
    ensures
        match r {
            Option::Some(i) => i < elements@.len() && hits(views(elements@)[i as int], cursor@, vp@)
                && (forall|j: int|
                0 <= j < i ==> !hits(#[trigger] views(elements@)[j], cursor@, vp@))
                && first_hit_from(views(elements@), 0, cursor@, vp@) == Option::Some(i as int),
            Option::None => first_hit_from(views(elements@), 0, cursor@, vp@) is None && (forall|
                j: int,
            | 0 <= j < elements@.len() ==> !hits(#[trigger] views(elements@)[j], cursor@, vp@)),
        },
{
    let ghost es = views(elements@);
    let mut i: usize = 0;
    while i < elements.len()
        invariant
            0 <= i <= elements@.len(),
            es == views(elements@),
            es.len() == elements@.len(),
            wf_viewport(vp@),
            in_viewport(cursor@, vp@),
            wf_elements(es),
            first_hit_from(es, 0, cursor@, vp@) == first_hit_from(es, i as int, cursor@, vp@),
            forall|j: int| 0 <= j < i ==> !hits(#[trigger] es[j], cursor@, vp@),
        decreases elements@.len() - i,
    {
        assert(es[i as int] == elements@[i as int]@);
        if crate::element::element_hit(&elements[i], cursor, vp) {
            return Option::Some(i);
        }
        i = i + 1;
    }
    Option::None
}

/// Index of the element carrying `id`, scanning in declared order.
fn find_index_of_id(elements: &Vec<Element>, id: u64) -> (r: Option<usize>)
    ensures
        match r {
            Option::Some(i) => i < elements@.len()
                && find_id_from(views(elements@), 0, id) == Option::Some(i as int),
            Option::None => find_id_from(views(elements@), 0, id) is None,
        },
{
    let ghost es = views(elements@);
    let mut i: usize = 0;
    while i < elements.len()
        invariant
            0 <= i <= elements@.len(),
            es == views(elements@),
            es.len() == elements@.len(),
            find_id_from(es, 0, id) == find_id_from(es, i as int, id),
        decreases elements@.len() - i,
    {
        assert(es[i as int] == elements@[i as int]@);
        if elements[i].id == id {
            return Option::Some(i);
        }
        i = i + 1;
    }
    Option::None
}

/// One tick of the drag engine, run once per frame in this order: grab on
/// a fresh press, move while holding, clear on release.  With no cursor
/// the tick is a no-op.  At most one element is written, and only its
/// anchor.
pub fn tick(state: &mut DragState, sample: &PointerSample, elements: &mut Vec<Element>)
    requires
        wf_state(old(state)@),
        wf_sample(sample@),
        wf_elements(views(old(elements)@)),
    ensures
        final(state)@ == step_state(old(state)@, sample@, views(old(elements)@)),
        views(final(elements)@) == step_elements(old(state)@, sample@, views(old(elements)@)),
        wf_state(final(state)@),
        wf_elements(views(final(elements)@)),
        final(elements)@.len() == old(elements)@.len(),
{
    let ghost es0 = views(old(elements)@);
    let cursor: Point = match sample.cursor {
        Option::None => {
            assert(views(elements@) =~= step_elements(old(state)@, sample@, es0));
            return;
        },
        Option::Some(c) => c,
    };

    // Grab: a fresh press with nothing held picks the first element under
    // the cursor and captures the offset between its anchor and the cursor
    // in the element's own space.
    if sample.pressed && matches!(*state, DragState::Idle) {
        if let Option::Some(i) = find_hit(cursor, sample.viewport, elements) {
            let e = elements[i];
            let local = to_local(cursor, e.convention, sample.viewport);
            let offset = Point { x: e.anchor.x - local.x, y: e.anchor.y - local.y };
            proof {
                assert(es0[i as int] == elements@[i as int]@);
                lemma_offset_small(es0[i as int], local@);
            }
            *state = DragState::Dragging { id: e.id, offset };
        }
    }
    let ghost s1 = grab_model(old(state)@, sample@.pressed, cursor@, sample@.viewport, es0);
    assert(state@ == s1);

    // Move: while an element is held and still present, rewrite its anchor
    // to `local cursor + offset`, converting the cursor into the element's
    // space with the same map the grab used.
    if let DragState::Dragging { id, offset } = *state {
        if let Option::Some(i) = find_index_of_id(elements, id) {
            let conv = elements[i].convention;
            let local = to_local(cursor, conv, sample.viewport);
            let new_anchor = Point { x: local.x + offset.x, y: local.y + offset.y };
            elements[i].anchor = new_anchor;
            proof {
                assert(views(elements@) =~= move_model(s1, cursor@, sample@.viewport, es0));
            }
        }
    }
    assert(views(elements@) == step_elements(old(state)@, sample@, es0));

    // Release: a release edge empties the state, wherever the cursor is.
    if sample.released {
        *state = DragState::Idle;
    }
}

/// An offset captured from a containment is bounded by the element's size.
proof fn lemma_offset_small(e: ElementModel, local: PointModel)
    requires
        wf_element(e),
        rect_contains(e, local),
    ensures
        small_point(sub_model(e.anchor, local)),
{
}

} // verus!
