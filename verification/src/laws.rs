//! The engine's guarantees across ticks, stated and proved over the
//! mathematical model of [`crate::tracker::tick`]: exclusivity of the held
//! element, offset invariance during a drag, idempotence of the move step,
//! inclusive hit boundaries, and that a release clears the state.

use vstd::prelude::*;

use crate::element::ElementModel;
use crate::element::rect_contains;
use crate::element::rect_min;
use crate::geometry::Convention;
use crate::geometry::PointModel;
use crate::geometry::ViewportModel;
use crate::geometry::add_model;
use crate::geometry::local_of;
use crate::geometry::sub_model;
use crate::tracker::SampleModel;
use crate::tracker::StateModel;
use crate::tracker::find_id_from;
use crate::tracker::first_hit_from;
use crate::tracker::grab_model;
use crate::tracker::lemma_find_id_from;
use crate::tracker::lemma_first_hit_from;
use crate::tracker::move_model;
use crate::tracker::step_elements;
use crate::tracker::step_state;
use crate::tracker::unique_ids;

verus! {

/// Whether the tracker's state holds element identity `id`.
pub open spec fn references(s: StateModel, id: u64) -> bool {
    match s {
        StateModel::Idle => false,
        StateModel::Dragging { id: held, offset } => held == id,
    }
}

/// The tracker state and element sequence after a whole sequence of ticks.
pub open spec fn run_model(
    s: StateModel,
    ps: Seq<SampleModel>,
    es: Seq<ElementModel>,
) -> (StateModel, Seq<ElementModel>)
    decreases ps.len(),
{
    if ps.len() == 0 {
        (s, es)
    } else {
        run_model(step_state(s, ps[0], es), ps.drop_first(), step_elements(s, ps[0], es))
    }
}

/// Exclusivity: after any sequence of ticks, the tracker references at
/// most one element identity — any two identities it references coincide.
pub proof fn lemma_exclusivity(
    s0: StateModel,
    ps: Seq<SampleModel>,
    es0: Seq<ElementModel>,
    a: u64,
    b: u64,
)
    requires
        references(run_model(s0, ps, es0).0, a),
        references(run_model(s0, ps, es0).0, b),
    ensures
        a == b,
{
}

/// A tick writes at most one element, and touches nothing but its anchor:
/// identity, size and convention survive every tick, and any two indices
/// whose elements changed are the same index.
pub proof fn lemma_single_writer(s: StateModel, p: SampleModel, es: Seq<ElementModel>)
    ensures
        step_elements(s, p, es).len() == es.len(),
        forall|j: int, k: int|
            0 <= j < es.len() && 0 <= k < es.len() && #[trigger] step_elements(s, p, es)[j]
                != es[j] && #[trigger] step_elements(s, p, es)[k] != es[k] ==> j == k,
        forall|j: int|
            0 <= j < es.len() ==> {
                let e = #[trigger] step_elements(s, p, es)[j];
                e.id == es[j].id && e.width == es[j].width && e.height == es[j].height
                    && e.convention == es[j].convention
            },
{
    match p.cursor {
        Option::None => {},
        Option::Some(c) => {
            match grab_model(s, p.pressed, c, p.viewport, es) {
                StateModel::Idle => {},
                StateModel::Dragging { id, offset } => {
                    match find_id_from(es, 0, id) {
                        Option::None => {},
                        Option::Some(i) => {
                            lemma_find_id_from(es, 0, id);
                        },
                    }
                },
            }
        },
    }
}

/// Helper: scanning for an identity gives the same index in two sequences
/// whose elements carry the same identities position by position.
proof fn lemma_find_id_same(es1: Seq<ElementModel>, es2: Seq<ElementModel>, i: int, id: u64)
    requires
        es1.len() == es2.len(),
        forall|j: int| 0 <= j < es1.len() ==> (#[trigger] es1[j]).id == es2[j].id,
        0 <= i <= es1.len(),
    ensures
        find_id_from(es1, i, id) == find_id_from(es2, i, id),
    decreases es1.len() - i,
{
    if i < es1.len() && es1[i].id != id {
        lemma_find_id_same(es1, es2, i + 1, id);
    }
}

/// Helper: with unique identities, the scan for `es[i].id` finds `i`.
proof fn lemma_find_id_unique(es: Seq<ElementModel>, i: int)
    requires
        unique_ids(es),
        0 <= i < es.len(),
    ensures
        find_id_from(es, 0, es[i].id) == Option::Some(i),
{
    lemma_find_id_from(es, 0, es[i].id);
}

/// Offset invariance: a drag that starts on element `i` with the cursor at
/// `c0` captures the offset `o = anchor - local(c0)` once, and a later
/// move tick with the cursor at `c1` places the anchor exactly at
/// `local(c1) + o` — equivalently the anchor moves by exactly the cursor's
/// movement in the element's own space, with no drift and no re-snapping.
pub proof fn lemma_offset_invariance(
    s0: StateModel,
    p0: SampleModel,
    p1: SampleModel,
    es: Seq<ElementModel>,
    c0: PointModel,
    c1: PointModel,
    i: int,
)
    requires
        s0 is Idle,
        p0.pressed,
        !p0.released,
        p0.cursor == Option::Some(c0),
        p1.cursor == Option::Some(c1),
        p1.viewport == p0.viewport,
        unique_ids(es),
        first_hit_from(es, 0, c0, p0.viewport) == Option::Some(i),
    ensures
        ({
            let vp = p0.viewport;
            let o = sub_model(es[i].anchor, local_of(c0, es[i].convention, vp));
            let s1 = step_state(s0, p0, es);
            let es1 = step_elements(s0, p0, es);
            let es2 = step_elements(s1, p1, es1);
            &&& s1 == StateModel::Dragging { id: es[i].id, offset: o }
            &&& es2[i].anchor == add_model(local_of(c1, es[i].convention, vp), o)
            &&& es2[i].anchor == add_model(
                es[i].anchor,
                sub_model(local_of(c1, es[i].convention, vp), local_of(c0, es[i].convention, vp)),
            )
        }),
{
    let vp = p0.viewport;
    let id = es[i].id;
    let o = sub_model(es[i].anchor, local_of(c0, es[i].convention, vp));
    lemma_first_hit_from(es, 0, c0, vp);
    let s1 = step_state(s0, p0, es);
    assert(s1 == StateModel::Dragging { id, offset: o });
    lemma_find_id_unique(es, i);
    let es1 = step_elements(s0, p0, es);
    assert(es1 == es.update(
        i,
        ElementModel { anchor: add_model(local_of(c0, es[i].convention, vp), o), ..es[i] },
    ));
    assert(forall|j: int| 0 <= j < es1.len() ==> (#[trigger] es1[j]).id == es[j].id);
    lemma_find_id_same(es1, es, 0, id);
    assert(find_id_from(es1, 0, id) == Option::Some(i));
    let es2 = step_elements(s1, p1, es1);
    assert(es2[i].anchor == add_model(local_of(c1, es1[i].convention, vp), o));
    assert(es1[i].convention == es[i].convention);
}

/// While an element is held, any tick without a release edge keeps the
/// state — the same identity and the same offset — whatever the cursor
/// does: the offset is captured once per drag and never recomputed.
pub proof fn lemma_drag_persists(s: StateModel, p: SampleModel, es: Seq<ElementModel>)
    requires
        s is Dragging,
        !p.released,
    ensures
        step_state(s, p, es) == s,
{
}

/// While an element is held, a whole sequence of ticks without a release
/// edge keeps the same identity and the same offset, however the cursor
/// moves and whatever is pressed.
pub proof fn lemma_drag_persists_run(s: StateModel, ps: Seq<SampleModel>, es: Seq<ElementModel>)
    requires
        s is Dragging,
        forall|k: int| 0 <= k < ps.len() ==> !(#[trigger] ps[k]).released,
    ensures
        run_model(s, ps, es).0 == s,
    decreases ps.len(),
{
    if ps.len() > 0 {
        lemma_drag_persists(s, ps[0], es);
        assert(forall|k: int|
            0 <= k < ps.drop_first().len() ==> !(#[trigger] ps.drop_first()[k]).released);
        lemma_drag_persists_run(s, ps.drop_first(), step_elements(s, ps[0], es));
    }
}

/// While the tracker holds `id` with offset `o` and the carrier of `id`
/// stands at index `i`, a tick with the cursor at `c` places that
/// element's anchor exactly at `local(c) + o` and touches nothing else.
/// Together with [`lemma_drag_persists_run`] this gives offset invariance
/// for any cursor at any later tick of the same drag.
pub proof fn lemma_move_anchor(
    s: StateModel,
    p: SampleModel,
    es: Seq<ElementModel>,
    id: u64,
    o: PointModel,
    c: PointModel,
    i: int,
)
    requires
        s == (StateModel::Dragging { id, offset: o }),
        p.cursor == Option::Some(c),
        find_id_from(es, 0, id) == Option::Some(i),
    ensures
        0 <= i < es.len(),
        step_elements(s, p, es) == es.update(
            i,
            ElementModel { anchor: add_model(local_of(c, es[i].convention, p.viewport), o), ..es[i] },
        ),
{
    lemma_find_id_from(es, 0, id);
}

/// Helper: the move phase is idempotent for a fixed state and cursor.
proof fn lemma_move_model_idempotent(
    s: StateModel,
    c: PointModel,
    vp: ViewportModel,
    es: Seq<ElementModel>,
)
    ensures
        move_model(s, c, vp, move_model(s, c, vp, es)) == move_model(s, c, vp, es),
{
    match s {
        StateModel::Idle => {},
        StateModel::Dragging { id, offset } => {
            match find_id_from(es, 0, id) {
                Option::None => {},
                Option::Some(i) => {
                    lemma_find_id_from(es, 0, id);
                    let es1 = move_model(s, c, vp, es);
                    assert(forall|j: int|
                        0 <= j < es1.len() ==> (#[trigger] es1[j]).id == es[j].id);
                    lemma_find_id_same(es1, es, 0, id);
                    let es2 = move_model(s, c, vp, es1);
                    assert(es2 =~= es1);
                },
            }
        },
    }
}

/// Idempotence of the move step: with the cursor unchanged and no fresh
/// press or release edge, a tick leaves the state as it was, and running
/// the tick a second time moves nothing further — the anchor comes out
/// the same both times.
pub proof fn lemma_move_idempotent(s: StateModel, p: SampleModel, es: Seq<ElementModel>)
    requires
        !p.pressed,
        !p.released,
    ensures
        step_state(s, p, es) == s,
        step_elements(s, p, step_elements(s, p, es)) == step_elements(s, p, es),
{
    match p.cursor {
        Option::None => {},
        Option::Some(c) => {
            lemma_move_model_idempotent(s, c, p.viewport, es);
        },
    }
}

/// The pointer-to-local conversion is invertible: for a fixed convention
/// and viewport, distinct cursor positions have distinct images in the
/// element's space, so grabbing and moving through the same conversion
/// can never conflate two cursor positions.
pub proof fn lemma_local_of_injective(
    c1: PointModel,
    c2: PointModel,
    conv: Convention,
    vp: ViewportModel,
)
    requires
        local_of(c1, conv, vp) == local_of(c2, conv, vp),
    ensures
        c1 == c2,
{
}

/// Inclusive boundary: a point exactly on a rectangle's right edge (and
/// within its vertical extent) counts as contained; all four edges are
/// inclusive the same way by the definition of containment.
pub proof fn lemma_inclusive_boundary(e: ElementModel, p: PointModel)
    requires
        0 <= e.width,
        p.x == rect_min(e).x + e.width,
        rect_min(e).y <= p.y <= rect_min(e).y + e.height,
    ensures
        rect_contains(e, p),
{
}

/// Release clears state: a tick whose sample carries a release edge ends
/// `Idle`, wherever the cursor is inside the window.
pub proof fn lemma_release_clears(s: StateModel, p: SampleModel, es: Seq<ElementModel>)
    requires
        p.released,
        p.cursor is Some,
    ensures
        step_state(s, p, es) is Idle,
{
}

/// After release, a tick without a fresh press writes no element at all
/// and stays `Idle`.
pub proof fn lemma_idle_no_write(s: StateModel, p: SampleModel, es: Seq<ElementModel>)
    requires
        s is Idle,
        !p.pressed,
    ensures
        step_elements(s, p, es) == es,
        step_state(s, p, es) is Idle,
{
}

} // verus!

