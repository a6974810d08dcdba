//! The interaction state machine: pointer gestures (select, draw, move,
//! resize) and text-edit sessions, driving the editor state and recording
//! history at gesture boundaries.

use vstd::prelude::*;

use crate::annotation::Annotation;
use crate::annotation::AnnotationId;
use crate::annotation::AnnotationKind;
use crate::annotation::Handle;
use crate::annotation::TextSize;
use crate::annotation::Tool;
use crate::annotation::abs_of;
use crate::annotation::annotation_contains;
use crate::annotation::annotation_handles;
use crate::annotation::annotation_in_range;
use crate::annotation::kind_committed;
use crate::annotation::lemma_resized_clamped_committed;
use crate::annotation::lemma_translated_clamped_committed;
use crate::geom::Point;
use crate::geom::lemma_mul_bound;
use crate::geom::point_in_range;
use crate::geom::point_within;
use crate::geom::point_within_dist;
use crate::annotation::annotation_clamped;
use crate::annotation::annotation_resized;
use crate::annotation::annotation_translated;
use crate::geom::clamp_point;
use crate::geom::clamped_point;
use crate::geom::constrain_square_point;
use crate::geom::dist_sq;
use crate::geom::dist_sq_at;
use crate::geom::rect_normalized;
use crate::geom::square_constrained;
use crate::geom::RectData;
use crate::state::DragMode;
use crate::state::DragState;
use crate::state::EditorState;
use crate::state::TextEditState;
use crate::state::TextEditTarget;
use crate::state::has_id;
use crate::state::history_recorded;
use crate::state::idx_of_id;
use crate::state::nearest_zoom_idx;
use crate::state::zoom_steps;

verus! {

/// The image-space hit tolerance at a zoom (in percent): a fixed
/// screen-space radius of 6 pixels, so the visual hit radius stays constant
/// as the zoom changes. The zoom is clamped away from zero defensively.
pub open spec fn hit_tol(zoom: int) -> int {
    let z: int = if zoom < 25 {
        25
    } else {
        zoom
    };
    (600 as int) / z
}

pub fn hit_tolerance(zoom: u32) -> (r: i64)
    ensures
        r == hit_tol(zoom as int),
        0 <= r <= 24,
{
    let z: u32 = if zoom < 25 {
        25
    } else {
        zoom
    };
    proof {
        assert((600 as int) / (z as int) <= 24 && (600 as int) / (z as int) >= 0)
            by (nonlinear_arith)
            requires
                z >= 25,
        ;
    }
    (600 / z) as i64
}

/// The topmost (most recently added) annotation that the point hits, if
/// any: hit-testing scans back to front.
pub open spec fn topmost_hit(s: Seq<Annotation>, p: Point, tol: int) -> Option<Annotation>
    decreases s.len(),
{
    if s.len() == 0 {
        None
    } else if annotation_contains(s.last(), p, tol) {
        Some(s.last())
    } else {
        topmost_hit(s.drop_last(), p, tol)
    }
}

/// The id of the topmost annotation under the pointer, at the tolerance
/// implied by the current zoom.
pub fn pick_annotation(state: &EditorState, image_pos: Point) -> (r: Option<AnnotationId>)
    requires
        state.wf(),
        point_in_range(image_pos),
    ensures
        r == match topmost_hit(state.annotations@, image_pos, hit_tol(state.zoom as int)) {
            Some(a) => Some(a.id),
            None => None::<AnnotationId>,
        },
{
    let tol = hit_tolerance(state.zoom);
    let ghost s = state.annotations@;
    let ghost t = hit_tol(state.zoom as int);
    proof {
        assert(s.subrange(0, s.len() as int) =~= s);
    }
    let mut i: usize = state.annotations.len();
    while i > 0
        invariant
            state.wf(),
            point_in_range(image_pos),
            tol == t,
            0 <= t <= 24,
            t == hit_tol(state.zoom as int),
            s == state.annotations@,
            i <= s.len(),
            topmost_hit(s, image_pos, t) == topmost_hit(s.subrange(0, i as int), image_pos, t),
        decreases i,
    {
        let candidate = &state.annotations[i - 1];
        proof {
            assert(s.subrange(0, i as int).last() == s[i - 1]);
            assert(s.subrange(0, i as int).drop_last() =~= s.subrange(0, i - 1));
        }
        if candidate.contains(image_pos, tol) {
            proof {
                reveal_with_fuel(topmost_hit, 2);
                assert(topmost_hit(s.subrange(0, i as int), image_pos, t) == Some(s[i - 1]));
            }
            return Some(candidate.id);
        }
        i = i - 1;
    }
    proof {
        assert(s.subrange(0, 0) =~= Seq::<Annotation>::empty());
    }
    None
}

/// True iff the pointer is over a handle drawn at `h_pt`: within the fixed
/// 6-pixel screen-space box around the handle, or within an 8-pixel
/// screen-space radius converted to image space.
pub open spec fn handle_hit(h_pt: Point, p: Point, zoom: int) -> bool {
    let z: int = if zoom < 25 {
        25
    } else {
        zoom
    };
    ||| (abs_of(h_pt.x - p.x) * zoom <= 600 && abs_of(h_pt.y - p.y) * zoom <= 600)
    ||| point_within(h_pt, p, (800 as int) / z)
}

pub fn handle_hit_at(h_pt: Point, p: Point, zoom: u32) -> (r: bool)
    requires
        point_in_range(h_pt),
        point_in_range(p),
        zoom <= 400,
    ensures
        r == handle_hit(h_pt, p, zoom as int),
{
    let dx: i64 = if h_pt.x >= p.x {
        h_pt.x - p.x
    } else {
        p.x - h_pt.x
    };
    let dy: i64 = if h_pt.y >= p.y {
        h_pt.y - p.y
    } else {
        p.y - h_pt.y
    };
    proof {
        lemma_mul_bound(dx as int, zoom as int, 2097152, 400);
        lemma_mul_bound(dy as int, zoom as int, 2097152, 400);
    }
    if dx * (zoom as i64) <= 600 && dy * (zoom as i64) <= 600 {
        return true;
    }
    let z: u32 = if zoom < 25 {
        25
    } else {
        zoom
    };
    point_within_dist(h_pt, p, (800 / z) as i64)
}

/// The first handle in presentation order that the pointer is over.
pub open spec fn first_handle_hit(
    hs: Seq<(Handle, Point)>,
    p: Point,
    zoom: int,
) -> Option<(Handle, Point)>
    decreases hs.len(),
{
    if hs.len() == 0 {
        None
    } else if handle_hit(hs[0].1, p, zoom) {
        Some(hs[0])
    } else {
        first_handle_hit(hs.subrange(1, hs.len() as int), p, zoom)
    }
}

proof fn lemma_first_handle_hit_skip(hs: Seq<(Handle, Point)>, p: Point, zoom: int, i: int)
    requires
        0 <= i <= hs.len(),
        forall|j: int| 0 <= j < i ==> !handle_hit((#[trigger] hs[j]).1, p, zoom),
    ensures
        first_handle_hit(hs, p, zoom) == first_handle_hit(
            hs.subrange(i, hs.len() as int),
            p,
            zoom,
        ),
    decreases i,
{
    if i > 0 {
        let rest = hs.subrange(1, hs.len() as int);
        assert(!handle_hit(hs[0].1, p, zoom));
        assert forall|j: int| 0 <= j < i - 1 implies !handle_hit((#[trigger] rest[j]).1, p, zoom) by {
            assert(rest[j] == hs[j + 1]);
        }
        lemma_first_handle_hit_skip(rest, p, zoom, i - 1);
        assert(rest.subrange(i - 1, rest.len() as int) =~= hs.subrange(i, hs.len() as int));
    } else {
        assert(hs.subrange(0, hs.len() as int) =~= hs);
    }
}

/// The handle of the given annotation under the pointer, with its
/// position, if the annotation is present and a handle is hit. Handles are
/// tried in presentation order; the first hit wins.
pub fn detect_handle_hit(state: &EditorState, annotation_id: AnnotationId, image_pos: Point) -> (r:
    Option<(Handle, Point)>)
    requires
        state.wf(),
        point_in_range(image_pos),
    ensures
        !has_id(state.annotations@, annotation_id) ==> r is None,
        has_id(state.annotations@, annotation_id) ==> r == first_handle_hit(
            annotation_handles(
                state.annotations@[idx_of_id(state.annotations@, annotation_id)],
            ),
            image_pos,
            state.zoom as int,
        ),
{
    let found = state.find_annotation_index(annotation_id);
    match found {
        None => None,
        Some(i) => {
            let annotation = &state.annotations[i];
            let hs = annotation.handles();
            let ghost hseq = annotation_handles(*annotation);
            let n = hs.len();
            let mut k: usize = 0;
            while k < n
                invariant
                    point_in_range(image_pos),
                    state.wf(),
                    has_id(state.annotations@, annotation_id),
                    hseq == annotation_handles(
                        state.annotations@[idx_of_id(state.annotations@, annotation_id)],
                    ),
                    hs@ == hseq,
                    n == hseq.len(),
                    k <= n,
                    forall|j: int| 0 <= j < k ==> !handle_hit((#[trigger] hseq[j]).1, image_pos, state.zoom as int),
                    forall|j: int|
                        0 <= j < hseq.len() ==> point_in_range((#[trigger] hseq[j]).1),
                decreases n - k,
            {
                let (h, pt) = hs[k];
                if handle_hit_at(pt, image_pos, state.zoom) {
                    proof {
                        lemma_first_handle_hit_skip(hseq, image_pos, state.zoom as int, k as int);
                        assert(hseq.subrange(k as int, hseq.len() as int)[0] == hseq[k as int]);
                    }
                    return Some((h, pt));
                }
                k = k + 1;
            }
            proof {
                lemma_first_handle_hit_skip(hseq, image_pos, state.zoom as int, n as int);
                assert(hseq.subrange(n as int, hseq.len() as int) =~= Seq::<(
                    Handle,
                    Point,
                )>::empty());
            }
            None
        },
    }
}

/// Whatever `topmost_hit` returns is one of the sequence's elements.
pub proof fn lemma_topmost_hit_present(s: Seq<Annotation>, p: Point, tol: int)
    ensures
        topmost_hit(s, p, tol) matches Some(a) ==> has_id(s, a.id) && exists|i: int|
            0 <= i < s.len() && s[i] == a,
    decreases s.len(),
{
    if s.len() > 0 {
        if annotation_contains(s.last(), p, tol) {
            assert(s[s.len() - 1] == s.last());
        } else {
            lemma_topmost_hit_present(s.drop_last(), p, tol);
            let r = topmost_hit(s.drop_last(), p, tol);
            if r is Some {
                let a = r->Some_0;
                let i = choose|i: int| 0 <= i < s.drop_last().len() && s.drop_last()[i] == a;
                assert(s[i] == a);
                assert(s[i].id == a.id);
            }
        }
    }
}

fn clone_opt_annotation(o: &Option<Annotation>) -> (r: Option<Annotation>)
    ensures
        r == *o,
{
    match o {
        Some(a) => Some(a.clone()),
        None => None,
    }
}

/// Pointer pressed and started moving: enter a drag session. With a draw
/// tool the session draws a new shape from this point; with the select
/// tool, a handle of the selected shape starts a resize, any other shape
/// under the pointer is selected and starts a move, and bare canvas clears
/// the selection. Never interrupts an open text-edit session.
pub fn begin_drag(state: &mut EditorState, image_pos: Point)
    requires
        old(state).wf(),
        point_in_range(image_pos),
    ensures
        final(state).wf(),
        old(state).text_edit is Some ==> *final(state) == *old(state),
        old(state).text_edit is None ==> match old(state).active_tool {
            Tool::Arrow
            | Tool::ArrowWithText
            | Tool::Rectangle
            | Tool::Ellipse => *final(state) == (EditorState {
                drag_state: Some(
                    DragState {
                        mode: DragMode::Draw,
                        start: image_pos,
                        current: image_pos,
                        selection_id: None,
                        handle: None,
                        original: None,
                    },
                ),
                ..*old(state)
            }),
            Tool::Text => *final(state) == *old(state),
            Tool::Select => {
                let sel_handle = match old(state).selection {
                    Some(id) => if has_id(old(state).annotations@, id) {
                        first_handle_hit(
                            annotation_handles(
                                old(state).annotations@[idx_of_id(old(state).annotations@, id)],
                            ),
                            image_pos,
                            old(state).zoom as int,
                        )
                    } else {
                        None
                    },
                    None => None,
                };
                match sel_handle {
                    Some((h, _)) => *final(state) == (EditorState {
                        drag_state: Some(
                            DragState {
                                mode: DragMode::Resize,
                                start: image_pos,
                                current: image_pos,
                                selection_id: old(state).selection,
                                handle: Some(h),
                                original: Some(
                                    old(state).annotations@[idx_of_id(
                                        old(state).annotations@,
                                        old(state).selection->Some_0,
                                    )],
                                ),
                            },
                        ),
                        ..*old(state)
                    }),
                    None => match topmost_hit(
                        old(state).annotations@,
                        image_pos,
                        hit_tol(old(state).zoom as int),
                    ) {
                        Some(a) => *final(state) == (EditorState {
                            selection: Some(a.id),
                            drag_state: Some(
                                DragState {
                                    mode: DragMode::Move,
                                    start: image_pos,
                                    current: image_pos,
                                    selection_id: Some(a.id),
                                    handle: None,
                                    original: Some(a),
                                },
                            ),
                            ..*old(state)
                        }),
                        None => *final(state) == (EditorState {
                            selection: None,
                            drag_state: None,
                            ..*old(state)
                        }),
                    },
                }
            },
        },
{
    if state.text_edit.is_some() {
        return ;
    }
    match state.active_tool {
        Tool::Arrow | Tool::ArrowWithText | Tool::Rectangle | Tool::Ellipse => {
            state.drag_state = Some(
                DragState {
                    mode: DragMode::Draw,
                    start: image_pos,
                    current: image_pos,
                    selection_id: None,
                    handle: None,
                    original: None,
                },
            );
        },
        Tool::Select => {
            let selected = state.selection;
            match selected {
                Some(selected_id) => {
                    match detect_handle_hit(state, selected_id, image_pos) {
                        Some((handle, _)) => {
                            let original = match state.find_annotation_index(selected_id) {
                                Some(i) => Some(state.annotations[i].clone()),
                                None => None,
                            };
                            state.drag_state = Some(
                                DragState {
                                    mode: DragMode::Resize,
                                    start: image_pos,
                                    current: image_pos,
                                    selection_id: Some(selected_id),
                                    handle: Some(handle),
                                    original,
                                },
                            );
                            return ;
                        },
                        None => {},
                    }
                    begin_move_or_clear(state, image_pos);
                },
                None => {
                    begin_move_or_clear(state, image_pos);
                },
            }
        },
        Tool::Text => {},
    }
}

/// The select-tool drag start away from any handle: select and start
/// moving the topmost shape under the pointer, or clear the selection.
fn begin_move_or_clear(state: &mut EditorState, image_pos: Point)
    requires
        old(state).wf(),
        point_in_range(image_pos),
        old(state).text_edit is None,
    ensures
        final(state).wf(),
        match topmost_hit(old(state).annotations@, image_pos, hit_tol(old(state).zoom as int)) {
            Some(a) => *final(state) == (EditorState {
                selection: Some(a.id),
                drag_state: Some(
                    DragState {
                        mode: DragMode::Move,
                        start: image_pos,
                        current: image_pos,
                        selection_id: Some(a.id),
                        handle: None,
                        original: Some(a),
                    },
                ),
                ..*old(state)
            }),
            None => *final(state) == (EditorState {
                selection: None,
                drag_state: None,
                ..*old(state)
            }),
        },
{
    proof {
        lemma_topmost_hit_present(
            state.annotations@,
            image_pos,
            hit_tol(state.zoom as int),
        );
    }
    match pick_annotation(state, image_pos) {
        Some(hit_id) => {
            state.selection = Some(hit_id);
            let original = match state.find_annotation_index(hit_id) {
                Some(i) => {
                    proof {
                        let s = state.annotations@;
                        let t = hit_tol(state.zoom as int);
                        let a = topmost_hit(s, image_pos, t)->Some_0;
                        let w = choose|j: int| 0 <= j < s.len() && s[j] == a;
                        crate::state::lemma_idx_of_id_unique(s, a.id, w);
                    }
                    Some(state.annotations[i].clone())
                },
                None => None,
            };
            state.drag_state = Some(
                DragState {
                    mode: DragMode::Move,
                    start: image_pos,
                    current: image_pos,
                    selection_id: Some(hit_id),
                    handle: None,
                    original,
                },
            );
        },
        None => {
            state.selection = None;
            state.drag_state = None;
        },
    }
}

/// The pointer position a drag update stores: shift constrains a rectangle
/// or ellipse draw to a square; every stored position is kept in range.
pub open spec fn drag_current_point(
    d: DragState,
    tool: Tool,
    image_pos: Point,
    shift: bool,
) -> Point {
    if d.mode == DragMode::Draw && shift && (tool == Tool::Rectangle || tool == Tool::Ellipse) {
        clamped_point(square_constrained(d.start, image_pos))
    } else {
        image_pos
    }
}

/// Pointer moved during a drag: refresh the session's current point and,
/// for move and resize gestures, recompute the target shape from the
/// pre-gesture copy and the whole displacement since the gesture started
/// (never accumulating per-frame deltas). A stale target id is skipped.
pub fn update_drag(state: &mut EditorState, image_pos: Point, shift: bool)
    requires
        old(state).wf(),
        point_in_range(image_pos),
    ensures
        final(state).wf(),
        old(state).drag_state is None ==> *final(state) == *old(state),
        old(state).drag_state matches Some(d) ==> {
            let cur = drag_current_point(d, old(state).active_tool, image_pos, shift);
            &&& *final(state) == (EditorState {
                drag_state: Some(DragState { current: cur, ..d }),
                annotations: final(state).annotations,
                ..*old(state)
            })
            &&& match d.mode {
                DragMode::Draw => final(state).annotations@ == old(state).annotations@,
                DragMode::Move => match d.original {
                    Some(orig) => if has_id(old(state).annotations@, orig.id) {
                        let delta = Point {
                            x: (image_pos.x - d.start.x) as i64,
                            y: (image_pos.y - d.start.y) as i64,
                        };
                        final(state).annotations@ == old(state).annotations@.update(
                            idx_of_id(old(state).annotations@, orig.id),
                            annotation_clamped(annotation_translated(orig, delta)),
                        )
                    } else {
                        final(state).annotations@ == old(state).annotations@
                    },
                    None => final(state).annotations@ == old(state).annotations@,
                },
                DragMode::Resize => match d.original {
                    Some(orig) => match d.handle {
                        Some(h) => if has_id(old(state).annotations@, orig.id) {
                            final(state).annotations@ == old(state).annotations@.update(
                                idx_of_id(old(state).annotations@, orig.id),
                                annotation_clamped(annotation_resized(orig, h, image_pos, shift)),
                            )
                        } else {
                            final(state).annotations@ == old(state).annotations@
                        },
                        None => final(state).annotations@ == old(state).annotations@,
                    },
                    None => final(state).annotations@ == old(state).annotations@,
                },
            }
        },
{
    let (mode, start, original) = match &state.drag_state {
        None => {
            return ;
        },
        Some(d) => (d.mode, d.start, clone_opt_annotation(&d.original)),
    };
    let cur = if mode == DragMode::Draw && shift && (state.active_tool == Tool::Rectangle
        || state.active_tool == Tool::Ellipse) {
        clamp_point(constrain_square_point(start, image_pos))
    } else {
        image_pos
    };
    match &mut state.drag_state {
        Some(d) => {
            d.current = cur;
        },
        None => {},
    }
    match mode {
        DragMode::Draw => {},
        DragMode::Move => {
            match original {
                Some(orig) => {
                    match state.find_annotation_index(orig.id) {
                        Some(i) => {
                            let mut updated = orig;
                            let delta = Point {
                                x: image_pos.x - start.x,
                                y: image_pos.y - start.y,
                            };
                            proof {
                                lemma_translated_clamped_committed(updated, delta);
                            }
                            updated.move_by(delta);
                            updated.clamp_to_range();
                            proof {
                                lemma_update_keeps_wf(
                                    state.annotations@,
                                    i as int,
                                    updated,
                                    state.next_id,
                                );
                            }
                            self_update_annotation(state, i, updated);
                        },
                        None => {},
                    }
                },
                None => {},
            }
        },
        DragMode::Resize => {
            let handle = match &state.drag_state {
                Some(d) => d.handle,
                None => None,
            };
            match (original, handle) {
                (Some(orig), Some(h)) => {
                    match state.find_annotation_index(orig.id) {
                        Some(i) => {
                            let mut updated = orig;
                            proof {
                                lemma_resized_clamped_committed(updated, h, image_pos, shift);
                            }
                            updated.resize_from_handle(h, image_pos, shift);
                            updated.clamp_to_range();
                            proof {
                                lemma_update_keeps_wf(
                                    state.annotations@,
                                    i as int,
                                    updated,
                                    state.next_id,
                                );
                            }
                            self_update_annotation(state, i, updated);
                        },
                        None => {},
                    }
                },
                _ => {},
            }
        },
    }
}

/// Replacing an element with one carrying the same id keeps the sequence
/// well formed and every id present.
proof fn lemma_update_keeps_wf(s: Seq<Annotation>, i: int, a: Annotation, next_id: u64)
    requires
        crate::state::annotations_wf(s, next_id),
        0 <= i < s.len(),
        s[i].id == a.id,
        annotation_in_range(a),
        kind_committed(a.kind),
    ensures
        crate::state::annotations_wf(s.update(i, a), next_id),
        forall|id: u64| has_id(s, id) == #[trigger] has_id(s.update(i, a), id),
{
    let t = s.update(i, a);
    assert forall|k: int|
        0 <= k < t.len() implies 1 <= (#[trigger] t[k]).id < next_id && annotation_in_range(t[k])
            && kind_committed(t[k].kind) by {
        if k != i {
            assert(t[k] == s[k]);
        }
    }
    assert forall|p: int, q: int| 0 <= p < q < t.len() implies t[p].id != t[q].id by {
        assert(t[p].id == s[p].id);
        assert(t[q].id == s[q].id);
    }
    assert forall|id: u64| has_id(s, id) == #[trigger] has_id(t, id) by {
        assert forall|k: int| 0 <= k < s.len() implies s[k].id == t[k].id by {}
        if has_id(s, id) {
            let w = choose|k: int| 0 <= k < s.len() && (#[trigger] s[k]).id == id;
            assert(t[w].id == id);
        }
        if has_id(t, id) {
            let w = choose|k: int| 0 <= k < t.len() && (#[trigger] t[k]).id == id;
            assert(s[w].id == id);
        }
    }
}

/// The shape a completed draw gesture commits for a drawing tool, with the
/// id it will carry.
pub open spec fn drawn_annotation(pre: EditorState, start: Point, current: Point) -> Annotation {
    Annotation {
        id: pre.next_id,
        kind: match pre.active_tool {
            Tool::Arrow => AnnotationKind::Arrow { from: start, to: current },
            Tool::Rectangle => AnnotationKind::Rectangle {
                rect: rect_normalized(RectData { min: start, max: current }),
            },
            Tool::Ellipse => AnnotationKind::Ellipse {
                rect: rect_normalized(RectData { min: start, max: current }),
            },
            _ => AnnotationKind::Arrow { from: start, to: current },
        },
        color: pre.active_color,
        stroke_width: pre.active_stroke,
    }
}

/// Pointer released: close the drag session. A draw gesture below the
/// minimum displacement (5 image-space units) creates nothing; otherwise
/// arrows, rectangles and ellipses commit immediately, while an
/// arrow-with-text opens a text-edit session and commits nothing yet. A
/// move or resize gesture with any net displacement marks the edit and
/// records one history snapshot.
pub fn finish_drag(state: &mut EditorState)
    requires
        old(state).wf(),
        old(state).next_id < u64::MAX,
    ensures
        final(state).wf(),
        final(state).drag_state is None,
        final(state).selection == old(state).selection,
        final(state).settings == old(state).settings,
        final(state).active_color == old(state).active_color,
        final(state).active_stroke == old(state).active_stroke,
        final(state).active_text_size == old(state).active_text_size,
        final(state).image == old(state).image,
        final(state).zoom == old(state).zoom,
        old(state).drag_state is None ==> *final(state) == *old(state),
        old(state).drag_state matches Some(d) ==> match d.mode {
            DragMode::Draw => if dist_sq(d.current, d.start) < 25 {
                *final(state) == (EditorState { drag_state: None, ..*old(state) })
            } else {
                match old(state).active_tool {
                    Tool::Arrow | Tool::Rectangle | Tool::Ellipse => {
                        &&& final(state).annotations@ == old(state).annotations@.push(
                            drawn_annotation(*old(state), d.start, d.current),
                        )
                        &&& history_recorded(
                            old(state).history,
                            final(state).history,
                            final(state).annotations@,
                        )
                        &&& final(state).has_edited && !final(state).exported
                        &&& final(state).next_id == old(state).next_id + 1
                        &&& final(state).active_tool == Tool::Select
                        &&& final(state).selection == old(state).selection
                        &&& final(state).text_edit == old(state).text_edit
                    },
                    Tool::ArrowWithText => {
                        &&& final(state).annotations@ == old(state).annotations@
                        &&& final(state).history == old(state).history
                        &&& final(state).next_id == old(state).next_id
                        &&& final(state).active_tool == Tool::Select
                        &&& final(state).text_edit matches Some(t) && t.buffer@ == Seq::<
                            char,
                        >::empty() && t.target == (TextEditTarget::NewArrowText {
                            from: d.start,
                            to: d.current,
                            color: old(state).active_color,
                            stroke: old(state).active_stroke,
                        }) && t.text_size == old(state).active_text_size
                    },
                    _ => *final(state) == (EditorState { drag_state: None, ..*old(state) }),
                }
            },
            _ => if dist_sq(d.current, d.start) > 0 {
                &&& *final(state) == (EditorState {
                    drag_state: None,
                    has_edited: true,
                    exported: false,
                    history: final(state).history,
                    ..*old(state)
                })
                &&& history_recorded(
                    old(state).history,
                    final(state).history,
                    old(state).annotations@,
                )
            } else {
                *final(state) == (EditorState { drag_state: None, ..*old(state) })
            },
        },
{
    let (mode, start, current) = match &state.drag_state {
        None => {
            return ;
        },
        Some(d) => (d.mode, d.start, d.current),
    };
    state.drag_state = None;
    match mode {
        DragMode::Draw => {
            let dist2 = dist_sq_at(current, start);
            if dist2 < 25 {
                return ;
            }
            match state.active_tool {
                Tool::Arrow => {
                    let id = state.next_annotation_id();
                    let color = state.active_color;
                    let stroke = state.active_stroke;
                    proof {
                        lemma_fresh_id_absent(state.annotations@, id, id);
                    }
                    state.add_annotation(
                        Annotation {
                            id,
                            kind: AnnotationKind::Arrow { from: start, to: current },
                            color,
                            stroke_width: stroke,
                        },
                    );
                    state.set_tool(Tool::Select);
                },
                Tool::ArrowWithText => {
                    state.text_edit = Some(
                        TextEditState {
                            buffer: String::new(),
                            anchor: start,
                            target: TextEditTarget::NewArrowText {
                                from: start,
                                to: current,
                                color: state.active_color,
                                stroke: state.active_stroke,
                            },
                            text_size: state.active_text_size,
                        },
                    );
                    state.set_tool(Tool::Select);
                },
                Tool::Rectangle => {
                    let id = state.next_annotation_id();
                    let color = state.active_color;
                    let stroke = state.active_stroke;
                    proof {
                        lemma_fresh_id_absent(state.annotations@, id, id);
                    }
                    state.add_annotation(
                        Annotation {
                            id,
                            kind: AnnotationKind::Rectangle {
                                rect: RectData { min: start, max: current }.normalize(),
                            },
                            color,
                            stroke_width: stroke,
                        },
                    );
                    state.set_tool(Tool::Select);
                },
                Tool::Ellipse => {
                    let id = state.next_annotation_id();
                    let color = state.active_color;
                    let stroke = state.active_stroke;
                    proof {
                        lemma_fresh_id_absent(state.annotations@, id, id);
                    }
                    state.add_annotation(
                        Annotation {
                            id,
                            kind: AnnotationKind::Ellipse {
                                rect: RectData { min: start, max: current }.normalize(),
                            },
                            color,
                            stroke_width: stroke,
                        },
                    );
                    state.set_tool(Tool::Select);
                },
                Tool::Select => {},
                Tool::Text => {},
            }
        },
        DragMode::Move => {
            let dist2 = dist_sq_at(current, start);
            if dist2 > 0 {
                state.mark_changed();
                state.push_history_snapshot();
            }
        },
        DragMode::Resize => {
            let dist2 = dist_sq_at(current, start);
            if dist2 > 0 {
                state.mark_changed();
                state.push_history_snapshot();
            }
        },
    }
}

/// Ids at or above the counter are not in a well-formed collection.
proof fn lemma_fresh_id_absent(s: Seq<Annotation>, next_id: u64, id: u64)
    requires
        crate::state::annotations_wf(s, next_id),
        id >= next_id,
    ensures
        !has_id(s, id),
{
    if has_id(s, id) {
        let w = choose|k: int| 0 <= k < s.len() && (#[trigger] s[k]).id == id;
        assert(s[w].id < next_id);
    }
}

/// A single click: with the select tool, the selection becomes the topmost
/// shape under the pointer (or clears); with the text tool, a text-edit
/// session opens at the clicked point. Other tools ignore clicks.
pub fn handle_click(state: &mut EditorState, image_pos: Point)
    requires
        old(state).wf(),
        point_in_range(image_pos),
    ensures
        final(state).wf(),
        old(state).active_tool == Tool::Select ==> *final(state) == (EditorState {
            selection: match topmost_hit(
                old(state).annotations@,
                image_pos,
                hit_tol(old(state).zoom as int),
            ) {
                Some(a) => Some(a.id),
                None => None,
            },
            ..*old(state)
        }),
        old(state).active_tool == Tool::Text ==> if old(state).drag_state is None {
            &&& final(state).text_edit matches Some(t) && t.buffer@ == Seq::<char>::empty()
                && t.target == (TextEditTarget::NewText { pos: image_pos }) && t.text_size == old(
                state,
            ).active_text_size
            &&& *final(state) == (EditorState { text_edit: final(state).text_edit, ..*old(state) })
        } else {
            *final(state) == *old(state)
        },
        (old(state).active_tool != Tool::Select && old(state).active_tool != Tool::Text)
            ==> *final(state) == *old(state),
{
    match state.active_tool {
        Tool::Select => {
            proof {
                lemma_topmost_hit_present(
                    state.annotations@,
                    image_pos,
                    hit_tol(state.zoom as int),
                );
            }
            state.selection = pick_annotation(state, image_pos);
        },
        Tool::Text => {
            if state.drag_state.is_none() {
                state.text_edit = Some(
                    TextEditState {
                        buffer: String::new(),
                        anchor: image_pos,
                        target: TextEditTarget::NewText { pos: image_pos },
                        text_size: state.active_text_size,
                    },
                );
            }
        },
        _ => {},
    }
}

/// A double click on a text-bearing shape (a text block or a labelled
/// arrow) selects it and opens a text-edit session pre-filled with its
/// current text and size. Anything else is ignored.
pub fn handle_double_click(state: &mut EditorState, image_pos: Point)
    requires
        old(state).wf(),
        point_in_range(image_pos),
    ensures
        final(state).wf(),
        match topmost_hit(old(state).annotations@, image_pos, hit_tol(old(state).zoom as int)) {
            Some(a) => match a.kind {
                AnnotationKind::Text { content, size, .. } => if old(state).drag_state is None {
                    &&& final(state).selection == Some(a.id)
                    &&& final(state).text_edit matches Some(t) && t.buffer@ == content@
                        && t.target == (TextEditTarget::Existing { annotation_id: a.id })
                        && t.text_size == size
                    &&& *final(state) == (EditorState {
                        selection: Some(a.id),
                        text_edit: final(state).text_edit,
                        ..*old(state)
                    })
                } else {
                    *final(state) == *old(state)
                },
                AnnotationKind::ArrowWithText { text, size, .. } => if old(
                    state,
                ).drag_state is None {
                    &&& final(state).selection == Some(a.id)
                    &&& final(state).text_edit matches Some(t) && t.buffer@ == text@ && t.target
                        == (TextEditTarget::Existing { annotation_id: a.id }) && t.text_size
                        == size
                    &&& *final(state) == (EditorState {
                        selection: Some(a.id),
                        text_edit: final(state).text_edit,
                        ..*old(state)
                    })
                } else {
                    *final(state) == *old(state)
                },
                _ => *final(state) == *old(state),
            },
            None => *final(state) == *old(state),
        },
{
    proof {
        lemma_topmost_hit_present(state.annotations@, image_pos, hit_tol(state.zoom as int));
    }
    let picked = pick_annotation(state, image_pos);
    let id = match picked {
        None => {
            return ;
        },
        Some(id) => id,
    };
    if state.drag_state.is_some() {
        return ;
    }
    let i = match state.find_annotation_index(id) {
        None => {
            return ;
        },
        Some(i) => i,
    };
    proof {
        let s = state.annotations@;
        let t = hit_tol(state.zoom as int);
        let a = topmost_hit(s, image_pos, t)->Some_0;
        let w = choose|j: int| 0 <= j < s.len() && s[j] == a;
        crate::state::lemma_idx_of_id_unique(s, a.id, w);
    }
    let session = {
        let hit = &state.annotations[i];
        match &hit.kind {
            AnnotationKind::Text { content, size, .. } => Some(
                TextEditState {
                    buffer: content.clone(),
                    anchor: image_pos,
                    target: TextEditTarget::Existing { annotation_id: id },
                    text_size: *size,
                },
            ),
            AnnotationKind::ArrowWithText { text, size, .. } => Some(
                TextEditState {
                    buffer: text.clone(),
                    anchor: image_pos,
                    target: TextEditTarget::Existing { annotation_id: id },
                    text_size: *size,
                },
            ),
            _ => None,
        }
    };
    match session {
        Some(s) => {
            state.selection = Some(id);
            state.text_edit = Some(s);
        },
        None => {},
    }
}

/// What should happen to an open text-edit session after a frame's input.
#[derive(Clone, Copy, Debug, PartialEq, Eq, Structural)]
pub enum TextEditOutcome {
    /// The session stays open.
    Keep,
    /// Apply the edit (see [`apply_text_edit`]).
    Commit,
    /// Discard the session without mutating anything.
    Cancel,
}

/// The commit/cancel rules of the text popup. Escape always cancels. A new
/// text block commits only on a modifier chord with the enter key (a plain
/// enter inserts a newline into the buffer instead); a new arrow label
/// commits on plain enter or on a click away; an existing text commits on
/// the modifier chord or on a click away.
pub fn text_edit_outcome(
    target: &TextEditTarget,
    pressed_enter: bool,
    cmd_held: bool,
    click_away: bool,
    escape: bool,
) -> (r: TextEditOutcome)
    ensures
        r == (if escape {
            TextEditOutcome::Cancel
        } else if pressed_enter {
            match target {
                TextEditTarget::NewText { .. } => if cmd_held {
                    TextEditOutcome::Commit
                } else {
                    TextEditOutcome::Keep
                },
                TextEditTarget::NewArrowText { .. } => TextEditOutcome::Commit,
                TextEditTarget::Existing { .. } => if cmd_held {
                    TextEditOutcome::Commit
                } else {
                    TextEditOutcome::Keep
                },
            }
        } else if click_away {
            match target {
                TextEditTarget::NewText { .. } => TextEditOutcome::Keep,
                TextEditTarget::NewArrowText { .. } => TextEditOutcome::Commit,
                TextEditTarget::Existing { .. } => TextEditOutcome::Commit,
            }
        } else {
            TextEditOutcome::Keep
        }),
{
    if escape {
        return TextEditOutcome::Cancel;
    }
    if pressed_enter {
        return match target {
            TextEditTarget::NewText { .. } => if cmd_held {
                TextEditOutcome::Commit
            } else {
                TextEditOutcome::Keep
            },
            TextEditTarget::NewArrowText { .. } => TextEditOutcome::Commit,
            TextEditTarget::Existing { .. } => if cmd_held {
                TextEditOutcome::Commit
            } else {
                TextEditOutcome::Keep
            },
        };
    }
    if click_away {
        return match target {
            TextEditTarget::NewText { .. } => TextEditOutcome::Keep,
            TextEditTarget::NewArrowText { .. } => TextEditOutcome::Commit,
            TextEditTarget::Existing { .. } => TextEditOutcome::Commit,
        };
    }
    TextEditOutcome::Keep
}

/// The character sequence left after stripping leading and trailing
/// whitespace; named after the standard library's trimming, which depends
/// on the characters alone.
pub uninterp spec fn trim_of(s: Seq<char>) -> Seq<char>;

/// Relies on str::trim: strips leading and trailing whitespace, a function
/// of the characters alone.
#[verifier::external_body]
fn trim_owned(s: &String) -> (r: String)
    ensures
        r@ == trim_of(s@),
{
    s.trim().to_owned()
}

/// Commit an open text-edit session. The buffer is trimmed first. An empty
/// new text block is discarded; an empty arrow label falls back to a plain
/// arrow; an existing annotation's text and size are replaced in place
/// (with a history record). The chosen size becomes the new preference and
/// the session closes in every case.
#[verifier::rlimit(80)]
pub fn apply_text_edit(
    state: &mut EditorState,
    target: TextEditTarget,
    text: String,
    text_size: TextSize,
)
    requires
        old(state).wf(),
        crate::state::text_target_in_range(target),
        old(state).next_id < u64::MAX,
    ensures
        final(state).wf(),
        final(state).text_edit is None,
        final(state).active_text_size == text_size,
        final(state).settings == (crate::state::UserSettings {
            last_text_size: text_size,
            ..old(state).settings
        }),
        final(state).selection == old(state).selection,
        final(state).drag_state == old(state).drag_state,
        final(state).active_color == old(state).active_color,
        final(state).active_stroke == old(state).active_stroke,
        final(state).image == old(state).image,
        final(state).zoom == old(state).zoom,
        match target {
            TextEditTarget::NewText { pos } => if trim_of(text@).len() == 0 {
                &&& final(state).annotations@ == old(state).annotations@
                &&& final(state).history == old(state).history
                &&& final(state).next_id == old(state).next_id
                &&& final(state).active_tool == old(state).active_tool
            } else {
                &&& final(state).annotations@ == old(state).annotations@.push(
                    final(state).annotations@.last(),
                )
                &&& final(state).annotations@.len() == old(state).annotations@.len() + 1
                &&& final(state).annotations@.last().id == old(state).next_id
                &&& final(state).annotations@.last().color == old(state).active_color
                &&& final(state).annotations@.last().stroke_width == old(state).active_stroke
                &&& (final(state).annotations@.last().kind matches AnnotationKind::Text {
                    pos: p,
                    content,
                    size,
                } && p == pos && content@ == trim_of(text@) && size == text_size)
                &&& final(state).next_id == old(state).next_id + 1
                &&& history_recorded(
                    old(state).history,
                    final(state).history,
                    final(state).annotations@,
                )
                &&& final(state).has_edited && !final(state).exported
                &&& final(state).active_tool == Tool::Select
            },
            TextEditTarget::NewArrowText { from, to, color, stroke } => {
                &&& final(state).annotations@ == old(state).annotations@.push(
                    final(state).annotations@.last(),
                )
                &&& final(state).annotations@.len() == old(state).annotations@.len() + 1
                &&& final(state).annotations@.last().id == old(state).next_id
                &&& final(state).annotations@.last().color == color
                &&& final(state).annotations@.last().stroke_width == stroke
                &&& if trim_of(text@).len() == 0 {
                    final(state).annotations@.last().kind == (AnnotationKind::Arrow { from, to })
                } else {
                    final(state).annotations@.last().kind matches AnnotationKind::ArrowWithText {
                        from: f,
                        to: t,
                        text: c,
                        size,
                    } && f == from && t == to && c@ == trim_of(text@) && size == text_size
                }
                &&& final(state).next_id == old(state).next_id + 1
                &&& history_recorded(
                    old(state).history,
                    final(state).history,
                    final(state).annotations@,
                )
                &&& final(state).has_edited && !final(state).exported
                &&& final(state).active_tool == Tool::Select
            },
            TextEditTarget::Existing { annotation_id } => if has_id(
                old(state).annotations@,
                annotation_id,
            ) {
                let i = idx_of_id(old(state).annotations@, annotation_id);
                let a0 = old(state).annotations@[i];
                match a0.kind {
                    AnnotationKind::Text { pos, .. } => {
                        &&& final(state).annotations@ == old(state).annotations@.update(
                            i,
                            final(state).annotations@[i],
                        )
                        &&& (final(state).annotations@[i].kind matches AnnotationKind::Text {
                            pos: p,
                            content,
                            size,
                        } && p == pos && content@ == trim_of(text@) && size == text_size)
                        &&& final(state).annotations@[i].id == a0.id
                        &&& final(state).annotations@[i].color == a0.color
                        &&& final(state).annotations@[i].stroke_width == a0.stroke_width
                        &&& history_recorded(
                            old(state).history,
                            final(state).history,
                            final(state).annotations@,
                        )
                        &&& final(state).has_edited && !final(state).exported
                        &&& final(state).next_id == old(state).next_id
                        &&& final(state).active_tool == old(state).active_tool
                    },
                    AnnotationKind::ArrowWithText { from, to, .. } => {
                        &&& final(state).annotations@ == old(state).annotations@.update(
                            i,
                            final(state).annotations@[i],
                        )
                        &&& (final(state).annotations@[i].kind matches AnnotationKind::ArrowWithText {
                            from: f,
                            to: t,
                            text: c,
                            size,
                        } && f == from && t == to && c@ == trim_of(text@) && size == text_size)
                        &&& final(state).annotations@[i].id == a0.id
                        &&& final(state).annotations@[i].color == a0.color
                        &&& final(state).annotations@[i].stroke_width == a0.stroke_width
                        &&& history_recorded(
                            old(state).history,
                            final(state).history,
                            final(state).annotations@,
                        )
                        &&& final(state).has_edited && !final(state).exported
                        &&& final(state).next_id == old(state).next_id
                        &&& final(state).active_tool == old(state).active_tool
                    },
                    _ => {
                        &&& final(state).annotations@ == old(state).annotations@
                        &&& final(state).history == old(state).history
                        &&& final(state).next_id == old(state).next_id
                        &&& final(state).active_tool == old(state).active_tool
                    },
                }
            } else {
                &&& final(state).annotations@ == old(state).annotations@
                &&& final(state).history == old(state).history
                &&& final(state).next_id == old(state).next_id
                &&& final(state).active_tool == old(state).active_tool
            },
        },
{
    let content = trim_owned(&text);
    state.set_text_size(text_size);
    match target {
        TextEditTarget::NewText { pos } => {
            if content.as_str().is_empty() {
                state.text_edit = None;
                return ;
            }
            let id = state.next_annotation_id();
            let color = state.active_color;
            let stroke = state.active_stroke;
            proof {
                lemma_fresh_id_absent(state.annotations@, id, id);
            }
            state.add_annotation(
                Annotation {
                    id,
                    kind: AnnotationKind::Text { pos, content, size: text_size },
                    color,
                    stroke_width: stroke,
                },
            );
            state.set_tool(Tool::Select);
        },
        TextEditTarget::NewArrowText { from, to, color, stroke } => {
            let kind = if content.as_str().is_empty() {
                AnnotationKind::Arrow { from, to }
            } else {
                AnnotationKind::ArrowWithText { from, to, text: content, size: text_size }
            };
            let id = state.next_annotation_id();
            proof {
                lemma_fresh_id_absent(state.annotations@, id, id);
            }
            state.add_annotation(Annotation { id, kind, color, stroke_width: stroke });
            state.set_tool(Tool::Select);
        },
        TextEditTarget::Existing { annotation_id } => {
            match state.find_annotation_index(annotation_id) {
                Some(i) => {
                    let replacement: Option<Annotation> = {
                        let current = &state.annotations[i];
                        match &current.kind {
                            AnnotationKind::Text { pos, .. } => Some(
                                Annotation {
                                    id: current.id,
                                    kind: AnnotationKind::Text {
                                        pos: *pos,
                                        content,
                                        size: text_size,
                                    },
                                    color: current.color,
                                    stroke_width: current.stroke_width,
                                },
                            ),
                            AnnotationKind::ArrowWithText { from, to, .. } => Some(
                                Annotation {
                                    id: current.id,
                                    kind: AnnotationKind::ArrowWithText {
                                        from: *from,
                                        to: *to,
                                        text: content,
                                        size: text_size,
                                    },
                                    color: current.color,
                                    stroke_width: current.stroke_width,
                                },
                            ),
                            _ => None,
                        }
                    };
                    match replacement {
                        Some(updated) => {
                            proof {
                                lemma_update_keeps_wf(
                                    state.annotations@,
                                    i as int,
                                    updated,
                                    state.next_id,
                                );
                            }
                            self_update_annotation(state, i, updated);
                            state.mark_changed();
                            state.push_history_snapshot();
                        },
                        None => {},
                    }
                },
                None => {},
            }
        },
    }
    state.text_edit = None;
}

/// The keys the editor reacts to. The delete and backspace keys act
/// alike, as do the plus and equals keys.
#[derive(Clone, Copy, Debug, PartialEq, Eq, Structural)]
pub enum EditorKey {
    Escape,
    SelectKey,
    ArrowKey,
    TextKey,
    RectangleKey,
    EllipseKey,
    DeleteKey,
    CopyKey,
    SaveKey,
    PasteKey,
    UndoKey,
    CloseKey,
    QuitKey,
    ZoomInKey,
    ZoomOutKey,
    ZoomFitKey,
}

/// An outside action a shortcut asks the surrounding application for.
#[derive(Clone, Copy, Debug, PartialEq, Eq, Structural)]
pub enum ShortcutRequest {
    Nothing,
    CopyImage,
    SaveImage,
    PasteImage,
    CloseEditor,
    QuitApp,
}

/// Route one key press to the editor. Without the command modifier the
/// letter keys switch tools (shift turns the arrow key into the labelled
/// arrow) and delete removes the selection. With it, copy, save, paste,
/// close and quit are handed back as requests, undo/redo (shift) rewind
/// the history, and the zoom keys step or refit the zoom. Escape closes an
/// open text session first, then leaves a drawing tool, and only then —
/// with an image open — asks to close the editor.
pub fn handle_shortcut(state: &mut EditorState, key: EditorKey, cmd: bool, shift: bool) -> (r:
    ShortcutRequest)
    requires
        old(state).wf(),
    ensures
        final(state).wf(),
        key == EditorKey::Escape ==> if old(state).text_edit is Some {
            r == ShortcutRequest::Nothing && *final(state) == (EditorState {
                text_edit: None,
                ..*old(state)
            })
        } else if old(state).active_tool != Tool::Select {
            r == ShortcutRequest::Nothing && *final(state) == (EditorState {
                active_tool: Tool::Select,
                ..*old(state)
            })
        } else {
            *final(state) == *old(state) && r == (if old(state).image is Some {
                ShortcutRequest::CloseEditor
            } else {
                ShortcutRequest::Nothing
            })
        },
        key != EditorKey::Escape && !cmd ==> r == ShortcutRequest::Nothing && match key {
            EditorKey::SelectKey => *final(state) == (EditorState {
                active_tool: Tool::Select,
                ..*old(state)
            }),
            EditorKey::ArrowKey => *final(state) == (EditorState {
                active_tool: if shift {
                    Tool::ArrowWithText
                } else {
                    Tool::Arrow
                },
                ..*old(state)
            }),
            EditorKey::TextKey => *final(state) == (EditorState {
                active_tool: Tool::Text,
                ..*old(state)
            }),
            EditorKey::RectangleKey => *final(state) == (EditorState {
                active_tool: Tool::Rectangle,
                ..*old(state)
            }),
            EditorKey::EllipseKey => *final(state) == (EditorState {
                active_tool: Tool::Ellipse,
                ..*old(state)
            }),
            EditorKey::DeleteKey => match old(state).selection {
                Some(id) => {
                    &&& final(state).annotations@ == old(state).annotations@.remove(
                        idx_of_id(old(state).annotations@, id),
                    )
                    &&& !has_id(final(state).annotations@, id)
                    &&& history_recorded(
                        old(state).history,
                        final(state).history,
                        final(state).annotations@,
                    )
                    &&& *final(state) == (EditorState {
                        annotations: final(state).annotations,
                        history: final(state).history,
                        selection: None,
                        has_edited: true,
                        exported: false,
                        ..*old(state)
                    })
                },
                None => *final(state) == *old(state),
            },
            _ => *final(state) == *old(state),
        },
        key != EditorKey::Escape && cmd ==> match key {
            EditorKey::CopyKey => r == ShortcutRequest::CopyImage && *final(state) == *old(state),
            EditorKey::SaveKey => r == ShortcutRequest::SaveImage && *final(state) == *old(state),
            EditorKey::PasteKey => r == ShortcutRequest::PasteImage && *final(state) == *old(
                state,
            ),
            EditorKey::UndoKey => {
                &&& r == ShortcutRequest::Nothing
                &&& final(state).history.entries() == old(state).history.entries()
                &&& *final(state) == (EditorState {
                    annotations: final(state).annotations,
                    history: final(state).history,
                    selection: None,
                    text_edit: None,
                    ..*old(state)
                })
                &&& if shift {
                    if old(state).history.can_redo_spec() {
                        &&& final(state).history.position() == old(state).history.position() + 1
                        &&& final(state).annotations@ == old(state).history.entries()[old(
                            state,
                        ).history.position() + 1]@
                    } else {
                        &&& final(state).history.position() == old(state).history.position()
                        &&& final(state).annotations@ == old(state).annotations@
                    }
                } else {
                    if old(state).history.can_undo_spec() {
                        &&& final(state).history.position() == old(state).history.position() - 1
                        &&& final(state).annotations@ == old(state).history.entries()[old(
                            state,
                        ).history.position() - 1]@
                    } else {
                        &&& final(state).history.position() == old(state).history.position()
                        &&& final(state).annotations@ == old(state).annotations@
                    }
                }
            },
            EditorKey::CloseKey => r == ShortcutRequest::CloseEditor && *final(state) == *old(
                state,
            ),
            EditorKey::QuitKey => r == ShortcutRequest::QuitApp && *final(state) == *old(state),
            EditorKey::ZoomInKey => r == ShortcutRequest::Nothing && ({
                let i = nearest_zoom_idx(old(state).zoom as int);
                &&& *final(state) == (EditorState { zoom: final(state).zoom, ..*old(state) })
                &&& if i + 1 < 10 {
                    final(state).zoom as int == zoom_steps()[i + 1]
                } else {
                    final(state).zoom == old(state).zoom
                }
            }),
            EditorKey::ZoomOutKey => r == ShortcutRequest::Nothing && ({
                let i = nearest_zoom_idx(old(state).zoom as int);
                &&& *final(state) == (EditorState { zoom: final(state).zoom, ..*old(state) })
                &&& if i > 0 {
                    final(state).zoom as int == zoom_steps()[i - 1]
                } else {
                    final(state).zoom == old(state).zoom
                }
            }),
            EditorKey::ZoomFitKey => r == ShortcutRequest::Nothing && *final(state) == (
            EditorState { fit_zoom_to_view: true, ..*old(state) }),
            _ => r == ShortcutRequest::Nothing && *final(state) == *old(state),
        },
{
    if key == EditorKey::Escape {
        if state.text_edit.is_some() {
            state.text_edit = None;
            return ShortcutRequest::Nothing;
        }
        if state.active_tool != Tool::Select {
            state.set_tool(Tool::Select);
            return ShortcutRequest::Nothing;
        }
        if state.image.is_some() {
            return ShortcutRequest::CloseEditor;
        }
        return ShortcutRequest::Nothing;
    }
    if !cmd {
        match key {
            EditorKey::SelectKey => {
                state.set_tool(Tool::Select);
            },
            EditorKey::ArrowKey => {
                if shift {
                    state.set_tool(Tool::ArrowWithText);
                } else {
                    state.set_tool(Tool::Arrow);
                }
            },
            EditorKey::TextKey => {
                state.set_tool(Tool::Text);
            },
            EditorKey::RectangleKey => {
                state.set_tool(Tool::Rectangle);
            },
            EditorKey::EllipseKey => {
                state.set_tool(Tool::Ellipse);
            },
            EditorKey::DeleteKey => {
                state.delete_selected();
            },
            _ => {},
        }
        return ShortcutRequest::Nothing;
    }
    match key {
        EditorKey::CopyKey => ShortcutRequest::CopyImage,
        EditorKey::SaveKey => ShortcutRequest::SaveImage,
        EditorKey::PasteKey => ShortcutRequest::PasteImage,
        EditorKey::UndoKey => {
            if shift {
                state.redo();
            } else {
                state.undo();
            }
            ShortcutRequest::Nothing
        },
        EditorKey::CloseKey => ShortcutRequest::CloseEditor,
        EditorKey::QuitKey => ShortcutRequest::QuitApp,
        EditorKey::ZoomInKey => {
            state.zoom_in();
            ShortcutRequest::Nothing
        },
        EditorKey::ZoomOutKey => {
            state.zoom_out();
            ShortcutRequest::Nothing
        },
        EditorKey::ZoomFitKey => {
            state.fit_zoom_to_view = true;
            ShortcutRequest::Nothing
        },
        _ => ShortcutRequest::Nothing,
    }
}

/// Store `updated` at `i`, keeping the editor invariant.
fn self_update_annotation(state: &mut EditorState, i: usize, updated: Annotation)
    requires
        old(state).wf(),
        i < old(state).annotations@.len(),
        old(state).annotations@[i as int].id == updated.id,
        annotation_in_range(updated),
        kind_committed(updated.kind),
        crate::state::annotations_wf(old(state).annotations@.update(i as int, updated), old(state).next_id),
    ensures
        final(state).wf(),
        *final(state) == (EditorState {
            annotations: final(state).annotations,
            ..*old(state)
        }),
        final(state).annotations@ == old(state).annotations@.update(i as int, updated),
{
    proof {
        lemma_update_keeps_wf(state.annotations@, i as int, updated, state.next_id);
    }
    state.annotations[i] = updated;
}

} // verus!
