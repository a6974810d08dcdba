//! Editor state: the annotation collection, selection, active tool and
//! style, ephemeral drag / text-edit sessions, zoom, and the coupling of
//! every structural mutation to the undo history.

use vstd::prelude::*;

use vstd::pervasive::cloned;

use crate::annotation::Annotation;
use crate::annotation::AnnotationId;
use crate::annotation::Handle;
use crate::annotation::StrokeWidth;
use crate::annotation::TextSize;
use crate::annotation::Tool;
use crate::annotation::abs_of;
use crate::annotation::annotation_in_range;
use crate::annotation::kind_committed;
use crate::geom::COORD_LIMIT;
use crate::geom::Point;
use crate::geom::point_in_range;
use crate::geom::spec_max;
use crate::geom::spec_min;
use crate::history::UndoHistory;

verus! {

/// What the editing logic reads of the loaded bitmap: its pixel size.
/// The pixel data and any texture handle live with the rendering layer.
#[derive(Clone, Copy, Debug, PartialEq, Eq, Structural)]
pub struct EditorImage {
    pub width: u32,
    pub height: u32,
}

pub open spec fn image_wf(img: EditorImage) -> bool {
    &&& 1 <= img.width <= COORD_LIMIT
    &&& 1 <= img.height <= COORD_LIMIT
}

/// The small set of last-used style preferences that persists between
/// sessions. Reading and writing the settings file is a collaborator's job.
#[derive(Clone, Debug, PartialEq)]
pub struct UserSettings {
    pub last_color: [u8; 4],
    pub last_stroke: StrokeWidth,
    pub last_text_size: TextSize,
    pub dock_icon_visible: bool,
}

impl Default for UserSettings {
    fn default() -> (r: Self)
        ensures
            r.last_color@ == seq![229u8, 62u8, 62u8, 255u8],
            r.last_stroke == StrokeWidth::Medium,
            r.last_text_size.0 == 18,
            r.dock_icon_visible == true,
    {
        let r = UserSettings {
            last_color: [229, 62, 62, 255],
            last_stroke: StrokeWidth::Medium,
            last_text_size: TextSize::medium(),
            dock_icon_visible: true,
        };
        proof {
            assert(r.last_color@ =~= seq![229u8, 62u8, 62u8, 255u8]);
        }
        r
    }
}

#[derive(Clone, Copy, Debug, PartialEq, Eq, Structural)]
pub enum VisualEffectsMode {
    Hybrid,
    EguiOnly,
}

impl Default for VisualEffectsMode {
    fn default() -> (r: Self)
        ensures
            r == VisualEffectsMode::Hybrid,
    {
        VisualEffectsMode::Hybrid
    }
}

/// Bookkeeping for the native window-translucency integration: whether it
/// is wanted, available, active, and why it fell back to plain rendering.
#[derive(Clone, Debug)]
pub struct VisualEffectsState {
    pub mode: VisualEffectsMode,
    pub enabled: bool,
    pub fallback_reason: Option<String>,
    pub supports_vibrancy: bool,
    pub show_fallback_badge: bool,
}

impl Default for VisualEffectsState {
    fn default() -> (r: Self)
        ensures
            r.mode == VisualEffectsMode::Hybrid,
            r.enabled == false,
            r.fallback_reason is None,
            r.supports_vibrancy == false,
            r.show_fallback_badge == false,
    {
        VisualEffectsState {
            mode: VisualEffectsMode::Hybrid,
            enabled: false,
            fallback_reason: None,
            supports_vibrancy: false,
            show_fallback_badge: false,
        }
    }
}

/// What the caller must do with the native vibrancy layer after a
/// [`VisualEffectsState::begin_sync`] step.
#[derive(Clone, Copy, Debug, PartialEq, Eq, Structural)]
pub enum VibrancyCommand {
    /// Tear the native layer down (or leave it down).
    Remove,
    /// Install and refresh the native layer, then report the outcome
    /// through [`VisualEffectsState::finish_install`].
    Install,
}

impl VisualEffectsState {
    /// Decide, once per frame, what to do with the native vibrancy layer.
    /// All state transitions are here; the native calls themselves are the
    /// caller's, and an `Install` answer obliges the caller to report back.
    pub fn begin_sync(&mut self, window_open: bool) -> (cmd: VibrancyCommand)
        ensures
            !window_open ==> {
                &&& cmd == VibrancyCommand::Remove
                &&& final(self).enabled == false
                &&& final(self).show_fallback_badge == false
                &&& final(self).mode == old(self).mode
            },
            window_open && old(self).mode == VisualEffectsMode::EguiOnly ==> {
                &&& cmd == VibrancyCommand::Remove
                &&& final(self).enabled == false
                &&& final(self).show_fallback_badge == (old(self).fallback_reason is Some)
                &&& final(self).mode == VisualEffectsMode::EguiOnly
            },
            window_open && old(self).mode == VisualEffectsMode::Hybrid && !old(
                self,
            ).supports_vibrancy ==> {
                &&& cmd == VibrancyCommand::Remove
                &&& final(self).mode == VisualEffectsMode::EguiOnly
                &&& final(self).enabled == false
                &&& final(self).fallback_reason is Some
                &&& final(self).show_fallback_badge == true
            },
            window_open && old(self).mode == VisualEffectsMode::Hybrid && old(
                self,
            ).supports_vibrancy ==> {
                &&& cmd == VibrancyCommand::Install
                &&& *final(self) == *old(self)
            },
            final(self).supports_vibrancy == old(self).supports_vibrancy,
    {
        if !window_open {
            self.enabled = false;
            self.show_fallback_badge = false;
            return VibrancyCommand::Remove;
        }
        if self.mode == VisualEffectsMode::EguiOnly {
            self.enabled = false;
            self.show_fallback_badge = match &self.fallback_reason {
                Some(_) => true,
                None => false,
            };
            return VibrancyCommand::Remove;
        }
        if !self.supports_vibrancy {
            self.mode = VisualEffectsMode::EguiOnly;
            self.enabled = false;
            self.fallback_reason = Some("vibrancy is not supported on this runtime".to_string());
            self.show_fallback_badge = true;
            return VibrancyCommand::Remove;
        }
        VibrancyCommand::Install
    }

    /// Record the outcome of an install requested by [`Self::begin_sync`]:
    /// on failure the mode falls back to plain rendering with the reason
    /// shown; on success the effect is live.
    pub fn finish_install(&mut self, error: Option<String>)
        ensures
            error is Some ==> {
                &&& final(self).mode == VisualEffectsMode::EguiOnly
                &&& final(self).enabled == false
                &&& final(self).fallback_reason == error
                &&& final(self).show_fallback_badge == true
            },
            error is None ==> {
                &&& final(self).mode == old(self).mode
                &&& final(self).enabled == true
                &&& final(self).fallback_reason is None
                &&& final(self).show_fallback_badge == false
            },
            final(self).supports_vibrancy == old(self).supports_vibrancy,
    {
        match error {
            Some(reason) => {
                self.mode = VisualEffectsMode::EguiOnly;
                self.enabled = false;
                self.fallback_reason = Some(reason);
                self.show_fallback_badge = true;
            },
            None => {
                self.enabled = true;
                self.fallback_reason = None;
                self.show_fallback_badge = false;
            },
        }
    }
}

/// What an active pointer gesture is doing.
#[derive(Clone, Copy, Debug, PartialEq, Eq, Structural)]
pub enum DragMode {
    Draw,
    Move,
    Resize,
}

/// The ephemeral record of an in-progress pointer gesture. `original`
/// holds a pre-gesture copy of the target shape, so move and resize are
/// always recomputed from an absolute origin instead of accumulating
/// per-frame drift.
#[derive(Clone, Debug)]
pub struct DragState {
    pub mode: DragMode,
    pub start: Point,
    pub current: Point,
    pub selection_id: Option<AnnotationId>,
    pub handle: Option<Handle>,
    pub original: Option<Annotation>,
}

/// What an open text-edit session will produce when committed.
#[derive(Clone, Debug)]
pub enum TextEditTarget {
    /// A brand-new text block at a clicked position.
    NewText { pos: Point },
    /// The label of an arrow that was just drawn; the arrow itself is not
    /// committed until the text is.
    NewArrowText { from: Point, to: Point, color: [u8; 4], stroke: StrokeWidth },
    /// Re-editing the text carried by an existing annotation.
    Existing { annotation_id: AnnotationId },
}

pub open spec fn text_target_in_range(t: TextEditTarget) -> bool {
    match t {
        TextEditTarget::NewText { pos } => point_in_range(pos),
        TextEditTarget::NewArrowText { from, to, .. } => point_in_range(from) && point_in_range(
            to,
        ),
        TextEditTarget::Existing { .. } => true,
    }
}

/// The ephemeral state of the text popup: the editable buffer, where the
/// popup is anchored in image space, what it will commit to, and the size
/// chosen for the text.
#[derive(Clone, Debug)]
pub struct TextEditState {
    pub buffer: String,
    pub anchor: Point,
    pub target: TextEditTarget,
    pub text_size: TextSize,
}

pub open spec fn drag_wf(d: DragState) -> bool {
    &&& point_in_range(d.start)
    &&& point_in_range(d.current)
    &&& match d.original {
        Some(a) => annotation_in_range(a) && kind_committed(a.kind) && d.selection_id == Some(
            a.id,
        ),
        None => true,
    }
}

/// Well-formedness of a stored annotation sequence against the id counter:
/// every id is nonzero, below the counter, and unique, and every shape's
/// geometry is representable.
pub open spec fn annotations_wf(s: Seq<Annotation>, next_id: u64) -> bool {
    &&& forall|i: int|
        0 <= i < s.len() ==> 1 <= (#[trigger] s[i]).id < next_id && annotation_in_range(s[i])
            && kind_committed(s[i].kind)
    &&& forall|i: int, j: int| 0 <= i < j < s.len() ==> s[i].id != s[j].id
}

/// The index of the annotation carrying `id` (unique when the sequence is
/// well formed).
pub open spec fn idx_of_id(s: Seq<Annotation>, id: u64) -> int {
    choose|i: int| 0 <= i < s.len() && (#[trigger] s[i]).id == id
}

pub open spec fn has_id(s: Seq<Annotation>, id: u64) -> bool {
    exists|i: int| 0 <= i < s.len() && (#[trigger] s[i]).id == id
}

/// Every pair of (clone-related) annotation sequences is equal, because
/// [`Annotation::clone`] promises an exact copy.
pub proof fn lemma_cloned_annotations(a: Seq<Annotation>, b: Seq<Annotation>)
    requires
        a.len() == b.len(),
        forall|i: int| 0 <= i < a.len() ==> cloned::<Annotation>(a[i], b[i]),
    ensures
        a == b,
{
    assert forall|i: int| 0 <= i < a.len() implies a[i] == b[i] by {
        assert(cloned::<Annotation>(a[i], b[i]));
    }
    assert(a =~= b);
}

/// `history` advanced by exactly one snapshot whose contents are `snap`,
/// with any redo branch pruned.
pub open spec fn history_recorded(
    pre: UndoHistory<Vec<Annotation>>,
    post: UndoHistory<Vec<Annotation>>,
    snap: Seq<Annotation>,
) -> bool {
    &&& post.position() == pre.position() + 1
    &&& post.entries().len() == post.position() + 1
    &&& post.entries().subrange(0, post.position()) == pre.entries().subrange(
        0,
        pre.position() + 1,
    )
    &&& post.entries()[post.position()]@ == snap
}

/// The single owner of the annotation collection, history, selection,
/// sessions, and view zoom (held in percent: 100 is 1.0).
pub struct EditorState {
    pub image: Option<EditorImage>,
    pub annotations: Vec<Annotation>,
    pub history: UndoHistory<Vec<Annotation>>,
    pub active_tool: Tool,
    pub active_color: [u8; 4],
    pub active_stroke: StrokeWidth,
    pub active_text_size: TextSize,
    pub selection: Option<AnnotationId>,
    pub drag_state: Option<DragState>,
    pub text_edit: Option<TextEditState>,
    pub zoom: u32,
    pub exported: bool,
    pub has_edited: bool,
    pub next_id: AnnotationId,
    pub settings: UserSettings,
    pub window_open: bool,
    pub fit_zoom_to_view: bool,
    pub visual_effects: VisualEffectsState,
}

impl Default for EditorState {
    /// A fresh editor around the default preferences.
    fn default() -> (r: EditorState)
        ensures
            r.wf(),
            r.image is None,
            r.annotations@ == Seq::<Annotation>::empty(),
            r.selection is None,
            r.drag_state is None,
            r.text_edit is None,
            r.active_tool == Tool::Select,
            r.next_id == 1,
            r.history.entries().len() == 1,
            r.history.entries()[0]@ == Seq::<Annotation>::empty(),
            r.history.position() == 0,
    {
        EditorState::with_settings(UserSettings::default())
    }
}

impl EditorState {
    /// The editor invariant: a valid history, a zoom from the step table's
    /// range, well-formed annotations (also in every stored snapshot), a
    /// selection that names a present annotation, at most one ephemeral
    /// session, and representable session geometry.
    pub open spec fn wf(&self) -> bool {
        &&& self.history.wf()
        &&& 25 <= self.zoom <= 400
        &&& 1 <= self.next_id
        &&& annotations_wf(self.annotations@, self.next_id)
        &&& forall|k: int|
            0 <= k < self.history.entries().len() ==> annotations_wf(
                (#[trigger] self.history.entries()[k])@,
                self.next_id,
            )
        &&& match self.selection {
            Some(id) => has_id(self.annotations@, id),
            None => true,
        }
        &&& !(self.drag_state is Some && self.text_edit is Some)
        &&& match self.drag_state {
            Some(d) => drag_wf(d),
            None => true,
        }
        &&& match self.text_edit {
            Some(t) => text_target_in_range(t.target),
            None => true,
        }
        &&& match self.image {
            Some(img) => image_wf(img),
            None => true,
        }
    }

    /// A fresh editor around the given persisted preferences: no image, an
    /// empty collection, a one-entry history, the select tool, 1.0 zoom.
    pub fn with_settings(settings: UserSettings) -> (r: EditorState)
        ensures
            r.wf(),
            r.image is None,
            r.annotations@ == Seq::<Annotation>::empty(),
            r.active_tool == Tool::Select,
            r.active_color == settings.last_color,
            r.active_stroke == settings.last_stroke,
            r.active_text_size == settings.last_text_size,
            r.selection is None,
            r.drag_state is None,
            r.text_edit is None,
            r.zoom == 100,
            r.exported == false,
            r.has_edited == false,
            r.next_id == 1,
            r.settings == settings,
            r.window_open == false,
            r.fit_zoom_to_view == true,
            r.history.entries().len() == 1,
            r.history.entries()[0]@ == Seq::<Annotation>::empty(),
            r.history.position() == 0,
    {
        let empty: Vec<Annotation> = Vec::new();
        let r = EditorState {
            image: None,
            annotations: Vec::new(),
            history: UndoHistory::new(empty),
            active_tool: Tool::Select,
            active_color: settings.last_color,
            active_stroke: settings.last_stroke,
            active_text_size: settings.last_text_size,
            selection: None,
            drag_state: None,
            text_edit: None,
            zoom: 100,
            exported: false,
            has_edited: false,
            next_id: 1,
            settings,
            window_open: false,
            fit_zoom_to_view: true,
            visual_effects: VisualEffectsState::default(),
        };
        r
    }

    /// Mark that the user made a structural change that has not been
    /// exported yet.
    pub fn mark_changed(&mut self)
        ensures
            *final(self) == (EditorState { has_edited: true, exported: false, ..*old(self) }),
    {
        self.has_edited = true;
        self.exported = false;
    }

    /// Record the current collection as the newest history snapshot.
    pub fn push_history_snapshot(&mut self)
        requires
            old(self).wf(),
        ensures
            final(self).wf(),
            history_recorded(old(self).history, final(self).history, old(self).annotations@),
            *final(self) == (EditorState { history: final(self).history, ..*old(self) }),
    {
        let snap = self.annotations.clone();
        proof {
            lemma_cloned_annotations(self.annotations@, snap@);
        }
        self.history.push_snapshot(snap);
        proof {
            let pre = old(self).history;
            let post = self.history;
            assert(post.entries().subrange(0, post.position()) =~= pre.entries().subrange(
                0,
                pre.position() + 1,
            ));
        }
    }

    pub fn can_undo(&self) -> (r: bool)
        ensures
            r == self.history.can_undo_spec(),
    {
        self.history.can_undo()
    }

    pub fn can_redo(&self) -> (r: bool)
        requires
            self.wf(),
        ensures
            r == self.history.can_redo_spec(),
    {
        self.history.can_redo()
    }

    /// Step the history back and adopt that snapshot. The selection and any
    /// open text-edit session are cleared in every case: either could name
    /// an id that the restored collection no longer carries.
    pub fn undo(&mut self)
        requires
            old(self).wf(),
        ensures
            final(self).wf(),
            final(self).selection is None,
            final(self).text_edit is None,
            old(self).history.can_undo_spec() ==> {
                &&& final(self).annotations@ == old(self).history.entries()[old(
                    self,
                ).history.position() - 1]@
                &&& final(self).history.position() == old(self).history.position() - 1
            },
            !old(self).history.can_undo_spec() ==> final(self).annotations@ == old(
                self,
            ).annotations@ && final(self).history.position() == old(self).history.position(),
            final(self).history.entries() == old(self).history.entries(),
            *final(self) == (EditorState {
                annotations: final(self).annotations,
                history: final(self).history,
                selection: None,
                text_edit: None,
                ..*old(self)
            }),
    {
        let snapshot = self.history.undo();
        self.selection = None;
        self.text_edit = None;
        match snapshot {
            Some(s) => {
                proof {
                    lemma_cloned_annotations(
                        old(self).history.entries()[old(self).history.position() - 1]@,
                        s@,
                    );
                }
                self.annotations = s;
            },
            None => {},
        }
    }

    /// Step the history forward and adopt that snapshot; clears the
    /// selection and any text-edit session exactly as [`Self::undo`] does.
    pub fn redo(&mut self)
        requires
            old(self).wf(),
        ensures
            final(self).wf(),
            final(self).selection is None,
            final(self).text_edit is None,
            old(self).history.can_redo_spec() ==> {
                &&& final(self).annotations@ == old(self).history.entries()[old(
                    self,
                ).history.position() + 1]@
                &&& final(self).history.position() == old(self).history.position() + 1
            },
            !old(self).history.can_redo_spec() ==> final(self).annotations@ == old(
                self,
            ).annotations@ && final(self).history.position() == old(self).history.position(),
            final(self).history.entries() == old(self).history.entries(),
            *final(self) == (EditorState {
                annotations: final(self).annotations,
                history: final(self).history,
                selection: None,
                text_edit: None,
                ..*old(self)
            }),
    {
        let snapshot = self.history.redo();
        self.selection = None;
        self.text_edit = None;
        match snapshot {
            Some(s) => {
                proof {
                    lemma_cloned_annotations(
                        old(self).history.entries()[old(self).history.position() + 1]@,
                        s@,
                    );
                }
                self.annotations = s;
            },
            None => {},
        }
    }

    /// Full reset around a newly loaded image: empty collection, fresh
    /// one-entry history, no selection or sessions, 1.0 zoom with a fit
    /// request. The id counter is deliberately not rolled back.
    pub fn reset_for_new_image(&mut self, width: u32, height: u32)
        requires
            old(self).wf(),
            1 <= width <= COORD_LIMIT,
            1 <= height <= COORD_LIMIT,
        ensures
            final(self).wf(),
            final(self).image == Some(EditorImage { width, height }),
            final(self).annotations@ == Seq::<Annotation>::empty(),
            final(self).selection is None,
            final(self).text_edit is None,
            final(self).drag_state is None,
            final(self).has_edited == false,
            final(self).exported == false,
            final(self).zoom == 100,
            final(self).history.entries().len() == 1,
            final(self).history.entries()[0]@ == Seq::<Annotation>::empty(),
            final(self).history.position() == 0,
            final(self).fit_zoom_to_view == true,
            final(self).next_id == old(self).next_id,
            *final(self) == (EditorState {
                image: Some(EditorImage { width, height }),
                annotations: final(self).annotations,
                history: final(self).history,
                selection: None,
                text_edit: None,
                drag_state: None,
                has_edited: false,
                exported: false,
                zoom: 100,
                fit_zoom_to_view: true,
                ..*old(self)
            }),
    {
        self.image = Some(EditorImage { width, height });
        self.annotations = Vec::new();
        self.selection = None;
        self.text_edit = None;
        self.drag_state = None;
        self.has_edited = false;
        self.exported = false;
        self.zoom = 100;
        self.history.clear_with(Vec::new());
        self.fit_zoom_to_view = true;
    }

    /// Reset when the editor window is closed: the image and all edits are
    /// dropped, the history collapses to one empty snapshot.
    pub fn reset_on_close(&mut self)
        requires
            old(self).wf(),
        ensures
            final(self).wf(),
            final(self).image is None,
            final(self).annotations@ == Seq::<Annotation>::empty(),
            final(self).selection is None,
            final(self).drag_state is None,
            final(self).text_edit is None,
            final(self).window_open == false,
            final(self).exported == false,
            final(self).has_edited == false,
            final(self).history.entries().len() == 1,
            final(self).history.position() == 0,
            *final(self) == (EditorState {
                image: None,
                annotations: final(self).annotations,
                history: final(self).history,
                selection: None,
                drag_state: None,
                text_edit: None,
                window_open: false,
                exported: false,
                has_edited: false,
                ..*old(self)
            }),
    {
        self.image = None;
        self.annotations = Vec::new();
        self.history.clear_with(Vec::new());
        self.selection = None;
        self.drag_state = None;
        self.text_edit = None;
        self.window_open = false;
        self.exported = false;
        self.has_edited = false;
    }

    /// Hand out the next annotation id; ids are never reused within a
    /// session, even across undo.
    pub fn next_annotation_id(&mut self) -> (id: AnnotationId)
        requires
            old(self).wf(),
            old(self).next_id < u64::MAX,
        ensures
            final(self).wf(),
            id == old(self).next_id,
            final(self).next_id == old(self).next_id + 1,
            *final(self) == (EditorState { next_id: final(self).next_id, ..*old(self) }),
    {
        let id = self.next_id;
        self.next_id = self.next_id + 1;
        id
    }

    /// Switch the active tool. A tool switch never implicitly interrupts an
    /// ongoing drag or text-edit session; only their own terminating events
    /// end them.
    pub fn set_tool(&mut self, tool: Tool)
        requires
            old(self).wf(),
        ensures
            final(self).wf(),
            final(self).active_tool == tool,
            *final(self) == (EditorState { active_tool: tool, ..*old(self) }),
    {
        self.active_tool = tool;
    }

    /// Remember the text size used for new text; callers persist the
    /// updated settings.
    pub fn set_text_size(&mut self, size: TextSize)
        requires
            old(self).wf(),
        ensures
            final(self).wf(),
            final(self).active_text_size == size,
            final(self).settings == (UserSettings { last_text_size: size, ..old(self).settings }),
            *final(self) == (EditorState {
                active_text_size: size,
                settings: final(self).settings,
                ..*old(self)
            }),
    {
        self.active_text_size = size;
        self.settings.last_text_size = size;
    }

    /// Remember whether the dock icon is wanted; callers persist the
    /// updated settings when the answer changed.
    pub fn set_dock_icon_visible(&mut self, visible: bool) -> (changed: bool)
        requires
            old(self).wf(),
        ensures
            final(self).wf(),
            final(self).settings.dock_icon_visible == visible,
            changed == (old(self).settings.dock_icon_visible != visible),
            *final(self) == (EditorState { settings: final(self).settings, ..*old(self) }),
    {
        if self.settings.dock_icon_visible == visible {
            return false;
        }
        self.settings.dock_icon_visible = visible;
        true
    }

    /// A newly detected image may replace the canvas without asking only
    /// while nothing could be lost: no image yet, or no annotations on it.
    pub fn accepts_image_silently(&self) -> (r: bool)
        ensures
            r == (self.image is None || self.annotations@.len() == 0),
    {
        self.image.is_none() || self.annotations.len() == 0
    }

    /// The position of the annotation with the given id, if it is present.
    pub fn find_annotation_index(&self, id: AnnotationId) -> (r: Option<usize>)
        requires
            self.wf(),
        ensures
            match r {
                Some(i) => i < self.annotations@.len() && self.annotations@[i as int].id == id && i
                    == idx_of_id(self.annotations@, id),
                None => !has_id(self.annotations@, id),
            },
    {
        let n = self.annotations.len();
        let mut i: usize = 0;
        while i < n
            invariant
                self.wf(),
                n == self.annotations@.len(),
                i <= n,
                forall|j: int| 0 <= j < i ==> (#[trigger] self.annotations@[j]).id != id,
            decreases n - i,
        {
            if self.annotations[i].id == id {
                proof {
                    lemma_idx_of_id_unique(self.annotations@, id, i as int);
                }
                return Some(i);
            }
            i = i + 1;
        }
        None
    }

    /// Set the active color, remember it as the preference, and recolor the
    /// selected annotation (with a history record) when that changes it.
    /// Callers persist the updated settings.
    pub fn set_color(&mut self, rgba: [u8; 4])
        requires
            old(self).wf(),
        ensures
            final(self).wf(),
            final(self).active_color == rgba,
            final(self).settings == (UserSettings { last_color: rgba, ..old(self).settings }),
            *final(self) == (EditorState {
                active_color: rgba,
                settings: final(self).settings,
                annotations: final(self).annotations,
                history: final(self).history,
                has_edited: final(self).has_edited,
                exported: final(self).exported,
                ..*old(self)
            }),
            final(self).has_edited == old(self).has_edited || final(self).has_edited,
            match old(self).selection {
                Some(id) => {
                    let i = idx_of_id(old(self).annotations@, id);
                    if old(self).annotations@[i].color == rgba {
                        final(self).annotations@ == old(self).annotations@ && final(self).history
                            == old(self).history
                    } else {
                        &&& final(self).annotations@ == old(self).annotations@.update(
                            i,
                            Annotation { color: rgba, ..old(self).annotations@[i] },
                        )
                        &&& final(self).has_edited && !final(self).exported
                        &&& history_recorded(
                            old(self).history,
                            final(self).history,
                            final(self).annotations@,
                        )
                    }
                },
                None => final(self).annotations@ == old(self).annotations@ && final(self).history
                    == old(self).history,
            },
    {
        self.active_color = rgba;
        self.settings.last_color = rgba;
        let selected = self.selection;
        match selected {
            Some(id) => {
                match self.find_annotation_index(id) {
                    Some(i) => {
                        if !rgba_eq(&self.annotations[i].color, &rgba) {
                            let current = &self.annotations[i];
                            let recolored = Annotation {
                                id: current.id,
                                kind: current.kind.clone(),
                                color: rgba,
                                stroke_width: current.stroke_width,
                            };
                            self.annotations[i] = recolored;
                            self.mark_changed();
                            self.push_history_snapshot();
                        }
                    },
                    None => {},
                }
            },
            None => {},
        }
    }

    /// Set the active stroke width, remember it as the preference, and
    /// restroke the selected annotation (with a history record) when that
    /// changes it. Callers persist the updated settings.
    pub fn set_stroke(&mut self, stroke: StrokeWidth)
        requires
            old(self).wf(),
        ensures
            final(self).wf(),
            final(self).active_stroke == stroke,
            final(self).settings == (UserSettings { last_stroke: stroke, ..old(self).settings }),
            *final(self) == (EditorState {
                active_stroke: stroke,
                settings: final(self).settings,
                annotations: final(self).annotations,
                history: final(self).history,
                has_edited: final(self).has_edited,
                exported: final(self).exported,
                ..*old(self)
            }),
            final(self).has_edited == old(self).has_edited || final(self).has_edited,
            match old(self).selection {
                Some(id) => {
                    let i = idx_of_id(old(self).annotations@, id);
                    if old(self).annotations@[i].stroke_width == stroke {
                        final(self).annotations@ == old(self).annotations@ && final(self).history
                            == old(self).history
                    } else {
                        &&& final(self).annotations@ == old(self).annotations@.update(
                            i,
                            Annotation { stroke_width: stroke, ..old(self).annotations@[i] },
                        )
                        &&& final(self).has_edited && !final(self).exported
                        &&& history_recorded(
                            old(self).history,
                            final(self).history,
                            final(self).annotations@,
                        )
                    }
                },
                None => final(self).annotations@ == old(self).annotations@ && final(self).history
                    == old(self).history,
            },
    {
        self.active_stroke = stroke;
        self.settings.last_stroke = stroke;
        let selected = self.selection;
        match selected {
            Some(id) => {
                match self.find_annotation_index(id) {
                    Some(i) => {
                        if self.annotations[i].stroke_width != stroke {
                            let current = &self.annotations[i];
                            let restroked = Annotation {
                                id: current.id,
                                kind: current.kind.clone(),
                                color: current.color,
                                stroke_width: stroke,
                            };
                            self.annotations[i] = restroked;
                            self.mark_changed();
                            self.push_history_snapshot();
                        }
                    },
                    None => {},
                }
            },
            None => {},
        }
    }

    /// Append a committed annotation, mark the edit, and record a snapshot.
    pub fn add_annotation(&mut self, annotation: Annotation)
        requires
            old(self).wf(),
            annotation_in_range(annotation),
            kind_committed(annotation.kind),
            1 <= annotation.id < old(self).next_id,
            !has_id(old(self).annotations@, annotation.id),
        ensures
            final(self).wf(),
            final(self).annotations@ == old(self).annotations@.push(annotation),
            final(self).has_edited && !final(self).exported,
            history_recorded(old(self).history, final(self).history, final(self).annotations@),
            *final(self) == (EditorState {
                annotations: final(self).annotations,
                history: final(self).history,
                has_edited: true,
                exported: false,
                ..*old(self)
            }),
    {
        self.annotations.push(annotation);
        proof {
            let s = old(self).annotations@;
            let t = self.annotations@;
            assert forall|k: int|
                0 <= k < t.len() implies 1 <= (#[trigger] t[k]).id < self.next_id
                && annotation_in_range(t[k]) && kind_committed(t[k].kind) by {
                if k < s.len() {
                    assert(t[k] == s[k]);
                } else {
                    assert(t[k] == annotation);
                }
            }
            assert forall|p: int, q: int| 0 <= p < q < t.len() implies t[p].id != t[q].id by {
                if q < s.len() {
                    assert(t[p] == s[p] && t[q] == s[q]);
                } else {
                    assert(t[q] == annotation);
                    assert(t[p] == s[p]);
                    if s[p].id == annotation.id {
                        assert(has_id(s, annotation.id));
                    }
                }
            }
            match self.selection {
                Some(id) => {
                    let w = choose|i: int| 0 <= i < s.len() && (#[trigger] s[i]).id == id;
                    assert(t[w] == s[w]);
                    assert(has_id(t, id));
                },
                None => {},
            }
        }
        self.mark_changed();
        self.push_history_snapshot();
    }

    /// Remove the selected annotation (the selection always names a present
    /// one), clear the selection, mark the edit, and record a snapshot.
    /// With nothing selected, nothing happens.
    pub fn delete_selected(&mut self)
        requires
            old(self).wf(),
        ensures
            final(self).wf(),
            match old(self).selection {
                Some(id) => {
                    &&& final(self).selection is None
                    &&& final(self).annotations@ == old(self).annotations@.remove(
                        idx_of_id(old(self).annotations@, id),
                    )
                    &&& !has_id(final(self).annotations@, id)
                    &&& final(self).has_edited && !final(self).exported
                    &&& history_recorded(
                        old(self).history,
                        final(self).history,
                        final(self).annotations@,
                    )
                    &&& *final(self) == (EditorState {
                        annotations: final(self).annotations,
                        history: final(self).history,
                        selection: None,
                        has_edited: true,
                        exported: false,
                        ..*old(self)
                    })
                },
                None => *final(self) == *old(self),
            },
    {
        let selected = self.selection;
        match selected {
            Some(id) => {
                self.selection = None;
                match self.find_annotation_index(id) {
                    Some(i) => {
                        self.annotations.remove(i);
                        proof {
                            let s = old(self).annotations@;
                            let t = self.annotations@;
                            let i0 = idx_of_id(s, id);
                            assert forall|k: int| 0 <= k < t.len() implies (#[trigger] t[k]).id
                                != id && 1 <= t[k].id < self.next_id && annotation_in_range(t[k])
                                && kind_committed(t[k].kind) by {
                                if k < i0 {
                                    assert(t[k] == s[k]);
                                } else {
                                    assert(t[k] == s[k + 1]);
                                }
                            }
                            assert forall|p: int, q: int| 0 <= p < q < t.len() implies t[p].id
                                != t[q].id by {
                                assert(t[p] == if p < i0 {
                                    s[p]
                                } else {
                                    s[p + 1]
                                });
                                assert(t[q] == if q < i0 {
                                    s[q]
                                } else {
                                    s[q + 1]
                                });
                            }
                        }
                    },
                    None => {},
                }
                self.mark_changed();
                self.push_history_snapshot();
            },
            None => {},
        }
    }
}

/// The zoom presets, in percent, that the zoom shortcuts step through.
pub open spec fn zoom_steps() -> Seq<int> {
    seq![25, 33, 50, 67, 75, 100, 150, 200, 300, 400]
}

pub open spec fn zdiff(zoom: int, step: int) -> int {
    abs_of(zoom - step)
}

/// The preset nearest to `zoom` among the first `k`, earliest on ties.
pub open spec fn best_zoom_idx_upto(zoom: int, k: int) -> int
    recommends
        1 <= k <= zoom_steps().len(),
    decreases k,
{
    if k <= 1 {
        0
    } else {
        let prev = best_zoom_idx_upto(zoom, k - 1);
        if zdiff(zoom, zoom_steps()[k - 1]) < zdiff(zoom, zoom_steps()[prev]) {
            k - 1
        } else {
            prev
        }
    }
}

pub open spec fn nearest_zoom_idx(zoom: int) -> int {
    best_zoom_idx_upto(zoom, zoom_steps().len() as int)
}

/// The `i`th zoom preset.
pub fn zoom_step_value(i: usize) -> (r: u32)
    requires
        i < 10,
    ensures
        r as int == zoom_steps()[i as int],
        25 <= r <= 400,
{
    let r: u32 = match i {
        0 => 25,
        1 => 33,
        2 => 50,
        3 => 67,
        4 => 75,
        5 => 100,
        6 => 150,
        7 => 200,
        8 => 300,
        _ => 400,
    };
    r
}

impl EditorState {
    /// The index of the zoom preset nearest the current zoom (earliest on
    /// ties).
    pub fn nearest_zoom_step(&self) -> (r: usize)
        ensures
            r < 10,
            r as int == nearest_zoom_idx(self.zoom as int),
    {
        let z = self.zoom;
        let mut best_idx: usize = 0;
        let mut best_diff: u32 = {
            let s = zoom_step_value(0);
            if z >= s {
                z - s
            } else {
                s - z
            }
        };
        let mut k: usize = 1;
        while k < 10
            invariant
                1 <= k <= 10,
                best_idx < k,
                z == self.zoom,
                best_idx as int == best_zoom_idx_upto(z as int, k as int),
                best_diff == zdiff(z as int, zoom_steps()[best_idx as int]),
            decreases 10 - k,
        {
            let s = zoom_step_value(k);
            let diff: u32 = if z >= s {
                z - s
            } else {
                s - z
            };
            if diff < best_diff {
                best_idx = k;
                best_diff = diff;
            }
            k = k + 1;
        }
        best_idx
    }

    /// Step the zoom up to the next preset, if there is one.
    pub fn zoom_in(&mut self)
        requires
            old(self).wf(),
        ensures
            final(self).wf(),
            ({
                let i = nearest_zoom_idx(old(self).zoom as int);
                if i + 1 < 10 {
                    final(self).zoom as int == zoom_steps()[i + 1]
                } else {
                    final(self).zoom == old(self).zoom
                }
            }),
            *final(self) == (EditorState { zoom: final(self).zoom, ..*old(self) }),
    {
        let idx = self.nearest_zoom_step();
        if idx + 1 < 10 {
            self.zoom = zoom_step_value(idx + 1);
        }
    }

    /// Step the zoom down to the previous preset, if there is one.
    pub fn zoom_out(&mut self)
        requires
            old(self).wf(),
        ensures
            final(self).wf(),
            ({
                let i = nearest_zoom_idx(old(self).zoom as int);
                if i > 0 {
                    final(self).zoom as int == zoom_steps()[i - 1]
                } else {
                    final(self).zoom == old(self).zoom
                }
            }),
            *final(self) == (EditorState { zoom: final(self).zoom, ..*old(self) }),
    {
        let idx = self.nearest_zoom_step();
        if idx > 0 {
            self.zoom = zoom_step_value(idx - 1);
        }
    }

    /// Fit the zoom to the viewport: the larger zoom (at least 10%) at
    /// which the image still fits each axis, clamped to the preset range.
    pub fn set_fit_zoom(&mut self, view_w: u32, view_h: u32)
        requires
            old(self).wf(),
            old(self).image is Some,
            view_w <= 1000000,
            view_h <= 1000000,
        ensures
            final(self).wf(),
            ({
                let img = old(self).image->Some_0;
                let ws = spec_max(view_w as int * 100 / img.width as int, 10);
                let hs = spec_max(view_h as int * 100 / img.height as int, 10);
                let fit = spec_min(ws, hs);
                final(self).zoom as int == if fit < 25 {
                    25
                } else if fit > 400 {
                    400
                } else {
                    fit
                }
            }),
            *final(self) == (EditorState { zoom: final(self).zoom, ..*old(self) }),
    {
        let img = match &self.image {
            Some(img) => *img,
            None => EditorImage { width: 1, height: 1 },
        };
        let ws: u32 = {
            let s = view_w * 100 / img.width;
            if s < 10 {
                10
            } else {
                s
            }
        };
        let hs: u32 = {
            let s = view_h * 100 / img.height;
            if s < 10 {
                10
            } else {
                s
            }
        };
        let fit = if ws <= hs {
            ws
        } else {
            hs
        };
        self.zoom = if fit < 25 {
            25
        } else if fit > 400 {
            400
        } else {
            fit
        };
    }
}

/// Exact equality of two color values.
pub fn rgba_eq(a: &[u8; 4], b: &[u8; 4]) -> (r: bool)
    ensures
        r == (*a == *b),
{
    let r = a[0] == b[0] && a[1] == b[1] && a[2] == b[2] && a[3] == b[3];
    proof {
        broadcast use vstd::array::group_array_axioms;

        if r {
            assert(*a =~= *b);
        } else {
            // equal arrays would have made every comparison above true
            if *a == *b {
                assert(a@ == b@);
                assert(false);
            }
        }
    }
    r
}

/// In a well-formed sequence ids are unique, so any index carrying `id` is
/// the one `idx_of_id` names.
pub proof fn lemma_idx_of_id_unique(s: Seq<Annotation>, id: u64, i: int)
    requires
        forall|p: int, q: int| 0 <= p < q < s.len() ==> s[p].id != s[q].id,
        0 <= i < s.len(),
        s[i].id == id,
    ensures
        idx_of_id(s, id) == i,
{
    let j = idx_of_id(s, id);
    assert(0 <= j < s.len() && s[j].id == id);
}

} // verus!
