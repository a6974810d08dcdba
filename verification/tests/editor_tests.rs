use snapmark_core::annotation::Annotation;
use snapmark_core::annotation::AnnotationKind;
use snapmark_core::annotation::Handle;
use snapmark_core::annotation::StrokeWidth;
use snapmark_core::annotation::TextSize;
use snapmark_core::annotation::Tool;
use snapmark_core::geom::Point;
use snapmark_core::geom::RectData;
use snapmark_core::interact::apply_text_edit;
use snapmark_core::interact::begin_drag;
use snapmark_core::interact::detect_handle_hit;
use snapmark_core::interact::finish_drag;
use snapmark_core::interact::handle_click;
use snapmark_core::interact::handle_double_click;
use snapmark_core::interact::pick_annotation;
use snapmark_core::interact::text_edit_outcome;
use snapmark_core::interact::handle_shortcut;
use snapmark_core::interact::update_drag;
use snapmark_core::interact::EditorKey;
use snapmark_core::interact::ShortcutRequest;
use snapmark_core::interact::TextEditOutcome;
use snapmark_core::state::EditorState;
use snapmark_core::state::TextEditTarget;
use snapmark_core::state::UserSettings;
use snapmark_core::state::VibrancyCommand;
use snapmark_core::state::VisualEffectsMode;
use snapmark_core::state::VisualEffectsState;

fn editor_with_image() -> EditorState {
    let mut state = EditorState::default();
    state.reset_for_new_image(800, 600);
    state
}

fn draw_rect(state: &mut EditorState, from: Point, to: Point) {
    state.set_tool(Tool::Rectangle);
    begin_drag(state, from);
    update_drag(state, to, false);
    finish_drag(state);
}

#[test]
fn tiny_drag_draws_nothing_but_a_real_drag_draws_one() {
    let mut state = editor_with_image();
    state.set_tool(Tool::Rectangle);
    begin_drag(&mut state, Point::new(10, 10));
    update_drag(&mut state, Point::new(11, 11), false);
    finish_drag(&mut state);
    assert_eq!(state.annotations.len(), 0);

    state.set_tool(Tool::Rectangle);
    begin_drag(&mut state, Point::new(10, 10));
    update_drag(&mut state, Point::new(30, 30), false);
    finish_drag(&mut state);
    assert_eq!(state.annotations.len(), 1);
    match &state.annotations[0].kind {
        AnnotationKind::Rectangle { rect } => {
            assert_eq!(rect.min, Point::new(10, 10));
            assert_eq!(rect.max, Point::new(30, 30));
        }
        other => panic!("unexpected kind {:?}", other),
    }
    // committing a draw hands the editor back to the select tool
    assert_eq!(state.active_tool, Tool::Select);
}

#[test]
fn undo_and_redo_always_clear_selection_and_text_session() {
    let mut state = editor_with_image();
    draw_rect(&mut state, Point::new(10, 10), Point::new(30, 30));
    handle_click(&mut state, Point::new(10, 20));
    assert!(state.selection.is_some());
    state.undo();
    assert!(state.selection.is_none());
    assert!(state.text_edit.is_none());
    assert_eq!(state.annotations.len(), 0);
    state.redo();
    assert!(state.selection.is_none());
    assert!(state.text_edit.is_none());
    assert_eq!(state.annotations.len(), 1);
    // with nothing left to redo the sessions still end up cleared
    handle_click(&mut state, Point::new(10, 20));
    assert!(state.selection.is_some());
    state.redo();
    assert!(state.selection.is_none());
}

#[test]
fn rectangle_resize_scenario_records_history() {
    let mut state = editor_with_image();
    draw_rect(&mut state, Point::new(10, 10), Point::new(20, 20));
    assert_eq!(state.annotations.len(), 1);

    // select it with a click on its outline
    handle_click(&mut state, Point::new(10, 15));
    let id = state.selection.expect("selection after click");
    assert_eq!(id, state.annotations[0].id);

    // grab the bottom-right handle and drag it to (40, 40)
    let hit = detect_handle_hit(&state, id, Point::new(24, 24)).expect("handle under pointer");
    assert_eq!(hit.0, Handle::BottomRight);
    begin_drag(&mut state, Point::new(24, 24));
    update_drag(&mut state, Point::new(40, 40), false);
    finish_drag(&mut state);

    match &state.annotations[0].kind {
        AnnotationKind::Rectangle { rect } => {
            assert_eq!(rect.min, Point::new(10, 10));
            assert_eq!(rect.max, Point::new(40, 40));
        }
        other => panic!("unexpected kind {:?}", other),
    }

    // two entries beyond the initial empty snapshot: create + resize
    assert!(state.can_undo());
    state.undo();
    assert!(state.can_undo());
    state.undo();
    assert!(!state.can_undo());
    assert_eq!(state.annotations.len(), 0);
}

#[test]
fn text_click_type_commit_and_delete() {
    let mut state = editor_with_image();
    state.set_tool(Tool::Text);
    handle_click(&mut state, Point::new(50, 50));
    let session = state.text_edit.clone().expect("text session");
    match session.target {
        TextEditTarget::NewText { pos } => assert_eq!(pos, Point::new(50, 50)),
        other => panic!("unexpected target {:?}", other),
    }

    apply_text_edit(&mut state, session.target, String::from("hi"), TextSize::medium());
    assert!(state.text_edit.is_none());
    assert_eq!(state.annotations.len(), 1);
    match &state.annotations[0].kind {
        AnnotationKind::Text { pos, content, size } => {
            assert_eq!(*pos, Point::new(50, 50));
            assert_eq!(content, "hi");
            assert_eq!(size.as_u8(), 18);
        }
        other => panic!("unexpected kind {:?}", other),
    }

    handle_click(&mut state, Point::new(55, 60));
    assert!(state.selection.is_some());
    state.delete_selected();
    assert!(state.selection.is_none());
    assert_eq!(state.annotations.len(), 0);
}

#[test]
fn empty_new_text_is_discarded_and_empty_label_falls_back_to_arrow() {
    let mut state = editor_with_image();
    apply_text_edit(
        &mut state,
        TextEditTarget::NewText { pos: Point::new(5, 5) },
        String::from("   "),
        TextSize::medium(),
    );
    assert_eq!(state.annotations.len(), 0);

    apply_text_edit(
        &mut state,
        TextEditTarget::NewArrowText {
            from: Point::new(0, 0),
            to: Point::new(40, 0),
            color: [9, 9, 9, 255],
            stroke: StrokeWidth::Thick,
        },
        String::from("  \t "),
        TextSize::medium(),
    );
    assert_eq!(state.annotations.len(), 1);
    match &state.annotations[0].kind {
        AnnotationKind::Arrow { from, to } => {
            assert_eq!(*from, Point::new(0, 0));
            assert_eq!(*to, Point::new(40, 0));
        }
        other => panic!("unexpected kind {:?}", other),
    }
    assert_eq!(state.annotations[0].color, [9, 9, 9, 255]);
}

#[test]
fn arrow_with_text_commits_only_through_its_text_session() {
    let mut state = editor_with_image();
    state.set_tool(Tool::ArrowWithText);
    begin_drag(&mut state, Point::new(10, 10));
    update_drag(&mut state, Point::new(60, 10), false);
    finish_drag(&mut state);
    // no shape yet: the arrow waits for its label
    assert_eq!(state.annotations.len(), 0);
    let session = state.text_edit.clone().expect("label session");
    apply_text_edit(&mut state, session.target, String::from("look"), TextSize::medium());
    assert_eq!(state.annotations.len(), 1);
    match &state.annotations[0].kind {
        AnnotationKind::ArrowWithText { from, to, text, .. } => {
            assert_eq!(*from, Point::new(10, 10));
            assert_eq!(*to, Point::new(60, 10));
            assert_eq!(text, "look");
        }
        other => panic!("unexpected kind {:?}", other),
    }
}

#[test]
fn double_click_reopens_existing_text() {
    let mut state = editor_with_image();
    apply_text_edit(
        &mut state,
        TextEditTarget::NewText { pos: Point::new(50, 50) },
        String::from("hello"),
        TextSize::medium(),
    );
    let id = state.annotations[0].id;
    handle_double_click(&mut state, Point::new(55, 60));
    assert_eq!(state.selection, Some(id));
    let session = state.text_edit.clone().expect("edit session");
    assert_eq!(session.buffer, "hello");
    match session.target {
        TextEditTarget::Existing { annotation_id } => assert_eq!(annotation_id, id),
        other => panic!("unexpected target {:?}", other),
    }
    apply_text_edit(&mut state, session.target, String::from("bye"), TextSize::from_points(20));
    match &state.annotations[0].kind {
        AnnotationKind::Text { content, size, .. } => {
            assert_eq!(content, "bye");
            assert_eq!(size.as_u8(), 20);
        }
        other => panic!("unexpected kind {:?}", other),
    }
}

#[test]
fn move_gesture_recomputes_from_the_original() {
    let mut state = editor_with_image();
    draw_rect(&mut state, Point::new(10, 10), Point::new(20, 20));
    // select and start moving from a point on the outline away from handles
    begin_drag(&mut state, Point::new(13, 10));
    assert!(state.selection.is_some());
    update_drag(&mut state, Point::new(18, 10), false);
    update_drag(&mut state, Point::new(23, 15), false);
    finish_drag(&mut state);
    match &state.annotations[0].kind {
        AnnotationKind::Rectangle { rect } => {
            assert_eq!(rect.min, Point::new(20, 15));
            assert_eq!(rect.max, Point::new(30, 25));
        }
        other => panic!("unexpected kind {:?}", other),
    }
}

#[test]
fn clicking_empty_canvas_clears_selection() {
    let mut state = editor_with_image();
    draw_rect(&mut state, Point::new(10, 10), Point::new(20, 20));
    handle_click(&mut state, Point::new(10, 15));
    assert!(state.selection.is_some());
    handle_click(&mut state, Point::new(400, 400));
    assert!(state.selection.is_none());
}

#[test]
fn topmost_shape_wins_the_pick() {
    let mut state = editor_with_image();
    draw_rect(&mut state, Point::new(10, 10), Point::new(30, 30));
    draw_rect(&mut state, Point::new(10, 10), Point::new(30, 30));
    let below = state.annotations[0].id;
    let above = state.annotations[1].id;
    assert_ne!(below, above);
    assert_eq!(pick_annotation(&state, Point::new(10, 20)), Some(above));
}

#[test]
fn ids_keep_increasing_across_undo() {
    let mut state = editor_with_image();
    draw_rect(&mut state, Point::new(10, 10), Point::new(30, 30));
    let first = state.annotations[0].id;
    state.undo();
    draw_rect(&mut state, Point::new(10, 10), Point::new(30, 30));
    let second = state.annotations[0].id;
    assert!(second > first);
}

#[test]
fn set_color_restyles_only_the_selection_and_records_history() {
    let mut state = editor_with_image();
    draw_rect(&mut state, Point::new(10, 10), Point::new(30, 30));
    // no selection: only the active color changes, nothing is recorded
    state.set_color([1, 2, 3, 255]);
    assert_eq!(state.active_color, [1, 2, 3, 255]);
    assert_eq!(state.annotations[0].color, [229, 62, 62, 255]);

    handle_click(&mut state, Point::new(10, 20));
    state.set_color([7, 8, 9, 255]);
    assert_eq!(state.annotations[0].color, [7, 8, 9, 255]);
    state.set_stroke(StrokeWidth::Thick);
    assert_eq!(state.annotations[0].stroke_width, StrokeWidth::Thick);
    // undo unwinds the restroke, then the recolor
    state.undo();
    // selection is gone after undo, so restyling changes nothing stored
    state.set_color([50, 50, 50, 255]);
    assert_eq!(state.annotations[0].color, [7, 8, 9, 255]);
}

#[test]
fn delete_without_selection_is_a_no_op() {
    let mut state = editor_with_image();
    draw_rect(&mut state, Point::new(10, 10), Point::new(30, 30));
    state.delete_selected();
    assert_eq!(state.annotations.len(), 1);
}

#[test]
fn zoom_steps_up_and_down_through_the_presets() {
    let mut state = editor_with_image();
    assert_eq!(state.zoom, 100);
    state.zoom_in();
    assert_eq!(state.zoom, 150);
    state.zoom_out();
    state.zoom_out();
    assert_eq!(state.zoom, 75);
    for _ in 0..20 {
        state.zoom_in();
    }
    assert_eq!(state.zoom, 400);
    for _ in 0..20 {
        state.zoom_out();
    }
    assert_eq!(state.zoom, 25);
}

#[test]
fn fit_zoom_clamps_to_the_preset_range() {
    let mut state = editor_with_image();
    state.set_fit_zoom(400, 600);
    assert_eq!(state.zoom, 50);
    state.set_fit_zoom(100000, 100000);
    assert_eq!(state.zoom, 400);
    state.set_fit_zoom(10, 10);
    assert_eq!(state.zoom, 25);
}

#[test]
fn reset_for_new_image_clears_everything_but_the_counter() {
    let mut state = editor_with_image();
    draw_rect(&mut state, Point::new(10, 10), Point::new(30, 30));
    handle_click(&mut state, Point::new(10, 20));
    let counter_before = state.next_id;
    state.reset_for_new_image(320, 200);
    assert_eq!(state.annotations.len(), 0);
    assert!(state.selection.is_none());
    assert!(state.text_edit.is_none());
    assert!(state.drag_state.is_none());
    assert!(!state.can_undo());
    assert_eq!(state.zoom, 100);
    assert_eq!(state.next_id, counter_before);
    assert!(state.accepts_image_silently());
}

#[test]
fn text_edit_commit_rules_follow_the_target() {
    let new_text = TextEditTarget::NewText { pos: Point::new(0, 0) };
    let label = TextEditTarget::NewArrowText {
        from: Point::new(0, 0),
        to: Point::new(1, 1),
        color: [0, 0, 0, 255],
        stroke: StrokeWidth::Thin,
    };
    let existing = TextEditTarget::Existing { annotation_id: 1 };

    // escape always cancels
    assert_eq!(text_edit_outcome(&new_text, true, true, false, true), TextEditOutcome::Cancel);
    // a new text block needs the modifier chord
    assert_eq!(text_edit_outcome(&new_text, true, false, false, false), TextEditOutcome::Keep);
    assert_eq!(text_edit_outcome(&new_text, true, true, false, false), TextEditOutcome::Commit);
    assert_eq!(text_edit_outcome(&new_text, false, false, true, false), TextEditOutcome::Keep);
    // a new arrow label commits on plain enter or click-away
    assert_eq!(text_edit_outcome(&label, true, false, false, false), TextEditOutcome::Commit);
    assert_eq!(text_edit_outcome(&label, false, false, true, false), TextEditOutcome::Commit);
    // existing text commits on the chord or click-away
    assert_eq!(text_edit_outcome(&existing, true, false, false, false), TextEditOutcome::Keep);
    assert_eq!(text_edit_outcome(&existing, true, true, false, false), TextEditOutcome::Commit);
    assert_eq!(text_edit_outcome(&existing, false, false, true, false), TextEditOutcome::Commit);
    // nothing happened, nothing changes
    assert_eq!(text_edit_outcome(&existing, false, false, false, false), TextEditOutcome::Keep);
}

#[test]
fn vibrancy_sync_follows_the_mode_and_support() {
    let mut fx = VisualEffectsState::default();
    // closed window: tear down
    assert_eq!(fx.begin_sync(false), VibrancyCommand::Remove);
    assert!(!fx.enabled);
    // open window without support: fall back with a badge
    assert_eq!(fx.begin_sync(true), VibrancyCommand::Remove);
    assert_eq!(fx.mode, VisualEffectsMode::EguiOnly);
    assert!(fx.show_fallback_badge);
    // with support, hybrid mode asks for an install and success enables it
    let mut fx2 = VisualEffectsState::default();
    fx2.supports_vibrancy = true;
    assert_eq!(fx2.begin_sync(true), VibrancyCommand::Install);
    fx2.finish_install(None);
    assert!(fx2.enabled);
    fx2.finish_install(Some(String::from("compositor went away")));
    assert!(!fx2.enabled);
    assert_eq!(fx2.mode, VisualEffectsMode::EguiOnly);
}

#[test]
fn tool_switch_never_interrupts_an_active_drag() {
    let mut state = editor_with_image();
    state.set_tool(Tool::Ellipse);
    begin_drag(&mut state, Point::new(10, 10));
    update_drag(&mut state, Point::new(40, 40), false);
    assert!(state.drag_state.is_some());
    // switching tools mid-gesture leaves the session alone...
    state.set_tool(Tool::Select);
    assert!(state.drag_state.is_some());
    state.set_tool(Tool::Ellipse);
    assert!(state.drag_state.is_some());
    // ...only the gesture's own end closes it
    finish_drag(&mut state);
    assert!(state.drag_state.is_none());
    assert_eq!(state.annotations.len(), 1);
}

#[test]
fn shift_constrains_a_rectangle_draw_to_a_square() {
    let mut state = editor_with_image();
    state.set_tool(Tool::Rectangle);
    begin_drag(&mut state, Point::new(10, 10));
    update_drag(&mut state, Point::new(40, 20), true);
    finish_drag(&mut state);
    match &state.annotations[0].kind {
        AnnotationKind::Rectangle { rect } => {
            assert_eq!(rect.min, Point::new(10, 10));
            assert_eq!(rect.max, Point::new(40, 40));
        }
        other => panic!("unexpected kind {:?}", other),
    }
}

#[test]
fn settings_remember_the_last_used_style() {
    let mut state = EditorState::with_settings(UserSettings::default());
    state.set_color([1, 1, 1, 255]);
    state.set_stroke(StrokeWidth::Thin);
    state.set_text_size(TextSize::from_points(24));
    assert_eq!(state.settings.last_color, [1, 1, 1, 255]);
    assert_eq!(state.settings.last_stroke, StrokeWidth::Thin);
    assert_eq!(state.settings.last_text_size.as_u8(), 24);
    assert!(state.set_dock_icon_visible(false));
    assert!(!state.set_dock_icon_visible(false));
}

#[test]
fn stale_drag_target_is_skipped() {
    let mut state = editor_with_image();
    draw_rect(&mut state, Point::new(10, 10), Point::new(20, 20));
    // start moving the shape
    begin_drag(&mut state, Point::new(13, 10));
    assert!(state.drag_state.is_some());
    // the shape vanishes behind the drag's back (defensive path)
    state.annotations.clear();
    state.selection = None;
    update_drag(&mut state, Point::new(50, 50), false);
    finish_drag(&mut state);
    assert_eq!(state.annotations.len(), 0);
}

#[test]
fn drawn_annotation_uses_the_active_style() {
    let mut state = editor_with_image();
    state.set_color([10, 20, 30, 255]);
    state.set_stroke(StrokeWidth::Thick);
    state.set_tool(Tool::Arrow);
    begin_drag(&mut state, Point::new(0, 0));
    update_drag(&mut state, Point::new(50, 50), false);
    finish_drag(&mut state);
    let a: &Annotation = &state.annotations[0];
    assert_eq!(a.color, [10, 20, 30, 255]);
    assert_eq!(a.stroke_width, StrokeWidth::Thick);
    match &a.kind {
        AnnotationKind::Arrow { from, to } => {
            assert_eq!(*from, Point::new(0, 0));
            assert_eq!(*to, Point::new(50, 50));
        }
        other => panic!("unexpected kind {:?}", other),
    }
    assert!(state.has_edited);
    assert!(!state.exported);
}

#[test]
fn rect_data_is_reexported_at_the_crate_root() {
    let r = snapmark_core::RectData {
        min: snapmark_core::Point::new(1, 2),
        max: snapmark_core::Point::new(3, 4),
    };
    assert_eq!(r.normalize().min, snapmark_core::Point::new(1, 2));
}

#[test]
fn shortcuts_switch_tools_and_route_requests() {
    let mut state = editor_with_image();
    assert_eq!(
        handle_shortcut(&mut state, EditorKey::ArrowKey, false, false),
        ShortcutRequest::Nothing
    );
    assert_eq!(state.active_tool, Tool::Arrow);
    handle_shortcut(&mut state, EditorKey::ArrowKey, false, true);
    assert_eq!(state.active_tool, Tool::ArrowWithText);
    handle_shortcut(&mut state, EditorKey::RectangleKey, false, false);
    assert_eq!(state.active_tool, Tool::Rectangle);
    handle_shortcut(&mut state, EditorKey::EllipseKey, false, false);
    assert_eq!(state.active_tool, Tool::Ellipse);
    handle_shortcut(&mut state, EditorKey::TextKey, false, false);
    assert_eq!(state.active_tool, Tool::Text);

    assert_eq!(
        handle_shortcut(&mut state, EditorKey::CopyKey, true, false),
        ShortcutRequest::CopyImage
    );
    assert_eq!(
        handle_shortcut(&mut state, EditorKey::SaveKey, true, false),
        ShortcutRequest::SaveImage
    );
    assert_eq!(
        handle_shortcut(&mut state, EditorKey::PasteKey, true, false),
        ShortcutRequest::PasteImage
    );
    assert_eq!(
        handle_shortcut(&mut state, EditorKey::QuitKey, true, false),
        ShortcutRequest::QuitApp
    );
    // without the modifier those keys do nothing
    assert_eq!(
        handle_shortcut(&mut state, EditorKey::CopyKey, false, false),
        ShortcutRequest::Nothing
    );
}

#[test]
fn escape_closes_sessions_then_the_tool_then_the_editor() {
    let mut state = editor_with_image();
    state.set_tool(Tool::Text);
    handle_click(&mut state, Point::new(50, 50));
    assert!(state.text_edit.is_some());
    // first escape: drop the text session, keep the tool
    assert_eq!(
        handle_shortcut(&mut state, EditorKey::Escape, false, false),
        ShortcutRequest::Nothing
    );
    assert!(state.text_edit.is_none());
    assert_eq!(state.active_tool, Tool::Text);
    // second escape: back to the select tool
    handle_shortcut(&mut state, EditorKey::Escape, false, false);
    assert_eq!(state.active_tool, Tool::Select);
    // third escape: ask to close the editor
    assert_eq!(
        handle_shortcut(&mut state, EditorKey::Escape, false, false),
        ShortcutRequest::CloseEditor
    );
}

#[test]
fn undo_shortcut_rewinds_and_zoom_shortcuts_step() {
    let mut state = editor_with_image();
    draw_rect(&mut state, Point::new(10, 10), Point::new(30, 30));
    assert_eq!(
        handle_shortcut(&mut state, EditorKey::UndoKey, true, false),
        ShortcutRequest::Nothing
    );
    assert_eq!(state.annotations.len(), 0);
    handle_shortcut(&mut state, EditorKey::UndoKey, true, true);
    assert_eq!(state.annotations.len(), 1);

    handle_shortcut(&mut state, EditorKey::ZoomInKey, true, false);
    assert_eq!(state.zoom, 150);
    handle_shortcut(&mut state, EditorKey::ZoomOutKey, true, false);
    assert_eq!(state.zoom, 100);
    state.fit_zoom_to_view = false;
    handle_shortcut(&mut state, EditorKey::ZoomFitKey, true, false);
    assert!(state.fit_zoom_to_view);
}

#[test]
fn delete_shortcut_removes_the_selection() {
    let mut state = editor_with_image();
    draw_rect(&mut state, Point::new(10, 10), Point::new(30, 30));
    handle_click(&mut state, Point::new(10, 20));
    handle_shortcut(&mut state, EditorKey::DeleteKey, false, false);
    assert_eq!(state.annotations.len(), 0);
    assert!(state.selection.is_none());
}

#[test]
fn hit_tolerance_shrinks_as_zoom_grows() {
    let mut state = editor_with_image();
    state.set_tool(Tool::Arrow);
    begin_drag(&mut state, Point::new(0, 0));
    update_drag(&mut state, Point::new(100, 0), false);
    finish_drag(&mut state);
    let id = state.annotations[0].id;

    // 5 units off the line: hit at low zoom, miss once zoomed in
    state.zoom = 25;
    assert_eq!(pick_annotation(&state, Point::new(50, 5)), Some(id));
    state.zoom = 400;
    assert_eq!(pick_annotation(&state, Point::new(50, 5)), None);
}
