use snapmark_core::annotation::Tool;
use snapmark_core::layout::plan_toolbar_items;
use snapmark_core::layout::should_show_shortcut_label;
use snapmark_core::layout::width_class;
use snapmark_core::layout::Breakpoints;
use snapmark_core::layout::WidthClass;
use snapmark_core::layout::PALETTE_LEN;
use snapmark_core::platform::clipboard_change_count;
use snapmark_core::platform::close_native_color_panel;
use snapmark_core::platform::install_vibrancy;
use snapmark_core::platform::poll_native_color_panel_color;
use snapmark_core::platform::remove_vibrancy;
use snapmark_core::platform::set_dock_icon_visible;
use snapmark_core::platform::show_saved_notification;
use snapmark_core::platform::supports_vibrancy;
use snapmark_core::platform::update_vibrancy;
use snapmark_core::state::EditorState;

#[test]
fn width_class_boundaries_are_stable() {
    let breakpoints = Breakpoints { compact_max: 760, regular_max: 1024 };

    assert_eq!(width_class(640, &breakpoints), WidthClass::Compact);
    assert_eq!(width_class(760, &breakpoints), WidthClass::Compact);
    assert_eq!(width_class(761, &breakpoints), WidthClass::Regular);
    assert_eq!(width_class(1024, &breakpoints), WidthClass::Regular);
    assert_eq!(width_class(1025, &breakpoints), WidthClass::Wide);
}

#[test]
fn action_bar_compact_hides_shortcut_label_first() {
    assert!(!should_show_shortcut_label(WidthClass::Compact, 320));
    assert!(should_show_shortcut_label(WidthClass::Compact, 420));
    assert!(should_show_shortcut_label(WidthClass::Regular, 320));
}

#[test]
fn plan_toolbar_items_compact_keeps_p0_visible() {
    let mut state = EditorState::default();
    state.active_tool = Tool::Select;
    let plan = plan_toolbar_items(WidthClass::Compact, &state);

    assert!(plan.show_tools_inline);
}

#[test]
fn plan_toolbar_items_moves_low_priority_to_overflow() {
    let mut state = EditorState::default();
    state.active_tool = Tool::Text;
    let plan = plan_toolbar_items(WidthClass::Compact, &state);

    assert!(plan.show_overflow);
    assert!(!plan.show_stroke_inline);
    assert!(!plan.show_text_size_inline);
}

#[test]
fn wide_toolbar_shows_everything_inline() {
    let mut state = EditorState::default();
    state.active_tool = Tool::Text;
    let plan = plan_toolbar_items(WidthClass::Wide, &state);
    assert_eq!(plan.visible_color_count, PALETTE_LEN);
    assert!(plan.show_stroke_inline);
    assert!(plan.show_text_size_inline);
    assert!(!plan.show_overflow);

    let regular = plan_toolbar_items(WidthClass::Regular, &state);
    assert_eq!(regular.visible_color_count, 6);
    assert!(regular.show_overflow);
}

#[test]
fn portable_platform_fallbacks_answer_nothing() {
    assert!(!supports_vibrancy());
    assert!(install_vibrancy().is_ok());
    assert!(update_vibrancy().is_ok());
    remove_vibrancy();
    assert_eq!(poll_native_color_panel_color(), None);
    close_native_color_panel();
    assert_eq!(clipboard_change_count(), None);
    set_dock_icon_visible(true);
    show_saved_notification("Screenshot.png");
}
