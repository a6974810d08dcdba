//! Responsive layout decisions: width classes from breakpoints, the
//! toolbar's inline/overflow plan, and the action bar's label policy.
//! Widths are whole logical pixels.

use vstd::prelude::*;

use crate::annotation::Tool;
use crate::state::EditorState;

verus! {

/// How roomy the window currently is.
#[derive(Clone, Copy, Debug, PartialEq, Eq, Structural)]
pub enum WidthClass {
    Compact,
    Regular,
    Wide,
}

/// The width thresholds separating the classes.
#[derive(Clone, Copy, Debug, PartialEq, Eq, Structural)]
pub struct Breakpoints {
    pub compact_max: i64,
    pub regular_max: i64,
}

pub open spec fn width_class_of(width: int, b: Breakpoints) -> WidthClass {
    if width <= b.compact_max {
        WidthClass::Compact
    } else if width <= b.regular_max {
        WidthClass::Regular
    } else {
        WidthClass::Wide
    }
}

/// The class a width falls in: compact up to and including `compact_max`,
/// regular up to and including `regular_max`, wide beyond.
pub fn width_class(width: i64, breakpoints: &Breakpoints) -> (r: WidthClass)
    ensures
        r == width_class_of(width as int, *breakpoints),
{
    if width <= breakpoints.compact_max {
        WidthClass::Compact
    } else if width <= breakpoints.regular_max {
        WidthClass::Regular
    } else {
        WidthClass::Wide
    }
}

/// Animation durations, in milliseconds.
#[derive(Clone, Copy, Debug, PartialEq, Eq, Structural)]
pub struct MotionTokens {
    pub fast_ms: u32,
    pub normal_ms: u32,
    pub slow_ms: u32,
}

/// What the action bar's buttons reported for this frame.
#[derive(Clone, Copy, Debug, PartialEq, Eq, Structural)]
pub struct ActionBarOutput {
    pub undo: bool,
    pub redo: bool,
    pub copy: bool,
    pub save: bool,
}

/// In the compact class the keyboard-shortcut label is the first thing to
/// go: it shows only with at least 420 pixels to spare. Roomier classes
/// always show it.
pub fn should_show_shortcut_label(width_class: WidthClass, available_width: i64) -> (r: bool)
    ensures
        r == match width_class {
            WidthClass::Compact => available_width >= 420,
            WidthClass::Regular => true,
            WidthClass::Wide => true,
        },
{
    match width_class {
        WidthClass::Compact => available_width >= 420,
        WidthClass::Regular => true,
        WidthClass::Wide => true,
    }
}

/// The number of swatches in the color palette.
pub const PALETTE_LEN: usize = 8;

/// What the toolbar shows inline and what moves to the overflow menu.
#[derive(Clone, Copy, Debug, PartialEq, Eq, Structural)]
pub struct ToolbarPlan {
    pub show_tools_inline: bool,
    pub visible_color_count: usize,
    pub show_stroke_inline: bool,
    pub show_text_size_inline: bool,
    pub show_overflow: bool,
}

/// Plan the toolbar for the given width class: tools always stay inline;
/// the palette shrinks to 4 (compact) or 6 (regular) swatches; stroke and
/// text-size controls leave the compact toolbar; the overflow menu appears
/// exactly when something was hidden. The text-size control matters only
/// for the text and labelled-arrow tools.
pub fn plan_toolbar_items(width_class: WidthClass, state: &EditorState) -> (r: ToolbarPlan)
    ensures
        ({
            let needs_text_size = state.active_tool == Tool::Text || state.active_tool
                == Tool::ArrowWithText;
            let visible = match width_class {
                WidthClass::Compact => 4int,
                WidthClass::Regular => 6int,
                WidthClass::Wide => PALETTE_LEN as int,
            };
            let stroke_inline = width_class != WidthClass::Compact;
            let text_inline = needs_text_size && width_class != WidthClass::Compact;
            &&& r.show_tools_inline == true
            &&& r.visible_color_count as int == visible
            &&& r.show_stroke_inline == stroke_inline
            &&& r.show_text_size_inline == text_inline
            &&& r.show_overflow == (visible < PALETTE_LEN as int || !stroke_inline || (
            needs_text_size && !text_inline))
        }),
{
    let needs_text_size = state.active_tool == Tool::Text || state.active_tool
        == Tool::ArrowWithText;
    let visible_color_count: usize = match width_class {
        WidthClass::Compact => 4,
        WidthClass::Regular => 6,
        WidthClass::Wide => PALETTE_LEN,
    };
    let show_stroke_inline = width_class != WidthClass::Compact;
    let show_text_size_inline = needs_text_size && width_class != WidthClass::Compact;
    let hidden_for_overflow = visible_color_count < PALETTE_LEN || !show_stroke_inline || (
    needs_text_size && !show_text_size_inline);
    ToolbarPlan {
        show_tools_inline: true,
        visible_color_count,
        show_stroke_inline,
        show_text_size_inline,
        show_overflow: hidden_for_overflow,
    }
}

} // verus!
