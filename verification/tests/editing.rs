use vellum::draw::editor::{
    cancel_outcome, clears_on_escape, next_text_session, plan_action, ActionKind, ActionPlan, CursorChoice,
    EditorStep,
};
use vellum::draw::properties::{
    initial_fill, ToolFills,
    fill_scope, selection_fill_label, selection_fill_target, FillScope,
};
use vellum::draw::selection::{CursorHint, ElementShape};
use vellum::draw::text_edit::{
    grapheme_deletion, next_external_revision, plan_text_input, snapshot_caret,
    GraphemeDeletion,
};
use vellum::input::text::{Preedit, TextInputBatch};
use vellum::tool::Tool;

#[test]
fn cancel_with_picker_only_closes_it() {
    let plan = plan_action(ActionKind::Cancel, false, true, false);
    assert_eq!(plan, ActionPlan { closes_picker: true, step: EditorStep::Nothing });
    let plan = plan_action(ActionKind::Cancel, false, false, false);
    assert_eq!(plan, ActionPlan { closes_picker: false, step: EditorStep::Cancel });
}

#[test]
fn undo_waits_while_editing_text() {
    assert_eq!(plan_action(ActionKind::Undo, true, false, false).step, EditorStep::Nothing);
    assert_eq!(plan_action(ActionKind::Redo, false, false, false).step, EditorStep::Redo);
    assert_eq!(
        plan_action(ActionKind::Undo, false, true, false),
        ActionPlan { closes_picker: true, step: EditorStep::Undo }
    );
}

#[test]
fn text_keys_need_edited_text() {
    assert_eq!(plan_action(ActionKind::Backspace, false, false, false).step, EditorStep::Nothing);
    assert_eq!(plan_action(ActionKind::Backspace, true, false, false).step, EditorStep::Backspace);
    assert_eq!(plan_action(ActionKind::SelectAll, true, false, false).step, EditorStep::SelectAllText);
    assert_eq!(
        plan_action(ActionKind::SelectAll, false, false, false).step,
        EditorStep::SelectAllElements
    );
    assert_eq!(plan_action(ActionKind::Delete, true, false, false).step, EditorStep::DeleteText);
    assert_eq!(
        plan_action(ActionKind::Delete, false, false, false).step,
        EditorStep::DeleteSelection
    );
}

#[test]
fn input_method_edits_leave_picker_alone() {
    assert_eq!(
        plan_action(ActionKind::ApplyTextInput, true, true, true),
        ActionPlan { closes_picker: false, step: EditorStep::ApplyTextInput { commit_after: true } }
    );
    assert_eq!(
        plan_action(ActionKind::ApplyTextInput, false, true, true),
        ActionPlan { closes_picker: false, step: EditorStep::Nothing }
    );
}

#[test]
fn cancel_outcome_cases() {
    assert_eq!(cancel_outcome(true, false), (true, false));
    assert_eq!(cancel_outcome(false, true), (true, false));
    assert_eq!(cancel_outcome(false, false), (false, true));
}

#[test]
fn text_sessions_skip_zero() {
    assert_eq!(next_text_session(0), 1);
    assert_eq!(next_text_session(41), 42);
    assert_eq!(next_text_session(u64::MAX), 1);
}

#[test]
fn compositor_cursor_sameness() {
    assert!(CursorChoice::Hidden.same_compositor_cursor(CursorChoice::Tool(Tool::Pen)));
    assert!(CursorChoice::Tool(Tool::Pen).same_compositor_cursor(CursorChoice::Tool(Tool::Eraser)));
    assert!(CursorChoice::Shape(CursorHint::Move).same_compositor_cursor(CursorChoice::Shape(CursorHint::Move)));
    assert!(!CursorChoice::Shape(CursorHint::Move).same_compositor_cursor(CursorChoice::Shape(CursorHint::Text)));
    assert!(!CursorChoice::Hidden.same_compositor_cursor(CursorChoice::Shape(CursorHint::Crosshair)));
}

#[test]
fn fill_scope_order() {
    assert_eq!(fill_scope(true, true, Tool::Rectangle), FillScope::EditedText);
    assert_eq!(fill_scope(false, true, Tool::Pen), FillScope::Selection);
    assert_eq!(fill_scope(false, false, Tool::Text), FillScope::TextTool);
    assert_eq!(fill_scope(false, false, Tool::Ellipse), FillScope::ShapeTool);
    assert_eq!(fill_scope(false, false, Tool::Pen), FillScope::Nothing);
}

#[test]
fn selection_fill_follows_unfilled_members() {
    let selected = [(ElementShape::Rectangle, true), (ElementShape::Freehand, false)];
    assert!(!selection_fill_target(None, &selected));
    let selected = [(ElementShape::Rectangle, true), (ElementShape::Ellipse, false)];
    assert!(selection_fill_target(None, &selected));
    assert!(!selection_fill_target(Some(true), &selected));
    assert!(selection_fill_target(Some(false), &[]));
}

#[test]
fn selection_fill_labels() {
    assert_eq!(selection_fill_label(ElementShape::Text, true).as_deref(), Some("Background · on"));
    assert_eq!(selection_fill_label(ElementShape::Rectangle, false).as_deref(), Some("Fill · outline"));
    assert_eq!(selection_fill_label(ElementShape::Freehand, true), None);
}

#[test]
fn backspace_removes_whole_grapheme() {
    let text = "ae\u{301}x";
    // caret after "e\u{301}" (bytes: a=1, e=1, U+0301=2)
    assert_eq!(grapheme_deletion(text, true, 4, true), GraphemeDeletion::Before(3));
    assert_eq!(grapheme_deletion(text, true, 1, false), GraphemeDeletion::After(3));
    assert_eq!(grapheme_deletion(text, true, 0, true), GraphemeDeletion::Nothing);
    assert_eq!(grapheme_deletion(text, true, 5, false), GraphemeDeletion::Nothing);
    assert_eq!(grapheme_deletion(text, false, 2, true), GraphemeDeletion::Selection);
}

#[test]
fn backspace_flag_and_crlf() {
    let text = "🇷🇺\r\n";
    assert_eq!(grapheme_deletion(text, true, 8, false), GraphemeDeletion::After(2));
    assert_eq!(grapheme_deletion(text, true, 8, true), GraphemeDeletion::Before(8));
    assert_eq!(grapheme_deletion(text, true, 10, true), GraphemeDeletion::Before(2));
}

fn preedit(text: &str) -> Preedit {
    Preedit { text: text.to_string(), cursor: None, spans: Vec::new() }
}

#[test]
fn pure_preedit_keeps_composition() {
    let batch = TextInputBatch {
        preedit: Some(preedit("ka")),
        commit: None,
        delete_surrounding: None,
        submit: false,
    };
    let plan = plan_text_input(batch, "hello", &(5..5));
    assert!(!plan.clear_compose);
    assert_eq!(plan.compose.map(|p| p.text), Some("ka".to_string()));
    assert_eq!((plan.delete_after, plan.delete_before), (0, 0));
}

#[test]
fn empty_preedit_ends_composition() {
    let batch = TextInputBatch {
        preedit: Some(preedit("")),
        commit: Some("か".to_string()),
        delete_surrounding: None,
        submit: true,
    };
    let plan = plan_text_input(batch, "hello", &(5..5));
    assert!(plan.clear_compose);
    assert!(plan.compose.is_none());
    assert_eq!(plan.commit.as_deref(), Some("か"));
}

#[test]
fn surrounding_deletion_must_fit() {
    let text = "aé b";
    let fits = TextInputBatch {
        preedit: None,
        commit: None,
        delete_surrounding: Some((3, 1)),
        submit: false,
    };
    let plan = plan_text_input(fits, text, &(3..3));
    assert_eq!((plan.delete_after, plan.delete_before), (1, 3));
    let splits_char = TextInputBatch {
        preedit: None,
        commit: None,
        delete_surrounding: Some((1, 0)),
        submit: false,
    };
    let plan = plan_text_input(splits_char, text, &(3..3));
    assert_eq!((plan.delete_after, plan.delete_before), (0, 0));
    assert!(plan.clear_compose);
    let too_far = TextInputBatch {
        preedit: None,
        commit: None,
        delete_surrounding: Some((4, 0)),
        submit: false,
    };
    let plan = plan_text_input(too_far, text, &(3..3));
    assert_eq!((plan.delete_after, plan.delete_before), (0, 0));
    let past_end = TextInputBatch {
        preedit: None,
        commit: None,
        delete_surrounding: Some((0, usize::MAX)),
        submit: false,
    };
    let plan = plan_text_input(past_end, text, &(3..3));
    assert_eq!((plan.delete_after, plan.delete_before), (0, 0));
}

#[test]
fn snapshot_caret_prefers_composition() {
    assert_eq!(snapshot_caret(&Some(4..7), 9, 2), (4, 4));
    assert_eq!(snapshot_caret(&None, 9, 2), (9, 2));
}

#[test]
fn external_revision_wraps() {
    assert_eq!(next_external_revision(5, true), 6);
    assert_eq!(next_external_revision(5, false), 5);
    assert_eq!(next_external_revision(u64::MAX, true), 0);
}

use vellum::draw::editor::{press_step, PressStep, Selection};
use vellum::draw::selection::{Corner, Handle};
use vellum::draw::ToolOverride;

#[test]
fn press_routing() {
    let handle = Some(Handle::Corner(Corner::TopLeft));
    assert_eq!(press_step(Tool::Pen, ToolOverride::Off, true, false, 0, None), PressStep::TextClick);
    assert_eq!(press_step(Tool::Pen, ToolOverride::Eraser, true, false, 0, None), PressStep::Erase);
    assert_eq!(press_step(Tool::Eraser, ToolOverride::InvertEraser, true, false, 0, None), PressStep::Freehand);
    assert_eq!(press_step(Tool::Arrow, ToolOverride::Off, false, false, 0, None), PressStep::Drawing(Tool::Arrow));
    assert_eq!(press_step(Tool::Text, ToolOverride::Off, false, false, 0, None), PressStep::NewText);
    assert_eq!(press_step(Tool::Select, ToolOverride::Off, false, false, 1, handle), PressStep::Resize(Handle::Corner(Corner::TopLeft)));
    assert_eq!(press_step(Tool::Select, ToolOverride::Off, false, true, 1, handle), PressStep::Select);
    assert_eq!(press_step(Tool::Select, ToolOverride::Off, false, false, 2, handle), PressStep::Select);
}

#[test]
fn selection_presses() {
    let mut selection = Selection::new();
    assert_eq!(selection.press(Some(9), false, false), (true, Some(vec![9])));
    assert_eq!(selection.press(Some(4), true, false), (true, None));
    assert_eq!(selection.ids(), &[9, 4]);
    assert_eq!(selection.press(Some(9), false, false), (true, Some(vec![4, 9])));
    assert_eq!(selection.press(None, true, false), (false, None));
    assert_eq!(selection.press(Some(9), true, false), (true, None));
    assert_eq!(selection.ids(), &[4]);
    assert_eq!(selection.press(None, false, false), (true, None));
    assert!(selection.is_empty());
}

#[test]
fn tool_fill_toggle_twice_restores() {
    let mut fills = ToolFills::new(true);
    assert!(fills.tool_fill(Tool::Rectangle));
    assert!(!fills.tool_fill(Tool::Text));
    assert!(!fills.tool_fill(Tool::Pen));
    let before = fills;
    assert_eq!(fills.toggle(Tool::Rectangle).as_deref(), Some("Fill · outline"));
    assert!(!fills.tool_fill(Tool::Rectangle));
    assert_eq!(fills.toggle(Tool::Rectangle).as_deref(), Some("Fill · solid"));
    assert_eq!(fills, before);
    assert_eq!(fills.toggle(Tool::Text).as_deref(), Some("Background · on"));
    assert_eq!(fills.toggle(Tool::Pen), None);
    fills.set(Tool::Select, true);
    assert!(!fills.tool_fill(Tool::Select));
}

#[test]
fn initial_fill_settings() {
    assert!(initial_fill(Tool::Ellipse, None, None, true));
    assert!(!initial_fill(Tool::Ellipse, Some(false), None, true));
    assert!(!initial_fill(Tool::Line, None, None, true));
    assert!(!initial_fill(Tool::Text, Some(true), None, true));
    assert!(initial_fill(Tool::Text, None, Some(true), false));
}

#[test]
fn editor_core_drops_selection() {
    use_editor_core();
}

fn use_editor_core() {
    let mut core = vellum::draw::editor::EditorCore::new(Tool::Select, false);
    core.selection.press(Some(3), false, false);
    assert!(!core.switch_tool(Tool::Select));
    assert_eq!(core.selection.ids(), &[3]);
    assert!(core.switch_tool(Tool::Pen));
    assert!(core.selection.is_empty());
    core.selection.press(Some(4), true, false);
    assert!(core.activate());
    assert_eq!(core.tools.tool(), Tool::Select);
    assert!(core.selection.is_empty());
    core.open_picker();
    core.selection.press(Some(5), false, false);
    assert!(core.deactivate(false));
    assert!(core.selection.is_empty() && !core.picker_open);
    assert!(!core.deactivate(false));
    assert!(core.deactivate(true));
    assert!(core.toggle_eraser());
    assert_eq!(core.tools.tool(), Tool::Eraser);
    assert!(!core.dismiss_picker());
}

#[test]
fn escape_in_editor_core() {
    use_escape();
}

fn use_escape() {
    let mut core = vellum::draw::editor::EditorCore::new(Tool::Select, false);
    core.selection.press(Some(2), false, false);
    core.open_picker();
    assert_eq!(core.cancel(true), (true, false, false));
    assert!(!core.picker_open);
    assert_eq!(core.selection.ids(), &[2]);
    assert_eq!(core.cancel(true), (true, false, true));
    assert_eq!(core.selection.ids(), &[2]);
    assert_eq!(core.cancel(false), (true, false, false));
    assert!(core.selection.is_empty());
    assert_eq!(core.cancel(false), (false, true, false));
}

#[test]
fn clear_on_escape_only_when_escape_deactivates() {
    assert!(clears_on_escape(true, ActionKind::Cancel, true));
    assert!(!clears_on_escape(true, ActionKind::Cancel, false));
    assert!(!clears_on_escape(false, ActionKind::Cancel, true));
    assert!(!clears_on_escape(true, ActionKind::Clear, true));
}
