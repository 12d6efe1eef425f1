use vellum::draw::editor::{cursor_choice, CursorChoice, InteractionKind, Selection, ToolChoice};
use vellum::draw::properties::{background_label, fill_label};
use vellum::draw::selection::{
    cursor, hit_handle, outline_handle, supports_fill, tool_for, Corner, CursorHint, Edge,
    ElementShape, Handle,
};
use vellum::draw::{Modifiers, ToolOverride};
use vellum::tool::Tool;

#[test]
fn from_eraser_maps_flag() {
    assert_eq!(ToolOverride::from_eraser(true), ToolOverride::Eraser);
    assert_eq!(ToolOverride::from_eraser(false), ToolOverride::Off);
    assert_eq!(ToolOverride::default(), ToolOverride::Off);
}

#[test]
fn effective_tool_cases() {
    assert_eq!(ToolOverride::Off.effective_tool(Tool::Rectangle), Tool::Rectangle);
    assert_eq!(ToolOverride::Eraser.effective_tool(Tool::Pen), Tool::Eraser);
    assert_eq!(ToolOverride::InvertEraser.effective_tool(Tool::Eraser), Tool::Pen);
    assert_eq!(ToolOverride::InvertEraser.effective_tool(Tool::Text), Tool::Eraser);
}

#[test]
fn supports_fill_per_tool_and_shape() {
    assert!(Tool::Triangle.supports_fill());
    assert!(Tool::Ellipse.supports_fill());
    assert!(!Tool::Pen.supports_fill());
    assert!(supports_fill(ElementShape::Text));
    assert!(supports_fill(ElementShape::Rectangle));
    assert!(!supports_fill(ElementShape::Segment { arrow: true }));
    assert!(!supports_fill(ElementShape::Freehand));
    assert_eq!(tool_for(ElementShape::Segment { arrow: true }), Tool::Arrow);
    assert_eq!(tool_for(ElementShape::Segment { arrow: false }), Tool::Line);
    assert_eq!(tool_for(ElementShape::Freehand), Tool::Pen);
}

#[test]
fn handle_cursors() {
    assert_eq!(cursor(Handle::Corner(Corner::TopLeft)), CursorHint::NwseResize);
    assert_eq!(cursor(Handle::Corner(Corner::BottomLeft)), CursorHint::NeswResize);
    assert_eq!(cursor(Handle::Edge(Edge::Top)), CursorHint::NsResize);
    assert_eq!(cursor(Handle::Edge(Edge::Right)), CursorHint::EwResize);
    assert_eq!(cursor(Handle::Vertex(2)), CursorHint::Crosshair);
    assert_eq!(CursorHint::default(), CursorHint::Crosshair);
}

#[test]
fn handle_priority() {
    let vertex = Some(Handle::Vertex(1));
    let end = Some(Handle::End);
    let edge = Some(Handle::Edge(Edge::Left));
    assert_eq!(hit_handle(vertex, end, edge), vertex);
    assert_eq!(hit_handle(None, end, edge), end);
    assert_eq!(hit_handle(None, None, edge), edge);
    assert_eq!(hit_handle(None, None, None), None);
}

#[test]
fn outline_handles() {
    let rect = ElementShape::Rectangle;
    assert_eq!(
        outline_handle(rect, true, Some(Edge::Right), Some(Edge::Bottom)),
        Some(Handle::Corner(Corner::BottomRight))
    );
    assert_eq!(outline_handle(rect, true, None, Some(Edge::Top)), Some(Handle::Edge(Edge::Top)));
    assert_eq!(outline_handle(rect, true, None, None), None);
    assert_eq!(outline_handle(rect, false, Some(Edge::Left), None), None);
    assert_eq!(outline_handle(ElementShape::Triangle, true, Some(Edge::Left), None), None);
    assert_eq!(
        outline_handle(ElementShape::Text, true, Some(Edge::Left), None),
        Some(Handle::Edge(Edge::Left))
    );
}

#[test]
fn labels() {
    assert_eq!(fill_label(true), "Fill · solid");
    assert_eq!(fill_label(false), "Fill · outline");
    assert_eq!(background_label(true), "Background · on");
    assert_eq!(background_label(false), "Background · off");
}

#[test]
fn toggle_eraser_twice_restores_tool() {
    let mut choice = ToolChoice::new(Tool::Rectangle, false);
    assert!(choice.toggle_eraser());
    assert_eq!(choice.tool(), Tool::Eraser);
    assert_eq!(choice.color_tool(), Tool::Rectangle);
    assert!(choice.toggle_eraser());
    assert_eq!(choice.tool(), Tool::Rectangle);
}

#[test]
fn eraser_default_remembers_pen() {
    let mut choice = ToolChoice::new(Tool::Eraser, false);
    assert_eq!(choice.last_non_eraser_tool(), Tool::Pen);
    assert!(choice.toggle_eraser());
    assert_eq!(choice.tool(), Tool::Pen);
}

#[test]
fn switch_and_activate() {
    let mut choice = ToolChoice::new(Tool::Pen, false);
    assert!(!choice.switch_tool(Tool::Pen));
    assert!(choice.switch_tool(Tool::Arrow));
    assert_eq!(choice.last_non_eraser_tool(), Tool::Arrow);
    assert!(choice.activate());
    assert_eq!(choice.tool(), Tool::Pen);
    assert!(!choice.activate());

    let mut remembered = ToolChoice::new(Tool::Pen, true);
    assert!(remembered.switch_tool(Tool::Text));
    assert!(!remembered.activate());
    assert_eq!(remembered.tool(), Tool::Text);
}

#[test]
fn selection_toggle_and_hit() {
    let mut selection = Selection::new();
    assert!(selection.is_empty());
    selection.toggle(5);
    selection.toggle(3);
    assert_eq!(selection.ids(), &[5, 3]);
    selection.toggle(5);
    assert_eq!(selection.ids(), &[3]);
    selection.toggle(5);
    assert_eq!(selection.ids(), &[3, 5]);
    assert_eq!(selection.sorted_ids(), vec![3, 5]);
    assert!(!selection.select_hit(Some(5)));
    assert_eq!(selection.len(), 2);
    assert!(selection.select_hit(Some(9)));
    assert_eq!(selection.ids(), &[9]);
    assert!(selection.select_hit(None));
    assert!(selection.is_empty());
    selection.toggle(1);
    assert!(selection.take());
    assert!(!selection.take());
}

#[test]
fn sorted_ids_orders_selection() {
    let mut selection = Selection::new();
    for id in [7, 2, 9, 4] {
        selection.toggle(id);
    }
    assert_eq!(selection.sorted_ids(), vec![2, 4, 7, 9]);
    assert!(selection.contains(9));
    assert!(!selection.contains(3));
}

#[test]
fn cursor_choices() {
    let none: Option<InteractionKind> = None;
    assert_eq!(
        cursor_choice(Tool::Pen, ToolOverride::Eraser, Some(InteractionKind::Moving), false, 0, None, false),
        CursorChoice::Tool(Tool::Eraser)
    );
    assert_eq!(
        cursor_choice(Tool::Select, ToolOverride::Off, Some(InteractionKind::Freehand), false, 0, None, false),
        CursorChoice::Hidden
    );
    assert_eq!(
        cursor_choice(Tool::Select, ToolOverride::Off, Some(InteractionKind::Resizing(Handle::Edge(Edge::Left))), false, 1, None, false),
        CursorChoice::Shape(CursorHint::EwResize)
    );
    assert_eq!(
        cursor_choice(Tool::Pen, ToolOverride::Off, none, true, 0, None, false),
        CursorChoice::Shape(CursorHint::Crosshair)
    );
    assert_eq!(
        cursor_choice(Tool::Text, ToolOverride::Off, none, false, 0, None, false),
        CursorChoice::Shape(CursorHint::Text)
    );
    assert_eq!(
        cursor_choice(Tool::Pen, ToolOverride::Off, none, false, 0, None, false),
        CursorChoice::Tool(Tool::Pen)
    );
    assert_eq!(
        cursor_choice(Tool::Select, ToolOverride::Off, none, false, 2, None, true),
        CursorChoice::Shape(CursorHint::Crosshair)
    );
    assert_eq!(
        cursor_choice(Tool::Select, ToolOverride::Off, none, false, 1, None, true),
        CursorChoice::Shape(CursorHint::Move)
    );
    assert_eq!(
        cursor_choice(Tool::Select, ToolOverride::Off, none, false, 1, Some(Handle::Corner(Corner::TopRight)), true),
        CursorChoice::Shape(CursorHint::NeswResize)
    );
    assert_eq!(
        cursor_choice(Tool::Eraser, ToolOverride::InvertEraser, none, false, 0, None, false),
        CursorChoice::Tool(Tool::Pen)
    );
}

#[test]
fn modifiers_default_released() {
    let modifiers = Modifiers::default();
    assert!(!modifiers.shift && !modifiers.ctrl && !modifiers.alt);
}
