//! Handles of a selected element and the pointer cursor each one shows.

use vstd::prelude::*;

use crate::tool::Tool;

verus! {

/// A corner of a selection outline.
#[derive(Debug, Clone, Copy, PartialEq, Eq, Structural)]
pub enum Corner {
    TopLeft,
    TopRight,
    BottomRight,
    BottomLeft,
}

/// A side of a selection outline.
#[derive(Debug, Clone, Copy, PartialEq, Eq, Structural)]
pub enum Edge {
    Top,
    Right,
    Bottom,
    Left,
}

/// A part of a selected element that a drag reshapes.
#[derive(Debug, Clone, Copy, PartialEq, Eq, Structural)]
pub enum Handle {
    Start,
    End,
    Vertex(usize),
    Corner(Corner),
    Edge(Edge),
}

/// The compositor cursor shapes the overlay asks for.
#[derive(Debug, Clone, Copy, PartialEq, Eq, Structural)]
pub enum CursorHint {
    Crosshair,
    Move,
    NsResize,
    EwResize,
    NwseResize,
    NeswResize,
    Text,
}

impl Default for CursorHint {
    fn default() -> (res: Self)
        ensures
            res == CursorHint::Crosshair,
    {
        CursorHint::Crosshair
    }
}

/// The variant of an annotation, without its coordinates.
#[derive(Debug, Clone, Copy, PartialEq, Eq, Structural)]
pub enum ElementShape {
    Segment { arrow: bool },
    Freehand,
    Triangle,
    Rectangle,
    Ellipse,
    Text,
}

/// The cursor a handle shows: diagonal resizing at corners, straight
/// resizing at edges and a crosshair on endpoints and vertices.
pub open spec fn cursor_spec(handle: Handle) -> CursorHint {
    match handle {
        Handle::Corner(Corner::TopLeft) | Handle::Corner(Corner::BottomRight) => CursorHint::NwseResize,
        Handle::Corner(Corner::TopRight) | Handle::Corner(Corner::BottomLeft) => CursorHint::NeswResize,
        Handle::Edge(Edge::Top) | Handle::Edge(Edge::Bottom) => CursorHint::NsResize,
        Handle::Edge(Edge::Left) | Handle::Edge(Edge::Right) => CursorHint::EwResize,
        Handle::Start | Handle::End | Handle::Vertex(_) => CursorHint::Crosshair,
    }
}

/// The cursor shown while `handle` is hovered or dragged.
pub fn cursor(handle: Handle) -> (res: CursorHint)
    ensures
        res == cursor_spec(handle),
{
    match handle {
        Handle::Corner(Corner::TopLeft) | Handle::Corner(Corner::BottomRight) => CursorHint::NwseResize,
        Handle::Corner(Corner::TopRight) | Handle::Corner(Corner::BottomLeft) => CursorHint::NeswResize,
        Handle::Edge(Edge::Top) | Handle::Edge(Edge::Bottom) => CursorHint::NsResize,
        Handle::Edge(Edge::Left) | Handle::Edge(Edge::Right) => CursorHint::EwResize,
        Handle::Start | Handle::End | Handle::Vertex(_) => CursorHint::Crosshair,
    }
}

/// The tool that draws annotations of this shape.
pub open spec fn tool_for_spec(shape: ElementShape) -> Tool {
    match shape {
        ElementShape::Segment { arrow } => if arrow {
            Tool::Arrow
        } else {
            Tool::Line
        },
        ElementShape::Freehand => Tool::Pen,
        ElementShape::Triangle => Tool::Triangle,
        ElementShape::Rectangle => Tool::Rectangle,
        ElementShape::Ellipse => Tool::Ellipse,
        ElementShape::Text => Tool::Text,
    }
}

/// The tool that draws annotations of this shape.
pub fn tool_for(shape: ElementShape) -> (res: Tool)
    ensures
        res == tool_for_spec(shape),
{
    match shape {
        ElementShape::Segment { arrow } => if arrow {
            Tool::Arrow
        } else {
            Tool::Line
        },
        ElementShape::Freehand => Tool::Pen,
        ElementShape::Triangle => Tool::Triangle,
        ElementShape::Rectangle => Tool::Rectangle,
        ElementShape::Ellipse => Tool::Ellipse,
        ElementShape::Text => Tool::Text,
    }
}

/// Annotations whose fill can be toggled: filled shapes, and text, whose
/// fill is its background.
pub open spec fn supports_fill_spec(shape: ElementShape) -> bool {
    tool_for_spec(shape).spec_supports_fill() || shape == ElementShape::Text
}

/// Whether an annotation of this shape has a fill (or text background) to toggle.
pub fn supports_fill(shape: ElementShape) -> (res: bool)
    ensures
        res == supports_fill_spec(shape),
        res <==> (shape == ElementShape::Triangle || shape == ElementShape::Rectangle || shape
            == ElementShape::Ellipse || shape == ElementShape::Text),
{
    tool_for(shape).supports_fill() || matches!(shape, ElementShape::Text)
}

/// The handle grabbed at a point, given the candidates the geometry found:
/// a triangle vertex wins over a segment endpoint, which wins over the outline.
pub fn hit_handle(vertex: Option<Handle>, endpoint: Option<Handle>, outline: Option<Handle>) -> (res:
    Option<Handle>)
    ensures
        vertex is Some ==> res == vertex,
        vertex is None && endpoint is Some ==> res == endpoint,
        vertex is None && endpoint is None ==> res == outline,
{
    match vertex {
        Some(handle) => Some(handle),
        None => match endpoint {
            Some(handle) => Some(handle),
            None => outline,
        },
    }
}

/// Whether the shape is reshaped by its outline (boxes, ellipses and text)
/// rather than by its own vertices.
pub open spec fn has_outline_handles(shape: ElementShape) -> bool {
    shape == ElementShape::Rectangle || shape == ElementShape::Ellipse || shape
        == ElementShape::Text
}

/// The outline handle near the pointer: a corner when it is near a vertical
/// and a horizontal side at once, the side when near only one.
pub open spec fn outline_handle_spec(
    shape: ElementShape,
    within_reach: bool,
    near_x: Option<Edge>,
    near_y: Option<Edge>,
) -> Option<Handle> {
    if !has_outline_handles(shape) || !within_reach {
        None
    } else {
        match (near_x, near_y) {
            (Some(Edge::Left), Some(Edge::Top)) => Some(Handle::Corner(Corner::TopLeft)),
            (Some(Edge::Right), Some(Edge::Top)) => Some(Handle::Corner(Corner::TopRight)),
            (Some(Edge::Right), Some(Edge::Bottom)) => Some(Handle::Corner(Corner::BottomRight)),
            (Some(Edge::Left), Some(Edge::Bottom)) => Some(Handle::Corner(Corner::BottomLeft)),
            (Some(edge), None) => Some(Handle::Edge(edge)),
            (None, Some(edge)) => Some(Handle::Edge(edge)),
            _ => None,
        }
    }
}

/// The outline handle under the pointer. `within_reach` tells whether the
/// pointer lies inside the outline grown by the hit radius; `near_x` is the
/// closer vertical side when it lies within the hit radius, `near_y` the
/// closer horizontal side.
pub fn outline_handle(
    shape: ElementShape,
    within_reach: bool,
    near_x: Option<Edge>,
    near_y: Option<Edge>,
) -> (res: Option<Handle>)
    requires
        near_x is Some ==> (near_x == Some(Edge::Left) || near_x == Some(Edge::Right)),
        near_y is Some ==> (near_y == Some(Edge::Top) || near_y == Some(Edge::Bottom)),
    ensures
        res == outline_handle_spec(shape, within_reach, near_x, near_y),
        res is Some <==> (has_outline_handles(shape) && within_reach && (near_x is Some
            || near_y is Some)),
{
    if !matches!(shape, ElementShape::Rectangle | ElementShape::Ellipse | ElementShape::Text) {
        return None;
    }
    if !within_reach {
        return None;
    }
    match (near_x, near_y) {
        (Some(Edge::Left), Some(Edge::Top)) => Some(Handle::Corner(Corner::TopLeft)),
        (Some(Edge::Right), Some(Edge::Top)) => Some(Handle::Corner(Corner::TopRight)),
        (Some(Edge::Right), Some(Edge::Bottom)) => Some(Handle::Corner(Corner::BottomRight)),
        (Some(Edge::Left), Some(Edge::Bottom)) => Some(Handle::Corner(Corner::BottomLeft)),
        (Some(edge), None) => Some(Handle::Edge(edge)),
        (None, Some(edge)) => Some(Handle::Edge(edge)),
        _ => None,
    }
}

} // verus!
