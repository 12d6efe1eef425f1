//! Feedback labels shown when a tool property changes.

use vstd::prelude::*;

use super::selection::{supports_fill, supports_fill_spec, ElementShape};
use crate::tool::Tool;

verus! {

/// The feedback shown after toggling a shape's fill.
pub fn fill_label(filled: bool) -> (res: String)
    ensures
        filled ==> res@ == "Fill · solid"@,
        !filled ==> res@ == "Fill · outline"@,
{
    if filled {
        "Fill · solid".to_owned()
    } else {
        "Fill · outline".to_owned()
    }
}

/// The feedback shown after toggling a text background.
pub fn background_label(background: bool) -> (res: String)
    ensures
        background ==> res@ == "Background · on"@,
        !background ==> res@ == "Background · off"@,
{
    if background {
        "Background · on".to_owned()
    } else {
        "Background · off".to_owned()
    }
}

/// What the fill toggle (key F) changes.
#[derive(Debug, Clone, Copy, PartialEq, Eq, Structural)]
pub enum FillScope {
    /// The background of the text being edited.
    EditedText,
    /// The fill of the selected annotations that have one.
    Selection,
    /// The background new text starts with.
    TextTool,
    /// The fill new shapes of the active tool start with.
    ShapeTool,
    /// Nothing: the active tool draws nothing fillable.
    Nothing,
}

/// The edited text first, then the selection, then the active tool.
pub open spec fn fill_scope_spec(editing_text: bool, has_selection: bool, tool: Tool) -> FillScope {
    if editing_text {
        FillScope::EditedText
    } else if has_selection {
        FillScope::Selection
    } else if tool == Tool::Text {
        FillScope::TextTool
    } else if tool.spec_supports_fill() {
        FillScope::ShapeTool
    } else {
        FillScope::Nothing
    }
}

/// What the fill toggle changes in the editor's state.
pub fn fill_scope(editing_text: bool, has_selection: bool, tool: Tool) -> (res: FillScope)
    ensures
        res == fill_scope_spec(editing_text, has_selection, tool),
{
    if editing_text {
        FillScope::EditedText
    } else if has_selection {
        FillScope::Selection
    } else if tool == Tool::Text {
        FillScope::TextTool
    } else if tool.supports_fill() {
        FillScope::ShapeTool
    } else {
        FillScope::Nothing
    }
}

/// Whether toggling fills the selection: the opposite of the fill being
/// resized, or, without a resize, fill when any selected fillable
/// annotation is unfilled.
pub open spec fn selection_fill_target_spec(resizing_filled: Option<bool>, selected: Seq<(ElementShape, bool)>) -> bool {
    match resizing_filled {
        Some(filled) => !filled,
        None => exists|i: int| 0 <= i < selected.len() && supports_fill_spec(#[trigger] selected[i].0) && !selected[i].1,
    }
}

/// The fill state the toggle gives the selection. `selected` lists each
/// selected annotation's shape and whether it is filled.
pub fn selection_fill_target(resizing_filled: Option<bool>, selected: &[(ElementShape, bool)]) -> (res: bool)
    ensures
        res == selection_fill_target_spec(resizing_filled, selected@),
{
    match resizing_filled {
        Some(filled) => !filled,
        None => {
            let mut i: usize = 0;
            while i < selected.len()
                invariant
                    resizing_filled is None,
                    i <= selected@.len(),
                    forall|j: int| 0 <= j < i ==> !(supports_fill_spec(#[trigger] selected@[j].0) && !selected@[j].1),
                decreases selected@.len() - i,
            {
                let (shape, filled) = selected[i];
                if supports_fill(shape) && !filled {
                    assert(supports_fill_spec(selected@[i as int].0) && !selected@[i as int].1);
                    return true;
                }
                i = i + 1;
            }
            false
        },
    }
}

/// The feedback for an annotation whose fill the toggle set to `enable`:
/// none when it has no fill, the background label for text, the fill label
/// otherwise.
pub fn selection_fill_label(shape: ElementShape, enable: bool) -> (res: Option<String>)
    ensures
        res is Some <==> supports_fill_spec(shape),
        res matches Some(label) ==> (if shape == ElementShape::Text {
            label@ == (if enable {
                "Background · on"@
            } else {
                "Background · off"@
            })
        } else {
            label@ == (if enable {
                "Fill · solid"@
            } else {
                "Fill · outline"@
            })
        }),
{
    if !supports_fill(shape) {
        return None;
    }
    if shape == ElementShape::Text {
        Some(background_label(enable))
    } else {
        Some(fill_label(enable))
    }
}

/// Whether the annotations a tool draws start filled (for text: with a
/// background). The selection tool draws nothing and has no such setting.
#[derive(Debug, Clone, Copy, PartialEq, Eq, Structural)]
pub struct ToolFills {
    pub pen: bool,
    pub line: bool,
    pub arrow: bool,
    pub triangle: bool,
    pub rectangle: bool,
    pub ellipse: bool,
    pub text: bool,
    pub eraser: bool,
}

/// The fill setting of `tool`; none for the selection tool.
pub open spec fn fill_of(fills: ToolFills, tool: Tool) -> bool {
    match tool {
        Tool::Pen => fills.pen,
        Tool::Line => fills.line,
        Tool::Arrow => fills.arrow,
        Tool::Triangle => fills.triangle,
        Tool::Rectangle => fills.rectangle,
        Tool::Ellipse => fills.ellipse,
        Tool::Text => fills.text,
        Tool::Eraser => fills.eraser,
        Tool::Select => false,
    }
}

/// `fills` with the setting of `tool` replaced by `filled`.
pub open spec fn with_fill(fills: ToolFills, tool: Tool, filled: bool) -> ToolFills {
    match tool {
        Tool::Pen => ToolFills { pen: filled, ..fills },
        Tool::Line => ToolFills { line: filled, ..fills },
        Tool::Arrow => ToolFills { arrow: filled, ..fills },
        Tool::Triangle => ToolFills { triangle: filled, ..fills },
        Tool::Rectangle => ToolFills { rectangle: filled, ..fills },
        Tool::Ellipse => ToolFills { ellipse: filled, ..fills },
        Tool::Text => ToolFills { text: filled, ..fills },
        Tool::Eraser => ToolFills { eraser: filled, ..fills },
        Tool::Select => fills,
    }
}

/// The settings after the fill toggle acts on the active `tool`: the text
/// tool's background and a fillable shape tool's fill flip; other tools
/// keep theirs.
pub open spec fn toggled_fills(fills: ToolFills, tool: Tool) -> ToolFills {
    if tool == Tool::Text || tool.spec_supports_fill() {
        with_fill(fills, tool, !fill_of(fills, tool))
    } else {
        fills
    }
}

/// The initial fill setting of `tool`: for text, the configured background
/// (none by default); for other tools, the configured fill, by default filled
/// when shapes start filled and the tool draws fillable shapes.
pub open spec fn initial_fill_spec(tool: Tool, configured_filled: Option<bool>, configured_background: Option<bool>, default_fill_shapes: bool) -> bool {
    if tool == Tool::Text {
        match configured_background {
            Some(background) => background,
            None => false,
        }
    } else {
        match configured_filled {
            Some(filled) => filled,
            None => default_fill_shapes && tool.spec_supports_fill(),
        }
    }
}

/// The initial fill setting of `tool` from its configuration.
pub fn initial_fill(tool: Tool, configured_filled: Option<bool>, configured_background: Option<bool>, default_fill_shapes: bool) -> (res: bool)
    ensures
        res == initial_fill_spec(tool, configured_filled, configured_background, default_fill_shapes),
{
    if tool == Tool::Text {
        match configured_background {
            Some(background) => background,
            None => false,
        }
    } else {
        match configured_filled {
            Some(filled) => filled,
            None => default_fill_shapes && tool.supports_fill(),
        }
    }
}

impl ToolFills {
    /// The settings with nothing configured: fillable shapes start filled
    /// when `default_fill_shapes`, nothing else does.
    pub fn new(default_fill_shapes: bool) -> (res: Self)
        ensures
            forall|tool: Tool| #[trigger] fill_of(res, tool) == initial_fill_spec(
                tool,
                None,
                None,
                default_fill_shapes,
            ),
    {
        ToolFills {
            pen: false,
            line: false,
            arrow: false,
            triangle: default_fill_shapes,
            rectangle: default_fill_shapes,
            ellipse: default_fill_shapes,
            text: false,
            eraser: false,
        }
    }

    /// Whether `tool` starts its annotations filled.
    pub fn tool_fill(&self, tool: Tool) -> (res: bool)
        ensures
            res == fill_of(*self, tool),
    {
        match tool {
            Tool::Pen => self.pen,
            Tool::Line => self.line,
            Tool::Arrow => self.arrow,
            Tool::Triangle => self.triangle,
            Tool::Rectangle => self.rectangle,
            Tool::Ellipse => self.ellipse,
            Tool::Text => self.text,
            Tool::Eraser => self.eraser,
            Tool::Select => false,
        }
    }

    /// Sets the fill setting of `tool`; the selection tool has none.
    pub fn set(&mut self, tool: Tool, filled: bool)
        ensures
            *final(self) == with_fill(*old(self), tool, filled),
    {
        match tool {
            Tool::Pen => self.pen = filled,
            Tool::Line => self.line = filled,
            Tool::Arrow => self.arrow = filled,
            Tool::Triangle => self.triangle = filled,
            Tool::Rectangle => self.rectangle = filled,
            Tool::Ellipse => self.ellipse = filled,
            Tool::Text => self.text = filled,
            Tool::Eraser => self.eraser = filled,
            Tool::Select => {},
        }
    }

    /// The fill toggle with nothing edited or selected, for the active
    /// `tool`: flips the text tool's background or a shape tool's fill and
    /// returns the feedback label; does nothing for other tools.
    pub fn toggle(&mut self, tool: Tool) -> (label: Option<String>)
        ensures
            *final(self) == toggled_fills(*old(self), tool),
            tool == Tool::Text ==> (label matches Some(text) && text@ == (if fill_of(
                *final(self),
                tool,
            ) {
                "Background · on"@
            } else {
                "Background · off"@
            })),
            tool != Tool::Text && tool.spec_supports_fill() ==> (label matches Some(text) && text@
                == (if fill_of(*final(self), tool) {
                "Fill · solid"@
            } else {
                "Fill · outline"@
            })),
            !(tool == Tool::Text || tool.spec_supports_fill()) ==> label is None,
    {
        if tool == Tool::Text {
            let filled = !self.text;
            self.text = filled;
            Some(background_label(filled))
        } else if tool.supports_fill() {
            let filled = !self.tool_fill(tool);
            self.set(tool, filled);
            Some(fill_label(filled))
        } else {
            None
        }
    }
}

/// Pressing the fill toggle twice for the same active tool restores every
/// tool's fill setting.
pub proof fn lemma_fill_toggle_twice(fills: ToolFills, tool: Tool)
    ensures
        toggled_fills(toggled_fills(fills, tool), tool) == fills,
{
}

} // verus!
