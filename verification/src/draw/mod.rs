//! Editing decisions that do not depend on coordinates: which tool acts,
//! which cursor shows, which handle a pointer grabs.

pub mod damage;
pub mod editor;
pub mod properties;
pub mod selection;
pub mod text_edit;
pub mod timers;

use vstd::prelude::*;

use crate::tool::Tool;

verus! {

/// A temporary replacement of the active tool by the eraser, as a pen's
/// eraser end or a middle button requests it.
#[derive(Debug, Clone, Copy, PartialEq, Eq, Structural)]
pub enum ToolOverride {
    Off,
    Eraser,
    InvertEraser,
}

impl Default for ToolOverride {
    fn default() -> (res: Self)
        ensures
            res == ToolOverride::Off,
    {
        ToolOverride::Off
    }
}

/// The tool that acts when `tool_override` is applied to `active`.
pub open spec fn effective_tool_spec(tool_override: ToolOverride, active: Tool) -> Tool {
    match tool_override {
        ToolOverride::Off => active,
        ToolOverride::Eraser => Tool::Eraser,
        ToolOverride::InvertEraser => if active == Tool::Eraser {
            Tool::Pen
        } else {
            Tool::Eraser
        },
    }
}

impl ToolOverride {
    /// The eraser override when `enabled`, no override otherwise.
    pub fn from_eraser(enabled: bool) -> (res: Self)
        ensures
            enabled ==> res == ToolOverride::Eraser,
            !enabled ==> res == ToolOverride::Off,
    {
        if enabled {
            ToolOverride::Eraser
        } else {
            ToolOverride::Off
        }
    }

    /// The tool that acts while this override holds and `active` is chosen.
    pub fn effective_tool(self, active: Tool) -> (res: Tool)
        ensures
            res == effective_tool_spec(self, active),
    {
        match self {
            ToolOverride::Off => active,
            ToolOverride::Eraser => Tool::Eraser,
            ToolOverride::InvertEraser => if active == Tool::Eraser {
                Tool::Pen
            } else {
                Tool::Eraser
            },
        }
    }
}

/// Inverting the eraser always changes the acting tool between erasing and
/// not erasing, and the plain eraser override always erases.
pub proof fn lemma_override_erases(active: Tool)
    ensures
        effective_tool_spec(ToolOverride::Eraser, active) == Tool::Eraser,
        (effective_tool_spec(ToolOverride::InvertEraser, active) == Tool::Eraser) <==> (active
            != Tool::Eraser),
        effective_tool_spec(ToolOverride::Off, active) == active,
{
}

/// Keyboard modifiers held during a pointer gesture.
#[derive(Debug, Clone, Copy, PartialEq, Eq, Structural)]
pub struct Modifiers {
    pub shift: bool,
    pub ctrl: bool,
    pub alt: bool,
}

impl Default for Modifiers {
    fn default() -> (res: Self)
        ensures
            !res.shift && !res.ctrl && !res.alt,
    {
        Modifiers { shift: false, ctrl: false, alt: false }
    }
}

} // verus!
