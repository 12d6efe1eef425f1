//! The editor's tool choice, its set of selected annotations, and the cursor
//! it asks for.

use vstd::prelude::*;

use super::selection::{cursor, cursor_spec, CursorHint, Handle};
use super::{effective_tool_spec, ToolOverride};
use crate::tool::Tool;

verus! {

/// The active tool, together with what the editor remembers to choose tools:
/// the configured default and the last tool that was not the eraser.
pub struct ToolChoice {
    tool: Tool,
    default_tool: Tool,
    last_non_eraser_tool: Tool,
    remember_last_tool: bool,
}

impl ToolChoice {
    #[verifier::type_invariant]
    spec fn inv(self) -> bool {
        self.wf()
    }

    /// The last non-eraser tool is never the eraser, and it is the active
    /// tool whenever the eraser is not active.
    pub closed spec fn wf(self) -> bool {
        &&& self.last_non_eraser_tool != Tool::Eraser
        &&& self.tool != Tool::Eraser ==> self.last_non_eraser_tool == self.tool
    }

    pub closed spec fn spec_tool(self) -> Tool {
        self.tool
    }

    pub closed spec fn spec_default_tool(self) -> Tool {
        self.default_tool
    }

    pub closed spec fn spec_last_non_eraser_tool(self) -> Tool {
        self.last_non_eraser_tool
    }

    pub closed spec fn spec_remember_last_tool(self) -> bool {
        self.remember_last_tool
    }

    /// The choice at startup: the default tool is active, and the pen stands
    /// in for it as the last non-eraser tool when the default is the eraser.
    pub fn new(default_tool: Tool, remember_last_tool: bool) -> (res: Self)
        ensures
            res.spec_tool() == default_tool,
            res.spec_default_tool() == default_tool,
            res.spec_remember_last_tool() == remember_last_tool,
            res.spec_last_non_eraser_tool() == (if default_tool == Tool::Eraser {
                Tool::Pen
            } else {
                default_tool
            }),
            res.wf(),
    {
        ToolChoice {
            tool: default_tool,
            default_tool,
            last_non_eraser_tool: if default_tool == Tool::Eraser {
                Tool::Pen
            } else {
                default_tool
            },
            remember_last_tool,
        }
    }

    /// The active tool.
    pub fn tool(&self) -> (res: Tool)
        ensures
            res == self.spec_tool(),
    {
        self.tool
    }

    /// The last active tool that was not the eraser; never the eraser.
    pub fn last_non_eraser_tool(&self) -> (res: Tool)
        ensures
            res == self.spec_last_non_eraser_tool(),
            res != Tool::Eraser,
    {
        proof {
            use_type_invariant(self);
        }
        self.last_non_eraser_tool
    }

    /// Makes `tool` active. Returns whether it changed; callers finish the
    /// current interaction and clear the selection before a change.
    pub fn switch_tool(&mut self, tool: Tool) -> (changed: bool)
        ensures
            changed == (old(self).spec_tool() != tool),
            final(self).spec_tool() == tool,
            final(self).spec_default_tool() == old(self).spec_default_tool(),
            final(self).spec_remember_last_tool() == old(self).spec_remember_last_tool(),
            final(self).spec_last_non_eraser_tool() == (if changed && tool != Tool::Eraser {
                tool
            } else {
                old(self).spec_last_non_eraser_tool()
            }),
    {
        proof {
            use_type_invariant(&*self);
        }
        if self.tool == tool {
            return false;
        }
        let last_non_eraser_tool = if tool != Tool::Eraser {
            tool
        } else {
            self.last_non_eraser_tool
        };
        *self = ToolChoice {
            tool,
            default_tool: self.default_tool,
            last_non_eraser_tool,
            remember_last_tool: self.remember_last_tool,
        };
        true
    }

    /// The tool the eraser toggle switches to: back to the last non-eraser
    /// tool from the eraser, to the eraser otherwise.
    pub fn eraser_toggle_target(&self) -> (res: Tool)
        ensures
            res == (if self.spec_tool() == Tool::Eraser {
                self.spec_last_non_eraser_tool()
            } else {
                Tool::Eraser
            }),
    {
        if self.tool == Tool::Eraser {
            self.last_non_eraser_tool
        } else {
            Tool::Eraser
        }
    }

    /// Switches between the eraser and the last non-eraser tool; always a change.
    pub fn toggle_eraser(&mut self) -> (changed: bool)
        ensures
            changed,
            toggled_eraser(*old(self), *final(self)),
            final(self).wf(),
    {
        proof {
            use_type_invariant(&*self);
        }
        let target = self.eraser_toggle_target();
        self.switch_tool(target)
    }

    /// The tool whose colour and opacity a colour choice edits: the tool the
    /// eraser replaced while erasing, the active tool otherwise.
    pub fn color_tool(&self) -> (res: Tool)
        ensures
            res == (if self.spec_tool() == Tool::Eraser {
                self.spec_last_non_eraser_tool()
            } else {
                self.spec_tool()
            }),
            res != Tool::Eraser,
    {
        proof {
            use_type_invariant(self);
        }
        if self.tool == Tool::Eraser {
            self.last_non_eraser_tool
        } else {
            self.tool
        }
    }

    /// On activation, returns to the default tool unless the last tool is
    /// remembered. Returns whether the tool changed.
    pub fn activate(&mut self) -> (changed: bool)
        ensures
            changed == (!old(self).spec_remember_last_tool() && old(self).spec_tool()
                != old(self).spec_default_tool()),
            final(self).spec_tool() == (if old(self).spec_remember_last_tool() {
                old(self).spec_tool()
            } else {
                old(self).spec_default_tool()
            }),
            final(self).spec_default_tool() == old(self).spec_default_tool(),
            final(self).spec_remember_last_tool() == old(self).spec_remember_last_tool(),
            final(self).spec_last_non_eraser_tool() == (if changed && old(self).spec_default_tool()
                != Tool::Eraser {
                old(self).spec_default_tool()
            } else {
                old(self).spec_last_non_eraser_tool()
            }),
    {
        if self.remember_last_tool || self.tool == self.default_tool {
            return false;
        }
        let target = self.default_tool;
        self.switch_tool(target)
    }
}

/// Identifies an annotation; identifiers increase as annotations are added.
pub type ElementId = u64;

/// The annotations selected for moving, resizing and property changes, in
/// the order they were selected; none is selected twice.
pub struct Selection {
    ids: Vec<ElementId>,
}

impl View for Selection {
    type V = Seq<ElementId>;

    closed spec fn view(&self) -> Seq<ElementId> {
        self.ids@
    }
}

/// `ids` sorted in increasing order, holding the same identifiers.
pub open spec fn sorted_ids(ids: Seq<ElementId>, sorted: Seq<ElementId>) -> bool {
    &&& sorted.to_multiset() == ids.to_multiset()
    &&& forall|i: int, j: int| 0 <= i <= j < sorted.len() ==> sorted[i] <= sorted[j]
}

/// Sorts identifiers in increasing order with `slice::sort_unstable`.
#[verifier::external_body]
fn sort_unstable_ids(ids: &mut Vec<ElementId>)
    ensures
        sorted_ids(old(ids)@, final(ids)@),
{
    ids.sort_unstable();
}

impl Selection {
    #[verifier::type_invariant]
    spec fn inv(self) -> bool {
        self.ids@.no_duplicates()
    }

    /// No annotation is selected.
    pub fn new() -> (res: Self)
        ensures
            res@ == Seq::<ElementId>::empty(),
    {
        Selection { ids: Vec::new() }
    }

    /// The number of selected annotations.
    pub fn len(&self) -> (res: usize)
        ensures
            res == self@.len(),
    {
        self.ids.len()
    }

    /// Whether nothing is selected.
    pub fn is_empty(&self) -> (res: bool)
        ensures
            res == (self@.len() == 0),
    {
        self.ids.len() == 0
    }

    /// The selected identifiers, first selected first.
    pub fn ids(&self) -> (res: &[ElementId])
        ensures
            res@ == self@,
    {
        self.ids.as_slice()
    }

    /// Whether `id` is selected.
    pub fn contains(&self, id: ElementId) -> (res: bool)
        ensures
            res == self@.contains(id),
    {
        self.position(id).is_some()
    }

    fn position(&self, id: ElementId) -> (res: Option<usize>)
        ensures
            match res {
                Some(i) => i < self@.len() && self@[i as int] == id,
                None => !self@.contains(id),
            },
    {
        let mut i: usize = 0;
        while i < self.ids.len()
            invariant
                i <= self.ids@.len(),
                forall|j: int| 0 <= j < i ==> self.ids@[j] != id,
            decreases self.ids@.len() - i,
        {
            if self.ids[i] == id {
                return Some(i);
            }
            i = i + 1;
        }
        None
    }

    /// Selects `id` when it is not selected and deselects it when it is, as a
    /// ctrl-click on an annotation does.
    pub fn toggle(&mut self, id: ElementId)
        ensures
            old(self)@.contains(id) ==> final(self)@ == old(self)@.remove(
                old(self)@.index_of(id),
            ),
            !old(self)@.contains(id) ==> final(self)@ == old(self)@.push(id),
            final(self)@.to_set() == toggled_set(old(self)@.to_set(), id),
    {
        proof {
            use_type_invariant(&*self);
        }
        let ghost before = self.ids@;
        match self.position(id) {
            Some(index) => {
                proof {
                    before.index_of_first_ensures(id);
                    assert(before.index_of_first(id) == Some(index as int)) by {
                        if before.index_of_first(id) != Some(index as int) {
                            let k = before.index_of_first(id)->0;
                            assert(before[k] == before[index as int]);
                        }
                    }
                    assert(before.index_of(id) == index as int);
                }
                let mut ids = Vec::new();
                std::mem::swap(&mut ids, &mut self.ids);
                ids.remove(index);
                proof {
                    assert(ids@ =~= before.remove(index as int));
                    assert(ids@.no_duplicates()) by {
                        assert forall|i: int, j: int|
                            0 <= i < ids@.len() && 0 <= j < ids@.len() && i != j implies ids@[i]
                            != ids@[j] by {
                            let bi = if i < index { i } else { i + 1 };
                            let bj = if j < index { j } else { j + 1 };
                            assert(ids@[i] == before[bi]);
                            assert(ids@[j] == before[bj]);
                        }
                    }
                    assert(ids@.to_set() =~= before.to_set().remove(id)) by {
                        assert forall|x: ElementId| ids@.to_set().contains(x) <==> before.to_set().remove(id).contains(x) by {
                            if ids@.contains(x) {
                                let k = choose|k: int| 0 <= k < ids@.len() && ids@[k] == x;
                                let bk = if k < index { k } else { k + 1 };
                                assert(before[bk] == x);
                                assert(bk != index);
                            }
                            if before.contains(x) && x != id {
                                let k = choose|k: int| 0 <= k < before.len() && before[k] == x;
                                assert(k != index);
                                let ik = if k < index { k } else { k - 1 };
                                assert(ids@[ik] == x);
                            }
                        }
                    }
                }
                self.ids = ids;
            },
            None => {
                let mut ids = Vec::new();
                std::mem::swap(&mut ids, &mut self.ids);
                ids.push(id);
                proof {
                    assert(ids@ =~= before.push(id));
                    assert(ids@.no_duplicates()) by {
                        assert forall|i: int, j: int|
                            0 <= i < ids@.len() && 0 <= j < ids@.len() && i != j implies ids@[i]
                            != ids@[j] by {
                            if i == before.len() as int {
                                assert(!before.contains(id));
                                assert(before[j] != id);
                            } else if j == before.len() as int {
                                assert(before[i] != id);
                            }
                        }
                    }
                    assert(ids@.to_set() =~= before.to_set().insert(id)) by {
                        assert forall|x: ElementId| ids@.to_set().contains(x) <==> before.to_set().insert(id).contains(x) by {
                            if ids@.contains(x) {
                                let k = choose|k: int| 0 <= k < ids@.len() && ids@[k] == x;
                                if k < before.len() {
                                    assert(before[k] == x);
                                }
                            }
                            if before.contains(x) {
                                let k = choose|k: int| 0 <= k < before.len() && before[k] == x;
                                assert(ids@[k] == x);
                            }
                            if x == id {
                                assert(ids@[before.len() as int] == id);
                            }
                        }
                    }
                }
                self.ids = ids;
            },
        }
    }

    /// A plain click in selection mode: selects only the hit annotation
    /// unless it is already selected, and clears the selection on a miss.
    /// Returns whether the click changes what is selected or hits nothing.
    pub fn select_hit(&mut self, hit: Option<ElementId>) -> (changed: bool)
        ensures
            changed == (match hit {
                Some(id) => !old(self)@.contains(id),
                None => true,
            }),
            final(self)@ == (match hit {
                Some(id) => if changed {
                    seq![id]
                } else {
                    old(self)@
                },
                None => Seq::<ElementId>::empty(),
            }),
    {
        let changed = match hit {
            Some(id) => !self.contains(id),
            None => true,
        };
        match hit {
            Some(id) => {
                if changed {
                    let mut ids = Vec::new();
                    ids.push(id);
                    proof {
                        assert(ids@ =~= seq![id]);
                    }
                    self.ids = ids;
                }
            },
            None => {
                self.ids = Vec::new();
            },
        }
        changed
    }

    /// Deselects everything; returns whether anything was selected.
    pub fn take(&mut self) -> (was_selected: bool)
        ensures
            was_selected == (old(self)@.len() > 0),
            final(self)@ == Seq::<ElementId>::empty(),
    {
        let was_selected = self.ids.len() > 0;
        self.ids = Vec::new();
        was_selected
    }

    /// The selected identifiers in increasing order, as a move gesture keeps them.
    pub fn sorted_ids(&self) -> (res: Vec<ElementId>)
        ensures
            sorted_ids(self@, res@),
    {
        let mut ids = self.ids.clone();
        proof {
            assert(ids@ =~= self.ids@);
        }
        sort_unstable_ids(&mut ids);
        ids
    }
}

impl Selection {
    /// A press in selection mode on the annotation `hit`, if any, after an
    /// interaction ended with `previous` telling whether that changed the
    /// drawing. A ctrl-press toggles the hit annotation; a plain press
    /// selects only the hit annotation unless it is already selected, and
    /// starts moving the selection, or clears the selection on a miss.
    /// Returns whether the overlay changed, and the identifiers to move, in
    /// increasing order.
    pub fn press(&mut self, hit: Option<ElementId>, ctrl: bool, previous: bool) -> (res: (bool, Option<Vec<ElementId>>))
        ensures
            ctrl ==> match hit {
                Some(id) => {
                    &&& final(self)@.to_set() == toggled_set(old(self)@.to_set(), id)
                    &&& (old(self)@.contains(id) ==> final(self)@ == old(self)@.remove(
                        old(self)@.index_of(id),
                    ))
                    &&& (!old(self)@.contains(id) ==> final(self)@ == old(self)@.push(id))
                    &&& res.0 && res.1 is None
                },
                None => final(self)@ == old(self)@ && res.0 == previous && res.1 is None,
            },
            !ctrl ==> match hit {
                Some(id) => {
                    &&& final(self)@ == (if old(self)@.contains(id) {
                        old(self)@
                    } else {
                        seq![id]
                    })
                    &&& res.0
                    &&& res.1 matches Some(ids) && sorted_ids(final(self)@, ids@)
                },
                None => final(self)@ == Seq::<ElementId>::empty() && res.0 && res.1 is None,
            },
    {
        if ctrl {
            match hit {
                Some(id) => {
                    self.toggle(id);
                    (true, None)
                },
                None => (previous, None),
            }
        } else {
            let changed = self.select_hit(hit);
            match hit {
                Some(_) => (true, Some(self.sorted_ids())),
                None => (previous || changed, None),
            }
        }
    }
}

/// `after` is `before` with `tool` made active.
pub open spec fn tool_switched(before: ToolChoice, after: ToolChoice, tool: Tool) -> bool {
    &&& after.spec_tool() == tool
    &&& after.spec_default_tool() == before.spec_default_tool()
    &&& after.spec_remember_last_tool() == before.spec_remember_last_tool()
    &&& after.spec_last_non_eraser_tool() == (if before.spec_tool() != tool && tool != Tool::Eraser {
        tool
    } else {
        before.spec_last_non_eraser_tool()
    })
}

/// The tool that activation leaves active: the default tool unless the last
/// tool is remembered.
pub open spec fn activation_tool(tools: ToolChoice) -> Tool {
    if tools.spec_remember_last_tool() {
        tools.spec_tool()
    } else {
        tools.spec_default_tool()
    }
}

/// The editor's tool choice, selection and colour picker, which change
/// together: a new tool drops the selection, and leaving drawing mode drops
/// the selection and closes the picker.
pub struct EditorCore {
    pub tools: ToolChoice,
    pub selection: Selection,
    pub picker_open: bool,
}

impl EditorCore {
    /// The editor at startup: the default tool, nothing selected, the picker
    /// closed.
    pub fn new(default_tool: Tool, remember_last_tool: bool) -> (res: Self)
        ensures
            res.tools.spec_tool() == default_tool,
            res.tools.spec_default_tool() == default_tool,
            res.tools.spec_remember_last_tool() == remember_last_tool,
            res.selection@ == Seq::<ElementId>::empty(),
            !res.picker_open,
    {
        EditorCore {
            tools: ToolChoice::new(default_tool, remember_last_tool),
            selection: Selection::new(),
            picker_open: false,
        }
    }

    /// Makes `tool` active; a change drops the selection. Callers finish
    /// the interaction in progress first. Returns whether the tool changed.
    pub fn switch_tool(&mut self, tool: Tool) -> (changed: bool)
        ensures
            changed == (old(self).tools.spec_tool() != tool),
            tool_switched(old(self).tools, final(self).tools, tool),
            final(self).selection@ == (if changed {
                Seq::<ElementId>::empty()
            } else {
                old(self).selection@
            }),
            final(self).picker_open == old(self).picker_open,
    {
        let changed = self.tools.switch_tool(tool);
        if changed {
            self.selection.take();
        }
        changed
    }

    /// Switches between the eraser and the last non-eraser tool, dropping the
    /// selection; always a change.
    pub fn toggle_eraser(&mut self) -> (changed: bool)
        ensures
            changed,
            toggled_eraser(old(self).tools, final(self).tools),
            final(self).selection@ == Seq::<ElementId>::empty(),
            final(self).picker_open == old(self).picker_open,
    {
        let changed = self.tools.toggle_eraser();
        self.selection.take();
        changed
    }

    /// On entering drawing mode, returns to the default tool unless the last
    /// tool is remembered; a change drops the selection. Returns whether the
    /// tool changed.
    pub fn activate(&mut self) -> (changed: bool)
        ensures
            changed == (old(self).tools.spec_tool() != activation_tool(old(self).tools)),
            tool_switched(old(self).tools, final(self).tools, activation_tool(old(self).tools)),
            final(self).selection@ == (if changed {
                Seq::<ElementId>::empty()
            } else {
                old(self).selection@
            }),
            final(self).picker_open == old(self).picker_open,
    {
        let changed = self.tools.activate();
        if changed {
            self.selection.take();
        }
        changed
    }

    /// On leaving drawing mode, drops the selection and closes the picker.
    /// `interaction_changed` tells whether finishing the interaction in
    /// progress changed the drawing. Returns whether anything changed.
    pub fn deactivate(&mut self, interaction_changed: bool) -> (changed: bool)
        ensures
            changed == (interaction_changed || old(self).selection@.len() > 0 || old(self).picker_open),
            final(self).selection@ == Seq::<ElementId>::empty(),
            !final(self).picker_open,
            final(self).tools == old(self).tools,
    {
        let had_selection = self.selection.take();
        let had_picker = self.picker_open;
        self.picker_open = false;
        interaction_changed || had_selection || had_picker
    }

    /// Escape: closes an open picker and does nothing else; otherwise an
    /// interaction in progress (`has_interaction`) is cancelled, or else the
    /// selection is dropped, or else, with nothing to cancel, the overlay
    /// leaves drawing mode. The caller ends the interaction when this says
    /// it was cancelled. Returns `(changed, deactivate, cancelled)`.
    pub fn cancel(&mut self, has_interaction: bool) -> (res: (bool, bool, bool))
        ensures
            old(self).picker_open ==> res == (true, false, false) && !final(self).picker_open
                && final(self).selection@ == old(self).selection@,
            !old(self).picker_open && has_interaction ==> res == (true, false, true)
                && final(self).selection@ == old(self).selection@,
            !old(self).picker_open && !has_interaction && old(self).selection@.len() > 0 ==> res
                == (true, false, false) && final(self).selection@ == Seq::<ElementId>::empty(),
            !old(self).picker_open && !has_interaction && old(self).selection@.len() == 0 ==> res
                == (false, true, false) && final(self).selection@ == old(self).selection@,
            !final(self).picker_open,
            final(self).tools == old(self).tools,
    {
        if self.picker_open {
            self.picker_open = false;
            return (true, false, false);
        }
        if has_interaction {
            return (true, false, true);
        }
        if self.selection.take() {
            (true, false, false)
        } else {
            (false, true, false)
        }
    }

    /// Opens the colour picker.
    pub fn open_picker(&mut self)
        ensures
            final(self).picker_open,
            final(self).tools == old(self).tools,
            final(self).selection@ == old(self).selection@,
    {
        self.picker_open = true;
    }

    /// Closes the colour picker; returns whether it was open.
    pub fn dismiss_picker(&mut self) -> (was_open: bool)
        ensures
            was_open == old(self).picker_open,
            !final(self).picker_open,
            final(self).tools == old(self).tools,
            final(self).selection@ == old(self).selection@,
    {
        let was_open = self.picker_open;
        self.picker_open = false;
        was_open
    }
}

/// The set of selected annotations after a ctrl-click on `id`.
pub open spec fn toggled_set(selected: Set<ElementId>, id: ElementId) -> Set<ElementId> {
    if selected.contains(id) {
        selected.remove(id)
    } else {
        selected.insert(id)
    }
}

/// Two ctrl-clicks on the same annotation leave the selected set as it was.
pub proof fn lemma_toggle_twice(selected: Set<ElementId>, id: ElementId)
    ensures
        toggled_set(toggled_set(selected, id), id) == selected,
{
    assert(toggled_set(toggled_set(selected, id), id) =~= selected);
}

/// What an interaction in progress is doing, as far as the cursor is concerned.
#[derive(Debug, Clone, Copy, PartialEq, Eq, Structural)]
pub enum InteractionKind {
    Freehand,
    Drawing,
    Moving,
    Resizing(Handle),
    EditingText,
    Erasing,
}

/// The pointer cursor: hidden, a compositor shape, or a drawn preview of a
/// tool's brush.
#[derive(Debug, Clone, Copy, PartialEq, Eq, Structural)]
pub enum CursorChoice {
    Hidden,
    Shape(CursorHint),
    Tool(Tool),
}

impl CursorChoice {
    /// Whether switching between the two cursors leaves the compositor's
    /// cursor as it is: equal cursors, or two cursors that both hide the
    /// compositor's cursor (hidden, or a drawn brush preview).
    pub fn same_compositor_cursor(self, other: Self) -> (res: bool)
        ensures
            res == (self == other || ((self is Hidden || self is Tool) && (other is Hidden
                || other is Tool))),
    {
        let hides_self = matches!(self, CursorChoice::Hidden | CursorChoice::Tool(_));
        let hides_other = matches!(other, CursorChoice::Hidden | CursorChoice::Tool(_));
        let equal = match (self, other) {
            (CursorChoice::Hidden, CursorChoice::Hidden) => true,
            (CursorChoice::Shape(a), CursorChoice::Shape(b)) => a == b,
            (CursorChoice::Tool(a), CursorChoice::Tool(b)) => a == b,
            _ => false,
        };
        equal || (hides_self && hides_other)
    }
}

/// Whether the tool draws a shape by dragging its bounds or endpoints.
pub open spec fn is_shape_tool(tool: Tool) -> bool {
    tool == Tool::Line || tool == Tool::Arrow || tool == Tool::Triangle || tool
        == Tool::Rectangle || tool == Tool::Ellipse
}

/// The cursor the editor asks for, from the first rule that applies:
/// an eraser override shows the eraser; an interaction shows its own cursor;
/// an open picker shows a crosshair; text shows a text cursor; shape tools a
/// crosshair; other tools than selection their brush; in selection mode, with
/// exactly one annotation selected, its handle's cursor, or a move cursor over
/// the annotation, and a crosshair otherwise.
pub open spec fn cursor_choice_spec(
    tool: Tool,
    tool_override: ToolOverride,
    interaction: Option<InteractionKind>,
    picker_active: bool,
    selected_len: nat,
    handle_hit: Option<Handle>,
    element_hit: bool,
) -> CursorChoice {
    let effective = effective_tool_spec(tool_override, tool);
    if tool_override != ToolOverride::Off && effective == Tool::Eraser {
        CursorChoice::Tool(effective)
    } else if interaction is Some {
        match interaction->0 {
            InteractionKind::Resizing(handle) => CursorChoice::Shape(cursor_spec(handle)),
            InteractionKind::Freehand => CursorChoice::Hidden,
            InteractionKind::Drawing => CursorChoice::Shape(CursorHint::Crosshair),
            InteractionKind::Moving => CursorChoice::Shape(CursorHint::Move),
            InteractionKind::EditingText => CursorChoice::Shape(CursorHint::Text),
            InteractionKind::Erasing => CursorChoice::Tool(Tool::Eraser),
        }
    } else if picker_active {
        CursorChoice::Shape(CursorHint::Crosshair)
    } else if effective == Tool::Text {
        CursorChoice::Shape(CursorHint::Text)
    } else if is_shape_tool(effective) {
        CursorChoice::Shape(CursorHint::Crosshair)
    } else if effective != Tool::Select {
        CursorChoice::Tool(effective)
    } else if selected_len != 1 {
        CursorChoice::Shape(CursorHint::Crosshair)
    } else {
        match handle_hit {
            Some(handle) => CursorChoice::Shape(cursor_spec(handle)),
            None => if element_hit {
                CursorChoice::Shape(CursorHint::Move)
            } else {
                CursorChoice::Shape(CursorHint::Crosshair)
            },
        }
    }
}

/// The cursor for the pointer. `handle_hit` is the handle of the only selected
/// annotation under the pointer, and `element_hit` whether the pointer is over
/// that annotation; both matter only in selection mode with one annotation
/// selected.
pub fn cursor_choice(
    tool: Tool,
    tool_override: ToolOverride,
    interaction: Option<InteractionKind>,
    picker_active: bool,
    selected_len: usize,
    handle_hit: Option<Handle>,
    element_hit: bool,
) -> (res: CursorChoice)
    ensures
        res == cursor_choice_spec(
            tool,
            tool_override,
            interaction,
            picker_active,
            selected_len as nat,
            handle_hit,
            element_hit,
        ),
{
    let effective = tool_override.effective_tool(tool);
    if tool_override != ToolOverride::Off && effective == Tool::Eraser {
        return CursorChoice::Tool(effective);
    }
    match interaction {
        Some(InteractionKind::Resizing(handle)) => {
            return CursorChoice::Shape(cursor(handle));
        },
        Some(InteractionKind::Freehand) => return CursorChoice::Hidden,
        Some(InteractionKind::Drawing) => return CursorChoice::Shape(CursorHint::Crosshair),
        Some(InteractionKind::Moving) => return CursorChoice::Shape(CursorHint::Move),
        Some(InteractionKind::EditingText) => return CursorChoice::Shape(CursorHint::Text),
        Some(InteractionKind::Erasing) => return CursorChoice::Tool(Tool::Eraser),
        None => {},
    }
    if picker_active {
        return CursorChoice::Shape(CursorHint::Crosshair);
    }
    if effective == Tool::Text {
        return CursorChoice::Shape(CursorHint::Text);
    }
    if matches!(
        effective,
        Tool::Line | Tool::Arrow | Tool::Triangle | Tool::Rectangle | Tool::Ellipse
    ) {
        return CursorChoice::Shape(CursorHint::Crosshair);
    }
    if effective != Tool::Select {
        return CursorChoice::Tool(effective);
    }
    if selected_len != 1 {
        return CursorChoice::Shape(CursorHint::Crosshair);
    }
    match handle_hit {
        Some(handle) => CursorChoice::Shape(cursor(handle)),
        None => if element_hit {
            CursorChoice::Shape(CursorHint::Move)
        } else {
            CursorChoice::Shape(CursorHint::Crosshair)
        },
    }
}

/// What a press of the primary button starts.
#[derive(Debug, Clone, Copy, PartialEq, Eq, Structural)]
pub enum PressStep {
    /// Moves the caret of the edited text, which the press hit.
    TextClick,
    /// Starts erasing.
    Erase,
    /// Starts a freehand stroke.
    Freehand,
    /// Starts dragging out a shape with the tool.
    Drawing(Tool),
    /// Starts a new text at the pointer.
    NewText,
    /// Grabs a handle of the only selected annotation.
    Resize(Handle),
    /// Selects by what the press hit (see `Selection::press`).
    Select,
}

/// Presses go to the edited text when they hit it and no eraser overrides
/// the tool; otherwise the tool in effect decides. In selection mode a plain
/// press on a handle of the only selected annotation resizes it.
pub open spec fn press_step_spec(
    tool: Tool,
    tool_override: ToolOverride,
    in_edited_text: bool,
    ctrl: bool,
    selected_len: nat,
    handle_hit: Option<Handle>,
) -> PressStep {
    let effective = effective_tool_spec(tool_override, tool);
    if tool_override == ToolOverride::Off && in_edited_text {
        PressStep::TextClick
    } else if effective == Tool::Eraser {
        PressStep::Erase
    } else if effective == Tool::Pen {
        PressStep::Freehand
    } else if is_shape_tool(effective) {
        PressStep::Drawing(effective)
    } else if effective == Tool::Text {
        PressStep::NewText
    } else if !ctrl && selected_len == 1 && handle_hit is Some {
        PressStep::Resize(handle_hit->0)
    } else {
        PressStep::Select
    }
}

/// What a press starts. `in_edited_text` tells whether the press lies inside
/// the text being edited; `handle_hit` is the handle of the only selected
/// annotation under the pointer.
pub fn press_step(
    tool: Tool,
    tool_override: ToolOverride,
    in_edited_text: bool,
    ctrl: bool,
    selected_len: usize,
    handle_hit: Option<Handle>,
) -> (res: PressStep)
    ensures
        res == press_step_spec(
            tool,
            tool_override,
            in_edited_text,
            ctrl,
            selected_len as nat,
            handle_hit,
        ),
{
    if tool_override == ToolOverride::Off && in_edited_text {
        return PressStep::TextClick;
    }
    let effective = tool_override.effective_tool(tool);
    match effective {
        Tool::Eraser => PressStep::Erase,
        Tool::Pen => PressStep::Freehand,
        Tool::Line | Tool::Arrow | Tool::Triangle | Tool::Rectangle | Tool::Ellipse => {
            PressStep::Drawing(effective)
        },
        Tool::Text => PressStep::NewText,
        Tool::Select => match handle_hit {
            Some(handle) => if !ctrl && selected_len == 1 {
                PressStep::Resize(handle)
            } else {
                PressStep::Select
            },
            None => PressStep::Select,
        },
    }
}

/// A press while the eraser overrides the tool never goes to the edited
/// text: it erases, or draws freehand when the override inverts an active
/// eraser.
pub proof fn lemma_override_press_never_edits_text(
    tool: Tool,
    tool_override: ToolOverride,
    in_edited_text: bool,
    ctrl: bool,
    selected_len: nat,
    handle_hit: Option<Handle>,
)
    requires
        tool_override != ToolOverride::Off,
    ensures
        press_step_spec(tool, tool_override, in_edited_text, ctrl, selected_len, handle_hit)
            == PressStep::Erase || press_step_spec(
            tool,
            tool_override,
            in_edited_text,
            ctrl,
            selected_len,
            handle_hit,
        ) == PressStep::Freehand,
{
}

/// Away from edited text and without an eraser override, the active tool
/// decides: only the pen draws freehand, each shape tool drags out a shape
/// of its own kind, only the text tool starts a text and only the eraser
/// erases. With the plain eraser override a press always erases.
pub proof fn lemma_press_follows_tool(
    tool: Tool,
    ctrl: bool,
    selected_len: nat,
    handle_hit: Option<Handle>,
    in_edited_text: bool,
)
    ensures
        ({
            let step = press_step_spec(tool, ToolOverride::Off, false, ctrl, selected_len, handle_hit);
            &&& (step == PressStep::Freehand) <==> tool == Tool::Pen
            &&& (step == PressStep::NewText) <==> tool == Tool::Text
            &&& (step == PressStep::Erase) <==> tool == Tool::Eraser
            &&& (tool == Tool::Line || tool == Tool::Arrow || tool == Tool::Triangle || tool
                == Tool::Rectangle || tool == Tool::Ellipse) ==> step == PressStep::Drawing(tool)
            &&& step matches PressStep::Drawing(drawn) ==> drawn == tool
            &&& (step is Resize || step is Select) ==> tool == Tool::Select
        }),
        press_step_spec(tool, ToolOverride::Eraser, in_edited_text, ctrl, selected_len, handle_hit)
            == PressStep::Erase,
{
}

/// In selection mode a press grabs a handle exactly when it is a plain
/// press on a handle of the only selected annotation, and then grabs that
/// handle; a press inside the edited text without an eraser override always
/// goes to the text.
pub proof fn lemma_press_resizes_only_the_selected_handle(
    tool: Tool,
    tool_override: ToolOverride,
    ctrl: bool,
    selected_len: nat,
    handle_hit: Option<Handle>,
)
    ensures
        ({
            let step = press_step_spec(Tool::Select, ToolOverride::Off, false, ctrl, selected_len, handle_hit);
            &&& step is Resize <==> (!ctrl && selected_len == 1 && handle_hit is Some)
            &&& step matches PressStep::Resize(handle) ==> handle_hit == Some(handle)
            &&& !(step is Resize) ==> step == PressStep::Select
        }),
        press_step_spec(tool, ToolOverride::Off, true, ctrl, selected_len, handle_hit)
            == PressStep::TextClick,
        tool_override != ToolOverride::Off ==> press_step_spec(
            tool,
            tool_override,
            true,
            ctrl,
            selected_len,
            handle_hit,
        ) != PressStep::TextClick,
{
}

/// The kinds of editing actions keys and the input method request.
#[derive(Debug, Clone, Copy, PartialEq, Eq, Structural)]
pub enum ActionKind {
    Undo,
    Redo,
    SelectAll,
    ToggleEraser,
    ToggleFill,
    Delete,
    Clear,
    Cancel,
    CommitText,
    Backspace,
    BackspaceWord,
    MoveCursor,
    InsertText,
    ApplyTextInput,
}

/// The editor operation an action performs.
#[derive(Debug, Clone, Copy, PartialEq, Eq, Structural)]
pub enum EditorStep {
    /// Nothing beyond closing the picker.
    Nothing,
    /// Apply input-method edits to the edited text, then commit it when the
    /// input method submitted.
    ApplyTextInput { commit_after: bool },
    Undo,
    Redo,
    SelectAllText,
    SelectAllElements,
    ToggleEraser,
    ToggleFill,
    DeleteText,
    DeleteSelection,
    Clear,
    /// Cancel the interaction, else drop the selection, else deactivate.
    Cancel,
    CommitText,
    Backspace,
    BackspaceWord,
    MoveCursor,
    InsertText,
}

/// How an action is carried out: whether it closes the picker first, and
/// what it then does.
#[derive(Debug, Clone, Copy, PartialEq, Eq, Structural)]
pub struct ActionPlan {
    pub closes_picker: bool,
    pub step: EditorStep,
}

/// Routing of actions. Input-method edits apply only to edited text and
/// leave the picker alone. Any other action closes an open picker, and
/// cancelling with the picker open does nothing else. Undo and redo wait
/// while text is edited; select-all and delete act on the edited text while
/// there is one; text keys act only on edited text.
pub open spec fn plan_action_spec(
    action: ActionKind,
    editing_text: bool,
    picker_open: bool,
    submit: bool,
) -> ActionPlan {
    if action == ActionKind::ApplyTextInput {
        ActionPlan {
            closes_picker: false,
            step: if editing_text {
                EditorStep::ApplyTextInput { commit_after: submit }
            } else {
                EditorStep::Nothing
            },
        }
    } else if picker_open && action == ActionKind::Cancel {
        ActionPlan { closes_picker: true, step: EditorStep::Nothing }
    } else {
        ActionPlan {
            closes_picker: picker_open,
            step: match action {
                ActionKind::Undo => if editing_text {
                    EditorStep::Nothing
                } else {
                    EditorStep::Undo
                },
                ActionKind::Redo => if editing_text {
                    EditorStep::Nothing
                } else {
                    EditorStep::Redo
                },
                ActionKind::SelectAll => if editing_text {
                    EditorStep::SelectAllText
                } else {
                    EditorStep::SelectAllElements
                },
                ActionKind::ToggleEraser => EditorStep::ToggleEraser,
                ActionKind::ToggleFill => EditorStep::ToggleFill,
                ActionKind::Delete => if editing_text {
                    EditorStep::DeleteText
                } else {
                    EditorStep::DeleteSelection
                },
                ActionKind::Clear => EditorStep::Clear,
                ActionKind::Cancel => EditorStep::Cancel,
                ActionKind::CommitText => EditorStep::CommitText,
                ActionKind::Backspace => if editing_text {
                    EditorStep::Backspace
                } else {
                    EditorStep::Nothing
                },
                ActionKind::BackspaceWord => if editing_text {
                    EditorStep::BackspaceWord
                } else {
                    EditorStep::Nothing
                },
                ActionKind::MoveCursor => if editing_text {
                    EditorStep::MoveCursor
                } else {
                    EditorStep::Nothing
                },
                ActionKind::InsertText => if editing_text {
                    EditorStep::InsertText
                } else {
                    EditorStep::Nothing
                },
                ActionKind::ApplyTextInput => EditorStep::Nothing,
            },
        }
    }
}

/// Decides how an action is carried out. `submit` tells whether input-method
/// edits end with a submit.
pub fn plan_action(action: ActionKind, editing_text: bool, picker_open: bool, submit: bool) -> (res: ActionPlan)
    ensures
        res == plan_action_spec(action, editing_text, picker_open, submit),
{
    if action == ActionKind::ApplyTextInput {
        return ActionPlan {
            closes_picker: false,
            step: if editing_text {
                EditorStep::ApplyTextInput { commit_after: submit }
            } else {
                EditorStep::Nothing
            },
        };
    }
    if picker_open && action == ActionKind::Cancel {
        return ActionPlan { closes_picker: true, step: EditorStep::Nothing };
    }
    let step = match action {
        ActionKind::Undo => if editing_text {
            EditorStep::Nothing
        } else {
            EditorStep::Undo
        },
        ActionKind::Redo => if editing_text {
            EditorStep::Nothing
        } else {
            EditorStep::Redo
        },
        ActionKind::SelectAll => if editing_text {
            EditorStep::SelectAllText
        } else {
            EditorStep::SelectAllElements
        },
        ActionKind::ToggleEraser => EditorStep::ToggleEraser,
        ActionKind::ToggleFill => EditorStep::ToggleFill,
        ActionKind::Delete => if editing_text {
            EditorStep::DeleteText
        } else {
            EditorStep::DeleteSelection
        },
        ActionKind::Clear => EditorStep::Clear,
        ActionKind::Cancel => EditorStep::Cancel,
        ActionKind::CommitText => EditorStep::CommitText,
        ActionKind::Backspace => if editing_text {
            EditorStep::Backspace
        } else {
            EditorStep::Nothing
        },
        ActionKind::BackspaceWord => if editing_text {
            EditorStep::BackspaceWord
        } else {
            EditorStep::Nothing
        },
        ActionKind::MoveCursor => if editing_text {
            EditorStep::MoveCursor
        } else {
            EditorStep::Nothing
        },
        ActionKind::InsertText => if editing_text {
            EditorStep::InsertText
        } else {
            EditorStep::Nothing
        },
        ActionKind::ApplyTextInput => EditorStep::Nothing,
    };
    ActionPlan { closes_picker: picker_open, step }
}

/// The effect of cancelling: a change when an interaction was cancelled or a
/// selection dropped; otherwise the overlay deactivates. Returns
/// `(changed, deactivate)`.
pub fn cancel_outcome(cancelled_interaction: bool, had_selection: bool) -> (res: (bool, bool))
    ensures
        res.0 == (cancelled_interaction || had_selection),
        res.1 == !res.0,
{
    if cancelled_interaction || had_selection {
        (true, false)
    } else {
        (false, true)
    }
}

/// Whether the annotations are cleared before the overlay leaves drawing
/// mode: only when Escape deactivated it and clearing on Escape is
/// configured.
pub fn clears_on_escape(clear_on_escape: bool, action: ActionKind, deactivate: bool) -> (res: bool)
    ensures
        res == (clear_on_escape && action == ActionKind::Cancel && deactivate),
{
    clear_on_escape && action == ActionKind::Cancel && deactivate
}

/// Every action other than input-method edits and a cancel that closes the
/// picker is carried out by the editor step of its own kind: the eraser
/// toggle toggles the eraser, the fill toggle the fill, clear clears, and so
/// on; text keys act only on edited text, undo and redo only outside it.
/// An open picker is closed first.
pub proof fn lemma_action_keeps_its_kind(
    action: ActionKind,
    editing_text: bool,
    picker_open: bool,
    submit: bool,
)
    requires
        action != ActionKind::ApplyTextInput,
        !(picker_open && action == ActionKind::Cancel),
    ensures
        ({
            let plan = plan_action_spec(action, editing_text, picker_open, submit);
            &&& plan.closes_picker == picker_open
            &&& (plan.step == EditorStep::ToggleEraser) <==> action == ActionKind::ToggleEraser
            &&& (plan.step == EditorStep::ToggleFill) <==> action == ActionKind::ToggleFill
            &&& (plan.step == EditorStep::Clear) <==> action == ActionKind::Clear
            &&& (plan.step == EditorStep::Cancel) <==> action == ActionKind::Cancel
            &&& (plan.step == EditorStep::CommitText) <==> action == ActionKind::CommitText
            &&& (plan.step == EditorStep::Undo) <==> action == ActionKind::Undo && !editing_text
            &&& (plan.step == EditorStep::Redo) <==> action == ActionKind::Redo && !editing_text
            &&& (plan.step == EditorStep::SelectAllText) <==> action == ActionKind::SelectAll
                && editing_text
            &&& (plan.step == EditorStep::SelectAllElements) <==> action == ActionKind::SelectAll
                && !editing_text
            &&& (plan.step == EditorStep::DeleteText) <==> action == ActionKind::Delete && editing_text
            &&& (plan.step == EditorStep::DeleteSelection) <==> action == ActionKind::Delete
                && !editing_text
            &&& (plan.step == EditorStep::Backspace) <==> action == ActionKind::Backspace && editing_text
            &&& (plan.step == EditorStep::BackspaceWord) <==> action == ActionKind::BackspaceWord
                && editing_text
            &&& (plan.step == EditorStep::MoveCursor) <==> action == ActionKind::MoveCursor
                && editing_text
            &&& (plan.step == EditorStep::InsertText) <==> action == ActionKind::InsertText
                && editing_text
            &&& !(plan.step is ApplyTextInput)
        }),
{
}

/// Input-method edits never touch the picker; they apply to edited text,
/// committing it afterwards exactly when the input method submitted, and
/// do nothing when no text is edited.
pub proof fn lemma_input_method_edits_only_text(editing_text: bool, picker_open: bool, submit: bool)
    ensures
        ({
            let plan = plan_action_spec(ActionKind::ApplyTextInput, editing_text, picker_open, submit);
            &&& !plan.closes_picker
            &&& editing_text ==> plan.step == EditorStep::ApplyTextInput { commit_after: submit }
            &&& !editing_text ==> plan.step == EditorStep::Nothing
        }),
{
}

/// Escape with the picker open only closes the picker, and never deactivates
/// the overlay or touches the drawing.
pub proof fn lemma_cancel_closes_picker_first(editing_text: bool, submit: bool)
    ensures
        plan_action_spec(ActionKind::Cancel, editing_text, true, submit) == (ActionPlan {
            closes_picker: true,
            step: EditorStep::Nothing,
        }),
{
}

/// Undo and redo never act while text is being edited.
pub proof fn lemma_no_undo_while_editing(action: ActionKind, picker_open: bool, submit: bool)
    requires
        action == ActionKind::Undo || action == ActionKind::Redo,
    ensures
        plan_action_spec(action, true, picker_open, submit).step == EditorStep::Nothing,
{
}

/// The next text-edit session number: sessions count up from 1, skipping 0
/// when the counter wraps.
pub fn next_text_session(session: u64) -> (res: u64)
    ensures
        res == (if session == u64::MAX {
            1
        } else {
            (session + 1) as u64
        }),
        res != 0,
{
    let next = session.wrapping_add(1);
    if next < 1 {
        1
    } else {
        next
    }
}

/// `after` is `before` with the eraser toggled.
pub open spec fn toggled_eraser(before: ToolChoice, after: ToolChoice) -> bool {
    &&& after.spec_tool() == (if before.spec_tool() == Tool::Eraser {
        before.spec_last_non_eraser_tool()
    } else {
        Tool::Eraser
    })
    &&& after.spec_last_non_eraser_tool() == before.spec_last_non_eraser_tool()
    &&& after.spec_default_tool() == before.spec_default_tool()
    &&& after.spec_remember_last_tool() == before.spec_remember_last_tool()
}

/// Toggling the eraser twice returns to the tool that was active before.
pub proof fn lemma_toggle_eraser_twice(a: ToolChoice, b: ToolChoice, c: ToolChoice)
    requires
        a.wf(),
        toggled_eraser(a, b),
        toggled_eraser(b, c),
    ensures
        c == a,
{
}

} // verus!
