//! Which outputs accept pointer and keyboard input while the overlay is active.

use vstd::prelude::*;

verus! {

/// Identifies an output (a monitor).
pub type OutputId = u32;

/// Where drawing can start: on every output, or only on the output where
/// the first stroke after activation began.
#[derive(Debug, Clone, Copy, PartialEq, Eq, Structural)]
pub enum DrawOn {
    All,
    Current,
}

/// The overlay's activation and its input focus among outputs.
#[derive(Debug, Clone, Copy, PartialEq, Eq, Structural)]
pub struct OutputFocus {
    pub active: bool,
    pub draw_on: DrawOn,
    /// In `DrawOn::Current` mode, the output chosen since activation.
    pub selected_output: Option<OutputId>,
    /// The output the pointer or pen last used.
    pub input_output: Option<OutputId>,
    /// The output whose surface takes keyboard input.
    pub keyboard_output: Option<OutputId>,
}

/// Whether `output` takes pointer input: only while active, and in
/// current-output mode only the selected output (any output before one is
/// selected, or while a gesture grabs input).
pub open spec fn accepts_input_spec(focus: OutputFocus, output: OutputId, input_grab_active: bool) -> bool {
    focus.active && match focus.draw_on {
        DrawOn::All => true,
        DrawOn::Current => input_grab_active || focus.selected_output is None
            || focus.selected_output == Some(output),
    }
}

/// The focus after entering drawing mode: no output is selected yet, and
/// the keyboard goes to `first_output` unless its output still exists.
pub open spec fn activated(focus: OutputFocus, keyboard_output_exists: bool, first_output: Option<OutputId>) -> OutputFocus {
    OutputFocus {
        active: true,
        selected_output: None,
        keyboard_output: if focus.keyboard_output is None || !keyboard_output_exists {
            first_output
        } else {
            focus.keyboard_output
        },
        ..focus
    }
}

/// The focus after leaving drawing mode: no output stays selected.
pub open spec fn deactivated(focus: OutputFocus) -> OutputFocus {
    OutputFocus { active: false, selected_output: None, ..focus }
}

impl OutputFocus {
    /// Inactive, with nothing focused.
    pub fn new(draw_on: DrawOn) -> (res: Self)
        ensures
            res == (OutputFocus {
                active: false,
                draw_on,
                selected_output: None,
                input_output: None,
                keyboard_output: None,
            }),
    {
        OutputFocus {
            active: false,
            draw_on,
            selected_output: None,
            input_output: None,
            keyboard_output: None,
        }
    }

    /// Whether `output` takes pointer input.
    pub fn accepts_input(&self, output: OutputId, input_grab_active: bool) -> (res: bool)
        ensures
            res == accepts_input_spec(*self, output, input_grab_active),
    {
        self.active && match self.draw_on {
            DrawOn::All => true,
            DrawOn::Current => input_grab_active || self.selected_output.is_none()
                || self.selected_output == Some(output),
        }
    }

    /// Whether `output` takes keyboard input exclusively: the keyboard
    /// output, when it takes input.
    pub fn keyboard_exclusive(&self, output: OutputId, input_grab_active: bool) -> (res: bool)
        ensures
            res == (accepts_input_spec(*self, output, input_grab_active) && self.keyboard_output
                == Some(output)),
    {
        self.accepts_input(output, input_grab_active) && self.keyboard_output == Some(output)
    }

    /// The pointer or pen reached `output`, which exists when `exists`.
    /// Returns whether input regions must be updated.
    pub fn focus_output(&mut self, output: OutputId, exists: bool, editing_text: bool) -> (update: bool)
        ensures
            !old(self).active || !exists ==> *final(self) == *old(self) && !update,
            old(self).active && exists && old(self).draw_on == DrawOn::Current
                && old(self).selected_output is Some && old(self).selected_output != Some(output)
                ==> *final(self) == *old(self) && !update,
            old(self).active && exists && !(old(self).draw_on == DrawOn::Current
                && old(self).selected_output is Some && old(self).selected_output != Some(output))
                ==> {
                let selection_changed = old(self).draw_on == DrawOn::Current
                    && old(self).selected_output != Some(output);
                let moves_keyboard = !editing_text && (old(self).keyboard_output != Some(output)
                    || selection_changed);
                &&& final(self).input_output == Some(output)
                &&& final(self).selected_output == (if old(self).draw_on == DrawOn::Current {
                    Some(output)
                } else {
                    old(self).selected_output
                })
                &&& final(self).keyboard_output == (if moves_keyboard {
                    Some(output)
                } else {
                    old(self).keyboard_output
                })
                &&& final(self).active == old(self).active
                &&& final(self).draw_on == old(self).draw_on
                &&& update == moves_keyboard
            },
    {
        if !self.active || !exists {
            return false;
        }
        let selection_changed = self.draw_on == DrawOn::Current && self.selected_output != Some(
            output,
        );
        if self.draw_on == DrawOn::Current {
            match self.selected_output {
                Some(selected) => if selected != output {
                    return false;
                },
                None => {},
            }
            self.selected_output = Some(output);
        }
        self.input_output = Some(output);
        if editing_text {
            return false;
        }
        if self.keyboard_output != Some(output) || selection_changed {
            self.keyboard_output = Some(output);
            return true;
        }
        false
    }

    /// Moves keyboard focus to the input output, when `input_exists` tells
    /// that it still exists. Returns whether input regions must be updated.
    pub fn focus_keyboard_on_input(&mut self, input_exists: bool) -> (update: bool)
        ensures
            update == (input_exists && old(self).input_output is Some && old(self).keyboard_output
                != old(self).input_output),
            final(self).keyboard_output == (if update {
                old(self).input_output
            } else {
                old(self).keyboard_output
            }),
            final(self).active == old(self).active,
            final(self).draw_on == old(self).draw_on,
            final(self).selected_output == old(self).selected_output,
            final(self).input_output == old(self).input_output,
    {
        match self.input_output {
            Some(output) => {
                if !input_exists {
                    return false;
                }
                if self.keyboard_output != Some(output) {
                    self.keyboard_output = Some(output);
                    true
                } else {
                    false
                }
            },
            None => false,
        }
    }

    /// Activates the overlay: no output is selected yet, and the keyboard
    /// goes to `first_output` unless its output still exists
    /// (`keyboard_output_exists`).
    pub fn activate(&mut self, keyboard_output_exists: bool, first_output: Option<OutputId>)
        ensures
            final(self).active,
            final(self).selected_output is None,
            final(self).keyboard_output == (if old(self).keyboard_output is None
                || !keyboard_output_exists {
                first_output
            } else {
                old(self).keyboard_output
            }),
            final(self).input_output == old(self).input_output,
            final(self).draw_on == old(self).draw_on,
    {
        self.active = true;
        self.selected_output = None;
        if self.keyboard_output.is_none() || !keyboard_output_exists {
            self.keyboard_output = first_output;
        }
    }

    /// Whether the overlay takes input (drawing mode).
    pub fn is_active(&self) -> (res: bool)
        ensures
            res == self.active,
    {
        self.active
    }

    /// Enters drawing mode when `active` and leaves it otherwise; nothing
    /// happens when the overlay already is in that mode. The arguments
    /// after `active` are those of `activate`. Returns whether the mode
    /// changed.
    pub fn set_input_active(&mut self, active: bool, keyboard_output_exists: bool, first_output: Option<OutputId>) -> (changed: bool)
        ensures
            changed == (active != old(self).active),
            !changed ==> *final(self) == *old(self),
            changed && active ==> *final(self) == activated(*old(self), keyboard_output_exists, first_output),
            changed && !active ==> *final(self) == deactivated(*old(self)),
    {
        if active == self.active {
            return false;
        }
        if active {
            self.activate(keyboard_output_exists, first_output);
        } else {
            self.deactivate();
        }
        true
    }

    /// Switches between drawing mode and passing input through.
    pub fn toggle_input(&mut self, keyboard_output_exists: bool, first_output: Option<OutputId>)
        ensures
            final(self).active == !old(self).active,
            old(self).active ==> *final(self) == deactivated(*old(self)),
            !old(self).active ==> *final(self) == activated(*old(self), keyboard_output_exists, first_output),
    {
        let active = !self.active;
        self.set_input_active(active, keyboard_output_exists, first_output);
    }

    /// Deactivates the overlay; no output stays selected.
    pub fn deactivate(&mut self)
        ensures
            !final(self).active,
            final(self).selected_output is None,
            final(self).keyboard_output == old(self).keyboard_output,
            final(self).input_output == old(self).input_output,
            final(self).draw_on == old(self).draw_on,
    {
        self.active = false;
        self.selected_output = None;
    }

    /// A new output appeared; it takes the keyboard when no output has it.
    pub fn add_output(&mut self, output: OutputId)
        ensures
            final(self).keyboard_output == (if old(self).keyboard_output is None {
                Some(output)
            } else {
                old(self).keyboard_output
            }),
            final(self).active == old(self).active,
            final(self).selected_output == old(self).selected_output,
            final(self).input_output == old(self).input_output,
            final(self).draw_on == old(self).draw_on,
    {
        if self.keyboard_output.is_none() {
            self.keyboard_output = Some(output);
        }
    }

    /// `output` went away; `first_remaining` is the first output left. Focus
    /// on it moves to that output, and its selection is dropped.
    pub fn remove_output(&mut self, output: OutputId, first_remaining: Option<OutputId>)
        ensures
            final(self).selected_output == (if old(self).selected_output == Some(output) {
                None
            } else {
                old(self).selected_output
            }),
            final(self).input_output == (if old(self).input_output == Some(output) {
                first_remaining
            } else {
                old(self).input_output
            }),
            final(self).keyboard_output == (if old(self).keyboard_output == Some(output) {
                first_remaining
            } else {
                old(self).keyboard_output
            }),
            final(self).active == old(self).active,
            final(self).draw_on == old(self).draw_on,
    {
        if self.selected_output == Some(output) {
            self.selected_output = None;
        }
        if self.input_output == Some(output) {
            self.input_output = first_remaining;
        }
        if self.keyboard_output == Some(output) {
            self.keyboard_output = first_remaining;
        }
    }
}

/// An inactive overlay takes no input anywhere, and the keyboard goes only
/// to an output that takes pointer input.
pub proof fn lemma_input_only_while_active(focus: OutputFocus, output: OutputId, input_grab_active: bool)
    ensures
        !focus.active ==> !accepts_input_spec(focus, output, input_grab_active),
        focus.draw_on == DrawOn::All && focus.active ==> accepts_input_spec(focus, output, input_grab_active),
{
}

/// In current-output mode, once an output is selected, only that output
/// takes pointer input outside a gesture in progress.
pub proof fn lemma_selected_output_exclusive(focus: OutputFocus, output: OutputId)
    requires
        focus.active,
        focus.draw_on == DrawOn::Current,
        focus.selected_output is Some,
        focus.selected_output != Some(output),
    ensures
        !accepts_input_spec(focus, output, false),
        accepts_input_spec(focus, focus.selected_output->0, false),
{
}

} // verus!
