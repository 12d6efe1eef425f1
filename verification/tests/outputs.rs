use vellum::draw::damage::OutputDamage;
use vellum::draw::timers::{TimeoutOutcome, Timers, CARET_BLINK_INTERVAL_MS};
use vellum::focus::{DrawOn, OutputFocus};
use vellum::render::{
    checked_scene_size, checked_target_size, RenderTarget, TargetSizeError,
};

#[test]
fn new_outputs_need_a_frame() {
    let mut damage = OutputDamage::new();
    damage.add_output(7);
    damage.add_output(3);
    assert!(damage.needs_render(7));
    assert_eq!(damage.damaged_outputs(), vec![3, 7]);
    damage.mark_rendered(3);
    assert!(!damage.needs_render(3));
    assert_eq!(damage.damaged_outputs(), vec![7]);
}

#[test]
fn damage_ignores_unknown_outputs() {
    let mut damage = OutputDamage::new();
    damage.add_output(1);
    damage.mark_rendered(1);
    damage.damage(9);
    assert!(!damage.needs_render(9));
    assert!(damage.damaged_outputs().is_empty());
    damage.damage(1);
    assert!(damage.needs_render(1));
}

#[test]
fn record_marks_every_output() {
    let mut damage = OutputDamage::new();
    for id in [5, 2, 9] {
        damage.add_output(id);
        damage.mark_rendered(id);
    }
    assert!(!damage.record(false));
    assert!(damage.damaged_outputs().is_empty());
    assert!(damage.record(true));
    assert_eq!(damage.damaged_outputs(), vec![2, 5, 9]);
    damage.remove_output(5);
    assert_eq!(damage.damaged_outputs(), vec![2, 9]);
}

#[test]
fn next_wakeup_is_earliest_deadline() {
    let mut timers = Timers::new();
    assert_eq!(timers.next_wakeup(), None);
    timers.show_feedback(1000, 1500);
    assert_eq!(timers.next_wakeup(), Some(2500));
    assert!(!timers.show_caret(true, 1000));
    assert_eq!(timers.next_wakeup(), Some(1000 + CARET_BLINK_INTERVAL_MS));
}

#[test]
fn caret_blinks_while_editing() {
    let mut timers = Timers::new();
    timers.show_caret(true, 0);
    let outcome = timers.handle_timeouts(529, true);
    assert_eq!(outcome, TimeoutOutcome { changed: false, feedback_expired: false, caret_blinked: false });
    let outcome = timers.handle_timeouts(530, true);
    assert_eq!(outcome, TimeoutOutcome { changed: true, feedback_expired: false, caret_blinked: true });
    assert!(!timers.caret_visible);
    assert_eq!(timers.caret_until, Some(1060));
    assert!(timers.show_caret(true, 600));
    assert!(timers.caret_visible);
    let outcome = timers.handle_timeouts(2000, false);
    assert!(!outcome.changed);
    assert_eq!(timers.caret_until, None);
}

#[test]
fn feedback_expires() {
    let mut timers = Timers::new();
    timers.show_feedback(100, 50);
    let outcome = timers.handle_timeouts(150, false);
    assert!(outcome.feedback_expired && outcome.changed);
    assert_eq!(timers.feedback_until, None);
    timers.show_feedback(200, 10);
    assert!(timers.deactivate());
    assert!(!timers.deactivate());
}

#[test]
fn target_size_limits() {
    assert_eq!(checked_target_size(8192, [1920, 1080], RenderTarget::Annotation), Ok([1920, 1080]));
    assert_eq!(
        checked_target_size(8192, [0, 1080], RenderTarget::Annotation),
        Err(TargetSizeError::OutOfRange { target: RenderTarget::Annotation, width: 0, height: 1080, limit: 8192 })
    );
    assert_eq!(
        checked_target_size(u32::MAX, [70000, 10], RenderTarget::Picker),
        Err(TargetSizeError::OutOfRange { target: RenderTarget::Picker, width: 70000, height: 10, limit: 65535 })
    );
    assert_eq!(checked_target_size(u32::MAX, [65535, 1], RenderTarget::Picker), Ok([65535, 1]));
}

#[test]
fn picker_scene_is_doubled() {
    assert_eq!(checked_scene_size(8192, [100, 50]), Ok([200, 100]));
    assert_eq!(
        checked_scene_size(8192, [4097, 50]),
        Err(TargetSizeError::OutOfRange { target: RenderTarget::Picker, width: 8194, height: 100, limit: 8192 })
    );
    assert_eq!(
        checked_scene_size(8192, [u32::MAX, 50]),
        Err(TargetSizeError::ScaleOverflow { width: u32::MAX, height: 50 })
    );
}

#[test]
fn focus_only_while_active() {
    let mut focus = OutputFocus::new(DrawOn::Current);
    assert!(!focus.accepts_input(1, false));
    focus.add_output(1);
    assert_eq!(focus.keyboard_output, Some(1));
    focus.activate(true, Some(1));
    assert!(focus.accepts_input(2, false));
    assert!(focus.focus_output(2, true, false));
    assert_eq!(focus.selected_output, Some(2));
    assert_eq!(focus.keyboard_output, Some(2));
    assert!(!focus.accepts_input(1, false));
    assert!(focus.accepts_input(1, true));
    assert!(!focus.focus_output(1, true, false));
    focus.deactivate();
    assert!(!focus.accepts_input(2, false));
    assert_eq!(focus.selected_output, None);
}

#[test]
fn removing_focused_output_moves_focus() {
    let mut focus = OutputFocus::new(DrawOn::All);
    focus.add_output(4);
    focus.activate(true, Some(4));
    assert!(focus.focus_output(4, true, false) || focus.keyboard_output == Some(4));
    focus.remove_output(4, Some(6));
    assert_eq!(focus.keyboard_output, Some(6));
    assert_eq!(focus.input_output, Some(6));
    assert!(focus.keyboard_exclusive(6, false));
}

#[test]
fn input_mode_switches() {
    let mut focus = OutputFocus::new(DrawOn::All);
    assert!(!focus.is_active());
    assert!(!focus.set_input_active(false, true, Some(3)));
    assert!(focus.set_input_active(true, false, Some(3)));
    assert!(focus.is_active());
    assert_eq!(focus.keyboard_output, Some(3));
    assert!(!focus.set_input_active(true, true, Some(5)));
    focus.toggle_input(true, Some(3));
    assert!(!focus.is_active());
    focus.toggle_input(true, Some(3));
    assert!(focus.is_active());
}
