use vellum::input::text::{
    preedit_cursor, surrounding_text, valid_range, CursorRectangle, PreeditHint,
    TextInputRequest, TextInputSnapshot, TextInputState, MAX_SURROUNDING_BYTES,
};
use vellum::input::{short_click, PenSample, PendingPenMotion, MAX_PENDING_PEN_SAMPLES};

fn sample(n: u32) -> PenSample {
    PenSample { x_bits: n, y_bits: n.wrapping_mul(3) }
}

#[test]
fn short_click_cases() {
    assert!(short_click(Some(100), Some(400)));
    assert!(!short_click(Some(100), Some(401)));
    assert!(short_click(Some(u32::MAX - 10), Some(50)));
    assert!(!short_click(None, Some(5)));
    assert!(!short_click(Some(5), None));
}

#[test]
fn pen_push_skips_repeats() {
    let mut motion = PendingPenMotion::new();
    motion.push(sample(1));
    motion.push(sample(1));
    motion.push(sample(2));
    assert_eq!(motion.samples(), &[sample(1), sample(2)]);
}

#[test]
fn pen_push_halves_full_buffer() {
    let mut motion = PendingPenMotion::new();
    for n in 0..MAX_PENDING_PEN_SAMPLES as u32 {
        motion.push(sample(n));
    }
    assert_eq!(motion.samples().len(), MAX_PENDING_PEN_SAMPLES);
    motion.push(sample(1000));
    let samples = motion.samples();
    assert_eq!(samples.len(), MAX_PENDING_PEN_SAMPLES / 2 + 1);
    assert_eq!(samples[0], sample(0));
    assert_eq!(samples[1], sample(2));
    assert_eq!(samples[31], sample(62));
    assert_eq!(samples[32], sample(1000));
}

#[test]
fn pen_samples_stay_bounded() {
    let mut motion = PendingPenMotion::new();
    for n in 0..1000 {
        motion.push(sample(n));
        assert!(motion.samples().len() <= MAX_PENDING_PEN_SAMPLES);
    }
}

#[test]
fn pen_take_moves_anchor() {
    let mut motion = PendingPenMotion::new();
    assert!(motion.take().is_none());
    motion.reset(Some(sample(0)));
    motion.push(sample(1));
    motion.push(sample(2));
    motion.push(sample(3));
    let batch = motion.take().unwrap();
    assert_eq!(batch.end, sample(3));
    assert_eq!(batch.anchor, Some(sample(0)));
    assert_eq!(batch.interior, vec![sample(1), sample(2)]);
    assert!(motion.samples().is_empty());
    motion.push(sample(4));
    let batch = motion.take().unwrap();
    assert_eq!(batch.anchor, Some(sample(3)));
    assert!(batch.interior.is_empty());
}

#[test]
fn valid_range_checks_boundaries() {
    let text = "aé b";
    assert!(valid_range(text, &(0..1)));
    assert!(valid_range(text, &(1..3)));
    assert!(!valid_range(text, &(1..2)));
    assert!(!valid_range(text, &(3..1)));
    assert!(valid_range(text, &(5..5)));
    assert!(!valid_range(text, &(5..6)));
}

#[test]
fn preedit_cursor_cases() {
    assert_eq!(preedit_cursor("aé", 0, 3), Some((0, 3)));
    assert_eq!(preedit_cursor("aé", 2, 3), None);
    assert_eq!(preedit_cursor("aé", -1, 1), None);
    assert_eq!(preedit_cursor("aé", 1, 9), None);
}

#[test]
fn surrounding_text_small() {
    let (text, positions) = surrounding_text("hello world", "", 5, 2).unwrap();
    assert_eq!(text, "hello world");
    assert_eq!(positions, [5, 2]);
}

#[test]
fn surrounding_text_too_wide_selection() {
    let long = "x".repeat(MAX_SURROUNDING_BYTES + 10);
    assert!(surrounding_text(&long, "", 0, MAX_SURROUNDING_BYTES + 1).is_none());
    assert!(surrounding_text(&long, "", 0, MAX_SURROUNDING_BYTES).is_some());
}

#[test]
fn surrounding_text_window_is_bounded() {
    let long = "é".repeat(5000);
    let cursor = 6000;
    let (text, positions) = surrounding_text(&long, "", cursor, cursor).unwrap();
    assert!(text.len() <= MAX_SURROUNDING_BYTES);
    assert_eq!(&text[positions[0] as usize..positions[0] as usize], "");
    assert!(positions[0] as usize <= text.len());
    let start = cursor - positions[0] as usize;
    assert_eq!(&long[start..start + text.len()], text);
}

#[test]
fn surrounding_text_while_composing() {
    let before = "a".repeat(3000);
    let after = "b".repeat(3000);
    let (text, positions) = surrounding_text(&before, &after, 3000, 3000).unwrap();
    assert!(text.len() <= MAX_SURROUNDING_BYTES);
    assert_eq!(positions[0], positions[1]);
    let split = positions[0] as usize;
    assert!(text[..split].chars().all(|c| c == 'a'));
    assert!(text[split..].chars().all(|c| c == 'b'));
    assert_eq!(split, 2000);
    assert_eq!(text.len(), 4000);
}

fn snapshot<'a>(session: u64, text: &'a str, revision: u64) -> TextInputSnapshot<'a> {
    TextInputSnapshot {
        session,
        before: text,
        after: "",
        cursor: text.len(),
        anchor: text.len(),
        external_revision: revision,
        cursor_rectangle: Some(CursorRectangle { x: 1, y: 2, width: 3, height: 4 }),
    }
}

fn names(requests: &[TextInputRequest]) -> Vec<&'static str> {
    requests
        .iter()
        .map(|request| match request {
            TextInputRequest::HideInputPanel => "hide",
            TextInputRequest::Disable => "disable",
            TextInputRequest::Commit => "commit",
            TextInputRequest::Enable => "enable",
            TextInputRequest::SetAvailableActionsSubmit => "actions",
            TextInputRequest::ShowInputPanel => "show",
            TextInputRequest::SetContentType { .. } => "content_type",
            TextInputRequest::SetSurroundingText { .. } => "surrounding",
            TextInputRequest::SetTextChangeCauseOther => "cause",
            TextInputRequest::SetCursorRectangle { .. } => "rectangle",
        })
        .collect()
}

#[test]
fn sync_without_focus_sends_nothing() {
    let mut state = TextInputState::new();
    let requests = state.sync(2, Some(snapshot(1, "hi", 0)));
    assert!(requests.is_empty());
    assert!(state.session.is_none());
}

#[test]
fn sync_enables_then_is_idempotent() {
    let mut state = TextInputState::new();
    state.enter(Some(7));
    let requests = state.sync(2, Some(snapshot(1, "hi", 0)));
    assert_eq!(
        names(&requests),
        vec!["enable", "actions", "show", "content_type", "surrounding", "cause", "rectangle", "commit"]
    );
    assert_eq!(state.serial, 1);
    let session = state.session.as_ref().unwrap();
    assert_eq!(session.enable_serial, 1);
    assert_eq!(session.surrounding.as_ref().unwrap().0, "hi");
    assert!(state.sync(2, Some(snapshot(1, "hi", 0))).is_empty());
    assert_eq!(state.serial, 1);
}

#[test]
fn sync_version_one_has_no_panel() {
    let mut state = TextInputState::new();
    state.enter(Some(7));
    let requests = state.sync(1, Some(snapshot(1, "hi", 0)));
    assert_eq!(names(&requests), vec!["enable", "content_type", "surrounding", "cause", "rectangle", "commit"]);
    match &requests[1] {
        TextInputRequest::SetContentType { preedit_shown } => assert!(!preedit_shown),
        _ => unreachable!(),
    }
}

#[test]
fn sync_sends_only_changes() {
    let mut state = TextInputState::new();
    state.enter(Some(7));
    state.sync(2, Some(snapshot(1, "hi", 0)));
    let requests = state.sync(2, Some(snapshot(1, "hi!", 0)));
    assert_eq!(names(&requests), vec!["surrounding", "commit"]);
    let requests = state.sync(2, Some(snapshot(1, "hi!", 1)));
    assert_eq!(names(&requests), vec!["cause", "commit"]);
    assert_eq!(state.serial, 3);
}

#[test]
fn sync_new_session_disables_old() {
    let mut state = TextInputState::new();
    state.enter(Some(7));
    state.sync(2, Some(snapshot(1, "hi", 0)));
    let requests = state.sync(2, Some(snapshot(2, "yo", 0)));
    assert_eq!(
        names(&requests),
        vec!["hide", "disable", "commit", "enable", "actions", "show", "content_type", "surrounding", "cause", "rectangle", "commit"]
    );
    assert_eq!(state.session.as_ref().unwrap().id, 2);
    let requests = state.sync(2, None);
    assert_eq!(names(&requests), vec!["hide", "disable", "commit"]);
    assert!(state.session.is_none());
}

#[test]
fn sync_waits_for_rectangle() {
    let mut state = TextInputState::new();
    state.enter(Some(7));
    let mut snap = snapshot(1, "hi", 0);
    snap.cursor_rectangle = None;
    assert!(state.sync(2, Some(snap)).is_empty());
    assert!(state.session.is_none());
}

#[test]
fn input_method_edits_are_batched() {
    let mut state = TextInputState::new();
    state.enter(Some(3));
    state.sync(2, Some(snapshot(1, "hi", 0)));
    state.preedit_string(Some("ké".to_string()), 0, 3);
    state.preedit_hint(0, 1, PreeditHint::Selection);
    state.preedit_hint(0, 2, PreeditHint::SpellingError);
    state.commit_string(Some("x".to_string()));
    state.delete_surrounding_text(1, 0);
    state.submit();
    let outcome = state.done(1, Some(1)).unwrap();
    let batch = outcome.batch;
    let preedit = batch.preedit.unwrap();
    assert_eq!(preedit.text, "ké");
    assert_eq!(preedit.cursor, Some((0, 3)));
    assert_eq!(preedit.spans.len(), 1);
    assert_eq!(preedit.spans[0].range, 0..1);
    assert_eq!(preedit.spans[0].style, PreeditHint::Selection);
    assert_eq!(batch.commit.as_deref(), Some("x"));
    assert_eq!(batch.delete_surrounding, Some((1, 0)));
    assert!(batch.submit);
    assert!(!outcome.resume);
    assert_eq!(outcome.damage, None);
    assert!(state.pending.preedit.is_none());
    assert!(state.hints.is_empty());
}

#[test]
fn empty_preedit_clears_composition() {
    let mut state = TextInputState::new();
    state.preedit_string(Some(String::new()), 0, 0);
    assert!(state.pending.preedit.is_none());
    state.preedit_string(Some("a".to_string()), 0, 5);
    assert_eq!(state.pending.preedit.as_ref().unwrap().cursor, None);
}

#[test]
fn done_ignores_other_sessions_and_stale_serials() {
    let mut state = TextInputState::new();
    state.enter(Some(3));
    assert!(state.done(0, Some(1)).is_none());
    state.sync(2, Some(snapshot(1, "hi", 0)));
    state.commit_string(Some("x".to_string()));
    assert!(state.done(1, Some(2)).is_none());
    assert!(state.pending.commit.is_none());
    assert!(state.done(0, Some(1)).is_none());
    assert!(state.done(1, Some(1)).is_some());
}

#[test]
fn done_resumes_after_matching_commit() {
    let mut state = TextInputState::new();
    state.enter(Some(3));
    state.sync(2, Some(snapshot(1, "hi", 0)));
    state.sync(2, Some(snapshot(1, "hi!", 0)));
    assert_eq!(state.serial, 2);
    let outcome = state.done(1, Some(1)).unwrap();
    assert!(!outcome.resume);
    assert!(state.session.as_ref().unwrap().waiting_for_matching_done);
    assert!(state.sync(2, Some(snapshot(1, "hi!!", 0))).is_empty());
    let outcome = state.done(2, Some(1)).unwrap();
    assert!(outcome.resume);
    assert_eq!(outcome.damage, Some(3));
    assert!(!state.session.as_ref().unwrap().waiting_for_matching_done);
}

#[test]
fn output_removal_drops_focus() {
    let mut state = TextInputState::new();
    state.enter(Some(3));
    state.sync(2, Some(snapshot(1, "hi", 0)));
    assert!(!state.output_removed(4));
    assert!(state.session.is_some());
    assert!(state.output_removed(3));
    assert!(state.focused_output.is_none());
    assert!(state.session.is_none());
}

#[test]
fn sync_render_only_for_focused_output() {
    let mut state = TextInputState::new();
    state.enter(Some(3));
    assert!(state.sync_render(2, 4, Some(snapshot(1, "hi", 0))).is_empty());
    assert!(!state.sync_render(2, 3, Some(snapshot(1, "hi", 0))).is_empty());
}

#[test]
fn reset_clears_pending() {
    let mut state = TextInputState::new();
    state.commit_string(Some("a".to_string()));
    state.preedit_hint(0, 1, PreeditHint::Whole);
    state.reset();
    assert!(state.pending.commit.is_none());
    assert!(state.hints.is_empty());
}

#[test]
fn pen_push_compares_as_floats() {
    let zero = PenSample { x_bits: 0.0f32.to_bits(), y_bits: 1.5f32.to_bits() };
    let negative_zero = PenSample { x_bits: (-0.0f32).to_bits(), y_bits: 1.5f32.to_bits() };
    let mut motion = PendingPenMotion::new();
    motion.push(zero);
    motion.push(negative_zero);
    assert_eq!(motion.samples(), &[zero]);
    let nan = PenSample { x_bits: f32::NAN.to_bits(), y_bits: 1.5f32.to_bits() };
    motion.push(nan);
    motion.push(nan);
    assert_eq!(motion.samples().len(), 3);
    assert!(!nan.same_position(nan));
    assert!(zero.same_position(negative_zero));
}
