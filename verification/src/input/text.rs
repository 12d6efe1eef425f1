//! The text-input protocol: what the overlay tells an input method about the
//! edited text, and how it gathers the input method's edits.

use vstd::prelude::*;
use vstd::string::*;
use vstd::utf8::*;

verus! {

broadcast use group_utf8_lib;

/// The most bytes of surrounding text sent to an input method.
pub const MAX_SURROUNDING_BYTES: usize = 4000;

/// The byte index `index` moved down to the nearest character boundary, or
/// the length when it lies beyond the end.
pub open spec fn floor_boundary(bytes: Seq<u8>, index: int) -> int
    decreases index,
{
    if index >= bytes.len() {
        bytes.len() as int
    } else if index <= 0 {
        0
    } else if is_char_boundary(bytes, index) {
        index
    } else {
        floor_boundary(bytes, index - 1)
    }
}

/// The byte index `index` moved up to the nearest character boundary, or the
/// length when it lies beyond the end.
pub open spec fn ceil_boundary(bytes: Seq<u8>, index: int) -> int
    decreases bytes.len() - index,
{
    if index >= bytes.len() {
        bytes.len() as int
    } else if index <= 0 {
        0
    } else if is_char_boundary(bytes, index) {
        index
    } else {
        ceil_boundary(bytes, index + 1)
    }
}

proof fn lemma_floor_boundary(bytes: Seq<u8>, index: int)
    requires
        valid_utf8(bytes),
        index >= 0,
    ensures
        0 <= floor_boundary(bytes, index) <= bytes.len(),
        floor_boundary(bytes, index) <= index,
        is_char_boundary(bytes, floor_boundary(bytes, index)),
        forall|j: int|
            floor_boundary(bytes, index) < j <= index && j <= bytes.len() ==> !#[trigger] is_char_boundary(bytes, j),
    decreases index,
{
    if index >= bytes.len() {
    } else if index <= 0 {
    } else if is_char_boundary(bytes, index) {
    } else {
        lemma_floor_boundary(bytes, index - 1);
    }
}

proof fn lemma_ceil_boundary(bytes: Seq<u8>, index: int)
    requires
        valid_utf8(bytes),
        index >= 0,
    ensures
        0 <= ceil_boundary(bytes, index) <= bytes.len(),
        index <= bytes.len() ==> index <= ceil_boundary(bytes, index),
        is_char_boundary(bytes, ceil_boundary(bytes, index)),
        forall|j: int| index <= j < ceil_boundary(bytes, index) ==> !#[trigger] is_char_boundary(bytes, j),
    decreases bytes.len() - index,
{
    if index >= bytes.len() {
    } else if index <= 0 {
    } else if is_char_boundary(bytes, index) {
    } else {
        lemma_ceil_boundary(bytes, index + 1);
    }
}

/// The largest character boundary of `text` at or before `index`.
fn floor_char_boundary(text: &str, index: usize) -> (res: usize)
    ensures
        res == floor_boundary(text.spec_bytes(), index as int),
{
    let len = text.as_bytes().len();
    if index >= len {
        return len;
    }
    let mut i = index;
    while i > 0 && !text.is_char_boundary(i)
        invariant
            i <= index < len,
            len == text.spec_bytes().len(),
            floor_boundary(text.spec_bytes(), index as int) == floor_boundary(text.spec_bytes(), i as int),
        decreases i,
    {
        i = i - 1;
    }
    i
}

/// The smallest character boundary of `text` at or after `index`.
fn ceil_char_boundary(text: &str, index: usize) -> (res: usize)
    ensures
        res == ceil_boundary(text.spec_bytes(), index as int),
{
    let len = text.as_bytes().len();
    if index >= len {
        return len;
    }
    let mut i = index;
    while i < len && i > 0 && !text.is_char_boundary(i)
        invariant
            index <= i <= len,
            len == text.spec_bytes().len(),
            ceil_boundary(text.spec_bytes(), index as int) == ceil_boundary(text.spec_bytes(), i as int),
        decreases len - i,
    {
        i = i + 1;
    }
    i
}

/// The bytes of surrounding text sent to an input method: the bytes of the
/// committed text before the split from `start` to `end`, followed by the
/// bytes after the split up to `after_end`.
pub struct SurroundingWindow {
    pub start: int,
    pub end: int,
    pub after_end: int,
}

pub open spec fn min_int(a: int, b: int) -> int {
    if a <= b {
        a
    } else {
        b
    }
}

pub open spec fn max_int(a: int, b: int) -> int {
    if a >= b {
        a
    } else {
        b
    }
}

pub open spec fn abs_diff_int(a: int, b: int) -> int {
    if a >= b {
        a - b
    } else {
        b - a
    }
}

/// The window of text around the caret offered to an input method. It is
/// absent when the selection alone exceeds the limit. Otherwise it starts
/// up to half the remaining room before the selection and extends as far as
/// the limit allows; while composing, the text is split at the composition,
/// and the window joins the text before it to the text after it.
pub open spec fn surrounding_window(
    before: Seq<u8>,
    after: Seq<u8>,
    cursor: int,
    anchor: int,
) -> Option<SurroundingWindow> {
    let max = MAX_SURROUNDING_BYTES as int;
    let selection = abs_diff_int(cursor, anchor);
    if selection > max {
        None
    } else {
        let room = max - selection;
        let first = ceil_boundary(before, max_int(0, min_int(cursor, anchor) - room / 2));
        if after.len() == 0 {
            let end = floor_boundary(before, min_int(first + max, before.len() as int));
            let start = ceil_boundary(before, max_int(0, end - max));
            Some(SurroundingWindow { start, end, after_end: 0 })
        } else {
            let after_end = floor_boundary(after, min_int(max - (cursor - first), after.len() as int));
            let start = ceil_boundary(before, max_int(0, cursor - (max - after_end)));
            Some(SurroundingWindow { start, end: before.len() as int, after_end })
        }
    }
}

/// The characters of a window.
pub open spec fn window_text(before: Seq<u8>, after: Seq<u8>, window: SurroundingWindow) -> Seq<char> {
    decode_utf8(before.subrange(window.start, window.end)) + decode_utf8(after.subrange(0, window.after_end))
}

/// The number of bytes in a window.
pub open spec fn window_len(window: SurroundingWindow) -> int {
    (window.end - window.start) + window.after_end
}

/// What the editor guarantees of a caret position handed to
/// `surrounding_text`: caret and anchor fall on character boundaries of the
/// text before the split, and while composing (text after the split) both
/// sit at the split.
pub open spec fn caret_fits(before: Seq<u8>, after: Seq<u8>, cursor: int, anchor: int) -> bool {
    &&& 0 <= cursor <= before.len()
    &&& 0 <= anchor <= before.len()
    &&& is_char_boundary(before, cursor)
    &&& is_char_boundary(before, anchor)
    &&& after.len() > 0 ==> cursor == before.len() && anchor == before.len()
}

/// A window never exceeds `MAX_SURROUNDING_BYTES`, lies within the text at
/// character boundaries, and contains the caret and the anchor.
pub proof fn lemma_surrounding_window(before: Seq<u8>, after: Seq<u8>, cursor: int, anchor: int)
    requires
        valid_utf8(before),
        valid_utf8(after),
        caret_fits(before, after, cursor, anchor),
    ensures
        surrounding_window(before, after, cursor, anchor) is None <==> abs_diff_int(cursor, anchor)
            > MAX_SURROUNDING_BYTES,
        surrounding_window(before, after, cursor, anchor) matches Some(w) ==> {
            &&& 0 <= w.start <= cursor <= w.end <= before.len()
            &&& w.start <= anchor <= w.end
            &&& 0 <= w.after_end <= after.len()
            &&& is_char_boundary(before, w.start)
            &&& is_char_boundary(before, w.end)
            &&& is_char_boundary(after, w.after_end)
            &&& window_len(w) <= MAX_SURROUNDING_BYTES
        },
{
    let max = MAX_SURROUNDING_BYTES as int;
    let selection = abs_diff_int(cursor, anchor);
    if selection <= max {
        let room = max - selection;
        let low = min_int(cursor, anchor);
        let first_index = max_int(0, low - room / 2);
        let first = ceil_boundary(before, first_index);
        lemma_ceil_boundary(before, first_index);
        assert(first <= low) by {
            if first > low {
                assert(!is_char_boundary(before, low));
            }
        }
        if after.len() == 0 {
            let end_index = min_int(first + max, before.len() as int);
            let end = floor_boundary(before, end_index);
            lemma_floor_boundary(before, end_index);
            let high = if cursor >= anchor { cursor } else { anchor };
            assert(high <= end_index);
            assert(high <= end) by {
                if high > end {
                    assert(!is_char_boundary(before, high));
                }
            }
            let start_index = max_int(0, end - max);
            let start = ceil_boundary(before, start_index);
            lemma_ceil_boundary(before, start_index);
            assert(start <= first) by {
                if start > first {
                    assert(!is_char_boundary(before, first));
                }
            }
            is_char_boundary_start_end_of_seq(after);
        } else {
            let after_index = min_int(max - (cursor - first), after.len() as int);
            let after_end = floor_boundary(after, after_index);
            lemma_floor_boundary(after, after_index);
            let start_index = max_int(0, cursor - (max - after_end));
            let start = ceil_boundary(before, start_index);
            lemma_ceil_boundary(before, start_index);
            assert(start <= cursor) by {
                if start > cursor {
                    assert(!is_char_boundary(before, cursor));
                }
            }
            is_char_boundary_start_end_of_seq(before);
        }
    }
}

proof fn lemma_prefix_boundary(bytes: Seq<u8>, end: int, index: int)
    requires
        valid_utf8(bytes),
        0 <= index <= end <= bytes.len(),
        is_char_boundary(bytes, end),
        is_char_boundary(bytes, index),
    ensures
        valid_utf8(bytes.subrange(0, end)),
        is_char_boundary(bytes.subrange(0, end), index),
{
    valid_utf8_split(bytes, end);
    let prefix = bytes.subrange(0, end);
    is_char_boundary_start_end_of_seq(prefix);
    if 0 < index < end {
        is_char_boundary_iff_not_is_continuation_byte(prefix, index);
        is_char_boundary_iff_not_is_continuation_byte(bytes, index);
    }
}

/// The text around the caret to offer an input method, with the caret and
/// anchor positions inside it; `None` when the selection alone exceeds
/// `MAX_SURROUNDING_BYTES`. `before` and `after` are the committed text on
/// either side of a composition (all of it is in `before` when not composing).
#[verifier::rlimit(100)]
#[verifier::spinoff_prover]
pub fn surrounding_text(before: &str, after: &str, cursor: usize, anchor: usize) -> (res: Option<(String, [i32; 2])>)
    requires
        caret_fits(before.spec_bytes(), after.spec_bytes(), cursor as int, anchor as int),
        before.spec_bytes().len() + MAX_SURROUNDING_BYTES <= usize::MAX,
    ensures
        match res {
            None => surrounding_window(before.spec_bytes(), after.spec_bytes(), cursor as int, anchor as int) is None,
            Some((text, positions)) => surrounding_window(before.spec_bytes(), after.spec_bytes(), cursor as int, anchor as int) matches Some(w) && {
                &&& text@ == window_text(before.spec_bytes(), after.spec_bytes(), w)
                &&& positions[0] == cursor - w.start
                &&& positions[1] == anchor - w.start
            },
        },
{
    let ghost bb = before.spec_bytes();
    let ghost ab = after.spec_bytes();
    proof {
        lemma_surrounding_window(bb, ab, cursor as int, anchor as int);
    }
    let selection = if cursor >= anchor { cursor - anchor } else { anchor - cursor };
    if selection > MAX_SURROUNDING_BYTES {
        return None;
    }
    let room = MAX_SURROUNDING_BYTES - selection;
    let low = if cursor <= anchor { cursor } else { anchor };
    let first_index = low.saturating_sub(room / 2);
    let first = ceil_char_boundary(before, first_index);
    proof {
        lemma_ceil_boundary(bb, first_index as int);
        assert(first <= low) by {
            if first > low {
                assert(!is_char_boundary(bb, low as int));
            }
        }
    }
    let before_len = before.as_bytes().len();
    let after_len = after.as_bytes().len();
    let ghost w = surrounding_window(bb, ab, cursor as int, anchor as int)->0;
    if after_len == 0 {
        let end_index = if first + MAX_SURROUNDING_BYTES <= before_len { first + MAX_SURROUNDING_BYTES } else { before_len };
        let end = floor_char_boundary(before, end_index);
        let start = ceil_char_boundary(before, end.saturating_sub(MAX_SURROUNDING_BYTES));
        proof {
            assert(start == w.start && end == w.end);
            lemma_prefix_boundary(bb, end as int, start as int);
        }
        let (head, _) = before.split_at(end);
        let (_, middle) = head.split_at(start);
        let text = middle.to_owned();
        proof {
            assert(middle.spec_bytes() =~= bb.subrange(start as int, end as int));
            assert(ab.subrange(0, 0) =~= Seq::<u8>::empty());
            assert(decode_utf8(Seq::<u8>::empty()) =~= Seq::<char>::empty());
            assert(text@ =~= window_text(bb, ab, w));
        }
        let positions = [(cursor - start) as i32, (anchor - start) as i32];
        Some((text, positions))
    } else {
        let after_index = if MAX_SURROUNDING_BYTES - (cursor - first) <= after_len {
            MAX_SURROUNDING_BYTES - (cursor - first)
        } else {
            after_len
        };
        let after_end = floor_char_boundary(after, after_index);
        let start = ceil_char_boundary(before, cursor.saturating_sub(MAX_SURROUNDING_BYTES - after_end));
        proof {
            assert(start == w.start && after_end == w.after_end);
        }
        let (_, tail) = before.split_at(start);
        let (head, _) = after.split_at(after_end);
        let text = tail.to_owned().concat(head);
        proof {
            assert(tail.spec_bytes() =~= bb.subrange(start as int, before_len as int));
            assert(head.spec_bytes() =~= ab.subrange(0, after_end as int));
            assert(text@ =~= window_text(bb, ab, w));
        }
        let positions = [(cursor - start) as i32, (anchor - start) as i32];
        Some((text, positions))
    }
}

/// How an input method asks a part of its composition to be drawn.
#[derive(Debug, Clone, Copy, PartialEq, Eq, Structural)]
pub enum PreeditHint {
    Whole,
    Selection,
    SpellingError,
    ComposeError,
    Prediction,
}

/// A byte range of a composition and how to draw it.
#[derive(Debug)]
pub struct PreeditSpan {
    pub range: std::ops::Range<usize>,
    pub style: PreeditHint,
}

/// Text an input method is composing, not yet committed.
#[derive(Debug)]
pub struct Preedit {
    pub text: String,
    pub cursor: Option<(usize, usize)>,
    pub spans: Vec<PreeditSpan>,
}

/// The edits an input method sends between two `done` events.
#[derive(Debug)]
pub struct TextInputBatch {
    pub preedit: Option<Preedit>,
    pub commit: Option<String>,
    pub delete_surrounding: Option<(usize, usize)>,
    pub submit: bool,
}

impl TextInputBatch {
    /// A batch with no edits.
    pub open spec fn is_empty(&self) -> bool {
        &&& self.preedit is None
        &&& self.commit is None
        &&& self.delete_surrounding is None
        &&& !self.submit
    }
}

impl Default for TextInputBatch {
    fn default() -> (res: Self)
        ensures
            res.is_empty(),
    {
        TextInputBatch { preedit: None, commit: None, delete_surrounding: None, submit: false }
    }
}

/// A range that starts no later than it ends, at character boundaries of `text`.
pub open spec fn valid_range_spec(text: Seq<u8>, start: int, end: int) -> bool {
    start <= end && is_char_boundary(text, start) && is_char_boundary(text, end)
}

/// Whether `range` is a well-ordered byte range of `text` that starts and ends
/// at character boundaries.
pub fn valid_range(text: &str, range: &std::ops::Range<usize>) -> (res: bool)
    ensures
        res == valid_range_spec(text.spec_bytes(), range.start as int, range.end as int),
{
    range.start <= range.end && text.is_char_boundary(range.start) && text.is_char_boundary(
        range.end,
    )
}

/// The caret of a composition, as byte offsets that are character boundaries
/// of its text; absent when either offset is negative or falls inside a
/// character.
pub open spec fn preedit_cursor_spec(text: Seq<u8>, begin: i32, end: i32) -> Option<(usize, usize)> {
    if begin >= 0 && end >= 0 && is_char_boundary(text, begin as int) && is_char_boundary(
        text,
        end as int,
    ) {
        Some((begin as usize, end as usize))
    } else {
        None
    }
}

/// The caret an input method gives for its composition, if it is usable.
pub fn preedit_cursor(text: &str, begin: i32, end: i32) -> (res: Option<(usize, usize)>)
    ensures
        res == preedit_cursor_spec(text.spec_bytes(), begin, end),
{
    if begin < 0 || end < 0 {
        return None;
    }
    let begin = begin as usize;
    let end = end as usize;
    if text.is_char_boundary(begin) && text.is_char_boundary(end) {
        Some((begin, end))
    } else {
        None
    }
}

/// Identifies an output (a monitor).
pub type OutputId = u32;

/// The caret rectangle in surface coordinates.
#[derive(Debug, Clone, Copy, PartialEq, Eq, Structural)]
pub struct CursorRectangle {
    pub x: i32,
    pub y: i32,
    pub width: i32,
    pub height: i32,
}

/// What the overlay last told the input method about the text being edited.
#[derive(Debug)]
pub struct TextInputSession {
    /// The edit session the input method was enabled for.
    pub id: u64,
    /// The commit serial at which the input method was enabled.
    pub enable_serial: u32,
    /// Whether input method edits wait for a `done` that answers the latest commit.
    pub waiting_for_matching_done: bool,
    /// The surrounding text and caret positions last sent, if any.
    pub surrounding: Option<(String, i32, i32)>,
    pub external_revision: u64,
    pub rectangle: CursorRectangle,
}

/// A session, with its surrounding text as characters.
pub struct SessionModel {
    pub id: u64,
    pub enable_serial: u32,
    pub waiting_for_matching_done: bool,
    pub surrounding: Option<(Seq<char>, i32, i32)>,
    pub external_revision: u64,
    pub rectangle: CursorRectangle,
}

impl View for TextInputSession {
    type V = SessionModel;

    open spec fn view(&self) -> SessionModel {
        SessionModel {
            id: self.id,
            enable_serial: self.enable_serial,
            waiting_for_matching_done: self.waiting_for_matching_done,
            surrounding: match self.surrounding {
                Some((text, cursor, anchor)) => Some((text@, cursor, anchor)),
                None => None,
            },
            external_revision: self.external_revision,
            rectangle: self.rectangle,
        }
    }
}

pub open spec fn session_model(session: Option<TextInputSession>) -> Option<SessionModel> {
    match session {
        Some(s) => Some(s@),
        None => None,
    }
}

/// The state of the text being edited, as the input method should see it.
#[derive(Clone, Copy)]
pub struct TextInputSnapshot<'a> {
    /// Identifies the edit; a new edit gets a new session.
    pub session: u64,
    /// The committed text before a composition (all of it when not composing).
    pub before: &'a str,
    /// The committed text after a composition.
    pub after: &'a str,
    pub cursor: usize,
    pub anchor: usize,
    pub external_revision: u64,
    /// The caret rectangle in surface coordinates, once it is known.
    pub cursor_rectangle: Option<CursorRectangle>,
}

/// The requests the overlay sends to the input method, in order.
#[derive(Debug)]
pub enum TextInputRequest {
    HideInputPanel,
    Disable,
    Commit,
    Enable,
    SetAvailableActionsSubmit,
    ShowInputPanel,
    SetContentType { preedit_shown: bool },
    SetSurroundingText { text: String, cursor: i32, anchor: i32 },
    SetTextChangeCauseOther,
    SetCursorRectangle { rectangle: CursorRectangle },
}

/// A request, with its text as characters.
pub enum RequestModel {
    HideInputPanel,
    Disable,
    Commit,
    Enable,
    SetAvailableActionsSubmit,
    ShowInputPanel,
    SetContentType { preedit_shown: bool },
    SetSurroundingText { text: Seq<char>, cursor: i32, anchor: i32 },
    SetTextChangeCauseOther,
    SetCursorRectangle { rectangle: CursorRectangle },
}

impl View for TextInputRequest {
    type V = RequestModel;

    open spec fn view(&self) -> RequestModel {
        match self {
            TextInputRequest::HideInputPanel => RequestModel::HideInputPanel,
            TextInputRequest::Disable => RequestModel::Disable,
            TextInputRequest::Commit => RequestModel::Commit,
            TextInputRequest::Enable => RequestModel::Enable,
            TextInputRequest::SetAvailableActionsSubmit => RequestModel::SetAvailableActionsSubmit,
            TextInputRequest::ShowInputPanel => RequestModel::ShowInputPanel,
            TextInputRequest::SetContentType { preedit_shown } => RequestModel::SetContentType {
                preedit_shown: *preedit_shown,
            },
            TextInputRequest::SetSurroundingText { text, cursor, anchor } => RequestModel::SetSurroundingText {
                text: text@,
                cursor: *cursor,
                anchor: *anchor,
            },
            TextInputRequest::SetTextChangeCauseOther => RequestModel::SetTextChangeCauseOther,
            TextInputRequest::SetCursorRectangle { rectangle } => RequestModel::SetCursorRectangle {
                rectangle: *rectangle,
            },
        }
    }
}

pub open spec fn requests_model(requests: Seq<TextInputRequest>) -> Seq<RequestModel> {
    requests.map_values(|r: TextInputRequest| r@)
}

/// The text-input protocol state of the overlay.
#[derive(Debug)]
pub struct TextInputState {
    /// The output whose surface holds text-input focus.
    pub focused_output: Option<OutputId>,
    /// The number of commits sent, wrapping.
    pub serial: u32,
    /// Edits received since the last `done`.
    pub pending: TextInputBatch,
    /// Composition hints received since the last `done`.
    pub hints: Vec<PreeditSpan>,
    /// What the input method was last told, while it is enabled.
    pub session: Option<TextInputSession>,
}

/// The outcome of a sync: the session afterwards, the commit serial, whether
/// the session was dropped and pending edits discarded, and the requests sent.
pub struct SyncOutcome {
    pub session: Option<SessionModel>,
    pub serial: u32,
    pub reset: bool,
    pub requests: Seq<RequestModel>,
}

/// The surrounding text of a snapshot, with caret and anchor positions inside it.
pub open spec fn snapshot_surrounding(snapshot: TextInputSnapshot) -> Option<(Seq<char>, i32, i32)> {
    match surrounding_window(
        snapshot.before.spec_bytes(),
        snapshot.after.spec_bytes(),
        snapshot.cursor as int,
        snapshot.anchor as int,
    ) {
        Some(w) => Some(
            (
                window_text(snapshot.before.spec_bytes(), snapshot.after.spec_bytes(), w),
                (snapshot.cursor - w.start) as i32,
                (snapshot.anchor - w.start) as i32,
            ),
        ),
        None => None,
    }
}

/// Whether a snapshot's caret can be described to an input method at all.
pub open spec fn snapshot_fits(snapshot: TextInputSnapshot) -> bool {
    &&& caret_fits(
        snapshot.before.spec_bytes(),
        snapshot.after.spec_bytes(),
        snapshot.cursor as int,
        snapshot.anchor as int,
    )
    &&& snapshot.before.spec_bytes().len() + MAX_SURROUNDING_BYTES <= usize::MAX
}

/// The requests that enable the input method for a new session.
pub open spec fn enable_requests(version: u32) -> Seq<RequestModel> {
    seq![RequestModel::Enable] + (if version >= 2 {
        seq![RequestModel::SetAvailableActionsSubmit, RequestModel::ShowInputPanel]
    } else {
        Seq::<RequestModel>::empty()
    }) + seq![RequestModel::SetContentType { preedit_shown: version >= 2 }]
}

/// The requests that disable the input method.
pub open spec fn disable_requests(version: u32) -> Seq<RequestModel> {
    (if version >= 2 {
        seq![RequestModel::HideInputPanel]
    } else {
        Seq::<RequestModel>::empty()
    }) + seq![RequestModel::Disable, RequestModel::Commit]
}

/// How the protocol follows the edited text. The session is dropped (and
/// the input method disabled if it was enabled) when the edit changes, when
/// focus or the edit is gone, or when surrounding text becomes sendable or
/// stops being so. Then, for a focused edit with a known caret rectangle and
/// no outstanding commit, whatever changed since the last commit (revision,
/// surrounding text, rectangle) is sent, after enabling the input method for
/// a new session, and committed.
pub open spec fn sync_spec(
    session: Option<SessionModel>,
    focused: bool,
    serial: u32,
    version: u32,
    snapshot: Option<TextInputSnapshot>,
) -> SyncOutcome {
    let snapshot = if focused {
        snapshot
    } else {
        None
    };
    let supports_surrounding = snapshot matches Some(s) && abs_diff_int(s.cursor as int, s.anchor as int) <= MAX_SURROUNDING_BYTES;
    let session_id: Option<u64> = match session {
        Some(s) => Some(s.id),
        None => None,
    };
    let snapshot_id: Option<u64> = match snapshot {
        Some(s) => Some(s.session),
        None => None,
    };
    let reset = session_id != snapshot_id || (session matches Some(s) && (s.surrounding is Some) != supports_surrounding);
    let session1 = if reset {
        None
    } else {
        session
    };
    let serial1 = if reset && session is Some {
        serial.wrapping_add(1)
    } else {
        serial
    };
    let requests1 = if reset && session is Some {
        disable_requests(version)
    } else {
        Seq::<RequestModel>::empty()
    };
    let unchanged = SyncOutcome { session: session1, serial: serial1, reset, requests: requests1 };
    match snapshot {
        None => unchanged,
        Some(snap) => match snap.cursor_rectangle {
            None => unchanged,
            Some(rectangle) => if session1 matches Some(sent) && sent.waiting_for_matching_done {
                unchanged
            } else {
                let surrounding = snapshot_surrounding(snap);
                let external = match session1 {
                    Some(sent) => sent.external_revision != snap.external_revision,
                    None => true,
                };
                let surrounding_changed = match surrounding {
                    Some(now) => match session1 {
                        Some(sent) => match sent.surrounding {
                            Some(then) => then != now,
                            None => true,
                        },
                        None => true,
                    },
                    None => false,
                };
                let rectangle_changed = match session1 {
                    Some(sent) => sent.rectangle != rectangle,
                    None => true,
                };
                if !external && !surrounding_changed && !rectangle_changed {
                    unchanged
                } else {
                    let requests = requests1 + (if session1 is None {
                        enable_requests(version)
                    } else {
                        Seq::<RequestModel>::empty()
                    }) + (if surrounding_changed {
                        seq![
                            RequestModel::SetSurroundingText {
                                text: surrounding.unwrap().0,
                                cursor: surrounding.unwrap().1,
                                anchor: surrounding.unwrap().2,
                            },
                        ]
                    } else {
                        Seq::<RequestModel>::empty()
                    }) + (if external {
                        seq![RequestModel::SetTextChangeCauseOther]
                    } else {
                        Seq::<RequestModel>::empty()
                    }) + (if rectangle_changed {
                        seq![RequestModel::SetCursorRectangle { rectangle }]
                    } else {
                        Seq::<RequestModel>::empty()
                    }) + seq![RequestModel::Commit];
                    let serial2 = serial1.wrapping_add(1);
                    let base = match session1 {
                        Some(sent) => sent,
                        None => SessionModel {
                            id: snap.session,
                            enable_serial: serial2,
                            waiting_for_matching_done: false,
                            surrounding: None,
                            external_revision: 0,
                            rectangle: CursorRectangle { x: 0, y: 0, width: 0, height: 0 },
                        },
                    };
                    let sent = SessionModel {
                        surrounding: if surrounding_changed {
                            surrounding
                        } else {
                            base.surrounding
                        },
                        external_revision: snap.external_revision,
                        rectangle,
                        ..base
                    };
                    SyncOutcome { session: Some(sent), serial: serial2, reset, requests }
                }
            },
        },
    }
}

fn push_request(requests: &mut Vec<TextInputRequest>, request: TextInputRequest)
    ensures
        requests_model(final(requests)@) == requests_model(old(requests)@).push(request@),
{
    let ghost before = requests@;
    let ghost model = request@;
    requests.push(request);
    proof {
        assert(requests_model(requests@) =~= requests_model(before).push(model));
    }
}

impl TextInputState {
    /// No focus, no session, nothing pending, no commit sent yet.
    pub fn new() -> (res: Self)
        ensures
            res.focused_output is None,
            res.serial == 0,
            res.pending.is_empty(),
            res.hints@.len() == 0,
            res.session is None,
    {
        TextInputState {
            focused_output: None,
            serial: 0,
            pending: TextInputBatch::default(),
            hints: Vec::new(),
            session: None,
        }
    }

    /// Forgets the session and drops edits that have not been applied.
    pub fn reset(&mut self)
        ensures
            final(self).session is None,
            final(self).pending.is_empty(),
            final(self).hints@.len() == 0,
            final(self).focused_output == old(self).focused_output,
            final(self).serial == old(self).serial,
    {
        self.session = None;
        self.pending = TextInputBatch::default();
        self.hints = Vec::new();
    }

    /// Commits the requests sent so far, counting the commit.
    fn commit(&mut self, requests: &mut Vec<TextInputRequest>)
        ensures
            final(self).serial == old(self).serial.wrapping_add(1),
            final(self).session == old(self).session,
            final(self).pending == old(self).pending,
            final(self).hints == old(self).hints,
            final(self).focused_output == old(self).focused_output,
            requests_model(final(requests)@) == requests_model(old(requests)@).push(
                RequestModel::Commit,
            ),
    {
        push_request(requests, TextInputRequest::Commit);
        self.serial = self.serial.wrapping_add(1);
    }

    /// Brings the input method up to date with the edited text, which is
    /// `snapshot` (none when no text is being edited). `version` is the
    /// protocol version the compositor offers. Returns the requests to send,
    /// in order.
    #[verifier::rlimit(100)]
    pub fn sync(&mut self, version: u32, snapshot: Option<TextInputSnapshot<'_>>) -> (requests: Vec<TextInputRequest>)
        requires
            snapshot matches Some(s) ==> snapshot_fits(s),
        ensures
            ({
                let outcome = sync_spec(
                    session_model(old(self).session),
                    old(self).focused_output is Some,
                    old(self).serial,
                    version,
                    snapshot,
                );
                &&& requests_model(requests@) == outcome.requests
                &&& session_model(final(self).session) == outcome.session
                &&& final(self).serial == outcome.serial
                &&& final(self).focused_output == old(self).focused_output
                &&& outcome.reset ==> final(self).pending.is_empty() && final(self).hints@.len() == 0
                &&& !outcome.reset ==> final(self).pending == old(self).pending && final(self).hints == old(self).hints
            }),
    {
        let ghost old_session = session_model(self.session);
        let mut requests: Vec<TextInputRequest> = Vec::new();
        proof {
            assert(requests_model(requests@) =~= Seq::<RequestModel>::empty());
        }
        let snapshot = if self.focused_output.is_some() {
            snapshot
        } else {
            None
        };
        let supports_surrounding = match &snapshot {
            Some(s) => (if s.cursor >= s.anchor {
                s.cursor - s.anchor
            } else {
                s.anchor - s.cursor
            }) <= MAX_SURROUNDING_BYTES,
            None => false,
        };
        let session_id = match &self.session {
            Some(s) => Some(s.id),
            None => None,
        };
        let snapshot_id = match &snapshot {
            Some(s) => Some(s.session),
            None => None,
        };
        let mismatch = match &self.session {
            Some(s) => s.surrounding.is_some() != supports_surrounding,
            None => false,
        };
        let ids_differ = match (session_id, snapshot_id) {
            (Some(a), Some(b)) => a != b,
            (None, None) => false,
            _ => true,
        };
        if ids_differ || mismatch {
            if self.session.is_some() {
                if version >= 2 {
                    push_request(&mut requests, TextInputRequest::HideInputPanel);
                }
                push_request(&mut requests, TextInputRequest::Disable);
                self.commit(&mut requests);
                proof {
                    assert(requests_model(requests@) =~= disable_requests(version));
                }
            }
            self.reset();
        }
        let ghost requests1 = requests_model(requests@);
        let snapshot = match snapshot {
            Some(s) => s,
            None => return requests,
        };
        let rectangle = match snapshot.cursor_rectangle {
            Some(r) => r,
            None => return requests,
        };
        let waiting = match &self.session {
            Some(s) => s.waiting_for_matching_done,
            None => false,
        };
        if waiting {
            return requests;
        }
        let surrounding = surrounding_text(snapshot.before, snapshot.after, snapshot.cursor, snapshot.anchor);
        let ghost surrounding_model: Option<(Seq<char>, i32, i32)> = match &surrounding {
            Some(pair) => Some((pair.0@, pair.1[0], pair.1[1])),
            None => None,
        };
        proof {
            assert(surrounding_model == snapshot_surrounding(snapshot));
        }
        let external = match &self.session {
            Some(sent) => sent.external_revision != snapshot.external_revision,
            None => true,
        };
        let surrounding_changed = match &surrounding {
            Some((text, positions)) => match &self.session {
                Some(sent) => match &sent.surrounding {
                    Some((sent_text, sent_cursor, sent_anchor)) => !(*sent_text == *text)
                        || *sent_cursor != positions[0] || *sent_anchor != positions[1],
                    None => true,
                },
                None => true,
            },
            None => false,
        };
        let rectangle_changed = match &self.session {
            Some(sent) => sent.rectangle != rectangle,
            None => true,
        };
        if !external && !surrounding_changed && !rectangle_changed {
            return requests;
        }
        let ghost before_enable = requests_model(requests@);
        if self.session.is_none() {
            push_request(&mut requests, TextInputRequest::Enable);
            if version >= 2 {
                push_request(&mut requests, TextInputRequest::SetAvailableActionsSubmit);
                push_request(&mut requests, TextInputRequest::ShowInputPanel);
            }
            push_request(&mut requests, TextInputRequest::SetContentType { preedit_shown: version >= 2 });
            proof {
                assert(requests_model(requests@) =~= before_enable + enable_requests(version));
            }
        } else {
            proof {
                assert(requests_model(requests@) =~= before_enable + Seq::<RequestModel>::empty());
            }
        }
        let ghost before_surrounding = requests_model(requests@);
        let mut new_surrounding: Option<(String, i32, i32)> = None;
        if surrounding_changed {
            match surrounding {
                Some((text, positions)) => {
                    let sent_text = text.clone();
                    push_request(
                        &mut requests,
                        TextInputRequest::SetSurroundingText { text, cursor: positions[0], anchor: positions[1] },
                    );
                    new_surrounding = Some((sent_text, positions[0], positions[1]));
                },
                None => {},
            }
        }
        let ghost after_surrounding = requests_model(requests@);
        if external {
            push_request(&mut requests, TextInputRequest::SetTextChangeCauseOther);
        }
        let ghost after_external = requests_model(requests@);
        if rectangle_changed {
            push_request(&mut requests, TextInputRequest::SetCursorRectangle { rectangle });
        }
        let ghost after_rectangle = requests_model(requests@);
        self.commit(&mut requests);
        let mut session = None;
        std::mem::swap(&mut session, &mut self.session);
        let mut sent = match session {
            Some(s) => s,
            None => TextInputSession {
                id: snapshot.session,
                enable_serial: self.serial,
                waiting_for_matching_done: false,
                surrounding: None,
                external_revision: 0,
                rectangle: CursorRectangle { x: 0, y: 0, width: 0, height: 0 },
            },
        };
        if surrounding_changed {
            sent.surrounding = new_surrounding;
        }
        sent.external_revision = snapshot.external_revision;
        sent.rectangle = rectangle;
        self.session = Some(sent);
        proof {
            let outcome = sync_spec(old_session, old(self).focused_output is Some, old(self).serial, version, Some(snapshot));
            assert(after_surrounding =~= before_surrounding + (if surrounding_changed {
                seq![RequestModel::SetSurroundingText {
                    text: surrounding_model.unwrap().0,
                    cursor: surrounding_model.unwrap().1,
                    anchor: surrounding_model.unwrap().2,
                }]
            } else {
                Seq::<RequestModel>::empty()
            }));
            assert(after_external =~= after_surrounding + (if external {
                seq![RequestModel::SetTextChangeCauseOther]
            } else {
                Seq::<RequestModel>::empty()
            }));
            assert(after_rectangle =~= after_external + (if rectangle_changed {
                seq![RequestModel::SetCursorRectangle { rectangle }]
            } else {
                Seq::<RequestModel>::empty()
            }));
        }
        requests
    }
}

/// Syncing twice with the same edit sends nothing the second time: every
/// change was sent and committed by the first sync, and the session it left
/// stays as it is.
pub proof fn lemma_sync_idempotent(
    session: Option<SessionModel>,
    focused: bool,
    serial: u32,
    version: u32,
    snapshot: Option<TextInputSnapshot>,
)
    requires
        snapshot matches Some(s) ==> snapshot_fits(s),
    ensures
        ({
            let first = sync_spec(session, focused, serial, version, snapshot);
            let second = sync_spec(first.session, focused, first.serial, version, snapshot);
            &&& second.requests.len() == 0
            &&& second.session == first.session
            &&& second.serial == first.serial
            &&& second.reset ==> first.reset
        }),
{
    if let Some(s) = snapshot {
        lemma_surrounding_window(
            s.before.spec_bytes(),
            s.after.spec_bytes(),
            s.cursor as int,
            s.anchor as int,
        );
    }
}

/// The caret rectangle follows the caret: whenever a focused edit with a
/// known caret rectangle is synced while its input method is not waiting
/// for a `done`, the session afterwards records that rectangle, and when it
/// differs from the rectangle last sent (or the session starts afresh) the
/// requests end by sending the new rectangle and committing.
pub proof fn lemma_sync_sends_moved_caret(
    session: Option<SessionModel>,
    serial: u32,
    version: u32,
    snapshot: TextInputSnapshot,
    rectangle: CursorRectangle,
)
    requires
        snapshot.cursor_rectangle == Some(rectangle),
        session is None || !session->0.waiting_for_matching_done,
    ensures
        ({
            let out = sync_spec(session, true, serial, version, Some(snapshot));
            &&& out.session matches Some(sent) && sent.rectangle == rectangle
            &&& out.session->0.id == snapshot.session
            &&& (session is None || out.reset || session->0.rectangle != rectangle) ==> {
                &&& out.requests.len() >= 2
                &&& out.requests[out.requests.len() - 2] == RequestModel::SetCursorRectangle {
                    rectangle,
                }
                &&& out.requests[out.requests.len() - 1] == RequestModel::Commit
                &&& out.serial == (if session is Some && out.reset {
                    serial.wrapping_add(1).wrapping_add(1)
                } else {
                    serial.wrapping_add(1)
                })
            }
        }),
{
}

/// What a sync tells the input method about a focused edit with a known
/// caret rectangle, while it is not waiting for a `done`: a new session is
/// enabled first; the session afterwards records the edit's revision and its
/// surrounding text; a revision other than the one last sent is announced
/// as a change from outside; surrounding text other than the one last sent
/// is sent; and the requests end with a commit.
pub proof fn lemma_sync_sends_changes(
    session: Option<SessionModel>,
    serial: u32,
    version: u32,
    snapshot: TextInputSnapshot,
    rectangle: CursorRectangle,
)
    requires
        snapshot.cursor_rectangle == Some(rectangle),
        session is None || !session->0.waiting_for_matching_done,
    ensures
        ({
            let out = sync_spec(session, true, serial, version, Some(snapshot));
            let fresh = session is None || out.reset;
            let now = snapshot_surrounding(snapshot).unwrap();
            &&& out.session->0.external_revision == snapshot.external_revision
            &&& snapshot_surrounding(snapshot) is Some ==> out.session->0.surrounding
                == snapshot_surrounding(snapshot)
            &&& (fresh || session->0.external_revision != snapshot.external_revision) ==> {
                &&& out.requests.contains(RequestModel::SetTextChangeCauseOther)
                &&& out.requests.last() == RequestModel::Commit
            }
            &&& (snapshot_surrounding(snapshot) is Some && (fresh || session->0.surrounding
                != snapshot_surrounding(snapshot))) ==> out.requests.contains(
                RequestModel::SetSurroundingText { text: now.0, cursor: now.1, anchor: now.2 },
            )
            &&& session is None ==> out.requests[0] == RequestModel::Enable
            &&& session is Some && out.reset ==> out.requests[0] == (if version >= 2 {
                RequestModel::HideInputPanel
            } else {
                RequestModel::Disable
            })
            &&& (session matches Some(s) && s.id != snapshot.session) ==> out.reset
        }),
{
    let out = sync_spec(session, true, serial, version, Some(snapshot));
    let fresh = session is None || out.reset;
    let session1 = if out.reset { None::<SessionModel> } else { session };
    let requests1 = if out.reset && session is Some {
        disable_requests(version)
    } else {
        Seq::<RequestModel>::empty()
    };
    let surrounding = snapshot_surrounding(snapshot);
    let external = match session1 {
        Some(sent) => sent.external_revision != snapshot.external_revision,
        None => true,
    };
    let surrounding_changed = match surrounding {
        Some(now) => match session1 {
            Some(sent) => match sent.surrounding {
                Some(then) => then != now,
                None => true,
            },
            None => true,
        },
        None => false,
    };
    let rectangle_changed = match session1 {
        Some(sent) => sent.rectangle != rectangle,
        None => true,
    };
    if external || surrounding_changed || rectangle_changed {
        let a = requests1 + (if session1 is None {
            enable_requests(version)
        } else {
            Seq::<RequestModel>::empty()
        });
        let b = a + (if surrounding_changed {
            seq![
                RequestModel::SetSurroundingText {
                    text: surrounding.unwrap().0,
                    cursor: surrounding.unwrap().1,
                    anchor: surrounding.unwrap().2,
                },
            ]
        } else {
            Seq::<RequestModel>::empty()
        });
        let c = b + (if external {
            seq![RequestModel::SetTextChangeCauseOther]
        } else {
            Seq::<RequestModel>::empty()
        });
        let d = c + (if rectangle_changed {
            seq![RequestModel::SetCursorRectangle { rectangle }]
        } else {
            Seq::<RequestModel>::empty()
        });
        assert(out.requests == d + seq![RequestModel::Commit]);
        if surrounding_changed {
            assert(out.requests[a.len() as int] == RequestModel::SetSurroundingText {
                text: surrounding.unwrap().0,
                cursor: surrounding.unwrap().1,
                anchor: surrounding.unwrap().2,
            });
        }
        if external {
            assert(out.requests[b.len() as int] == RequestModel::SetTextChangeCauseOther);
        }
        if session is Some && out.reset {
            assert(out.requests[0] == requests1[0]);
        }
        if session is None {
            assert(out.requests[0] == enable_requests(version)[0]);
        }
    }
}

/// What a `done` event asks of the editor: the edits to apply, whether
/// edits resume after waiting for this commit (the text then needs redrawing),
/// and the output to redraw.
#[derive(Debug)]
pub struct DoneOutcome {
    pub batch: TextInputBatch,
    pub resume: bool,
    pub damage: Option<OutputId>,
}

/// The composition hints that fall on character boundaries of the composed text.
pub open spec fn usable_hints(text: Seq<u8>, hints: Seq<PreeditSpan>) -> Seq<PreeditSpan> {
    hints.filter(|h: PreeditSpan| valid_range_spec(text, h.range.start as int, h.range.end as int))
}

/// A `done` whose serial comes before the commit that enabled the session
/// (in wrapping order) answers an earlier session.
pub open spec fn stale_serial(serial: u32, enable_serial: u32) -> bool {
    serial.wrapping_sub(enable_serial) >= 0x8000_0000u32
}

/// The edits of `pending`, with usable `hints` added to its composition.
pub open spec fn batch_with_hints(
    batch: TextInputBatch,
    pending: TextInputBatch,
    hints: Seq<PreeditSpan>,
) -> bool {
    &&& batch.commit == pending.commit
    &&& batch.delete_surrounding == pending.delete_surrounding
    &&& batch.submit == pending.submit
    &&& match (batch.preedit, pending.preedit) {
        (Some(now), Some(then)) => {
            &&& now.text == then.text
            &&& now.cursor == then.cursor
            &&& now.spans@ == then.spans@ + usable_hints(encode_utf8(then.text@), hints)
        },
        (None, None) => true,
        _ => false,
    }
}

proof fn lemma_filter_push(s: Seq<PreeditSpan>, pred: spec_fn(PreeditSpan) -> bool, e: PreeditSpan)
    ensures
        pred(e) ==> s.push(e).filter(pred) == s.filter(pred).push(e),
        !pred(e) ==> s.push(e).filter(pred) == s.filter(pred),
{
    reveal(Seq::filter);
    assert(s.push(e).drop_last() =~= s);
}

impl TextInputState {
    /// Text-input focus entered the surface of `output` (none when the
    /// surface is not an output's): edits of the previous focus are dropped.
    pub fn enter(&mut self, output: Option<OutputId>)
        ensures
            final(self).focused_output == output,
            final(self).session is None,
            final(self).pending.is_empty(),
            final(self).hints@.len() == 0,
            final(self).serial == old(self).serial,
    {
        self.reset();
        self.focused_output = output;
    }

    /// `output` went away or lost text-input focus. Returns whether it held
    /// focus, in which case focus and session are dropped and the editor's
    /// composition must be cleared.
    pub fn output_removed(&mut self, output: OutputId) -> (was_focused: bool)
        ensures
            was_focused == (old(self).focused_output == Some(output)),
            was_focused ==> final(self).focused_output is None && final(self).session is None
                && final(self).pending.is_empty() && final(self).hints@.len() == 0
                && final(self).serial == old(self).serial,
            !was_focused ==> *final(self) == *old(self),
    {
        if self.focused_output == Some(output) {
            self.focused_output = None;
            self.reset();
            true
        } else {
            false
        }
    }

    /// The input method's new composition; an empty or absent text clears it.
    pub fn preedit_string(&mut self, text: Option<String>, cursor_begin: i32, cursor_end: i32)
        ensures
            match text {
                Some(t) if t@.len() > 0 => final(self).pending.preedit matches Some(p) && p.text
                    == t && p.cursor == preedit_cursor_spec(encode_utf8(t@), cursor_begin, cursor_end)
                    && p.spans@.len() == 0,
                _ => final(self).pending.preedit is None,
            },
            final(self).pending.commit == old(self).pending.commit,
            final(self).pending.delete_surrounding == old(self).pending.delete_surrounding,
            final(self).pending.submit == old(self).pending.submit,
            final(self).hints == old(self).hints,
            final(self).session == old(self).session,
            final(self).serial == old(self).serial,
            final(self).focused_output == old(self).focused_output,
    {
        self.pending.preedit = match text {
            Some(text) => if text.as_str().is_empty() {
                None
            } else {
                let cursor = preedit_cursor(text.as_str(), cursor_begin, cursor_end);
                Some(Preedit { text, cursor, spans: Vec::new() })
            },
            None => None,
        };
    }

    /// Text the input method commits.
    pub fn commit_string(&mut self, text: Option<String>)
        ensures
            final(self).pending.commit == text,
            final(self).pending.preedit == old(self).pending.preedit,
            final(self).pending.delete_surrounding == old(self).pending.delete_surrounding,
            final(self).pending.submit == old(self).pending.submit,
            final(self).hints == old(self).hints,
            final(self).session == old(self).session,
            final(self).serial == old(self).serial,
            final(self).focused_output == old(self).focused_output,
    {
        self.pending.commit = text;
    }

    /// The input method deletes bytes around the selection.
    pub fn delete_surrounding_text(&mut self, before_length: u32, after_length: u32)
        ensures
            final(self).pending.delete_surrounding == Some((before_length as usize, after_length as usize)),
            final(self).pending.preedit == old(self).pending.preedit,
            final(self).pending.commit == old(self).pending.commit,
            final(self).pending.submit == old(self).pending.submit,
            final(self).hints == old(self).hints,
            final(self).session == old(self).session,
            final(self).serial == old(self).serial,
            final(self).focused_output == old(self).focused_output,
    {
        self.pending.delete_surrounding = Some((before_length as usize, after_length as usize));
    }

    /// The input method submits the text, as Enter does.
    pub fn submit(&mut self)
        ensures
            final(self).pending.submit,
            final(self).pending.preedit == old(self).pending.preedit,
            final(self).pending.commit == old(self).pending.commit,
            final(self).pending.delete_surrounding == old(self).pending.delete_surrounding,
            final(self).hints == old(self).hints,
            final(self).session == old(self).session,
            final(self).serial == old(self).serial,
            final(self).focused_output == old(self).focused_output,
    {
        self.pending.submit = true;
    }

    /// A hint on how to draw bytes `start..end` of the coming composition.
    pub fn preedit_hint(&mut self, start: u32, end: u32, style: PreeditHint)
        ensures
            final(self).hints@.len() == old(self).hints@.len() + 1,
            final(self).hints@.drop_last() == old(self).hints@,
            final(self).hints@.last().range.start == start,
            final(self).hints@.last().range.end == end,
            final(self).hints@.last().style == style,
            final(self).pending == old(self).pending,
            final(self).session == old(self).session,
            final(self).serial == old(self).serial,
            final(self).focused_output == old(self).focused_output,
    {
        let span = PreeditSpan { range: std::ops::Range { start: start as usize, end: end as usize }, style };
        let mut hints = Vec::new();
        std::mem::swap(&mut hints, &mut self.hints);
        hints.push(span);
        self.hints = hints;
        proof {
            assert(self.hints@.drop_last() =~= old(self).hints@);
        }
    }

    /// The input method finished a batch of edits, answering commit `serial`.
    /// `current_session` is the edit session now open in the editor. The
    /// pending edits are taken; they are returned for the editor to apply
    /// unless no session is enabled, the session is not the editor's, or the
    /// serial predates the session.
    pub fn done(&mut self, serial: u32, current_session: Option<u64>) -> (res: Option<DoneOutcome>)
        ensures
            final(self).pending.is_empty(),
            final(self).hints@.len() == 0,
            final(self).serial == old(self).serial,
            final(self).focused_output == old(self).focused_output,
            res is Some <==> (old(self).session matches Some(session) && current_session == Some(
                session.id,
            ) && !stale_serial(serial, session.enable_serial)),
            res is None ==> final(self).session == old(self).session,
            res matches Some(outcome) ==> {
                let session = old(self).session->0;
                &&& batch_with_hints(outcome.batch, old(self).pending, old(self).hints@)
                &&& outcome.resume == (session.waiting_for_matching_done && serial == old(self).serial)
                &&& outcome.damage == (if outcome.resume {
                    old(self).focused_output
                } else {
                    None
                })
                &&& final(self).session matches Some(now) && now.id == session.id && now.enable_serial
                    == session.enable_serial && now.surrounding == session.surrounding
                    && now.external_revision == session.external_revision && now.rectangle
                    == session.rectangle && now.waiting_for_matching_done == (serial != old(self).serial)
            },
    {
        let mut batch = TextInputBatch::default();
        std::mem::swap(&mut batch, &mut self.pending);
        let mut hints = Vec::new();
        std::mem::swap(&mut hints, &mut self.hints);
        let ghost pending = batch;
        let ghost old_hints = hints@;
        match batch.preedit {
            Some(preedit) => {
                let Preedit { text, cursor, spans } = preedit;
                let mut spans = spans;
                let ghost bytes = encode_utf8(text@);
                let ghost pred = |h: PreeditSpan| valid_range_spec(bytes, h.range.start as int, h.range.end as int);
                let ghost first = spans@;
                let mut i: usize = 0;
                proof {
                    assert(old_hints.take(0) =~= Seq::<PreeditSpan>::empty());
                    assert(first + Seq::<PreeditSpan>::empty().filter(pred) =~= first) by {
                        reveal(Seq::filter);
                    }
                }
                while i < hints.len()
                    invariant
                        i <= hints@.len(),
                        hints@ == old_hints,
                        bytes == encode_utf8(text@),
                        pred == (|h: PreeditSpan| valid_range_spec(bytes, h.range.start as int, h.range.end as int)),
                        spans@ == first + old_hints.take(i as int).filter(pred),
                    decreases hints@.len() - i,
                {
                    let hint = &hints[i];
                    proof {
                        lemma_filter_push(old_hints.take(i as int), pred, old_hints[i as int]);
                        assert(old_hints.take(i as int + 1) =~= old_hints.take(i as int).push(old_hints[i as int]));
                    }
                    if valid_range(text.as_str(), &hint.range) {
                        let span = PreeditSpan {
                            range: std::ops::Range { start: hint.range.start, end: hint.range.end },
                            style: hint.style,
                        };
                        proof {
                            assert(span == old_hints[i as int]);
                        }
                        spans.push(span);
                    }
                    i = i + 1;
                }
                proof {
                    assert(old_hints.take(old_hints.len() as int) =~= old_hints);
                }
                batch.preedit = Some(Preedit { text, cursor, spans });
            },
            None => {},
        }
        let enabled = match &self.session {
            Some(session) => match current_session {
                Some(id) => session.id == id && !(serial.wrapping_sub(session.enable_serial) >= 0x8000_0000u32),
                None => false,
            },
            None => false,
        };
        if !enabled {
            return None;
        }
        let mut session = None;
        std::mem::swap(&mut session, &mut self.session);
        let mut session = match session {
            Some(session) => session,
            None => {
                return None;
            },
        };
        let resume = session.waiting_for_matching_done && serial == self.serial;
        session.waiting_for_matching_done = serial != self.serial;
        self.session = Some(session);
        let damage = if resume {
            self.focused_output
        } else {
            None
        };
        Some(DoneOutcome { batch, resume, damage })
    }

    /// Syncs after `output` was drawn, when it holds text-input focus;
    /// otherwise there is nothing to send.
    pub fn sync_render(&mut self, version: u32, output: OutputId, snapshot: Option<TextInputSnapshot<'_>>) -> (requests: Vec<TextInputRequest>)
        requires
            snapshot matches Some(s) ==> snapshot_fits(s),
        ensures
            old(self).focused_output != Some(output) ==> requests@.len() == 0 && *final(self) == *old(self),
            old(self).focused_output == Some(output) ==> ({
                let outcome = sync_spec(
                    session_model(old(self).session),
                    true,
                    old(self).serial,
                    version,
                    snapshot,
                );
                &&& requests_model(requests@) == outcome.requests
                &&& session_model(final(self).session) == outcome.session
                &&& final(self).serial == outcome.serial
                &&& final(self).focused_output == old(self).focused_output
                &&& outcome.reset ==> final(self).pending.is_empty() && final(self).hints@.len() == 0
                &&& !outcome.reset ==> final(self).pending == old(self).pending && final(self).hints
                    == old(self).hints
            }),
    {
        if self.focused_output == Some(output) {
            self.sync(version, snapshot)
        } else {
            Vec::new()
        }
    }
}

} // verus!
