//! Decisions of the text editor that depend on the edited text and its
//! selection alone: how input-method edits and deletions apply.

use unicode_segmentation::UnicodeSegmentation;
use vstd::prelude::*;
use vstd::string::*;
use vstd::utf8::*;

use crate::input::text::{Preedit, TextInputBatch};

verus! {

broadcast use group_utf8_lib;

/// The byte length of the last extended grapheme cluster of `text`.
pub uninterp spec fn last_grapheme_len(text: Seq<char>) -> usize;

/// The byte length of the first extended grapheme cluster of `text`.
pub uninterp spec fn first_grapheme_len(text: Seq<char>) -> usize;

/// `UnicodeSegmentation::graphemes(text, true).next_back()`, by its byte
/// length, 0 for empty text. The last cluster is a non-empty suffix of a
/// non-empty `text` that starts at a character boundary; which characters it
/// spans is not stated here.
#[verifier::external_body]
fn last_grapheme_byte_len(text: &str) -> (len: usize)
    ensures
        len == last_grapheme_len(text@),
        len <= text.spec_bytes().len(),
        (len == 0) == (text.spec_bytes().len() == 0),
        is_char_boundary(text.spec_bytes(), text.spec_bytes().len() - len),
{
    text.graphemes(true).next_back().map_or(0, str::len)
}

/// `UnicodeSegmentation::graphemes(text, true).next()`, by its byte length,
/// 0 for empty text. The first cluster is a non-empty prefix of a non-empty
/// `text` that ends at a character boundary; which characters it spans is not
/// stated here.
#[verifier::external_body]
fn first_grapheme_byte_len(text: &str) -> (len: usize)
    ensures
        len == first_grapheme_len(text@),
        len <= text.spec_bytes().len(),
        (len == 0) == (text.spec_bytes().len() == 0),
        is_char_boundary(text.spec_bytes(), len as int),
{
    text.graphemes(true).next().map_or(0, str::len)
}

/// What a backspace or delete key press removes.
#[derive(Debug, Clone, Copy, PartialEq, Eq, Structural)]
pub enum GraphemeDeletion {
    /// The selected text.
    Selection,
    /// This many bytes before the caret.
    Before(usize),
    /// This many bytes after the caret.
    After(usize),
    /// Nothing: the caret is at the end the key deletes towards.
    Nothing,
}

/// The characters of `text` before the byte index `cursor`.
pub open spec fn chars_before(text: Seq<u8>, cursor: int) -> Seq<char> {
    decode_utf8(text.subrange(0, cursor))
}

/// The characters of `text` from the byte index `cursor` on.
pub open spec fn chars_after(text: Seq<u8>, cursor: int) -> Seq<char> {
    decode_utf8(text.subrange(cursor, text.len() as int))
}

/// A deletion of `len` bytes, or of nothing when `len` is 0.
pub open spec fn deletion_of(len: usize, backwards: bool) -> GraphemeDeletion {
    if len == 0 {
        GraphemeDeletion::Nothing
    } else if backwards {
        GraphemeDeletion::Before(len)
    } else {
        GraphemeDeletion::After(len)
    }
}

/// What deleting one character removes: a non-empty selection as a whole,
/// otherwise the whole grapheme cluster before (`backwards`) or after the
/// caret.
pub open spec fn grapheme_deletion_spec(text: Seq<u8>, collapsed: bool, cursor: int, backwards: bool) -> GraphemeDeletion {
    if !collapsed {
        GraphemeDeletion::Selection
    } else if backwards {
        deletion_of(last_grapheme_len(chars_before(text, cursor)), true)
    } else {
        deletion_of(first_grapheme_len(chars_after(text, cursor)), false)
    }
}

/// What a backspace (`backwards`) or delete key press removes from `text`,
/// whose selection is `collapsed` to the caret at byte `cursor` or spans text.
/// A deletion removes whole user-perceived characters, never part of one.
pub fn grapheme_deletion(text: &str, collapsed: bool, cursor: usize, backwards: bool) -> (res: GraphemeDeletion)
    requires
        is_char_boundary(text.spec_bytes(), cursor as int),
    ensures
        res == grapheme_deletion_spec(text.spec_bytes(), collapsed, cursor as int, backwards),
        res matches GraphemeDeletion::Before(len) ==> 0 < len <= cursor && is_char_boundary(
            text.spec_bytes(),
            cursor - len,
        ),
        res matches GraphemeDeletion::After(len) ==> 0 < len && cursor + len <= text.spec_bytes().len()
            && is_char_boundary(text.spec_bytes(), cursor + len),
{
    if !collapsed {
        return GraphemeDeletion::Selection;
    }
    let ghost bytes = text.spec_bytes();
    let (head, tail) = text.split_at(cursor);
    proof {
        assert(head@ == decode_utf8(head.spec_bytes()));
        assert(tail@ == decode_utf8(tail.spec_bytes()));
    }
    if backwards {
        let len = last_grapheme_byte_len(head);
        proof {
            assert forall|i: int| 0 <= i <= head.spec_bytes().len() implies
                #[trigger] is_char_boundary(head.spec_bytes(), i) == is_char_boundary(bytes, i) by {
                lemma_boundary_prefix(bytes, cursor as int, i);
            }
        }
        if len == 0 {
            GraphemeDeletion::Nothing
        } else {
            GraphemeDeletion::Before(len)
        }
    } else {
        let len = first_grapheme_byte_len(tail);
        proof {
            lemma_boundary_suffix(bytes, cursor as int, len as int);
        }
        if len == 0 {
            GraphemeDeletion::Nothing
        } else {
            GraphemeDeletion::After(len)
        }
    }
}

/// A key press deletes a selection that spans text as a whole, whichever
/// way the key deletes; with the selection collapsed to the caret it
/// deletes only towards its own side of the caret, never a selection.
pub proof fn lemma_deletion_direction(text: Seq<u8>, collapsed: bool, cursor: int, backwards: bool)
    ensures
        !collapsed ==> grapheme_deletion_spec(text, collapsed, cursor, backwards)
            == GraphemeDeletion::Selection,
        collapsed ==> grapheme_deletion_spec(text, collapsed, cursor, backwards)
            != GraphemeDeletion::Selection,
        collapsed && backwards ==> !(grapheme_deletion_spec(text, collapsed, cursor, backwards) is After),
        collapsed && !backwards ==> !(grapheme_deletion_spec(text, collapsed, cursor, backwards) is Before),
{
}

/// A character boundary of a prefix that ends at a boundary is one of the
/// whole text.
proof fn lemma_boundary_prefix(bytes: Seq<u8>, cut: int, i: int)
    requires
        valid_utf8(bytes),
        is_char_boundary(bytes, cut),
        0 <= i <= cut,
    ensures
        is_char_boundary(bytes.subrange(0, cut), i) == is_char_boundary(bytes, i),
{
    let head = bytes.subrange(0, cut);
    if i < cut {
        assert(head[i] == bytes[i]);
        assert(is_char_boundary(head, i) <==> !is_continuation_byte(head[i]));
        assert(is_char_boundary(bytes, i) <==> !is_continuation_byte(bytes[i]));
    } else {
        assert(head.len() == cut);
    }
}

/// A character boundary of a suffix that starts at a boundary is one of the
/// whole text.
proof fn lemma_boundary_suffix(bytes: Seq<u8>, cut: int, i: int)
    requires
        valid_utf8(bytes),
        is_char_boundary(bytes, cut),
        0 <= i <= bytes.len() - cut,
    ensures
        is_char_boundary(bytes.subrange(cut, bytes.len() as int), i) == is_char_boundary(bytes, cut + i),
{
    let tail = bytes.subrange(cut, bytes.len() as int);
    if i < tail.len() {
        assert(tail[i] == bytes[cut + i]);
        assert(is_char_boundary(tail, i) <==> !is_continuation_byte(tail[i]));
        assert(is_char_boundary(bytes, cut + i) <==> !is_continuation_byte(bytes[cut + i]));
    } else {
        assert(tail.len() == i);
    }
}

/// What applying a batch of input-method edits does to the editor, step by
/// step: end the composition when `clear_compose`; delete `delete_after`
/// bytes after the selection, then `delete_before` bytes before it (0 deletes
/// nothing); insert `commit` in place of the selection; compose `compose`.
#[derive(Debug)]
pub struct TextInputPlan {
    pub clear_compose: bool,
    pub delete_after: usize,
    pub delete_before: usize,
    pub commit: Option<String>,
    pub compose: Option<Preedit>,
}

/// Whether an input method's request to delete `before` bytes before and
/// `after` bytes after the selection from `start` to `end` stays within the
/// text and ends at character boundaries. The end saturates at the largest
/// index.
pub open spec fn surrounding_deletion_fits(text: Seq<u8>, start: usize, end: usize, before: usize, after: usize) -> bool {
    &&& before <= start
    &&& is_char_boundary(text, start - before)
    &&& is_char_boundary(text, end.saturating_add(after) as int)
}

/// The composition of a batch, left out when its text is empty.
pub open spec fn usable_compose(preedit: Option<Preedit>) -> Option<Preedit> {
    match preedit {
        Some(p) => if p.text@.len() > 0 {
            Some(p)
        } else {
            None
        },
        None => None,
    }
}

/// The bytes a batch deletes after and before the selection: none when the
/// request does not fit the text.
pub open spec fn planned_deletion(text: Seq<u8>, start: usize, end: usize, request: Option<(usize, usize)>) -> (usize, usize) {
    match request {
        Some((before, after)) => if surrounding_deletion_fits(text, start, end, before, after) {
            (after, before)
        } else {
            (0, 0)
        },
        None => (0, 0),
    }
}

/// Whether applying a batch first ends the composition: a batch that only
/// updates the composition replaces it in place.
pub open spec fn plan_clears_compose(batch: TextInputBatch) -> bool {
    ||| usable_compose(batch.preedit) is None
    ||| batch.commit is Some
    ||| batch.delete_surrounding is Some
}

/// How a batch of input-method edits applies to `text`, whose selection spans
/// the bytes `selection`.
pub fn plan_text_input(batch: TextInputBatch, text: &str, selection: &std::ops::Range<usize>) -> (res: TextInputPlan)
    ensures
        res.compose == usable_compose(batch.preedit),
        res.clear_compose == plan_clears_compose(batch),
        (res.delete_after, res.delete_before) == planned_deletion(
            text.spec_bytes(),
            selection.start,
            selection.end,
            batch.delete_surrounding,
        ),
        res.commit == batch.commit,
{
    let TextInputBatch { preedit, commit, delete_surrounding, submit: _ } = batch;
    let compose = match preedit {
        Some(p) => if p.text.as_str().is_empty() {
            None
        } else {
            Some(p)
        },
        None => None,
    };
    let clear_compose = compose.is_none() || commit.is_some() || delete_surrounding.is_some();
    let (delete_after, delete_before) = match delete_surrounding {
        Some((before, after)) => {
            if before <= selection.start && text.is_char_boundary(selection.start - before)
                && text.is_char_boundary(selection.end.saturating_add(after)) {
                (after, before)
            } else {
                (0, 0)
            }
        },
        None => (0, 0),
    };
    TextInputPlan { clear_compose, delete_after, delete_before, commit, compose }
}

/// The caret and anchor an input method is told of: the start of the
/// composition while composing, else the selection's focus and anchor.
pub fn snapshot_caret(compose: &Option<std::ops::Range<usize>>, focus: usize, anchor: usize) -> (res: (usize, usize))
    ensures
        res == (match compose {
            Some(range) => (range.start, range.start),
            None => (focus, anchor),
        }),
{
    match compose {
        Some(range) => (range.start, range.start),
        None => (focus, anchor),
    }
}

/// The revision of edits made outside the input method after one more edit
/// that `changed` the text or selection; it wraps around.
pub fn next_external_revision(revision: u64, changed: bool) -> (res: u64)
    ensures
        res == (if changed {
            (revision + 1) % 0x1_0000_0000_0000_0000
        } else {
            revision as int
        }),
{
    if changed {
        revision.wrapping_add(1)
    } else {
        revision
    }
}

} // verus!
