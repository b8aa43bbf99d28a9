//! Applying the changes of an editor to the text of an open document.
//!
//! A change replaces a range of the text or the whole text. A range is
//! given by lines and by bytes in the line. The changes of one batch are
//! applied one after the other, each to the text that the changes before it
//! have left.

use vstd::prelude::*;
use vstd::utf8::{
    decode_utf8,
    encode_utf8,
    encode_utf8_decode_utf8,
    encode_utf8_valid_utf8,
    is_ascii_chars,
    is_ascii_chars_encode_utf8,
    is_char_boundary,
    is_char_boundary_iff_not_is_continuation_byte,
    is_char_boundary_start_end_of_seq,
};

verus! {

/// A place in a text: a line, counted from zero, and a number of bytes into
/// that line.
#[derive(Clone, Copy, Debug, PartialEq, Eq)]
pub struct LinePosition {
    pub line: u32,
    pub character: u32,
}

/// The part of a text from `start` up to, not including, `end`.
#[derive(Clone, Copy, Debug, PartialEq, Eq)]
pub struct LineRange {
    pub start: LinePosition,
    pub end: LinePosition,
}

/// The bytes of a text from `start` up to, not including, `end`.
#[derive(Clone, Copy, Debug, PartialEq, Eq)]
pub struct ByteRange {
    pub start: usize,
    pub end: usize,
}

/// One change to a text: `text` takes the place of `range`, or of the whole
/// text where there is no range.
#[derive(Clone, Debug, PartialEq, Eq)]
pub struct TextChange {
    pub range: Option<LineRange>,
    pub text: String,
}

/// The byte that ends a line.
pub const LINE_BREAK: u8 = 10;

/// The index of the first line break in `bytes` at or after `from`, or the
/// number of bytes if there is none.
pub open spec fn next_line_break(bytes: Seq<u8>, from: int) -> int
    decreases bytes.len() - from,
{
    if from >= bytes.len() {
        bytes.len() as int
    } else if from >= 0 && bytes[from] == LINE_BREAK {
        from
    } else {
        next_line_break(bytes, from + 1)
    }
}

/// The index of the byte that line `line` starts with. A line starts behind
/// the line break of the line before it; a line that the text does not have
/// starts one byte beyond the end of the text.
pub open spec fn line_start(bytes: Seq<u8>, line: nat) -> int
    decreases line,
{
    if line == 0 {
        0
    } else {
        next_line_break(bytes, line_start(bytes, (line - 1) as nat)) + 1
    }
}

/// The index of the byte at `pos`. It lies beyond the end of the text
/// where the line is too short for it or is not there.
pub open spec fn byte_offset(bytes: Seq<u8>, pos: LinePosition) -> int {
    line_start(bytes, pos.line as nat) + pos.character
}

/// `bytes` with `with` in the place of the bytes from `start` to `end`.
pub open spec fn splice(bytes: Seq<u8>, start: int, end: int, with: Seq<u8>) -> Seq<u8> {
    bytes.subrange(0, start) + with + bytes.subrange(end, bytes.len() as int)
}

/// The range lies in the text, its start does not come after its end, and
/// it cuts no character in two.
pub open spec fn range_fits(text: Seq<char>, range: LineRange) -> bool {
    let bytes = encode_utf8(text);
    &&& byte_offset(bytes, range.start) <= byte_offset(bytes, range.end)
    &&& is_char_boundary(bytes, byte_offset(bytes, range.start))
    &&& is_char_boundary(bytes, byte_offset(bytes, range.end))
}

/// The change can be applied to the text.
pub open spec fn change_fits(text: Seq<char>, change: TextChange) -> bool {
    match change.range {
        Some(range) => range_fits(text, range),
        None => true,
    }
}

/// The text after one change.
pub open spec fn apply_change(text: Seq<char>, change: TextChange) -> Seq<char> {
    match change.range {
        Some(range) => decode_utf8(
            splice(
                encode_utf8(text),
                byte_offset(encode_utf8(text), range.start),
                byte_offset(encode_utf8(text), range.end),
                encode_utf8(change.text@),
            ),
        ),
        None => change.text@,
    }
}

/// The text after the changes, applied in order.
pub open spec fn apply_changes(text: Seq<char>, changes: Seq<TextChange>) -> Seq<char>
    decreases changes.len(),
{
    if changes.len() == 0 {
        text
    } else {
        apply_change(apply_changes(text, changes.drop_last()), changes.last())
    }
}

/// Each change can be applied to the text that the changes before it leave.
pub open spec fn changes_fit(text: Seq<char>, changes: Seq<TextChange>) -> bool
    decreases changes.len(),
{
    changes.len() == 0 || (changes_fit(text, changes.drop_last()) && change_fits(
        apply_changes(text, changes.drop_last()),
        changes.last(),
    ))
}

/// `String::replace_range` on the byte range `start..end`: the bytes of the
/// text before `start` and from `end` on stay, and the bytes of `with` stand
/// between them. It panics on a range that is out of bounds or cuts a
/// character, which the precondition leaves out.
#[verifier::external_body]
fn replace_range(text: &mut String, start: usize, end: usize, with: &str)
    requires
        start <= end,
        is_char_boundary(encode_utf8(old(text)@), start as int),
        is_char_boundary(encode_utf8(old(text)@), end as int),
    ensures
        encode_utf8(final(text)@) == splice(
            encode_utf8(old(text)@),
            start as int,
            end as int,
            encode_utf8(with@),
        ),
{
    text.replace_range(start..end, with);
}

/// From a line on that the text does not have, every line starts one byte
/// beyond the end of the text.
pub proof fn lemma_missing_lines_start_beyond(bytes: Seq<u8>, missing: nat, line: nat)
    requires
        missing <= line,
        line_start(bytes, missing) == bytes.len() + 1,
    ensures
        line_start(bytes, line) == bytes.len() + 1,
    decreases line,
{
    if missing < line {
        lemma_missing_lines_start_beyond(bytes, missing, (line - 1) as nat);
        reveal_with_fuel(next_line_break, 2);
    }
}

/// The index of the byte at `pos` in `text`, if it is not beyond the end of
/// the text.
pub fn find_byte_offset(text: &str, pos: LinePosition) -> (offset: Option<usize>)
    ensures
        match offset {
            Some(offset) => offset == byte_offset(encode_utf8(text@), pos) && offset
                <= encode_utf8(text@).len(),
            None => byte_offset(encode_utf8(text@), pos) > encode_utf8(text@).len(),
        },
{
    let bytes = text.as_bytes();
    let count = bytes.len();
    let mut line: u32 = 0;
    let mut start: usize = 0;
    while line < pos.line
        invariant
            bytes@ == encode_utf8(text@),
            count == bytes@.len(),
            line <= pos.line,
            start <= count,
            start == line_start(bytes@, line as nat),
        decreases pos.line - line,
    {
        let mut end: usize = start;
        while end < count && bytes[end] != LINE_BREAK
            invariant
                count == bytes@.len(),
                start <= end <= count,
                next_line_break(bytes@, start as int) == next_line_break(bytes@, end as int),
            decreases count - end,
        {
            end += 1;
        }
        if end == count {
            proof {
                lemma_missing_lines_start_beyond(bytes@, (line + 1) as nat, pos.line as nat);
            }
            return None;
        }
        start = end + 1;
        line += 1;
    }
    if pos.character as usize <= count - start {
        Some(start + pos.character as usize)
    } else {
        None
    }
}

/// The bytes of `text` that `range` covers, if both of its ends lie in the
/// text.
pub fn text_range(text: &str, range: LineRange) -> (bytes: Option<ByteRange>)
    ensures
        match bytes {
            Some(bytes) => {
                &&& bytes.start == byte_offset(encode_utf8(text@), range.start)
                &&& bytes.end == byte_offset(encode_utf8(text@), range.end)
                &&& bytes.start <= encode_utf8(text@).len()
                &&& bytes.end <= encode_utf8(text@).len()
            },
            None => byte_offset(encode_utf8(text@), range.start) > encode_utf8(text@).len()
                || byte_offset(encode_utf8(text@), range.end) > encode_utf8(text@).len(),
        },
{
    let start = match find_byte_offset(text, range.start) {
        Some(start) => start,
        None => return None,
    };
    match find_byte_offset(text, range.end) {
        Some(end) => Some(ByteRange { start, end }),
        None => None,
    }
}

/// Whether `change` can be applied to `text`.
pub fn change_applies(text: &String, change: &TextChange) -> (fits: bool)
    ensures
        fits == change_fits(text@, *change),
{
    match change.range {
        Some(range) => match text_range(text.as_str(), range) {
            Some(bytes) => {
                bytes.start <= bytes.end && text.as_str().is_char_boundary(bytes.start)
                    && text.as_str().is_char_boundary(bytes.end)
            },
            None => {
                proof {
                    encode_utf8_valid_utf8(text@);
                }
                false
            },
        },
        None => true,
    }
}

/// Applies one change.
pub fn apply_document_change(text: &mut String, change: &TextChange)
    requires
        change_fits(old(text)@, *change),
    ensures
        final(text)@ == apply_change(old(text)@, *change),
{
    match change.range {
        Some(range) => {
            proof {
                encode_utf8_valid_utf8(text@);
            }
            // A range that fits has both of its ends in the text.
            if let Some(bytes) = text_range(text.as_str(), range) {
                replace_range(text, bytes.start, bytes.end, change.text.as_str());
                proof {
                    encode_utf8_decode_utf8(text@);
                }
            }
        },
        None => {
            *text = change.text.clone();
        },
    }
}

/// Applies the changes in order, up to the first one that cannot be
/// applied, and returns how many were applied. The text then is what those
/// left; the others are not looked at.
pub fn apply_fitting_changes(old_text: &mut String, content_changes: &Vec<TextChange>) -> (applied:
    usize)
    ensures
        applied <= content_changes.len(),
        changes_fit(old(old_text)@, content_changes@.take(applied as int)),
        final(old_text)@ == apply_changes(old(old_text)@, content_changes@.take(applied as int)),
        applied < content_changes.len() ==> !change_fits(
            final(old_text)@,
            content_changes@[applied as int],
        ),
        applied == content_changes.len() <==> changes_fit(old(old_text)@, content_changes@),
{
    let ghost before = old_text@;
    let mut i: usize = 0;
    while i < content_changes.len()
        invariant
            i <= content_changes.len(),
            before == old(old_text)@,
            changes_fit(before, content_changes@.take(i as int)),
            old_text@ == apply_changes(before, content_changes@.take(i as int)),
        decreases content_changes.len() - i,
    {
        let change = &content_changes[i];
        if !change_applies(old_text, change) {
            proof {
                if changes_fit(before, content_changes@) {
                    lemma_fit_is_prefix_closed(before, content_changes@, i as int);
                }
            }
            return i;
        }
        apply_document_change(old_text, change);
        proof {
            let next = content_changes@.take(i + 1);
            assert(next.drop_last() == content_changes@.take(i as int));
            assert(next.last() == content_changes@[i as int]);
        }
        i += 1;
    }
    assert(content_changes@.take(i as int) == content_changes@);
    i
}

/// Applies the changes in order, each to the text that the ones before it
/// have left.
pub fn apply_document_changes(old_text: &mut String, content_changes: Vec<TextChange>)
    requires
        changes_fit(old(old_text)@, content_changes@),
    ensures
        final(old_text)@ == apply_changes(old(old_text)@, content_changes@),
{
    let applied = apply_fitting_changes(old_text, &content_changes);
    assert(content_changes@.take(applied as int) == content_changes@);
}

/// Changes that fit, fit up to any point: the first `n` of them fit, and
/// the one after them can be applied to what they leave.
pub proof fn lemma_fit_is_prefix_closed(text: Seq<char>, changes: Seq<TextChange>, n: int)
    requires
        0 <= n <= changes.len(),
        changes_fit(text, changes),
    ensures
        changes_fit(text, changes.take(n)),
        n < changes.len() ==> change_fits(apply_changes(text, changes.take(n)), changes[n]),
    decreases changes.len(),
{
    if n == changes.len() {
        assert(changes.take(n) == changes);
    } else {
        let shorter = changes.drop_last();
        assert(shorter.take(n) == changes.take(n));
        if n == changes.len() - 1 {
            assert(changes.take(n) == shorter);
        } else {
            lemma_fit_is_prefix_closed(text, shorter, n);
        }
    }
}

/// A batch is applied as its parts are, one part after the other: the
/// second part meets the text that the first has left, not the text that the
/// batch started from.
pub proof fn lemma_changes_apply_in_sequence(
    text: Seq<char>,
    first: Seq<TextChange>,
    second: Seq<TextChange>,
)
    ensures
        apply_changes(text, first + second) == apply_changes(apply_changes(text, first), second),
        changes_fit(text, first + second) <==> changes_fit(text, first) && changes_fit(
            apply_changes(text, first),
            second,
        ),
    decreases second.len(),
{
    if second.len() == 0 {
        assert(first + second == first);
    } else {
        assert((first + second).drop_last() == first + second.drop_last());
        assert((first + second).last() == second.last());
        lemma_changes_apply_in_sequence(text, first, second.drop_last());
    }
}

/// A change without a range makes the text its own, whatever the text was
/// and whatever changes came before it in the batch.
pub proof fn lemma_whole_text_is_replaced(
    text: Seq<char>,
    before: Seq<TextChange>,
    change: TextChange,
)
    requires
        change.range is None,
    ensures
        apply_changes(text, before.push(change)) == change.text@,
        apply_changes(text, seq![change]) == change.text@,
        changes_fit(text, seq![change]),
{
    assert(before.push(change).last() == change);
    assert(seq![change].last() == change);
    assert(seq![change].drop_last() == Seq::<TextChange>::empty());
    assert(changes_fit(text, Seq::<TextChange>::empty()));
}

/// A change with an empty range at the start of the text and nothing to
/// put there leaves the text as it is.
pub proof fn lemma_empty_change_changes_nothing(text: Seq<char>, change: TextChange)
    requires
        change.range == Some(
            LineRange {
                start: LinePosition { line: 0, character: 0 },
                end: LinePosition { line: 0, character: 0 },
            },
        ),
        change.text@.len() == 0,
    ensures
        change_fits(text, change),
        apply_change(text, change) == text,
{
    broadcast use encode_utf8_valid_utf8;

    let bytes = encode_utf8(text);
    assert(encode_utf8(change.text@) == Seq::<u8>::empty());
    assert(splice(bytes, 0, 0, Seq::<u8>::empty()) == bytes);
    encode_utf8_decode_utf8(text);
}

/// On the first line a place is the number of its bytes from the start of
/// the text.
pub proof fn lemma_first_line_offset(bytes: Seq<u8>, pos: LinePosition)
    requires
        pos.line == 0,
    ensures
        byte_offset(bytes, pos) == pos.character,
{
}

/// In a text of ASCII characters every byte is a character: a range fits
/// as soon as it lies in the text, and a change with ASCII text puts its
/// characters in the place of the characters from the start of the range to
/// its end.
pub proof fn lemma_ascii_change(text: Seq<char>, change: TextChange)
    requires
        is_ascii_chars(text),
        is_ascii_chars(change.text@),
        change.range is Some,
        0 <= byte_offset(encode_utf8(text), change.range->0.start) <= byte_offset(
            encode_utf8(text),
            change.range->0.end,
        ) <= text.len(),
    ensures
        change_fits(text, change),
        apply_change(text, change) == text.subrange(
            0,
            byte_offset(encode_utf8(text), change.range->0.start),
        ) + change.text@ + text.subrange(
            byte_offset(encode_utf8(text), change.range->0.end),
            text.len() as int,
        ),
{
    let bytes = encode_utf8(text);
    let start = byte_offset(bytes, change.range->0.start);
    let end = byte_offset(bytes, change.range->0.end);
    let with = change.text@;
    let after = text.subrange(0, start) + with + text.subrange(end, text.len() as int);
    is_ascii_chars_encode_utf8(text);
    is_ascii_chars_encode_utf8(with);
    encode_utf8_valid_utf8(text);
    is_char_boundary_start_end_of_seq(bytes);
    if start < bytes.len() {
        assert(text[start] as u8 == bytes[start]);
        is_char_boundary_iff_not_is_continuation_byte(bytes, start);
    }
    if end < bytes.len() {
        assert(text[end] as u8 == bytes[end]);
        is_char_boundary_iff_not_is_continuation_byte(bytes, end);
    }
    assert(is_ascii_chars(after));
    is_ascii_chars_encode_utf8(after);
    assert(encode_utf8(after) =~= splice(bytes, start, end, encode_utf8(with))) by {
        let spliced = splice(bytes, start, end, encode_utf8(with));
        assert(spliced.len() == after.len());
        assert forall|i: int| 0 <= i < after.len() implies encode_utf8(after)[i] == spliced[i] by {
            assert(after[i] as u8 == encode_utf8(after)[i]);
            if i < start {
                assert(after[i] == text[i]);
            } else if i < start + with.len() {
                assert(after[i] == with[i - start]);
            } else {
                assert(after[i] == text[i - start - with.len() + end]);
            }
        }
    }
    encode_utf8_decode_utf8(after);
}

} // verus!
