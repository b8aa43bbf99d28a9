use kcl_lsp_core::text::{
    apply_document_change, apply_document_changes, apply_fitting_changes, change_applies,
    find_byte_offset, text_range, ByteRange, LinePosition, LineRange, TextChange,
};

fn place(line: u32, character: u32) -> LinePosition {
    LinePosition { line, character }
}

fn range(start: (u32, u32), end: (u32, u32)) -> LineRange {
    LineRange { start: place(start.0, start.1), end: place(end.0, end.1) }
}

fn whole(text: &str) -> TextChange {
    TextChange { range: None, text: text.to_string() }
}

/// A change on the first line.
fn replace(start: u32, end: u32, text: &str) -> TextChange {
    TextChange { range: Some(range((0, start), (0, end))), text: text.to_string() }
}

fn replace_lines(start: (u32, u32), end: (u32, u32), text: &str) -> TextChange {
    TextChange { range: Some(range(start, end)), text: text.to_string() }
}

#[test]
fn change_without_range_replaces_any_text() {
    for prior in ["", "b = 2", "schema Person:\n    name: str\n", "héllo"] {
        let mut text = prior.to_string();
        apply_document_changes(&mut text, vec![whole("a = 1")]);
        assert_eq!(text, "a = 1");
    }
}

#[test]
fn second_range_is_taken_against_the_text_after_the_first() {
    let mut text = "abcdef".to_string();
    apply_document_changes(&mut text, vec![replace(1, 2, "X"), replace(4, 5, "Y")]);
    assert_eq!(text, "aXcdYf");

    let mut buffer = "abcdef".to_string();
    buffer.replace_range(1..2, "X");
    buffer.replace_range(4..5, "Y");
    assert_eq!(text, buffer);
}

#[test]
fn ranges_follow_a_change_of_length() {
    let mut text = "abcdef".to_string();
    apply_document_changes(&mut text, vec![replace(1, 2, "XYZ"), replace(4, 5, "-")]);
    assert_eq!(text, "aXYZ-def");
    let mut shrunk = "abcdef".to_string();
    apply_document_changes(&mut shrunk, vec![replace(0, 3, ""), replace(1, 2, "!")]);
    assert_eq!(shrunk, "d!f");
}

#[test]
fn lines_follow_a_change_of_the_number_of_lines() {
    let mut text = "a = 1\nb = 2\n".to_string();
    apply_document_changes(
        &mut text,
        vec![replace_lines((0, 5), (0, 5), "\nnew = 0"), replace_lines((2, 4), (2, 5), "3")],
    );
    assert_eq!(text, "a = 1\nnew = 0\nb = 3\n");
    apply_document_changes(
        &mut text,
        vec![replace_lines((0, 0), (1, 0), ""), replace_lines((1, 0), (1, 1), "c")],
    );
    assert_eq!(text, "new = 0\nc = 3\n");
}

#[test]
fn empty_range_inserts() {
    let mut text = "abcdef".to_string();
    apply_document_changes(&mut text, vec![replace(3, 3, "--")]);
    assert_eq!(text, "abc--def");
    apply_document_changes(&mut text, vec![replace(8, 8, "!")]);
    assert_eq!(text, "abc--def!");
    apply_document_changes(&mut text, vec![replace(0, 0, ">")]);
    assert_eq!(text, ">abc--def!");
}

#[test]
fn empty_replacement_deletes() {
    let mut text = "abcdef".to_string();
    apply_document_changes(&mut text, vec![replace(2, 4, "")]);
    assert_eq!(text, "abef");
}

#[test]
fn empty_range_with_empty_replacement_changes_nothing_and_keeps_later_offsets() {
    let mut text = "abcdef".to_string();
    apply_document_changes(&mut text, vec![replace(2, 2, ""), replace(2, 3, "C")]);
    assert_eq!(text, "abCdef");
}

#[test]
fn no_changes_leave_the_text() {
    let mut text = "abcdef".to_string();
    apply_document_changes(&mut text, vec![]);
    assert_eq!(text, "abcdef");
}

#[test]
fn whole_text_change_makes_earlier_changes_void() {
    let mut text = "abcdef".to_string();
    apply_document_changes(&mut text, vec![replace(0, 6, "zzz"), whole("k = 1"), replace(0, 1, "j")]);
    assert_eq!(text, "j = 1");
}

#[test]
fn one_change_is_applied() {
    let mut text = "name = 1".to_string();
    apply_document_change(&mut text, &replace(7, 8, "\"x\""));
    assert_eq!(text, "name = \"x\"");
}

#[test]
fn range_over_several_lines_is_replaced() {
    let mut text = "schema Person:\n    name: str\n    age: int\n".to_string();
    apply_document_change(&mut text, &replace_lines((1, 4), (2, 7), "id"));
    assert_eq!(text, "schema Person:\n    id: int\n");
}

#[test]
fn line_starts_behind_the_line_break_before_it() {
    let text = "ab\n\ncd\n";
    assert_eq!(find_byte_offset(text, place(0, 0)), Some(0));
    assert_eq!(find_byte_offset(text, place(0, 2)), Some(2));
    assert_eq!(find_byte_offset(text, place(1, 0)), Some(3));
    assert_eq!(find_byte_offset(text, place(2, 0)), Some(4));
    assert_eq!(find_byte_offset(text, place(2, 2)), Some(6));
    // The line behind the last line break is there, and empty.
    assert_eq!(find_byte_offset(text, place(3, 0)), Some(7));
    assert_eq!(find_byte_offset(text, place(3, 1)), None);
    assert_eq!(find_byte_offset(text, place(4, 0)), None);
    assert_eq!(find_byte_offset(text, place(900, 0)), None);
}

#[test]
fn last_line_without_line_break_ends_the_text() {
    let text = "ab\ncd";
    assert_eq!(find_byte_offset(text, place(1, 2)), Some(5));
    assert_eq!(find_byte_offset(text, place(1, 3)), None);
    assert_eq!(find_byte_offset(text, place(2, 0)), None);
    assert_eq!(find_byte_offset("", place(0, 0)), Some(0));
    assert_eq!(find_byte_offset("", place(0, 1)), None);
    assert_eq!(find_byte_offset("", place(1, 0)), None);
}

#[test]
fn bytes_of_a_place_run_on_into_the_next_line() {
    // The bytes are counted from the start of the line, whatever they are.
    let text = "ab\ncd";
    assert_eq!(find_byte_offset(text, place(0, 3)), Some(3));
    assert_eq!(find_byte_offset(text, place(0, 5)), Some(5));
    assert_eq!(find_byte_offset(text, place(0, 6)), None);
}

#[test]
fn range_of_lines_is_a_range_of_bytes() {
    let text = "a = 1\nb = 2\n";
    assert_eq!(text_range(text, range((1, 4), (1, 5))), Some(ByteRange { start: 10, end: 11 }));
    assert_eq!(text_range(text, range((0, 0), (2, 0))), Some(ByteRange { start: 0, end: 12 }));
    assert_eq!(text_range(text, range((1, 0), (3, 0))), None);
    assert_eq!(text_range(text, range((5, 0), (0, 0))), None);
    // A range that runs backwards is a range of bytes all the same.
    assert_eq!(text_range(text, range((1, 0), (0, 0))), Some(ByteRange { start: 6, end: 0 }));
}

#[test]
fn range_must_lie_in_the_text() {
    let text = "abc".to_string();
    assert!(change_applies(&text, &replace(0, 3, "")));
    assert!(change_applies(&text, &replace(3, 3, "x")));
    assert!(!change_applies(&text, &replace(0, 4, "")));
    assert!(!change_applies(&text, &replace(4, 4, "")));
    assert!(!change_applies(&text, &replace(2, 1, "")));
    assert!(!change_applies(&text, &replace_lines((0, 0), (1, 0), "")));
    assert!(!change_applies(&text, &replace_lines((1, 0), (1, 0), "")));
    assert!(change_applies(&text, &whole("anything")));
}

#[test]
fn range_must_not_cut_a_character() {
    // 'é' takes the bytes 1 and 2.
    let text = "hé!".to_string();
    assert!(change_applies(&text, &replace(1, 3, "e")));
    assert!(!change_applies(&text, &replace(1, 2, "e")));
    assert!(!change_applies(&text, &replace(2, 3, "e")));
    let mut changed = text.clone();
    apply_document_changes(&mut changed, vec![replace(1, 3, "e")]);
    assert_eq!(changed, "he!");
}

#[test]
fn text_with_wide_characters_is_spliced_by_bytes() {
    let mut text = "名 = 1".to_string();
    apply_document_changes(&mut text, vec![replace(0, 3, "name"), replace(7, 8, "二")]);
    assert_eq!(text, "name = 二");
}

#[test]
fn fitting_changes_stop_at_the_first_that_does_not_fit() {
    let mut text = "abcdef".to_string();
    let changes = vec![replace(0, 1, "A"), replace(9, 10, "?"), whole("never")];
    let applied = apply_fitting_changes(&mut text, &changes);
    assert_eq!(applied, 1);
    assert_eq!(text, "Abcdef");
}

#[test]
fn fitting_changes_apply_all_that_fit() {
    let mut text = "abcdef".to_string();
    let changes = vec![replace(1, 2, "X"), replace(4, 5, "Y")];
    let applied = apply_fitting_changes(&mut text, &changes);
    assert_eq!(applied, 2);
    assert_eq!(text, "aXcdYf");
}
