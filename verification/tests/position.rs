use kcl_lsp_core::position::{Position, Span};

fn span(sl: u32, sc: u32, el: u32, ec: u32) -> Span {
    Span { file: "main.k".to_string(), start_line: sl, start_column: sc, end_line: el, end_column: ec }
}

fn at(line: u32, column: u32) -> Position {
    Position { file: "main.k".to_string(), line, column: Some(column) }
}

fn line(line: u32) -> Position {
    Position { file: "main.k".to_string(), line, column: None }
}

#[test]
fn span_holds_both_of_its_ends() {
    let s = span(2, 4, 5, 7);
    assert!(s.contains_pos(&at(2, 4)));
    assert!(s.contains_pos(&at(5, 7)));
}

#[test]
fn span_ends_at_its_bounds() {
    let s = span(2, 4, 5, 7);
    assert!(!s.contains_pos(&at(2, 3)));
    assert!(!s.contains_pos(&at(5, 8)));
    assert!(!s.contains_pos(&at(1, 9)));
    assert!(!s.contains_pos(&at(6, 0)));
}

#[test]
fn lines_between_the_bounds_are_held_at_any_column() {
    let s = span(2, 4, 5, 7);
    assert!(s.contains_pos(&at(3, 0)));
    assert!(s.contains_pos(&at(4, 900)));
    assert!(s.contains_pos(&at(2, 900)));
    assert!(s.contains_pos(&at(5, 0)));
}

#[test]
fn span_of_one_line_compares_columns_on_both_sides() {
    let s = span(3, 4, 3, 9);
    assert!(s.contains_pos(&at(3, 4)));
    assert!(s.contains_pos(&at(3, 6)));
    assert!(s.contains_pos(&at(3, 9)));
    assert!(!s.contains_pos(&at(3, 3)));
    assert!(!s.contains_pos(&at(3, 10)));
}

#[test]
fn position_without_column_is_held_by_its_line_alone() {
    let s = span(2, 4, 5, 7);
    assert!(s.contains_pos(&line(2)));
    assert!(s.contains_pos(&line(3)));
    assert!(s.contains_pos(&line(5)));
    assert!(!s.contains_pos(&line(1)));
    assert!(!s.contains_pos(&line(6)));
}

#[test]
fn position_of_another_file_is_outside() {
    let s = span(2, 4, 5, 7);
    let other = Position { file: "other.k".to_string(), line: 3, column: Some(1) };
    assert!(!s.contains_pos(&other));
    let other_line = Position { file: "other.k".to_string(), line: 3, column: None };
    assert!(!s.contains_pos(&other_line));
}

#[test]
fn span_whose_end_comes_before_its_start_holds_nothing_on_its_lines() {
    let s = span(3, 9, 3, 4);
    assert!(!s.contains_pos(&at(3, 9)));
    assert!(!s.contains_pos(&at(3, 4)));
    assert!(!s.contains_pos(&at(3, 6)));
}

#[test]
fn first_line_has_no_column() {
    let pos = Position::first_line("pkg/a.k".to_string());
    assert_eq!(pos, Position { file: "pkg/a.k".to_string(), line: 1, column: None });
}

#[test]
fn duplicates_are_equal_to_what_they_were_made_from() {
    let s = span(2, 4, 5, 7);
    assert_eq!(s.duplicate(), s);
    let p = at(7, 1);
    assert_eq!(p.duplicate(), p);
}
