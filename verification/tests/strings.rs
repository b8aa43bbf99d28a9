use kcl_lsp_core::strings::split_dotted;

fn parts(path: &str) -> Vec<String> {
    split_dotted(path)
}

#[test]
fn dotted_path_is_split_at_each_dot() {
    assert_eq!(parts("examples.apps"), vec!["examples", "apps"]);
    assert_eq!(parts("a.b.c"), vec!["a", "b", "c"]);
}

#[test]
fn path_without_dot_is_one_part() {
    assert_eq!(parts("apps"), vec!["apps"]);
}

#[test]
fn empty_path_is_one_empty_part() {
    assert_eq!(parts(""), vec![""]);
}

#[test]
fn dots_at_the_ends_and_in_a_row_leave_empty_parts() {
    assert_eq!(parts(".examples.apps"), vec!["", "examples", "apps"]);
    assert_eq!(parts("a."), vec!["a", ""]);
    assert_eq!(parts("a..b"), vec!["a", "", "b"]);
    assert_eq!(parts("."), vec!["", ""]);
}

#[test]
fn split_agrees_with_the_split_of_the_standard_library() {
    for path in ["", ".", "a", "a.b", ".a.b.", "päckage.süb", "x..y...z"] {
        let expected: Vec<String> = path.split('.').map(|s| s.to_string()).collect();
        assert_eq!(parts(path), expected);
    }
}

#[test]
fn parts_joined_with_dots_are_the_path() {
    for path in ["", ".", "a", "a.b", ".a.b.", "x..y...z"] {
        assert_eq!(parts(path).join("."), path);
    }
}
