use kcl_lsp_core::load::{file_code, load_files_code_from_vfs, FileSource, LoadError};
use kcl_lsp_core::overlay::Overlay;

fn no_path(file: &str) -> FileSource {
    FileSource { file: file.to_string(), has_path: false, open: Overlay::Missing, stored: None }
}

fn open(file: &str, text: &str) -> FileSource {
    FileSource {
        file: file.to_string(),
        has_path: true,
        open: Overlay::Text(text.to_string()),
        stored: None,
    }
}

fn stored(file: &str, text: &str) -> FileSource {
    FileSource {
        file: file.to_string(),
        has_path: true,
        open: Overlay::Missing,
        stored: Some(text.to_string()),
    }
}

fn unreadable(file: &str) -> FileSource {
    FileSource { file: file.to_string(), has_path: true, open: Overlay::Missing, stored: None }
}

#[test]
fn texts_match_the_files_one_for_one() {
    let sources = vec![stored("/a.k", "a = 1"), open("/b.k", "b = 2"), stored("/c.k", "c = 3")];
    assert_eq!(
        load_files_code_from_vfs(&sources),
        Ok(vec!["a = 1".to_string(), "b = 2".to_string(), "c = 3".to_string()])
    );
}

#[test]
fn no_files_give_no_texts() {
    assert_eq!(load_files_code_from_vfs(&vec![]), Ok(vec![]));
}

#[test]
fn file_that_is_no_path_fails_with_a_path_conversion_error() {
    let sources = vec![stored("/a.k", "a = 1"), no_path("relative.k")];
    assert_eq!(
        load_files_code_from_vfs(&sources),
        Err(LoadError::PathConversion("relative.k".to_string()))
    );
}

#[test]
fn file_on_neither_overlay_nor_storage_fails_with_an_overlay_read_error() {
    let sources = vec![open("/a.k", "a = 1"), unreadable("/gone.k")];
    assert_eq!(
        load_files_code_from_vfs(&sources),
        Err(LoadError::OverlayRead("/gone.k".to_string()))
    );
}

#[test]
fn first_failure_is_reported() {
    let sources = vec![open("/a.k", "a = 1"), unreadable("/gone.k"), no_path("relative.k")];
    assert_eq!(
        load_files_code_from_vfs(&sources),
        Err(LoadError::OverlayRead("/gone.k".to_string()))
    );
}

#[test]
fn one_file_is_answered_by_its_source() {
    assert_eq!(file_code(&open("/a.k", "x")), Ok("x".to_string()));
    assert_eq!(file_code(&stored("/a.k", "y")), Ok("y".to_string()));
    assert_eq!(file_code(&no_path("/a.k")), Err(LoadError::PathConversion("/a.k".to_string())));
    assert_eq!(file_code(&unreadable("/a.k")), Err(LoadError::OverlayRead("/a.k".to_string())));
}

#[test]
fn open_file_is_answered_with_what_the_editor_has() {
    let both = FileSource {
        file: "/a.k".to_string(),
        has_path: true,
        open: Overlay::Text("edited".to_string()),
        stored: Some("saved".to_string()),
    };
    assert_eq!(file_code(&both), Ok("edited".to_string()));
}

#[test]
fn file_without_path_fails_whatever_else_is_known() {
    let odd = FileSource {
        file: "relative.k".to_string(),
        has_path: false,
        open: Overlay::Text("edited".to_string()),
        stored: Some("saved".to_string()),
    };
    assert_eq!(file_code(&odd), Err(LoadError::PathConversion("relative.k".to_string())));
}

#[test]
fn open_file_that_is_no_text_fails_with_an_overlay_read_error() {
    let binary = FileSource {
        file: "/blob.k".to_string(),
        has_path: true,
        open: Overlay::Binary,
        stored: None,
    };
    assert_eq!(file_code(&binary), Err(LoadError::OverlayRead("/blob.k".to_string())));
    // What the storage has does not stand in for what the editor has open.
    let saved = FileSource {
        file: "/blob.k".to_string(),
        has_path: true,
        open: Overlay::Binary,
        stored: Some("saved".to_string()),
    };
    assert_eq!(file_code(&saved), Err(LoadError::OverlayRead("/blob.k".to_string())));
    assert_eq!(
        load_files_code_from_vfs(&vec![stored("/a.k", "a = 1"), saved, open("/c.k", "c = 3")]),
        Err(LoadError::OverlayRead("/blob.k".to_string()))
    );
}

#[test]
fn error_text_names_the_file() {
    assert_eq!(
        LoadError::PathConversion("relative.k".to_string()).message(),
        "can't convert file to url: relative.k"
    );
    assert_eq!(
        LoadError::OverlayRead("/gone.k".to_string()).message(),
        "can't convert file to url: /gone.k"
    );
}
