use kcl_lsp_core::overlay::{
    file_name_of, find_file_name, get_file_name, overlay_code, overlay_of, FileNameError,
    Overlay, PathText,
};
use ra_ap_vfs::{AbsPathBuf, FileId, Vfs, VfsPath};
use std::path::PathBuf;

fn vfs_with(files: &[(&str, &str)]) -> Vfs {
    let mut vfs = Vfs::default();
    for (path, text) in files {
        vfs.set_file_contents(VfsPath::new_real_path(path.to_string()), Some(text.as_bytes().to_vec()));
    }
    vfs
}

fn abs(path: &str) -> AbsPathBuf {
    AbsPathBuf::assert(PathBuf::from(path))
}

#[test]
fn file_on_disk_has_its_path_as_name() {
    let vfs = vfs_with(&[("/pkg/main.k", "a = 1"), ("/pkg/other.k", "b = 2")]);
    assert_eq!(get_file_name(&vfs, FileId(0)), Ok("/pkg/main.k".to_string()));
    assert_eq!(get_file_name(&vfs, FileId(1)), Ok("/pkg/other.k".to_string()));
}

#[test]
fn deleted_file_still_has_its_name() {
    let mut vfs = vfs_with(&[("/pkg/main.k", "a = 1")]);
    vfs.set_file_contents(VfsPath::new_real_path("/pkg/main.k".to_string()), None);
    assert_eq!(get_file_name(&vfs, FileId(0)), Ok("/pkg/main.k".to_string()));
}

#[test]
fn virtual_file_has_no_name() {
    let mut vfs = Vfs::default();
    vfs.set_file_contents(VfsPath::new_virtual_path("/virtual/main.k".to_string()), Some(vec![]));
    assert_eq!(
        get_file_name(&vfs, FileId(0)),
        Err(FileNameError::NotOnFileSystem("/virtual/main.k".to_string()))
    );
}

#[test]
fn unknown_id_is_found_to_be_unknown() {
    let vfs = vfs_with(&[("/pkg/main.k", "a = 1")]);
    assert_eq!(find_file_name(&vfs, FileId(0)), Some(Ok("/pkg/main.k".to_string())));
    assert_eq!(find_file_name(&vfs, FileId(1)), None);
    assert_eq!(find_file_name(&Vfs::default(), FileId(0)), None);
}

#[test]
fn name_follows_the_kind_of_path() {
    assert_eq!(file_name_of(PathText::OnDisk(Some("/a.k".to_string()))), Ok("/a.k".to_string()));
    assert_eq!(file_name_of(PathText::OnDisk(None)), Err(FileNameError::NotUnicode));
    assert_eq!(
        file_name_of(PathText::Virtual("/v.k".to_string())),
        Err(FileNameError::NotOnFileSystem("/v.k".to_string()))
    );
}

#[test]
fn error_texts_are_kept() {
    assert_eq!(FileNameError::NotUnicode.message(), "Failed to get file file");
    assert_eq!(
        FileNameError::NotOnFileSystem("/v.k".to_string()).message(),
        "/v.k isn't on the file system."
    );
}

#[test]
fn open_file_is_answered_with_its_text() {
    let vfs = vfs_with(&[("/pkg/main.k", "a = 1"), ("/pkg/other.k", "b = 2")]);
    assert_eq!(overlay_code(&vfs, &abs("/pkg/other.k")), Overlay::Text("b = 2".to_string()));
    assert_eq!(overlay_code(&vfs, &abs("/pkg/main.k")), Overlay::Text("a = 1".to_string()));
}

#[test]
fn file_that_is_not_open_is_missing() {
    let vfs = vfs_with(&[("/pkg/main.k", "a = 1")]);
    assert_eq!(overlay_code(&vfs, &abs("/pkg/none.k")), Overlay::Missing);
}

#[test]
fn deleted_file_is_missing() {
    let mut vfs = vfs_with(&[("/pkg/main.k", "a = 1")]);
    vfs.set_file_contents(VfsPath::new_real_path("/pkg/main.k".to_string()), None);
    assert_eq!(overlay_code(&vfs, &abs("/pkg/main.k")), Overlay::Missing);
}

#[test]
fn bytes_that_are_no_utf8_are_binary() {
    let mut vfs = Vfs::default();
    vfs.set_file_contents(VfsPath::new_real_path("/pkg/blob.k".to_string()), Some(vec![0x61, 0xff, 0x62]));
    assert_eq!(overlay_code(&vfs, &abs("/pkg/blob.k")), Overlay::Binary);
    assert_eq!(overlay_of(Some(vec![0xc3])), Overlay::Binary);
    // A surrogate, and an encoding that is longer than it need be.
    assert_eq!(overlay_of(Some(vec![0xed, 0xa0, 0x80])), Overlay::Binary);
    assert_eq!(overlay_of(Some(vec![0xc0, 0x80])), Overlay::Binary);
}

#[test]
fn bytes_are_decoded() {
    assert_eq!(overlay_of(Some(vec![])), Overlay::Text(String::new()));
    assert_eq!(overlay_of(Some("名 = 1".as_bytes().to_vec())), Overlay::Text("名 = 1".to_string()));
    assert_eq!(overlay_of(None), Overlay::Missing);
}
