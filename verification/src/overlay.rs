//! What the editor's overlay, a `Vfs`, says of a file: its name, and its
//! text where the file is open.

use ra_ap_vfs::{AbsPathBuf, FileId, Vfs, VfsPath};
use vstd::prelude::*;
use vstd::string::StringExecFns;
use vstd::utf8::{decode_utf8, valid_utf8};

verus! {

/// The store of the files that the editor has open.
#[verifier::external_type_specification]
#[verifier::external_body]
pub struct ExVfs(Vfs);

/// The number under which a `Vfs` keeps a file.
#[verifier::external_type_specification]
pub struct ExFileId(FileId);

/// An absolute path of the file system.
#[verifier::external_type_specification]
#[verifier::external_body]
pub struct ExAbsPathBuf(AbsPathBuf);

/// A path of a `Vfs`, as far as it can be written down.
#[derive(Clone, Debug, PartialEq, Eq)]
pub enum PathText {
    /// A path of the file system, with its text where that is Unicode.
    OnDisk(Option<String>),
    /// A path that is not of the file system, as it is shown.
    Virtual(String),
}

/// What a [`PathText`] says, with every string taken by its characters.
pub enum PathTextView {
    OnDisk(Option<Seq<char>>),
    Virtual(Seq<char>),
}

impl View for PathText {
    type V = PathTextView;

    open spec fn view(&self) -> PathTextView {
        match self {
            PathText::OnDisk(Some(text)) => PathTextView::OnDisk(Some(text@)),
            PathText::OnDisk(None) => PathTextView::OnDisk(None),
            PathText::Virtual(shown) => PathTextView::Virtual(shown@),
        }
    }
}

/// One file of a `Vfs`: its path, and its bytes unless it was deleted.
pub struct StoredFile {
    pub path: PathTextView,
    pub contents: Option<Seq<u8>>,
}

/// The files of a `Vfs`, each at the index that is its `FileId`. A `Vfs`
/// numbers its files from zero in the order in which it first hears of
/// them, and forgets none: a deleted file keeps its number and its path.
pub uninterp spec fn vfs_files(vfs: Vfs) -> Seq<StoredFile>;

/// The id under which a `Vfs` has the file at `path` open, or none where the
/// file is not open: what `Vfs::file_id` answers for the path. A `Vfs` tells
/// paths apart as the file system does, part by part and not letter by
/// letter, and a path need not be Unicode; so the answer is named here and
/// not spelled out.
pub uninterp spec fn vfs_open_id(vfs: Vfs, path: AbsPathBuf) -> Option<FileId>;

/// The bytes that a `Vfs` has for the file at `path`, or none where the file
/// is not open.
pub open spec fn open_contents(vfs: Vfs, path: AbsPathBuf) -> Option<Seq<u8>> {
    match vfs_open_id(vfs, path) {
        Some(id) => vfs_files(vfs)[id.0 as int].contents,
        None => None,
    }
}

/// Why a file has no name to give.
#[derive(Clone, Debug, PartialEq, Eq)]
pub enum FileNameError {
    /// The path is of the file system, and is no Unicode.
    NotUnicode,
    /// The path, shown here, is not of the file system.
    NotOnFileSystem(String),
}

/// What a [`FileNameError`] says.
pub enum FileNameErrorView {
    NotUnicode,
    NotOnFileSystem(Seq<char>),
}

impl View for FileNameError {
    type V = FileNameErrorView;

    open spec fn view(&self) -> FileNameErrorView {
        match self {
            FileNameError::NotUnicode => FileNameErrorView::NotUnicode,
            FileNameError::NotOnFileSystem(shown) => FileNameErrorView::NotOnFileSystem(shown@),
        }
    }
}

impl FileNameError {
    /// The text of the error.
    pub open spec fn message_text(&self) -> Seq<char> {
        match self {
            FileNameError::NotUnicode => "Failed to get file file"@,
            FileNameError::NotOnFileSystem(shown) => shown@ + " isn't on the file system."@,
        }
    }

    /// The text of the error, for a reader.
    pub fn message(&self) -> (text: String)
        ensures
            text@ == self.message_text(),
    {
        match self {
            FileNameError::NotUnicode => String::from_str("Failed to get file file"),
            FileNameError::NotOnFileSystem(shown) => shown.clone().concat(
                " isn't on the file system.",
            ),
        }
    }
}

/// The name that a path gives: its text, if it is of the file system and
/// Unicode.
pub open spec fn name_of_path(path: PathTextView) -> Result<Seq<char>, FileNameErrorView> {
    match path {
        PathTextView::OnDisk(Some(text)) => Ok(text),
        PathTextView::OnDisk(None) => Err(FileNameErrorView::NotUnicode),
        PathTextView::Virtual(shown) => Err(FileNameErrorView::NotOnFileSystem(shown)),
    }
}

/// What a name or the error in its place says.
pub open spec fn name_view(name: Result<String, FileNameError>) -> Result<
    Seq<char>,
    FileNameErrorView,
> {
    match name {
        Ok(text) => Ok(text@),
        Err(error) => Err(error@),
    }
}

/// `Vfs::len`: the number of files that the `Vfs` keeps, the deleted ones
/// too. Every `FileId` that it has handed out is below this number.
#[verifier::external_body]
fn vfs_len(vfs: &Vfs) -> (count: usize)
    ensures
        count == vfs_files(*vfs).len(),
{
    vfs.len()
}

/// `Vfs::file_path`, and `VfsPath::as_path` on what it returns: the path
/// kept under `file_id`. With `Path::to_str` and `Display` the path becomes
/// text. `Vfs::file_path` panics on an id that the `Vfs` has not handed out,
/// which the precondition leaves out.
#[verifier::external_body]
fn vfs_file_path(vfs: &Vfs, file_id: FileId) -> (path: PathText)
    requires
        file_id.0 < vfs_files(*vfs).len(),
    ensures
        path@ == vfs_files(*vfs)[file_id.0 as int].path,
{
    let path = vfs.file_path(file_id);
    match path.as_path() {
        Some(on_disk) => match on_disk.as_ref().to_str() {
            Some(text) => PathText::OnDisk(Some(text.to_string())),
            None => PathText::OnDisk(None),
        },
        None => PathText::Virtual(path.to_string()),
    }
}

/// `Vfs::file_id` on the `VfsPath` made from `path`: the id of the file at
/// that path, if the `Vfs` keeps the file and it is not deleted, and else
/// none. The answer depends on the `Vfs` and the path alone.
#[verifier::external_body]
fn vfs_file_id(vfs: &Vfs, path: &AbsPathBuf) -> (file_id: Option<FileId>)
    ensures
        file_id == vfs_open_id(*vfs, *path),
        file_id matches Some(id) ==> id.0 < vfs_files(*vfs).len() && vfs_files(
            *vfs,
        )[id.0 as int].contents is Some,
{
    vfs.file_id(&VfsPath::from(path.clone()))
}

/// `Vfs::file_contents`: the bytes kept under `file_id`. It panics on an id
/// that the `Vfs` has not handed out and on a deleted file, which the
/// precondition leaves out.
#[verifier::external_body]
fn vfs_file_contents(vfs: &Vfs, file_id: FileId) -> (contents: Vec<u8>)
    requires
        file_id.0 < vfs_files(*vfs).len(),
        vfs_files(*vfs)[file_id.0 as int].contents is Some,
    ensures
        contents@ == vfs_files(*vfs)[file_id.0 as int].contents->0,
{
    vfs.file_contents(file_id).to_vec()
}

/// `String::from_utf8`: the text that the bytes encode, if they are UTF-8.
#[verifier::external_body]
fn string_from_utf8(bytes: Vec<u8>) -> (text: Option<String>)
    ensures
        text is Some <==> valid_utf8(bytes@),
        text is Some ==> text->0@ == decode_utf8(bytes@),
{
    String::from_utf8(bytes).ok()
}

/// The name that a path gives, or why it gives none.
pub fn file_name_of(path: PathText) -> (name: Result<String, FileNameError>)
    ensures
        name_view(name) == name_of_path(path@),
{
    match path {
        PathText::OnDisk(Some(text)) => Ok(text),
        PathText::OnDisk(None) => Err(FileNameError::NotUnicode),
        PathText::Virtual(shown) => Err(FileNameError::NotOnFileSystem(shown)),
    }
}

/// The name of the file that `vfs` keeps under `file_id`: the text of its
/// path, if the path is of the file system and Unicode.
pub fn get_file_name(vfs: &Vfs, file_id: FileId) -> (name: Result<String, FileNameError>)
    requires
        file_id.0 < vfs_files(*vfs).len(),
    ensures
        name_view(name) == name_of_path(vfs_files(*vfs)[file_id.0 as int].path),
{
    file_name_of(vfs_file_path(vfs, file_id))
}

/// As [`get_file_name`], for any id: nothing where `vfs` keeps no file under
/// `file_id`.
pub fn find_file_name(vfs: &Vfs, file_id: FileId) -> (name: Option<Result<String, FileNameError>>)
    ensures
        name is Some <==> file_id.0 < vfs_files(*vfs).len(),
        name is Some ==> name_view(name->0) == name_of_path(
            vfs_files(*vfs)[file_id.0 as int].path,
        ),
{
    if (file_id.0 as usize) < vfs_len(vfs) {
        Some(get_file_name(vfs, file_id))
    } else {
        None
    }
}

/// What the overlay has of a file.
#[derive(Clone, Debug, PartialEq, Eq)]
pub enum Overlay {
    /// The file is not open.
    Missing,
    /// The file is open, with this text.
    Text(String),
    /// The file is open, and its bytes are no UTF-8.
    Binary,
}

/// What the bytes of an open file are as text.
pub open spec fn text_of_bytes(bytes: Seq<u8>) -> Option<Seq<char>> {
    if valid_utf8(bytes) {
        Some(decode_utf8(bytes))
    } else {
        None
    }
}

/// What the overlay has of a file, told from the bytes that it keeps for
/// the file, if it keeps any.
pub open spec fn overlay_view(contents: Option<Seq<u8>>) -> Option<Option<Seq<char>>> {
    match contents {
        Some(bytes) => Some(text_of_bytes(bytes)),
        None => None,
    }
}

impl Overlay {
    /// What this says: nothing for a file that is not open, else the text of
    /// the file where it has one.
    pub open spec fn text(&self) -> Option<Option<Seq<char>>> {
        match self {
            Overlay::Missing => None,
            Overlay::Text(text) => Some(Some(text@)),
            Overlay::Binary => Some(None),
        }
    }
}

/// The bytes that are there, if any.
pub open spec fn bytes_of(contents: Option<Vec<u8>>) -> Option<Seq<u8>> {
    match contents {
        Some(bytes) => Some(bytes@),
        None => None,
    }
}

/// What the overlay has of a file of which it keeps `contents`.
pub fn overlay_of(contents: Option<Vec<u8>>) -> (overlay: Overlay)
    ensures
        overlay.text() == overlay_view(bytes_of(contents)),
{
    match contents {
        Some(bytes) => match string_from_utf8(bytes) {
            Some(text) => Overlay::Text(text),
            None => Overlay::Binary,
        },
        None => Overlay::Missing,
    }
}

/// The bytes that `vfs` keeps for the file at `path`, if it keeps the file
/// and the file is not deleted.
fn open_file_contents(vfs: &Vfs, path: &AbsPathBuf) -> (contents: Option<Vec<u8>>)
    ensures
        bytes_of(contents) == open_contents(*vfs, *path),
        contents is Some <==> vfs_open_id(*vfs, *path) is Some,
        vfs_open_id(*vfs, *path) matches Some(id) ==> id.0 < vfs_files(*vfs).len(),
{
    match vfs_file_id(vfs, path) {
        Some(file_id) => Some(vfs_file_contents(vfs, file_id)),
        None => None,
    }
}

/// The text that the overlay has for the file at `path`: what
/// [`overlay_of`] makes of the bytes that `vfs` has for the file. It is
/// missing exactly where `vfs` does not have the file open; an open file
/// is one that `vfs` keeps and that is not deleted.
pub fn overlay_code(vfs: &Vfs, path: &AbsPathBuf) -> (overlay: Overlay)
    ensures
        overlay.text() == overlay_view(open_contents(*vfs, *path)),
        overlay is Missing <==> vfs_open_id(*vfs, *path) is None,
        vfs_open_id(*vfs, *path) matches Some(id) ==> id.0 < vfs_files(*vfs).len() && vfs_files(
            *vfs,
        )[id.0 as int].contents is Some,
{
    overlay_of(open_file_contents(vfs, path))
}

} // verus!
