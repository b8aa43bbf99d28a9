//! The source text of the files of a compile unit: for each file, in the
//! order of the files, the text that the overlay or the storage has.

use vstd::prelude::*;
use vstd::string::StringExecFns;
use crate::overlay::Overlay;

verus! {

/// What was learned of one file.
#[derive(Clone, Debug, PartialEq, Eq)]
pub struct FileSource {
    /// The name of the file.
    pub file: String,
    /// Whether the file name could be made a path that can be looked up.
    pub has_path: bool,
    /// What the editor has of the file.
    pub open: Overlay,
    /// The text that the storage has, if it was read and could be.
    pub stored: Option<String>,
}

/// Why the text of a file could not be had. Both hold the file name.
#[derive(Clone, Debug, PartialEq, Eq)]
pub enum LoadError {
    /// The file name could not be made a path that can be looked up.
    PathConversion(String),
    /// Neither the overlay nor the storage has a text for the file.
    OverlayRead(String),
}

/// What a [`LoadError`] says.
pub enum LoadErrorView {
    PathConversion(Seq<char>),
    OverlayRead(Seq<char>),
}

impl View for LoadError {
    type V = LoadErrorView;

    open spec fn view(&self) -> LoadErrorView {
        match self {
            LoadError::PathConversion(file) => LoadErrorView::PathConversion(file@),
            LoadError::OverlayRead(file) => LoadErrorView::OverlayRead(file@),
        }
    }
}

impl LoadError {
    /// The name of the file that could not be had.
    pub open spec fn file_text(&self) -> Seq<char> {
        match self {
            LoadError::PathConversion(file) => file@,
            LoadError::OverlayRead(file) => file@,
        }
    }

    /// The text of the error, for a reader. It is the same for both kinds.
    pub fn message(&self) -> (text: String)
        ensures
            text@ == "can't convert file to url: "@ + self.file_text(),
    {
        let prefix = String::from_str("can't convert file to url: ");
        match self {
            LoadError::PathConversion(file) => prefix.concat(file.as_str()),
            LoadError::OverlayRead(file) => prefix.concat(file.as_str()),
        }
    }
}

/// The text that a source gives for its file, or the error in its place.
/// What the editor has comes before what the storage has: the text of an open
/// file is the editor's, and an open file whose bytes are no text has none,
/// whatever the storage has. A file that is not open has the text that the
/// storage gave.
pub open spec fn code_of(source: FileSource) -> Result<Seq<char>, LoadErrorView> {
    if !source.has_path {
        Err(LoadErrorView::PathConversion(source.file@))
    } else {
        match (source.open, source.stored) {
            (Overlay::Text(text), _) => Ok(text@),
            (Overlay::Binary, _) => Err(LoadErrorView::OverlayRead(source.file@)),
            (Overlay::Missing, Some(text)) => Ok(text@),
            (Overlay::Missing, None) => Err(LoadErrorView::OverlayRead(source.file@)),
        }
    }
}

/// What a text or the error in its place says.
pub open spec fn code_view(code: Result<String, LoadError>) -> Result<Seq<char>, LoadErrorView> {
    match code {
        Ok(text) => Ok(text@),
        Err(error) => Err(error@),
    }
}

/// The text of one file: what the editor has where the file is open, else
/// what the storage has.
pub fn file_code(source: &FileSource) -> (code: Result<String, LoadError>)
    ensures
        code_view(code) == code_of(*source),
{
    if !source.has_path {
        return Err(LoadError::PathConversion(source.file.clone()));
    }
    match &source.open {
        Overlay::Text(text) => Ok(text.clone()),
        Overlay::Binary => Err(LoadError::OverlayRead(source.file.clone())),
        Overlay::Missing => match &source.stored {
            Some(text) => Ok(text.clone()),
            None => Err(LoadError::OverlayRead(source.file.clone())),
        },
    }
}

/// The texts of the files, one for each file and in the order of the
/// files; or the error of the first file that has none.
pub fn load_files_code_from_vfs(sources: &Vec<FileSource>) -> (codes: Result<
    Vec<String>,
    LoadError,
>)
    ensures
        codes is Ok <==> forall|i: int| 0 <= i < sources.len() ==> code_of(#[trigger] sources@[i]) is Ok,
        match codes {
            Ok(texts) => {
                &&& texts.len() == sources.len()
                &&& forall|i: int|
                    0 <= i < sources.len() ==> code_of(#[trigger] sources@[i]) == Ok::<
                        Seq<char>,
                        LoadErrorView,
                    >(texts@[i]@)
            },
            Err(error) => exists|i: int|
                {
                    &&& 0 <= i < sources.len()
                    &&& code_of(#[trigger] sources@[i]) == Err::<Seq<char>, LoadErrorView>(error@)
                    &&& forall|j: int| 0 <= j < i ==> code_of(#[trigger] sources@[j]) is Ok
                },
        },
{
    let mut texts: Vec<String> = Vec::new();
    let mut i: usize = 0;
    while i < sources.len()
        invariant
            i <= sources.len(),
            texts.len() == i,
            forall|j: int|
                0 <= j < i ==> code_of(#[trigger] sources@[j]) == Ok::<Seq<char>, LoadErrorView>(
                    texts@[j]@,
                ),
        decreases sources.len() - i,
    {
        match file_code(&sources[i]) {
            Ok(text) => {
                texts.push(text);
            },
            Err(error) => {
                return Err(error);
            },
        }
        i += 1;
    }
    Ok(texts)
}

} // verus!
