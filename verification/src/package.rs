//! Where a package lies: the positions that stand for its files, and the
//! path of a package of an external dependency.

use indexmap::IndexSet;
use vstd::prelude::*;
use crate::position::Position;
use crate::strings::{split_at_dots, split_dotted, texts};

verus! {

/// A set that keeps its items in the order in which they came.
#[verifier::external_type_specification]
#[verifier::external_body]
#[verifier::reject_recursive_types(T)]
#[verifier::reject_recursive_types(S)]
pub struct ExIndexSet<T, S>(IndexSet<T, S>);

/// The items of a set of strings, in the order in which they came, each by
/// its characters.
pub uninterp spec fn set_items(set: IndexSet<String>) -> Seq<Seq<char>>;

/// `IndexSet::new`: a set without items.
#[verifier::external_body]
fn set_new() -> (set: IndexSet<String>)
    ensures
        set_items(set) == Seq::<Seq<char>>::empty(),
{
    IndexSet::new()
}

/// `IndexSet::insert`: an item that the set has already is left where it
/// is, and the answer is `false`; a new one comes last, and the answer is
/// `true`.
#[verifier::external_body]
fn set_insert(set: &mut IndexSet<String>, value: String) -> (fresh: bool)
    ensures
        fresh == !set_items(*old(set)).contains(value@),
        set_items(*final(set)) == if fresh {
            set_items(*old(set)).push(value@)
        } else {
            set_items(*old(set))
        },
{
    set.insert(value)
}

/// `IndexSet::get_index`: the item at `index` in the order in which the
/// items came, and none from the number of items on.
#[verifier::external_body]
fn set_get(set: &IndexSet<String>, index: usize) -> (item: Option<&String>)
    ensures
        item is Some <==> index < set_items(*set).len(),
        item is Some ==> item->0@ == set_items(*set)[index as int],
{
    set.get_index(index)
}

/// What the file system says of the path of a package.
#[derive(Clone, Debug, PartialEq, Eq)]
pub struct PackagePath {
    /// The name of the path with the extension of a KCL file, if that is a
    /// file.
    pub file: Option<String>,
    /// The KCL files in the path, if it is a directory; none where it could
    /// not be listed.
    pub dir: Option<Vec<String>>,
}

/// `names` without the repetitions: each name stays where it came first.
pub open spec fn distinct(names: Seq<Seq<char>>) -> Seq<Seq<char>>
    decreases names.len(),
{
    if names.len() == 0 {
        Seq::empty()
    } else {
        let before = distinct(names.drop_last());
        if before.contains(names.last()) {
            before
        } else {
            before.push(names.last())
        }
    }
}

/// [`distinct`] keeps every name and repeats none.
pub proof fn lemma_distinct(names: Seq<Seq<char>>)
    ensures
        forall|i: int| 0 <= i < names.len() ==> distinct(names).contains(#[trigger] names[i]),
        forall|i: int|
            0 <= i < distinct(names).len() ==> names.contains(#[trigger] distinct(names)[i]),
        forall|i: int, j: int|
            0 <= i < j < distinct(names).len() ==> distinct(names)[i] != distinct(names)[j],
    decreases names.len(),
{
    if names.len() > 0 {
        let shorter = names.drop_last();
        let before = distinct(shorter);
        let all = distinct(names);
        lemma_distinct(shorter);
        assert forall|i: int| 0 <= i < names.len() implies all.contains(#[trigger] names[i]) by {
            if i < names.len() - 1 {
                assert(shorter[i] == names[i]);
                let k = choose|k: int| 0 <= k < before.len() && before[k] == shorter[i];
                assert(all[k] == names[i]);
            } else if before.contains(names.last()) {
            } else {
                assert(all[before.len() as int] == names[i]);
            }
        }
        assert forall|i: int| 0 <= i < all.len() implies names.contains(#[trigger] all[i]) by {
            if i < before.len() {
                let k = choose|k: int| 0 <= k < shorter.len() && shorter[k] == before[i];
                assert(names[k] == all[i]);
            } else {
                assert(names[names.len() - 1] == all[i]);
            }
        }
    }
}

/// The files that a package consists of: the one file where there is
/// one, else the files of the directory, each once.
pub open spec fn package_files(path: &PackagePath) -> Seq<Seq<char>> {
    match (path.file, path.dir) {
        (Some(file), _) => seq![file@],
        (None, Some(files)) => distinct(texts(files@)),
        (None, None) => Seq::empty(),
    }
}

/// `span` stands for the whole of `file`: it starts and ends on the first
/// line of the file, without a column.
pub open spec fn is_whole_file(span: (Position, Position), file: Seq<char>) -> bool {
    &&& span.0.file@ == file
    &&& span.0.line == 1
    &&& span.0.column is None
    &&& span.1 == span.0
}

/// The positions that stand for the files of a package: for each file, once
/// and in the order of the files, the start and the end of its first line.
pub fn get_pos_from_real_path(real_path: &PackagePath) -> (positions: Vec<(Position, Position)>)
    ensures
        positions.len() == package_files(real_path).len(),
        forall|i: int|
            0 <= i < positions.len() ==> is_whole_file(
                #[trigger] positions@[i],
                package_files(real_path)[i],
            ),
{
    let mut files = set_new();
    if let Some(file) = &real_path.file {
        set_insert(&mut files, file.clone());
        assert(set_items(files) == seq![file@]);
    } else if let Some(names) = &real_path.dir {
        let mut i: usize = 0;
        assert(texts(names@).take(0) == Seq::<Seq<char>>::empty());
        while i < names.len()
            invariant
                i <= names.len(),
                set_items(files) == distinct(texts(names@).take(i as int)),
            decreases names.len() - i,
        {
            let ghost next = texts(names@).take(i + 1);
            assert(next.drop_last() == texts(names@).take(i as int));
            assert(next.last() == names@[i as int]@);
            set_insert(&mut files, names[i].clone());
            i += 1;
        }
        assert(texts(names@).take(i as int) == texts(names@));
    }
    let mut positions: Vec<(Position, Position)> = Vec::new();
    loop
        invariant
            positions.len() <= set_items(files).len(),
            forall|j: int|
                0 <= j < positions.len() ==> is_whole_file(
                    #[trigger] positions@[j],
                    set_items(files)[j],
                ),
        ensures
            positions.len() == set_items(files).len(),
        decreases set_items(files).len() - positions.len(),
    {
        match set_get(&files, positions.len()) {
            Some(file) => {
                let start = Position::first_line(file.clone());
                let end = start.duplicate();
                positions.push((start, end));
            },
            None => {
                break;
            },
        }
    }
    positions
}

/// Where a package of an external dependency lies: the directory that the
/// dependency was fetched to, and the names to go down from there.
#[derive(Clone, Debug, PartialEq, Eq)]
pub struct RealPath {
    pub root: String,
    pub segments: Vec<String>,
}

/// The text that is there, or the empty text.
pub open spec fn text_or_empty(text: Option<String>) -> Seq<char> {
    match text {
        Some(text) => text@,
        None => Seq::empty(),
    }
}

/// The path of a package of an external dependency. `pkg_root` is the
/// directory that the dependency was fetched to, if it is known; `pkgpath`
/// is the dotted path of the package inside the dependency, if it could be
/// told from the import. What is not known counts as empty. The path is
/// computed only: nothing looks whether it exists.
pub fn get_real_path_from_external(pkg_root: Option<String>, pkgpath: Option<String>) -> (real_path:
    RealPath)
    ensures
        real_path.root@ == text_or_empty(pkg_root),
        texts(real_path.segments@) == split_at_dots(text_or_empty(pkgpath)),
{
    let root = match pkg_root {
        Some(root) => root,
        None => String::new(),
    };
    let pkgpath = match pkgpath {
        Some(pkgpath) => pkgpath,
        None => String::new(),
    };
    RealPath { root, segments: split_dotted(pkgpath.as_str()) }
}

} // verus!
