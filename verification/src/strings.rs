//! Strings by their characters, and the splitting of a dotted path.

use vstd::prelude::*;
use vstd::string::{StrSliceExecFns, StringExecFns};

verus! {

/// The characters of each string of `strings`.
pub open spec fn texts(strings: Seq<String>) -> Seq<Seq<char>> {
    strings.map_values(|text: String| text@)
}

/// The parts of `path` between its dots, in order. A path without a dot is
/// its own single part, and two dots in a row have an empty part between
/// them; so there is always one part more than there are dots.
pub open spec fn split_at_dots(path: Seq<char>) -> Seq<Seq<char>>
    decreases path.len(),
{
    if path.len() == 0 {
        seq![Seq::empty()]
    } else {
        let before = split_at_dots(path.drop_last());
        if path.last() == '.' {
            before.push(Seq::empty())
        } else {
            before.update(before.len() - 1, before.last().push(path.last()))
        }
    }
}

/// `parts` put together again, with a dot between each two.
pub open spec fn join_with_dots(parts: Seq<Seq<char>>) -> Seq<char>
    decreases parts.len(),
{
    if parts.len() == 0 {
        Seq::empty()
    } else if parts.len() == 1 {
        parts[0]
    } else {
        join_with_dots(parts.drop_last()) + seq!['.'] + parts.last()
    }
}

/// Splitting loses nothing and leaves no dot: the parts, joined with dots,
/// are the path again, and no part has a dot in it.
pub proof fn lemma_split_at_dots(path: Seq<char>)
    ensures
        split_at_dots(path).len() >= 1,
        join_with_dots(split_at_dots(path)) == path,
        forall|i: int, j: int|
            0 <= i < split_at_dots(path).len() && 0 <= j < (#[trigger] split_at_dots(
                path,
            )[i]).len() ==> #[trigger] split_at_dots(path)[i][j] != '.',
    decreases path.len(),
{
    if path.len() > 0 {
        let shorter = path.drop_last();
        let before = split_at_dots(shorter);
        let parts = split_at_dots(path);
        lemma_split_at_dots(shorter);
        assert(path == shorter.push(path.last()));
        if path.last() == '.' {
            assert(parts.drop_last() == before);
            assert(join_with_dots(parts) == path) by {
                if before.len() == 1 {
                    assert(join_with_dots(before) == before[0]);
                }
                assert(join_with_dots(parts) == join_with_dots(before) + seq!['.']
                    + Seq::<char>::empty());
            }
        } else {
            let last = before.last().push(path.last());
            assert(parts.last() == last);
            if before.len() == 1 {
                assert(join_with_dots(parts) == last);
                assert(join_with_dots(before) == before[0]);
                assert(join_with_dots(parts) == path);
            } else {
                assert(parts.drop_last() == before.drop_last());
                assert(join_with_dots(parts) == join_with_dots(before.drop_last()) + seq!['.']
                    + last);
                assert(join_with_dots(before) == join_with_dots(before.drop_last()) + seq!['.']
                    + before.last());
                assert(join_with_dots(parts) == path);
            }
            assert forall|i: int, j: int|
                0 <= i < parts.len() && 0 <= j < (#[trigger] parts[i]).len() implies #[trigger] parts[i][j]
                != '.' by {
                if i < parts.len() - 1 {
                    assert(parts[i] == before[i]);
                } else if j < before.last().len() {
                    assert(parts[i][j] == before[i][j]);
                }
            }
        }
    }
}

/// Splits a dotted path into its parts.
pub fn split_dotted(path: &str) -> (parts: Vec<String>)
    ensures
        texts(parts@) == split_at_dots(path@),
{
    let count = path.unicode_len();
    let mut parts: Vec<String> = Vec::new();
    let mut start: usize = 0;
    let mut i: usize = 0;
    assert(path@.take(0) == Seq::<char>::empty());
    assert(texts(parts@).push(path@.subrange(0, 0)) == seq![Seq::<char>::empty()]);
    while i < count
        invariant
            count == path@.len(),
            start <= i <= count,
            split_at_dots(path@.take(i as int)) == texts(parts@).push(
                path@.subrange(start as int, i as int),
            ),
        decreases count - i,
    {
        let ghost done = texts(parts@);
        let ghost prefix = path@.take(i as int);
        let ghost next = path@.take(i + 1);
        assert(next.drop_last() == prefix);
        assert(next.last() == path@[i as int]);
        if path.get_char(i) == '.' {
            let ghost part = path@.subrange(start as int, i as int);
            parts.push(String::from_str(path.substring_char(start, i)));
            start = i + 1;
            assert(texts(parts@) == done.push(part));
            assert(path@.subrange(start as int, i + 1) == Seq::<char>::empty());
        } else {
            assert(path@.subrange(start as int, i + 1) == path@.subrange(
                start as int,
                i as int,
            ).push(path@[i as int]));
            assert(split_at_dots(next) == done.push(path@.subrange(start as int, i + 1)));
        }
        i += 1;
    }
    assert(path@.take(count as int) == path@);
    let ghost done = texts(parts@);
    parts.push(String::from_str(path.substring_char(start, count)));
    assert(texts(parts@) == done.push(path@.subrange(start as int, count as int)));
    parts
}

} // verus!
