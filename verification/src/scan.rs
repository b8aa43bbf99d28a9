//! Finding, in a list of nodes, the first one that holds a position.
//!
//! Siblings do not overlap in a parsed tree, so at most one of them holds a
//! given position; on any other list the first one wins.

use vstd::prelude::*;
use crate::ast::Node;
use crate::position::Position;

verus! {

/// The index of the first of `nodes` whose span holds `pos`, or their number
/// if none does.
pub open spec fn first_hit<T>(nodes: Seq<Node<T>>, pos: &Position) -> int
    decreases nodes.len(),
{
    if nodes.len() == 0 {
        0
    } else if nodes[0].span.contains(pos) {
        0
    } else {
        1 + first_hit(nodes.drop_first(), pos)
    }
}

/// The index of the first of `nodes` that is there and whose span holds
/// `pos`, or their number if none does.
pub open spec fn first_hit_opt<T>(nodes: Seq<Option<Node<T>>>, pos: &Position) -> int
    decreases nodes.len(),
{
    if nodes.len() == 0 {
        0
    } else if nodes[0] is Some && nodes[0]->0.span.contains(pos) {
        0
    } else {
        1 + first_hit_opt(nodes.drop_first(), pos)
    }
}

/// [`first_hit`] is the least index of a node that holds the position: the
/// node there holds it, and none before does.
pub broadcast proof fn lemma_first_hit<T>(nodes: Seq<Node<T>>, pos: &Position)
    ensures
        0 <= #[trigger] first_hit(nodes, pos) <= nodes.len(),
        first_hit(nodes, pos) < nodes.len() ==> nodes[first_hit(nodes, pos)].span.contains(pos),
        forall|j: int| 0 <= j < first_hit(nodes, pos) ==> !(#[trigger] nodes[j]).span.contains(pos),
    decreases nodes.len(),
{
    if nodes.len() > 0 && !nodes[0].span.contains(pos) {
        let rest = nodes.drop_first();
        lemma_first_hit(rest, pos);
        assert forall|j: int| 0 <= j < first_hit(nodes, pos) implies !(#[trigger] nodes[j]).span.contains(
            pos,
        ) by {
            if j > 0 {
                assert(nodes[j] == rest[j - 1]);
            }
        }
    }
}

/// An index with the two properties of [`lemma_first_hit`] is [`first_hit`].
pub proof fn lemma_first_hit_is<T>(nodes: Seq<Node<T>>, pos: &Position, i: int)
    requires
        0 <= i <= nodes.len(),
        i < nodes.len() ==> nodes[i].span.contains(pos),
        forall|j: int| 0 <= j < i ==> !(#[trigger] nodes[j]).span.contains(pos),
    ensures
        first_hit(nodes, pos) == i,
    decreases nodes.len(),
{
    if nodes.len() > 0 && i > 0 {
        let rest = nodes.drop_first();
        assert(!nodes[0].span.contains(pos));
        assert forall|j: int| 0 <= j < i - 1 implies !(#[trigger] rest[j]).span.contains(pos) by {
            assert(rest[j] == nodes[j + 1]);
        }
        lemma_first_hit_is(rest, pos, i - 1);
    }
}

/// [`first_hit_opt`] is the least index of a node that is there and holds
/// the position.
pub broadcast proof fn lemma_first_hit_opt<T>(nodes: Seq<Option<Node<T>>>, pos: &Position)
    ensures
        0 <= #[trigger] first_hit_opt(nodes, pos) <= nodes.len(),
        first_hit_opt(nodes, pos) < nodes.len() ==> {
            &&& nodes[first_hit_opt(nodes, pos)] is Some
            &&& nodes[first_hit_opt(nodes, pos)]->0.span.contains(pos)
        },
        forall|j: int|
            0 <= j < first_hit_opt(nodes, pos) ==> !((#[trigger] nodes[j]) is Some
                && nodes[j]->0.span.contains(pos)),
    decreases nodes.len(),
{
    if nodes.len() > 0 && !(nodes[0] is Some && nodes[0]->0.span.contains(pos)) {
        let rest = nodes.drop_first();
        lemma_first_hit_opt(rest, pos);
        assert forall|j: int| 0 <= j < first_hit_opt(nodes, pos) implies !((
        #[trigger] nodes[j]) is Some && nodes[j]->0.span.contains(pos)) by {
            if j > 0 {
                assert(nodes[j] == rest[j - 1]);
            }
        }
    }
}

/// An index with the two properties of [`lemma_first_hit_opt`] is
/// [`first_hit_opt`].
pub proof fn lemma_first_hit_opt_is<T>(nodes: Seq<Option<Node<T>>>, pos: &Position, i: int)
    requires
        0 <= i <= nodes.len(),
        i < nodes.len() ==> nodes[i] is Some && nodes[i]->0.span.contains(pos),
        forall|j: int|
            0 <= j < i ==> !((#[trigger] nodes[j]) is Some && nodes[j]->0.span.contains(pos)),
    ensures
        first_hit_opt(nodes, pos) == i,
    decreases nodes.len(),
{
    if nodes.len() > 0 && i > 0 {
        let rest = nodes.drop_first();
        assert(!(nodes[0] is Some && nodes[0]->0.span.contains(pos)));
        assert forall|j: int| 0 <= j < i - 1 implies !((#[trigger] rest[j]) is Some
            && rest[j]->0.span.contains(pos)) by {
            assert(rest[j] == nodes[j + 1]);
        }
        lemma_first_hit_opt_is(rest, pos, i - 1);
    }
}

/// Finds the first of `nodes` that holds `pos`.
pub fn find_hit<T>(nodes: &Vec<Node<T>>, pos: &Position) -> (i: usize)
    ensures
        i == first_hit(nodes@, pos),
        i <= nodes.len(),
        i < nodes.len() ==> nodes@[i as int].span.contains(pos),
{
    let mut i: usize = 0;
    while i < nodes.len()
        invariant
            i <= nodes.len(),
            forall|j: int| 0 <= j < i ==> !(#[trigger] nodes@[j]).span.contains(pos),
        decreases nodes.len() - i,
    {
        if nodes[i].span.contains_pos(pos) {
            proof {
                lemma_first_hit_is(nodes@, pos, i as int);
            }
            return i;
        }
        i += 1;
    }
    proof {
        lemma_first_hit_is(nodes@, pos, i as int);
    }
    i
}

/// Finds the first of `nodes` that is there and holds `pos`.
pub fn find_hit_opt<T>(nodes: &Vec<Option<Node<T>>>, pos: &Position) -> (i: usize)
    ensures
        i == first_hit_opt(nodes@, pos),
        i <= nodes.len(),
        i < nodes.len() ==> nodes@[i as int] is Some && nodes@[i as int]->0.span.contains(pos),
{
    let mut i: usize = 0;
    while i < nodes.len()
        invariant
            i <= nodes.len(),
            forall|j: int|
                0 <= j < i ==> !((#[trigger] nodes@[j]) is Some && nodes@[j]->0.span.contains(pos)),
        decreases nodes.len() - i,
    {
        let hit = match &nodes[i] {
            Some(node) => node.span.contains_pos(pos),
            None => false,
        };
        if hit {
            proof {
                lemma_first_hit_opt_is(nodes@, pos, i as int);
            }
            return i;
        }
        i += 1;
    }
    proof {
        lemma_first_hit_opt_is(nodes@, pos, i as int);
    }
    i
}

} // verus!
