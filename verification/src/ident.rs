//! Identifiers made up for pieces of source that are no expressions: a name
//! or a type annotation kept as text, and a named type.
//!
//! The navigator answers with an expression. Where the position falls on
//! such a piece, it answers with an identifier built here, which has the
//! text of the piece and exactly its span.

use vstd::prelude::*;
use crate::ast::{ExprContext, Identifier, Node, Type};
use crate::position::{Position, Span};
use crate::scan::{find_hit, first_hit};
use crate::strings::texts;

verus! {

/// What an identifier says, with every string taken by its characters.
pub struct IdentifierView {
    pub names: Seq<Seq<char>>,
    pub pkgpath: Seq<char>,
    pub ctx: ExprContext,
}

/// An identifier together with the span it stands at.
pub struct IdentifierNodeView {
    pub id: IdentifierView,
    pub span: Span,
}

impl View for Identifier {
    type V = IdentifierView;

    open spec fn view(&self) -> IdentifierView {
        IdentifierView { names: texts(self.names@), pkgpath: self.pkgpath@, ctx: self.ctx }
    }
}

/// The view of an identifier node.
pub open spec fn node_view(id: &Node<Identifier>) -> IdentifierNodeView {
    IdentifierNodeView { id: id.node@, span: id.span }
}

/// The identifier that stands for a piece of text: its one name is the
/// text, it belongs to no package, it is read, and it has the span of the text.
pub open spec fn identifier_from(name: Seq<char>, span: Span) -> IdentifierNodeView {
    IdentifierNodeView {
        id: IdentifierView { names: seq![name], pkgpath: Seq::empty(), ctx: ExprContext::Load },
        span,
    }
}

/// The innermost named type of `ty` that holds `pos`, if the descent from
/// `ty` ends on one.
///
/// The descent starts only if `ty` holds `pos`. A list goes on into its
/// element type, a dict into its key type and else into its value type, a
/// union into the first of its members that holds `pos`. `any`, the basic
/// types and the literal types end it with nothing.
pub open spec fn named_type_at<'a>(ty: &'a Node<Type>, pos: &Position) -> Option<&'a Node<Type>>
    decreases ty,
{
    if !ty.span.contains(pos) {
        None
    } else {
        match &ty.node {
            Type::Any => None,
            Type::Named(_) => Some(ty),
            Type::Basic(_) => None,
            Type::List(list) => match &list.inner_type {
                Some(inner) if inner.span.contains(pos) => named_type_at(&**inner, pos),
                _ => None,
            },
            Type::Dict(dict) => match &dict.key_type {
                Some(key) if key.span.contains(pos) => named_type_at(&**key, pos),
                _ => match &dict.value_type {
                    Some(value) if value.span.contains(pos) => named_type_at(&**value, pos),
                    _ => None,
                },
            },
            Type::Union(union) => {
                let i = first_hit(union.type_elements@, pos);
                if 0 <= i < union.type_elements@.len() {
                    named_type_at(&union.type_elements@[i], pos)
                } else {
                    None
                }
            },
            Type::Literal(_) => None,
        }
    }
}

/// The identifier that stands for the named type found by
/// [`named_type_at`]: the type's own name, with the span of the type.
pub open spec fn identifier_from_type(ty: &Node<Type>, pos: &Position) -> Option<
    IdentifierNodeView,
> {
    match named_type_at(ty, pos) {
        Some(named) => match &named.node {
            Type::Named(id) => Some(IdentifierNodeView { id: id@, span: named.span }),
            _ => None,
        },
        None => None,
    }
}

/// The view of an identifier node that may be missing.
pub open spec fn optional_node_view(id: &Option<Node<Identifier>>) -> Option<IdentifierNodeView> {
    match id {
        Some(id) => Some(node_view(id)),
        None => None,
    }
}

/// Builds the identifier that stands for a name kept as text.
pub fn build_identifier_from_string(s: &Node<String>) -> (id: Node<Identifier>)
    ensures
        node_view(&id) == identifier_from(s.node@, s.span),
{
    let mut names: Vec<String> = Vec::new();
    names.push(s.node.clone());
    let id = Identifier { names, pkgpath: String::new(), ctx: ExprContext::Load };
    assert(texts(id.names@) =~= seq![s.node@]);
    Node { node: id, span: s.span.duplicate() }
}

/// A copy of `id` that says the same.
pub fn duplicate_identifier(id: &Identifier) -> (copy: Identifier)
    ensures
        copy@ == id@,
{
    let mut names: Vec<String> = Vec::new();
    let mut i: usize = 0;
    while i < id.names.len()
        invariant
            i <= id.names.len(),
            names@ == id.names@.subrange(0, i as int),
        decreases id.names.len() - i,
    {
        names.push(id.names[i].clone());
        assert(names@ == id.names@.subrange(0, i + 1));
        i += 1;
    }
    assert(names@ == id.names@);
    Identifier { names, pkgpath: id.pkgpath.clone(), ctx: id.ctx }
}

/// Builds the identifier for the named type that holds `pos`, if the
/// descent from `ty` ends on one.
pub fn build_identifier_from_ty_string(ty: &Node<Type>, pos: &Position) -> (id: Option<
    Node<Identifier>,
>)
    ensures
        optional_node_view(&id) == identifier_from_type(ty, pos),
        !ty.span.contains(pos) ==> id is None,
        id is Some ==> id->0.span == named_type_at(ty, pos)->0.span,
    decreases ty,
{
    if !ty.span.contains_pos(pos) {
        return None;
    }
    match &ty.node {
        Type::Any => None,
        Type::Named(id) => Some(Node { node: duplicate_identifier(id), span: ty.span.duplicate() }),
        Type::Basic(_) => None,
        Type::List(list) => {
            if let Some(inner) = &list.inner_type {
                if inner.span.contains_pos(pos) {
                    return build_identifier_from_ty_string(inner, pos);
                }
            }
            None
        },
        Type::Dict(dict) => {
            if let Some(key) = &dict.key_type {
                if key.span.contains_pos(pos) {
                    return build_identifier_from_ty_string(key, pos);
                }
            }
            if let Some(value) = &dict.value_type {
                if value.span.contains_pos(pos) {
                    return build_identifier_from_ty_string(value, pos);
                }
            }
            None
        },
        Type::Union(union) => {
            let i = find_hit(&union.type_elements, pos);
            if i < union.type_elements.len() {
                return build_identifier_from_ty_string(&union.type_elements[i], pos);
            }
            None
        },
        Type::Literal(_) => None,
    }
}

/// What [`named_type_at`] finds is a named type that holds the position.
pub proof fn lemma_named_type_holds_position(ty: &Node<Type>, pos: &Position)
    ensures
        named_type_at(ty, pos) matches Some(named) ==> named.node is Named && named.span.contains(
            pos,
        ),
    decreases ty,
{
    broadcast use crate::scan::lemma_first_hit;

    if ty.span.contains(pos) {
        match &ty.node {
            Type::List(list) => match &list.inner_type {
                Some(inner) if inner.span.contains(pos) => {
                    lemma_named_type_holds_position(&**inner, pos);
                },
                _ => {},
            },
            Type::Dict(dict) => match &dict.key_type {
                Some(key) if key.span.contains(pos) => {
                    lemma_named_type_holds_position(&**key, pos);
                },
                _ => match &dict.value_type {
                    Some(value) if value.span.contains(pos) => {
                        lemma_named_type_holds_position(&**value, pos);
                    },
                    _ => {},
                },
            },
            Type::Union(union) => {
                let i = first_hit(union.type_elements@, pos);
                if 0 <= i < union.type_elements@.len() {
                    lemma_named_type_holds_position(&union.type_elements@[i], pos);
                }
            },
            _ => {},
        }
    }
}

/// The identifier made up in a type annotation says what the named type
/// under the position says, and spans exactly that type: not the
/// annotation around it.
pub proof fn lemma_identifier_spans_the_named_type(ty: &Node<Type>, pos: &Position)
    requires
        identifier_from_type(ty, pos) is Some,
    ensures
        named_type_at(ty, pos) is Some,
        named_type_at(ty, pos)->0.node is Named,
        named_type_at(ty, pos)->0.span.contains(pos),
        identifier_from_type(ty, pos)->0.span == named_type_at(ty, pos)->0.span,
        identifier_from_type(ty, pos)->0.id == named_type_at(ty, pos)->0.node->Named_0@,
{
    lemma_named_type_holds_position(ty, pos);
}

/// Outside a type annotation there is no identifier.
pub proof fn lemma_no_identifier_outside_the_type(ty: &Node<Type>, pos: &Position)
    requires
        !ty.span.contains(pos),
    ensures
        identifier_from_type(ty, pos) is None,
{
}

} // verus!
