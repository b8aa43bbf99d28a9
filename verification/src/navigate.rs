//! The navigator: from a tree and a position to the innermost expression
//! that holds the position, and to the schema instantiation whose config body
//! the position is in.
//!
//! The schema is handed down the descent and handed back with the answer. It
//! changes at two places only. Entering the config body of a schema
//! instantiation makes that instantiation the schema. Entering the value of a
//! config entry clears it: the value is not the schema's own text any more,
//! and a schema instantiation inside it sets its own.
//!
//! Where nothing is found, there is no schema either: outside the node that
//! a query starts from, in a statement none of whose children holds the
//! position, between the key and the value of a config entry, and in a type
//! annotation that names nothing.

use vstd::prelude::*;
use crate::ast::{ConfigEntry, Expr, Identifier, Node, Stmt, Type};
use crate::ident::{
    build_identifier_from_string,
    build_identifier_from_ty_string,
    identifier_from,
    identifier_from_type,
    node_view,
    IdentifierNodeView,
};
use crate::position::Position;
use crate::step::{
    expr_step,
    lemma_expr_step_inside,
    lemma_stmt_step_inside,
    stmt_step,
    take_expr_step,
    take_stmt_step,
    Step,
};

verus! {

/// The expression that a query ends on.
#[derive(Debug, PartialEq)]
pub enum Found<'a> {
    /// An expression of the tree.
    Node(&'a Node<Expr>),
    /// An identifier made up for a name or a type under the position. It is
    /// no part of the tree and belongs to the answer.
    Synthetic(Node<Identifier>),
}

/// What a [`Found`] says: the node of the tree, or the made-up identifier
/// by its text.
pub enum FoundView<'a> {
    Node(&'a Node<Expr>),
    Synthetic(IdentifierNodeView),
}

impl<'a> View for Found<'a> {
    type V = FoundView<'a>;

    open spec fn view(&self) -> FoundView<'a> {
        match self {
            Found::Node(node) => FoundView::Node(node),
            Found::Synthetic(id) => FoundView::Synthetic(node_view(id)),
        }
    }
}

/// The answer to a query as the contracts state it: what was found, and
/// the schema that holds there.
pub type Resolution<'a> = (Option<FoundView<'a>>, Option<&'a Node<Expr>>);

/// The answer that the functions of this module return.
pub type Answer<'a> = (Option<Found<'a>>, Option<&'a Node<Expr>>);

/// What an [`Answer`] says.
pub open spec fn answer_view<'a>(answer: Answer<'a>) -> Resolution<'a> {
    (
        match answer.0 {
            Some(found) => Some(found@),
            None => None,
        },
        answer.1,
    )
}

/// The end of a descent on a name kept as text.
pub open spec fn on_name<'a>(name: &'a Node<String>, schema: Option<&'a Node<Expr>>) -> Resolution<
    'a,
> {
    (Some(FoundView::Synthetic(identifier_from(name.node@, name.span))), schema)
}

/// The end of a descent in a type annotation: the identifier made up for
/// the named type under the position, under the schema handed in; and where
/// there is no named type there, nothing and no schema.
pub open spec fn on_type<'a>(
    ty: &'a Node<Type>,
    pos: &Position,
    schema: Option<&'a Node<Expr>>,
) -> Resolution<'a> {
    match identifier_from_type(ty, pos) {
        Some(id) => (Some(FoundView::Synthetic(id)), schema),
        None => (None, None),
    }
}

/// The innermost expression under `pos` in `expr`, and the schema there,
/// given that `schema` holds where `expr` stands.
///
/// Outside the span of `expr` the answer is nothing, and no schema. Inside,
/// the descent repeats [`expr_step`] until it stops.
pub open spec fn innermost_in_expr<'a>(
    expr: &'a Node<Expr>,
    pos: &Position,
    schema: Option<&'a Node<Expr>>,
) -> Resolution<'a>
    decreases expr,
{
    if !expr.span.contains(pos) {
        (None, None)
    } else {
        match expr_step(expr, pos) {
            Step::Stop => (Some(FoundView::Node(expr)), schema),
            Step::Expr(child) => {
                proof {
                    lemma_expr_step_inside(expr, pos);
                }
                innermost_in_expr(child, pos, schema)
            },
            Step::Body(body) => {
                proof {
                    lemma_expr_step_inside(expr, pos);
                }
                innermost_in_expr(body, pos, Some(expr))
            },
            Step::Entry(entry) => {
                proof {
                    lemma_expr_step_inside(expr, pos);
                }
                innermost_in_entry(entry, pos, schema)
            },
            Step::Stmt(stmt) => {
                proof {
                    lemma_expr_step_inside(expr, pos);
                }
                innermost_in_stmt(stmt, pos, schema)
            },
            Step::Name(name) => on_name(name, schema),
            Step::Type(ty) => on_type(ty, pos, schema),
        }
    }
}

/// The innermost expression under `pos` in a config entry, and the schema
/// there.
///
/// In the key the schema of the config still holds. In the value it does
/// not: the descent goes on without a schema. Between the two there is
/// nothing.
pub open spec fn innermost_in_entry<'a>(
    entry: &'a Node<ConfigEntry>,
    pos: &Position,
    schema: Option<&'a Node<Expr>>,
) -> Resolution<'a>
    decreases entry,
{
    match &entry.node.key {
        Some(key) if key.span.contains(pos) => innermost_in_expr(&**key, pos, schema),
        _ => if entry.node.value.span.contains(pos) {
            innermost_in_expr(&*entry.node.value, pos, None)
        } else {
            (None, None)
        },
    }
}

/// The innermost expression under `pos` in a statement, and the schema
/// there.
///
/// Outside the span of the statement the answer is nothing, and no schema.
/// Inside, the descent goes on by [`stmt_step`]; where no child of the
/// statement holds the position, the answer is nothing and no schema as
/// well.
pub open spec fn innermost_in_stmt<'a>(
    stmt: &'a Node<Stmt>,
    pos: &Position,
    schema: Option<&'a Node<Expr>>,
) -> Resolution<'a>
    decreases stmt,
{
    if !stmt.span.contains(pos) {
        (None, None)
    } else {
        match stmt_step(&stmt.node, pos) {
            Step::Stop => (None, None),
            Step::Expr(child) => {
                proof {
                    lemma_stmt_step_inside(&stmt.node, pos);
                }
                innermost_in_expr(child, pos, schema)
            },
            Step::Body(child) => {
                proof {
                    lemma_stmt_step_inside(&stmt.node, pos);
                }
                innermost_in_expr(child, pos, schema)
            },
            Step::Entry(entry) => {
                proof {
                    lemma_stmt_step_inside(&stmt.node, pos);
                }
                innermost_in_entry(entry, pos, schema)
            },
            Step::Stmt(inner) => {
                proof {
                    lemma_stmt_step_inside(&stmt.node, pos);
                }
                innermost_in_stmt(inner, pos, schema)
            },
            Step::Name(name) => on_name(name, schema),
            Step::Type(ty) => on_type(ty, pos, schema),
        }
    }
}

/// Ends a descent on a name kept as text.
fn end_on_name<'a>(name: &Node<String>, schema: Option<&'a Node<Expr>>) -> (answer: Answer<'a>)
    ensures
        answer_view(answer) == on_name(name, schema),
{
    (Some(Found::Synthetic(build_identifier_from_string(name))), schema)
}

/// Ends a descent in a type annotation.
fn end_on_type<'a>(ty: &Node<Type>, pos: &Position, schema: Option<&'a Node<Expr>>) -> (answer:
    Answer<'a>)
    ensures
        answer_view(answer) == on_type(ty, pos, schema),
{
    match build_identifier_from_ty_string(ty, pos) {
        Some(id) => (Some(Found::Synthetic(id)), schema),
        None => (None, None),
    }
}

/// Finds the innermost expression under `pos` in `expr`, and the schema
/// instantiation whose config body `pos` is in. `schema_def` is the schema
/// that holds where `expr` stands: none for a query on a whole tree.
pub fn inner_most_expr<'a>(
    expr: &'a Node<Expr>,
    pos: &Position,
    schema_def: Option<&'a Node<Expr>>,
) -> (answer: Answer<'a>)
    ensures
        answer_view(answer) == innermost_in_expr(expr, pos, schema_def),
        !expr.span.contains(pos) ==> answer.0 is None && answer.1 is None,
        answer.0 is None ==> answer.1 is None,
    decreases expr,
{
    if !expr.span.contains_pos(pos) {
        return (None, None);
    }
    proof {
        lemma_expr_step_inside(expr, pos);
    }
    match take_expr_step(expr, pos) {
        Step::Stop => (Some(Found::Node(expr)), schema_def),
        Step::Expr(child) => inner_most_expr(child, pos, schema_def),
        Step::Body(body) => inner_most_expr(body, pos, Some(expr)),
        Step::Entry(entry) => inner_most_expr_in_config_entry(entry, pos, schema_def),
        Step::Stmt(stmt) => inner_most_expr_in_stmt(stmt, pos, schema_def),
        Step::Name(name) => end_on_name(name, schema_def),
        Step::Type(ty) => end_on_type(ty, pos, schema_def),
    }
}

/// Finds the innermost expression under `pos` in a config entry, and the
/// schema there.
pub fn inner_most_expr_in_config_entry<'a>(
    config_entry: &'a Node<ConfigEntry>,
    pos: &Position,
    schema_def: Option<&'a Node<Expr>>,
) -> (answer: Answer<'a>)
    ensures
        answer_view(answer) == innermost_in_entry(config_entry, pos, schema_def),
        answer.0 is None ==> answer.1 is None,
    decreases config_entry,
{
    if let Some(key) = &config_entry.node.key {
        if key.span.contains_pos(pos) {
            return inner_most_expr(key, pos, schema_def);
        }
    }
    if config_entry.node.value.span.contains_pos(pos) {
        inner_most_expr(&config_entry.node.value, pos, None)
    } else {
        (None, None)
    }
}

/// Finds the innermost expression under `pos` in a statement, and the
/// schema there. `schema_def` is the schema that holds where the statement
/// stands: none for a statement of a module.
pub fn inner_most_expr_in_stmt<'a>(
    stmt: &'a Node<Stmt>,
    pos: &Position,
    schema_def: Option<&'a Node<Expr>>,
) -> (answer: Answer<'a>)
    ensures
        answer_view(answer) == innermost_in_stmt(stmt, pos, schema_def),
        !stmt.span.contains(pos) ==> answer.0 is None && answer.1 is None,
        answer.0 is None ==> answer.1 is None,
    decreases stmt,
{
    if !stmt.span.contains_pos(pos) {
        return (None, None);
    }
    proof {
        lemma_stmt_step_inside(&stmt.node, pos);
    }
    match take_stmt_step(&stmt.node, pos) {
        Step::Stop => (None, None),
        Step::Expr(child) => inner_most_expr(child, pos, schema_def),
        Step::Body(child) => inner_most_expr(child, pos, schema_def),
        Step::Entry(entry) => inner_most_expr_in_config_entry(entry, pos, schema_def),
        Step::Stmt(inner) => inner_most_expr_in_stmt(inner, pos, schema_def),
        Step::Name(name) => end_on_name(name, schema_def),
        Step::Type(ty) => end_on_type(ty, pos, schema_def),
    }
}

} // verus!
