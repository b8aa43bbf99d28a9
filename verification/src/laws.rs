//! What holds of every query: where the answer is nothing, which schema is
//! handed back, and what the forms with a rule of their own do.

use vstd::prelude::*;
use crate::ast::{ConfigEntry, Expr, Node, Stmt};
use crate::ident::{identifier_from, identifier_from_type};
use crate::navigate::{innermost_in_entry, innermost_in_expr, innermost_in_stmt, FoundView};
use crate::position::Position;
use crate::scan::{first_hit, lemma_first_hit};
use crate::step::{expr_step, lemma_expr_step_inside, lemma_stmt_step_inside, stmt_step, Step};

verus! {

/// `pos` is in the config body of the schema instantiation `schema`, and in
/// none of the name and the arguments that stand before the body.
pub open spec fn in_config_body(schema: &Node<Expr>, pos: &Position) -> bool {
    &&& schema.span.contains(pos)
    &&& schema.node is Schema
    &&& expr_step(schema, pos) == Step::Body(&*schema.node->Schema_0.config)
}

/// The schema handed back is the one handed in, or none, or a schema
/// instantiation with `pos` in its config body.
pub open spec fn schema_accounted_for(
    back: Option<&Node<Expr>>,
    handed_in: Option<&Node<Expr>>,
    pos: &Position,
) -> bool {
    back == handed_in || back is None || in_config_body(back->0, pos)
}

/// A node of the tree that is found holds `pos`, and none of its children
/// does: it is the innermost.
pub open spec fn found_is_innermost(found: Option<FoundView>, pos: &Position) -> bool {
    found matches Some(FoundView::Node(node)) ==> node.span.contains(pos) && expr_step(
        node,
        pos,
    ) is Stop
}

/// The descent from `expr` ends without leaving the text that a schema
/// handed in would govern: it enters no config body, no value of a config
/// entry, and does not fall between the key and the value of an entry.
pub open spec fn stays_under_schema(expr: &Node<Expr>, pos: &Position) -> bool
    decreases expr,
{
    &&& expr.span.contains(pos)
    &&& match expr_step(expr, pos) {
        Step::Stop => true,
        Step::Expr(child) => {
            proof {
                lemma_expr_step_inside(expr, pos);
            }
            stays_under_schema(child, pos)
        },
        Step::Body(_) => false,
        Step::Entry(entry) => {
            proof {
                lemma_expr_step_inside(expr, pos);
            }
            entry_stays_under_schema(entry, pos)
        },
        Step::Stmt(stmt) => {
            proof {
                lemma_expr_step_inside(expr, pos);
            }
            stmt_stays_under_schema(stmt, pos)
        },
        Step::Name(_) => true,
        Step::Type(ty) => identifier_from_type(ty, pos) is Some,
    }
}

/// As [`stays_under_schema`], from a config entry: `pos` is in the key, and
/// the descent from the key stays.
pub open spec fn entry_stays_under_schema(entry: &Node<ConfigEntry>, pos: &Position) -> bool
    decreases entry,
{
    match &entry.node.key {
        Some(key) => stays_under_schema(&**key, pos),
        None => false,
    }
}

/// As [`stays_under_schema`], from a statement: the descent ends on an
/// expression or on a made-up identifier, and not on nothing.
pub open spec fn stmt_stays_under_schema(stmt: &Node<Stmt>, pos: &Position) -> bool
    decreases stmt,
{
    &&& stmt.span.contains(pos)
    &&& match stmt_step(&stmt.node, pos) {
        Step::Stop => false,
        Step::Expr(child) => {
            proof {
                lemma_stmt_step_inside(&stmt.node, pos);
            }
            stays_under_schema(child, pos)
        },
        Step::Body(_) => false,
        Step::Entry(_) => false,
        Step::Stmt(inner) => {
            proof {
                lemma_stmt_step_inside(&stmt.node, pos);
            }
            stmt_stays_under_schema(inner, pos)
        },
        Step::Name(_) => true,
        Step::Type(ty) => identifier_from_type(ty, pos) is Some,
    }
}

/// Where nothing is found there is no schema.
pub open spec fn nothing_has_no_schema(found: Option<FoundView>, back: Option<&Node<Expr>>) -> bool {
    found is None ==> back is None
}

/// Outside the span of the expression that a query starts from, the answer
/// is nothing and no schema, whatever schema was handed in.
pub proof fn lemma_outside_is_nothing(
    expr: &Node<Expr>,
    pos: &Position,
    schema: Option<&Node<Expr>>,
)
    requires
        !expr.span.contains(pos),
    ensures
        innermost_in_expr(expr, pos, schema) == (None::<FoundView>, None::<&Node<Expr>>),
{
}

/// Only a schema instantiation hands out a config body, and it is its own.
pub proof fn lemma_body_is_of_schema(expr: &Node<Expr>, pos: &Position)
    requires
        expr_step(expr, pos) is Body,
    ensures
        expr.node is Schema,
        expr_step(expr, pos) == Step::Body(&*expr.node->Schema_0.config),
        expr.node->Schema_0.config.span.contains(pos),
{
}

/// The schema that a query on an expression hands back is the one handed in,
/// or none, or a schema instantiation with the position in its config body;
/// and a node of the tree that it finds is the innermost that holds the
/// position.
pub proof fn lemma_expr_answer(expr: &Node<Expr>, pos: &Position, schema: Option<&Node<Expr>>)
    ensures
        schema_accounted_for(innermost_in_expr(expr, pos, schema).1, schema, pos),
        found_is_innermost(innermost_in_expr(expr, pos, schema).0, pos),
        nothing_has_no_schema(
            innermost_in_expr(expr, pos, schema).0,
            innermost_in_expr(expr, pos, schema).1,
        ),
    decreases expr,
{
    if expr.span.contains(pos) {
        lemma_expr_step_inside(expr, pos);
        match expr_step(expr, pos) {
            Step::Stop => {},
            Step::Expr(child) => {
                lemma_expr_answer(child, pos, schema);
            },
            Step::Body(body) => {
                lemma_body_is_of_schema(expr, pos);
                lemma_expr_answer(body, pos, Some(expr));
            },
            Step::Entry(entry) => {
                lemma_entry_answer(entry, pos, schema);
            },
            Step::Stmt(stmt) => {
                lemma_stmt_answer(stmt, pos, schema);
            },
            Step::Name(_) => {},
            Step::Type(_) => {},
        }
    }
}

/// As [`lemma_expr_answer`], for a query on a config entry.
pub proof fn lemma_entry_answer(
    entry: &Node<ConfigEntry>,
    pos: &Position,
    schema: Option<&Node<Expr>>,
)
    ensures
        schema_accounted_for(innermost_in_entry(entry, pos, schema).1, schema, pos),
        found_is_innermost(innermost_in_entry(entry, pos, schema).0, pos),
        nothing_has_no_schema(
            innermost_in_entry(entry, pos, schema).0,
            innermost_in_entry(entry, pos, schema).1,
        ),
    decreases entry,
{
    match &entry.node.key {
        Some(key) if key.span.contains(pos) => {
            lemma_expr_answer(&**key, pos, schema);
        },
        _ => {
            if entry.node.value.span.contains(pos) {
                lemma_expr_answer(&*entry.node.value, pos, None);
            }
        },
    }
}

/// As [`lemma_expr_answer`], for a query on a statement.
pub proof fn lemma_stmt_answer(stmt: &Node<Stmt>, pos: &Position, schema: Option<&Node<Expr>>)
    ensures
        schema_accounted_for(innermost_in_stmt(stmt, pos, schema).1, schema, pos),
        found_is_innermost(innermost_in_stmt(stmt, pos, schema).0, pos),
        nothing_has_no_schema(
            innermost_in_stmt(stmt, pos, schema).0,
            innermost_in_stmt(stmt, pos, schema).1,
        ),
    decreases stmt,
{
    if stmt.span.contains(pos) {
        lemma_stmt_step_inside(&stmt.node, pos);
        match stmt_step(&stmt.node, pos) {
            Step::Stop => {},
            Step::Expr(child) => {
                lemma_expr_answer(child, pos, schema);
            },
            Step::Body(_) => {},
            Step::Entry(_) => {},
            Step::Stmt(inner) => {
                lemma_stmt_answer(inner, pos, schema);
            },
            Step::Name(_) => {},
            Step::Type(_) => {},
        }
    }
}

/// What is found does not depend on the schema handed in; and the schema
/// handed back is either the one handed in, for both of two schemas, or the
/// same for both.
pub proof fn lemma_expr_schema_is_handed_through(
    expr: &Node<Expr>,
    pos: &Position,
    one: Option<&Node<Expr>>,
    other: Option<&Node<Expr>>,
)
    ensures
        innermost_in_expr(expr, pos, one).0 == innermost_in_expr(expr, pos, other).0,
        (innermost_in_expr(expr, pos, one).1 == one && innermost_in_expr(expr, pos, other).1
            == other) || innermost_in_expr(expr, pos, one).1 == innermost_in_expr(
            expr,
            pos,
            other,
        ).1,
    decreases expr,
{
    if expr.span.contains(pos) {
        lemma_expr_step_inside(expr, pos);
        match expr_step(expr, pos) {
            Step::Stop => {},
            Step::Expr(child) => {
                lemma_expr_schema_is_handed_through(child, pos, one, other);
            },
            Step::Body(_) => {},
            Step::Entry(entry) => {
                lemma_entry_schema_is_handed_through(entry, pos, one, other);
            },
            Step::Stmt(stmt) => {
                lemma_stmt_schema_is_handed_through(stmt, pos, one, other);
            },
            Step::Name(_) => {},
            Step::Type(_) => {},
        }
    }
}

/// As [`lemma_expr_schema_is_handed_through`], for a config entry.
pub proof fn lemma_entry_schema_is_handed_through(
    entry: &Node<ConfigEntry>,
    pos: &Position,
    one: Option<&Node<Expr>>,
    other: Option<&Node<Expr>>,
)
    ensures
        innermost_in_entry(entry, pos, one).0 == innermost_in_entry(entry, pos, other).0,
        (innermost_in_entry(entry, pos, one).1 == one && innermost_in_entry(entry, pos, other).1
            == other) || innermost_in_entry(entry, pos, one).1 == innermost_in_entry(
            entry,
            pos,
            other,
        ).1,
    decreases entry,
{
    match &entry.node.key {
        Some(key) if key.span.contains(pos) => {
            lemma_expr_schema_is_handed_through(&**key, pos, one, other);
        },
        _ => {},
    }
}

/// As [`lemma_expr_schema_is_handed_through`], for a statement.
pub proof fn lemma_stmt_schema_is_handed_through(
    stmt: &Node<Stmt>,
    pos: &Position,
    one: Option<&Node<Expr>>,
    other: Option<&Node<Expr>>,
)
    ensures
        innermost_in_stmt(stmt, pos, one).0 == innermost_in_stmt(stmt, pos, other).0,
        (innermost_in_stmt(stmt, pos, one).1 == one && innermost_in_stmt(stmt, pos, other).1
            == other) || innermost_in_stmt(stmt, pos, one).1 == innermost_in_stmt(
            stmt,
            pos,
            other,
        ).1,
    decreases stmt,
{
    if stmt.span.contains(pos) {
        lemma_stmt_step_inside(&stmt.node, pos);
        match stmt_step(&stmt.node, pos) {
            Step::Stop => {},
            Step::Expr(child) => {
                lemma_expr_schema_is_handed_through(child, pos, one, other);
            },
            Step::Body(_) => {},
            Step::Entry(_) => {},
            Step::Stmt(inner) => {
                lemma_stmt_schema_is_handed_through(inner, pos, one, other);
            },
            Step::Name(_) => {},
            Step::Type(_) => {},
        }
    }
}

/// Where the descent stays under the schema handed in, that schema is
/// handed back.
pub proof fn lemma_expr_keeps_schema(
    expr: &Node<Expr>,
    pos: &Position,
    schema: Option<&Node<Expr>>,
)
    requires
        stays_under_schema(expr, pos),
    ensures
        innermost_in_expr(expr, pos, schema).1 == schema,
    decreases expr,
{
    lemma_expr_step_inside(expr, pos);
    match expr_step(expr, pos) {
        Step::Stop => {},
        Step::Expr(child) => {
            lemma_expr_keeps_schema(child, pos, schema);
        },
        Step::Body(_) => {},
        Step::Entry(entry) => {
            lemma_entry_keeps_schema(entry, pos, schema);
        },
        Step::Stmt(stmt) => {
            lemma_stmt_keeps_schema(stmt, pos, schema);
        },
        Step::Name(_) => {},
        Step::Type(_) => {},
    }
}

/// As [`lemma_expr_keeps_schema`], for a config entry.
pub proof fn lemma_entry_keeps_schema(
    entry: &Node<ConfigEntry>,
    pos: &Position,
    schema: Option<&Node<Expr>>,
)
    requires
        entry_stays_under_schema(entry, pos),
    ensures
        innermost_in_entry(entry, pos, schema).1 == schema,
    decreases entry,
{
    match &entry.node.key {
        Some(key) => {
            lemma_expr_keeps_schema(&**key, pos, schema);
        },
        None => {},
    }
}

/// As [`lemma_expr_keeps_schema`], for a statement.
pub proof fn lemma_stmt_keeps_schema(
    stmt: &Node<Stmt>,
    pos: &Position,
    schema: Option<&Node<Expr>>,
)
    requires
        stmt_stays_under_schema(stmt, pos),
    ensures
        innermost_in_stmt(stmt, pos, schema).1 == schema,
    decreases stmt,
{
    lemma_stmt_step_inside(&stmt.node, pos);
    match stmt_step(&stmt.node, pos) {
        Step::Stop => {},
        Step::Expr(child) => {
            lemma_expr_keeps_schema(child, pos, schema);
        },
        Step::Body(_) => {},
        Step::Entry(_) => {},
        Step::Stmt(inner) => {
            lemma_stmt_keeps_schema(inner, pos, schema);
        },
        Step::Name(_) => {},
        Step::Type(_) => {},
    }
}

/// Entering the config body of a schema instantiation replaces the schema:
/// the answer is that of the body under the instantiation itself, and the
/// schema handed in plays no part in it.
pub proof fn lemma_config_body_replaces_schema(
    schema_expr: &Node<Expr>,
    pos: &Position,
    handed_in: Option<&Node<Expr>>,
)
    requires
        in_config_body(schema_expr, pos),
    ensures
        innermost_in_expr(schema_expr, pos, handed_in) == innermost_in_expr(
            &*schema_expr.node->Schema_0.config,
            pos,
            Some(schema_expr),
        ),
{
}

/// A position in the config body of a schema instantiation, from where the
/// descent enters no other config body and no value of an entry, is answered
/// with exactly that instantiation as the schema.
pub proof fn lemma_schema_of_config_body(
    schema_expr: &Node<Expr>,
    pos: &Position,
    handed_in: Option<&Node<Expr>>,
)
    requires
        in_config_body(schema_expr, pos),
        stays_under_schema(&*schema_expr.node->Schema_0.config, pos),
    ensures
        innermost_in_expr(schema_expr, pos, handed_in).1 == Some(schema_expr),
{
    lemma_expr_keeps_schema(&*schema_expr.node->Schema_0.config, pos, Some(schema_expr));
}

/// In the key of a config entry the schema of the config holds on: the
/// answer is that of the key under the schema handed in, and where the key
/// has no config of its own under the position, that schema is handed back.
pub proof fn lemma_key_keeps_schema(
    entry: &Node<ConfigEntry>,
    pos: &Position,
    schema: Option<&Node<Expr>>,
)
    requires
        entry.node.key is Some,
        entry.node.key->0.span.contains(pos),
    ensures
        innermost_in_entry(entry, pos, schema) == innermost_in_expr(
            &*entry.node.key->0,
            pos,
            schema,
        ),
        stays_under_schema(&*entry.node.key->0, pos) ==> innermost_in_entry(entry, pos, schema).1
            == schema,
{
    if stays_under_schema(&*entry.node.key->0, pos) {
        lemma_expr_keeps_schema(&*entry.node.key->0, pos, schema);
    }
}

/// In the value of a config entry the schema of the config is cleared: the
/// answer is that of the value under no schema. The schema handed back is
/// then none, or a schema instantiation inside the value with the position in
/// its config body; it is none where the descent from the value enters no
/// config body.
pub proof fn lemma_value_clears_schema(
    entry: &Node<ConfigEntry>,
    pos: &Position,
    schema: Option<&Node<Expr>>,
)
    requires
        !(entry.node.key is Some && entry.node.key->0.span.contains(pos)),
        entry.node.value.span.contains(pos),
    ensures
        innermost_in_entry(entry, pos, schema) == innermost_in_expr(
            &*entry.node.value,
            pos,
            None,
        ),
        innermost_in_entry(entry, pos, schema).1 is None || in_config_body(
            innermost_in_entry(entry, pos, schema).1->0,
            pos,
        ),
        stays_under_schema(&*entry.node.value, pos) ==> innermost_in_entry(entry, pos, schema).1
            is None,
{
    lemma_expr_answer(&*entry.node.value, pos, None);
    if stays_under_schema(&*entry.node.value, pos) {
        lemma_expr_keeps_schema(&*entry.node.value, pos, None);
    }
}

/// A schema instantiation as the value of a config entry sets its own
/// schema: with the position in its config body, the schema handed back is
/// the inner instantiation, whatever the schema of the outer config is.
pub proof fn lemma_inner_schema_replaces_outer(
    entry: &Node<ConfigEntry>,
    pos: &Position,
    outer: Option<&Node<Expr>>,
)
    requires
        !(entry.node.key is Some && entry.node.key->0.span.contains(pos)),
        in_config_body(&*entry.node.value, pos),
        stays_under_schema(&*entry.node.value.node->Schema_0.config, pos),
    ensures
        innermost_in_entry(entry, pos, outer).1 == Some(&*entry.node.value),
{
    lemma_schema_of_config_body(&*entry.node.value, pos, None);
}

/// Between the key and the value of a config entry there is nothing, and no
/// schema.
pub proof fn lemma_entry_gap_is_nothing(
    entry: &Node<ConfigEntry>,
    pos: &Position,
    schema: Option<&Node<Expr>>,
)
    requires
        !(entry.node.key is Some && entry.node.key->0.span.contains(pos)),
        !entry.node.value.span.contains(pos),
    ensures
        innermost_in_entry(entry, pos, schema) == (None::<FoundView>, None::<&Node<Expr>>),
{
}

/// Outside the span of the statement that a query starts from, the answer
/// is nothing and no schema, whatever schema was handed in.
pub proof fn lemma_outside_statement_is_nothing(
    stmt: &Node<Stmt>,
    pos: &Position,
    schema: Option<&Node<Expr>>,
)
    requires
        !stmt.span.contains(pos),
    ensures
        innermost_in_stmt(stmt, pos, schema) == (None::<FoundView>, None::<&Node<Expr>>),
{
}

/// In a statement none of whose children holds the position, the answer is
/// nothing and no schema, whatever schema was handed in. An import is such a
/// statement at every position.
pub proof fn lemma_statement_without_child_is_nothing(
    stmt: &Node<Stmt>,
    pos: &Position,
    schema: Option<&Node<Expr>>,
)
    requires
        stmt_step(&stmt.node, pos) is Stop,
    ensures
        innermost_in_stmt(stmt, pos, schema) == (None::<FoundView>, None::<&Node<Expr>>),
        stmt.node is Import ==> stmt_step(&stmt.node, pos) is Stop,
{
}

/// Inside an assignment with a type annotation the answer is the identifier
/// made up for the annotation, under the schema handed in: also where the
/// position is in the assigned value or in a target.
pub proof fn lemma_annotation_comes_first(
    stmt: &Node<Stmt>,
    pos: &Position,
    schema: Option<&Node<Expr>>,
)
    requires
        stmt.span.contains(pos),
        stmt.node is Assign,
        stmt.node->Assign_0.type_annotation is Some,
    ensures
        innermost_in_stmt(stmt, pos, schema) == (
            Some(
                FoundView::Synthetic(
                    identifier_from(
                        stmt.node->Assign_0.type_annotation->0.node@,
                        stmt.node->Assign_0.type_annotation->0.span,
                    ),
                ),
            ),
            schema,
        ),
{
}

/// A dict comprehension is never entered: any position in it is answered
/// with the comprehension itself.
pub proof fn lemma_dict_comp_is_not_entered(
    expr: &Node<Expr>,
    pos: &Position,
    schema: Option<&Node<Expr>>,
)
    requires
        expr.node is DictComp,
        expr.span.contains(pos),
    ensures
        innermost_in_expr(expr, pos, schema) == (Some(FoundView::Node(expr)), schema),
{
}

/// The forms without children are answered with themselves.
pub proof fn lemma_leaf_is_final(expr: &Node<Expr>, pos: &Position, schema: Option<&Node<Expr>>)
    requires
        expr.node is Identifier || expr.node is NumberLit || expr.node is StringLit
            || expr.node is NameConstantLit || expr.node is Missing,
        expr.span.contains(pos),
    ensures
        innermost_in_expr(expr, pos, schema) == (Some(FoundView::Node(expr)), schema),
{
}

/// In a config, a place that no entry holds is answered with the config, and
/// stays under the schema handed in: so does the config body of a schema
/// instantiation between its entries.
pub proof fn lemma_between_entries(config: &Node<Expr>, pos: &Position, schema: Option<&Node<Expr>>)
    requires
        config.node is Config,
        config.span.contains(pos),
        first_hit(config.node->Config_0.items@, pos) == config.node->Config_0.items@.len(),
    ensures
        stays_under_schema(config, pos),
        innermost_in_expr(config, pos, schema) == (Some(FoundView::Node(config)), schema),
{
}

/// In a config, a place on a key that has nothing to enter there, such as a
/// name or a string, is answered with the key, and stays under the schema
/// handed in.
pub proof fn lemma_on_plain_key(config: &Node<Expr>, pos: &Position, schema: Option<&Node<Expr>>)
    requires
        config.node is Config,
        config.span.contains(pos),
        0 <= first_hit(config.node->Config_0.items@, pos) < config.node->Config_0.items@.len(),
        ({
            let entry = config.node->Config_0.items@[first_hit(config.node->Config_0.items@, pos)];
            &&& entry.node.key is Some
            &&& entry.node.key->0.span.contains(pos)
            &&& expr_step(&*entry.node.key->0, pos) is Stop
        }),
    ensures
        stays_under_schema(config, pos),
        innermost_in_expr(config, pos, schema) == (
            Some(
                FoundView::Node(
                    &*config.node->Config_0.items@[first_hit(
                        config.node->Config_0.items@,
                        pos,
                    )].node.key->0,
                ),
            ),
            schema,
        ),
{
    lemma_first_hit(config.node->Config_0.items@, pos);
    let entry = &config.node->Config_0.items@[first_hit(config.node->Config_0.items@, pos)];
    let key = &*entry.node.key->0;
    assert(expr_step(config, pos) == Step::Entry(entry));
    assert(entry_stays_under_schema(entry, pos));
    assert(innermost_in_expr(key, pos, schema) == (Some(FoundView::Node(key)), schema));
    assert(innermost_in_entry(entry, pos, schema) == innermost_in_expr(key, pos, schema));
}

} // verus!
