//! One step of the descent: from a node and a position to the child that the
//! navigator enters next.
//!
//! For each kind of expression and of statement the children are tried in a
//! fixed order, which follows the grammar, and the first one whose span holds
//! the position is entered. Nothing here recurses: the navigator repeats the
//! step until it stops.

use vstd::prelude::*;
use crate::ast::{ConfigEntry, Expr, Node, NodeRef, Stmt, Type};
use crate::position::Position;
use crate::scan::{find_hit, find_hit_opt, first_hit, first_hit_opt};

verus! {

/// Where the descent goes from a node.
#[derive(Debug, PartialEq)]
pub enum Step<'a> {
    /// No child holds the position: the descent ends at the node.
    Stop,
    /// Into a child expression, under the schema that holds so far.
    Expr(&'a Node<Expr>),
    /// Into the config body of a schema instantiation, which becomes the
    /// schema that holds from there on.
    Body(&'a Node<Expr>),
    /// Into an entry of a config.
    Entry(&'a Node<ConfigEntry>),
    /// Into a statement of a nested block.
    Stmt(&'a Node<Stmt>),
    /// Onto a name kept as text: the descent ends with an identifier made up
    /// for it.
    Name(&'a Node<String>),
    /// Into a type annotation: the descent ends with an identifier made up
    /// for the named type under the position, or with nothing.
    Type(&'a Node<Type>),
}

/// The first of two tries that found a child.
pub open spec fn first_of<'a>(first: Option<Step<'a>>, then: Option<Step<'a>>) -> Option<
    Step<'a>,
> {
    if first is Some {
        first
    } else {
        then
    }
}

/// Tries one child expression.
pub open spec fn at<'a>(child: &'a Node<Expr>, pos: &Position) -> Option<Step<'a>> {
    if child.span.contains(pos) {
        Some(Step::Expr(child))
    } else {
        None
    }
}

/// Tries a child expression that may be missing.
pub open spec fn at_opt<'a>(child: &'a Option<NodeRef<Expr>>, pos: &Position) -> Option<
    Step<'a>,
> {
    match child {
        Some(child) => at(&**child, pos),
        None => None,
    }
}

/// Tries a list of child expressions.
pub open spec fn at_first<'a>(children: &'a Vec<Node<Expr>>, pos: &Position) -> Option<Step<'a>> {
    let i = first_hit(children@, pos);
    if 0 <= i < children@.len() {
        Some(Step::Expr(&children@[i]))
    } else {
        None
    }
}

/// Tries a list of child expressions of which some may be missing.
pub open spec fn at_first_opt<'a>(
    children: &'a Vec<Option<Node<Expr>>>,
    pos: &Position,
) -> Option<Step<'a>> {
    let i = first_hit_opt(children@, pos);
    if 0 <= i < children@.len() && children@[i] is Some {
        Some(Step::Expr(&children@[i]->0))
    } else {
        None
    }
}

/// Tries the entries of a config.
pub open spec fn at_first_entry<'a>(
    items: &'a Vec<Node<ConfigEntry>>,
    pos: &Position,
) -> Option<Step<'a>> {
    let i = first_hit(items@, pos);
    if 0 <= i < items@.len() {
        Some(Step::Entry(&items@[i]))
    } else {
        None
    }
}

/// Tries the statements of a block.
pub open spec fn at_first_stmt<'a>(stmts: &'a Vec<Node<Stmt>>, pos: &Position) -> Option<
    Step<'a>,
> {
    let i = first_hit(stmts@, pos);
    if 0 <= i < stmts@.len() {
        Some(Step::Stmt(&stmts@[i]))
    } else {
        None
    }
}

/// Tries a name kept as text.
pub open spec fn at_name<'a>(name: &'a Node<String>, pos: &Position) -> Option<Step<'a>> {
    if name.span.contains(pos) {
        Some(Step::Name(name))
    } else {
        None
    }
}

/// Tries a list of names kept as text of which some may be missing.
pub open spec fn at_first_name<'a>(
    names: &'a Vec<Option<Node<String>>>,
    pos: &Position,
) -> Option<Step<'a>> {
    let i = first_hit_opt(names@, pos);
    if 0 <= i < names@.len() && names@[i] is Some {
        Some(Step::Name(&names@[i]->0))
    } else {
        None
    }
}

/// Tries a type annotation.
pub open spec fn at_type<'a>(ty: &'a Node<Type>, pos: &Position) -> Option<Step<'a>> {
    if ty.span.contains(pos) {
        Some(Step::Type(ty))
    } else {
        None
    }
}

/// The child that was found, or the end of the descent.
pub open spec fn or_stop<'a>(found: Option<Step<'a>>) -> Step<'a> {
    match found {
        Some(step) => step,
        None => Step::Stop,
    }
}

/// The step from an expression that holds `pos`.
///
/// Only a schema instantiation hands out [`Step::Body`], and only for its
/// config body, which it tries last. A dict comprehension is never entered.
pub open spec fn expr_step<'a>(expr: &'a Node<Expr>, pos: &Position) -> Step<'a> {
    match &expr.node {
        Expr::Identifier(_) => Step::Stop,
        Expr::Selector(selector) => or_stop(
            first_of(at(&*selector.attr, pos), at(&*selector.value, pos)),
        ),
        Expr::Schema(schema) => or_stop(
            first_of(
                at(&*schema.name, pos),
                first_of(
                    at_first(&schema.args, pos),
                    first_of(
                        at_first(&schema.kwargs, pos),
                        if schema.config.span.contains(pos) {
                            Some(Step::Body(&*schema.config))
                        } else {
                            None
                        },
                    ),
                ),
            ),
        ),
        Expr::Config(config) => or_stop(at_first_entry(&config.items, pos)),
        Expr::Unary(unary) => or_stop(at(&*unary.operand, pos)),
        Expr::Binary(binary) => or_stop(first_of(at(&*binary.left, pos), at(&*binary.right, pos))),
        Expr::If(if_expr) => or_stop(
            first_of(
                at(&*if_expr.body, pos),
                first_of(at(&*if_expr.cond, pos), at(&*if_expr.orelse, pos)),
            ),
        ),
        Expr::Call(call) => or_stop(
            first_of(
                at_first(&call.args, pos),
                first_of(at_first(&call.keywords, pos), at(&*call.func, pos)),
            ),
        ),
        Expr::Paren(paren) => or_stop(at(&*paren.expr, pos)),
        Expr::Quant(quant) => or_stop(
            first_of(
                at(&*quant.target, pos),
                first_of(
                    at_first(&quant.variables, pos),
                    first_of(at(&*quant.test, pos), at_opt(&quant.if_cond, pos)),
                ),
            ),
        ),
        Expr::List(list) => or_stop(at_first(&list.elts, pos)),
        Expr::ListIfItem(item) => or_stop(
            first_of(
                at(&*item.if_cond, pos),
                first_of(at_first(&item.exprs, pos), at_opt(&item.orelse, pos)),
            ),
        ),
        Expr::ListComp(comp) => or_stop(
            first_of(at(&*comp.elt, pos), at_first(&comp.generators, pos)),
        ),
        Expr::Starred(starred) => or_stop(at(&*starred.value, pos)),
        Expr::DictComp(_) => Step::Stop,
        Expr::ConfigIfEntry(entry) => or_stop(
            first_of(
                at(&*entry.if_cond, pos),
                first_of(at_first_entry(&entry.items, pos), at_opt(&entry.orelse, pos)),
            ),
        ),
        Expr::CompClause(clause) => or_stop(
            first_of(
                at_first(&clause.targets, pos),
                first_of(at(&*clause.iter, pos), at_first(&clause.ifs, pos)),
            ),
        ),
        Expr::Check(check) => or_stop(
            first_of(
                at(&*check.test, pos),
                first_of(at_opt(&check.if_cond, pos), at_opt(&check.msg, pos)),
            ),
        ),
        Expr::Lambda(lambda) => or_stop(
            first_of(at_opt(&lambda.args, pos), at_first_stmt(&lambda.body, pos)),
        ),
        Expr::Subscript(subscript) => or_stop(
            first_of(
                at(&*subscript.value, pos),
                first_of(
                    at_opt(&subscript.index, pos),
                    first_of(
                        at_opt(&subscript.lower, pos),
                        first_of(at_opt(&subscript.upper, pos), at_opt(&subscript.step, pos)),
                    ),
                ),
            ),
        ),
        Expr::Keyword(keyword) => or_stop(
            first_of(at(&*keyword.arg, pos), at_opt(&keyword.value, pos)),
        ),
        Expr::Arguments(arguments) => or_stop(
            first_of(
                at_first(&arguments.args, pos),
                first_of(
                    at_first_opt(&arguments.defaults, pos),
                    at_first_name(&arguments.type_annotation_list, pos),
                ),
            ),
        ),
        Expr::Compare(compare) => or_stop(
            first_of(at(&*compare.left, pos), at_first(&compare.comparators, pos)),
        ),
        Expr::NumberLit(_) => Step::Stop,
        Expr::StringLit(_) => Step::Stop,
        Expr::NameConstantLit(_) => Step::Stop,
        Expr::JoinedString(joined) => or_stop(at_first(&joined.values, pos)),
        Expr::FormattedValue(formatted) => or_stop(at(&*formatted.value, pos)),
        Expr::Missing => Step::Stop,
    }
}

/// The step from a statement that holds `pos`.
///
/// An assignment with a type annotation steps onto the annotation wherever
/// in the statement the position is: before its value and its targets are
/// looked at. An import is never entered.
pub open spec fn stmt_step<'a>(stmt: &'a Stmt, pos: &Position) -> Step<'a> {
    match stmt {
        Stmt::Assign(assign) => match &assign.type_annotation {
            Some(annotation) => Step::Name(annotation),
            None => or_stop(first_of(at(&*assign.value, pos), at_first(&assign.targets, pos))),
        },
        Stmt::TypeAlias(alias) => or_stop(at(&*alias.name, pos)),
        Stmt::Expr(exprs) => or_stop(at_first(&exprs.exprs, pos)),
        Stmt::Unification(unification) => or_stop(
            first_of(at(&*unification.target, pos), at(&*unification.value, pos)),
        ),
        Stmt::AugAssign(aug) => or_stop(first_of(at(&*aug.value, pos), at(&*aug.target, pos))),
        Stmt::Assert(assert_stmt) => or_stop(
            first_of(
                at(&*assert_stmt.test, pos),
                first_of(at_opt(&assert_stmt.if_cond, pos), at_opt(&assert_stmt.msg, pos)),
            ),
        ),
        Stmt::If(if_stmt) => or_stop(
            first_of(
                at(&*if_stmt.cond, pos),
                first_of(at_first_stmt(&if_stmt.body, pos), at_first_stmt(&if_stmt.orelse, pos)),
            ),
        ),
        Stmt::Schema(schema) => or_stop(
            first_of(
                at_name(&schema.name, pos),
                first_of(
                    at_opt(&schema.parent_name, pos),
                    first_of(
                        at_opt(&schema.for_host_name, pos),
                        first_of(
                            at_first(&schema.mixins, pos),
                            first_of(
                                at_first_stmt(&schema.body, pos),
                                first_of(
                                    at_first(&schema.decorators, pos),
                                    at_first(&schema.checks, pos),
                                ),
                            ),
                        ),
                    ),
                ),
            ),
        ),
        Stmt::SchemaAttr(attr) => or_stop(
            first_of(
                at_type(&*attr.ty, pos),
                first_of(at_opt(&attr.value, pos), at_first(&attr.decorators, pos)),
            ),
        ),
        Stmt::Rule(rule) => or_stop(
            first_of(
                at_first(&rule.parent_rules, pos),
                first_of(at_first(&rule.decorators, pos), at_first(&rule.checks, pos)),
            ),
        ),
        Stmt::Import(_) => Step::Stop,
    }
}

/// What a step enters is a part of the expression it starts from.
pub proof fn lemma_expr_step_inside(expr: &Node<Expr>, pos: &Position)
    ensures
        match expr_step(expr, pos) {
            Step::Stop => true,
            Step::Expr(child) => decreases_to!(expr => child) && child.span.contains(pos),
            Step::Body(child) => decreases_to!(expr => child) && child.span.contains(pos),
            Step::Entry(entry) => decreases_to!(expr => entry) && entry.span.contains(pos),
            Step::Stmt(stmt) => decreases_to!(expr => stmt) && stmt.span.contains(pos),
            Step::Name(name) => name.span.contains(pos),
            Step::Type(_) => false,
        },
{
    broadcast use {crate::scan::lemma_first_hit, crate::scan::lemma_first_hit_opt};

}

/// What a step enters is a part of the statement it starts from.
pub proof fn lemma_stmt_step_inside(stmt: &Stmt, pos: &Position)
    ensures
        match stmt_step(stmt, pos) {
            Step::Stop => true,
            Step::Expr(child) => decreases_to!(stmt => child) && child.span.contains(pos),
            Step::Body(_) => false,
            Step::Entry(_) => false,
            Step::Stmt(inner) => decreases_to!(stmt => inner) && inner.span.contains(pos),
            Step::Name(_) => true,
            Step::Type(ty) => ty.span.contains(pos),
        },
{
    broadcast use {crate::scan::lemma_first_hit, crate::scan::lemma_first_hit_opt};

}

/// Tries a child expression that may be missing.
fn take_opt<'a>(child: &'a Option<NodeRef<Expr>>, pos: &Position) -> (found: Option<Step<'a>>)
    ensures
        found == at_opt(child, pos),
{
    match child {
        Some(child) => {
            if child.span.contains_pos(pos) {
                Some(Step::Expr(child))
            } else {
                None
            }
        },
        None => None,
    }
}

/// Tries a list of child expressions.
fn take_first<'a>(children: &'a Vec<Node<Expr>>, pos: &Position) -> (found: Option<Step<'a>>)
    ensures
        found == at_first(children, pos),
{
    let i = find_hit(children, pos);
    if i < children.len() {
        Some(Step::Expr(&children[i]))
    } else {
        None
    }
}

/// Tries the entries of a config.
fn take_first_entry<'a>(items: &'a Vec<Node<ConfigEntry>>, pos: &Position) -> (found: Option<
    Step<'a>,
>)
    ensures
        found == at_first_entry(items, pos),
{
    let i = find_hit(items, pos);
    if i < items.len() {
        Some(Step::Entry(&items[i]))
    } else {
        None
    }
}

/// Tries the statements of a block.
fn take_first_stmt<'a>(stmts: &'a Vec<Node<Stmt>>, pos: &Position) -> (found: Option<Step<'a>>)
    ensures
        found == at_first_stmt(stmts, pos),
{
    let i = find_hit(stmts, pos);
    if i < stmts.len() {
        Some(Step::Stmt(&stmts[i]))
    } else {
        None
    }
}

/// Tries the default values and then the type annotations of an argument
/// list.
fn take_default_or_annotation<'a>(
    defaults: &'a Vec<Option<Node<Expr>>>,
    annotations: &'a Vec<Option<Node<String>>>,
    pos: &Position,
) -> (found: Option<Step<'a>>)
    ensures
        found == first_of(at_first_opt(defaults, pos), at_first_name(annotations, pos)),
{
    let i = find_hit_opt(defaults, pos);
    if i < defaults.len() {
        if let Some(default) = &defaults[i] {
            return Some(Step::Expr(default));
        }
    }
    let j = find_hit_opt(annotations, pos);
    if j < annotations.len() {
        if let Some(annotation) = &annotations[j] {
            return Some(Step::Name(annotation));
        }
    }
    None
}

/// Takes the step from an expression.
pub fn take_expr_step<'a>(expr: &'a Node<Expr>, pos: &Position) -> (step: Step<'a>)
    ensures
        step == expr_step(expr, pos),
{
    match &expr.node {
        Expr::Identifier(_) => Step::Stop,
        Expr::Selector(selector) => {
            if selector.attr.span.contains_pos(pos) {
                return Step::Expr(&selector.attr);
            }
            if selector.value.span.contains_pos(pos) {
                return Step::Expr(&selector.value);
            }
            Step::Stop
        },
        Expr::Schema(schema) => {
            if schema.name.span.contains_pos(pos) {
                return Step::Expr(&schema.name);
            }
            if let Some(step) = take_first(&schema.args, pos) {
                return step;
            }
            if let Some(step) = take_first(&schema.kwargs, pos) {
                return step;
            }
            if schema.config.span.contains_pos(pos) {
                return Step::Body(&schema.config);
            }
            Step::Stop
        },
        Expr::Config(config) => {
            if let Some(step) = take_first_entry(&config.items, pos) {
                return step;
            }
            Step::Stop
        },
        Expr::Unary(unary) => {
            if unary.operand.span.contains_pos(pos) {
                return Step::Expr(&unary.operand);
            }
            Step::Stop
        },
        Expr::Binary(binary) => {
            if binary.left.span.contains_pos(pos) {
                return Step::Expr(&binary.left);
            }
            if binary.right.span.contains_pos(pos) {
                return Step::Expr(&binary.right);
            }
            Step::Stop
        },
        Expr::If(if_expr) => {
            if if_expr.body.span.contains_pos(pos) {
                return Step::Expr(&if_expr.body);
            }
            if if_expr.cond.span.contains_pos(pos) {
                return Step::Expr(&if_expr.cond);
            }
            if if_expr.orelse.span.contains_pos(pos) {
                return Step::Expr(&if_expr.orelse);
            }
            Step::Stop
        },
        Expr::Call(call) => {
            if let Some(step) = take_first(&call.args, pos) {
                return step;
            }
            if let Some(step) = take_first(&call.keywords, pos) {
                return step;
            }
            if call.func.span.contains_pos(pos) {
                return Step::Expr(&call.func);
            }
            Step::Stop
        },
        Expr::Paren(paren) => {
            if paren.expr.span.contains_pos(pos) {
                return Step::Expr(&paren.expr);
            }
            Step::Stop
        },
        Expr::Quant(quant) => {
            if quant.target.span.contains_pos(pos) {
                return Step::Expr(&quant.target);
            }
            if let Some(step) = take_first(&quant.variables, pos) {
                return step;
            }
            if quant.test.span.contains_pos(pos) {
                return Step::Expr(&quant.test);
            }
            if let Some(step) = take_opt(&quant.if_cond, pos) {
                return step;
            }
            Step::Stop
        },
        Expr::List(list) => {
            if let Some(step) = take_first(&list.elts, pos) {
                return step;
            }
            Step::Stop
        },
        Expr::ListIfItem(item) => {
            if item.if_cond.span.contains_pos(pos) {
                return Step::Expr(&item.if_cond);
            }
            if let Some(step) = take_first(&item.exprs, pos) {
                return step;
            }
            if let Some(step) = take_opt(&item.orelse, pos) {
                return step;
            }
            Step::Stop
        },
        Expr::ListComp(comp) => {
            if comp.elt.span.contains_pos(pos) {
                return Step::Expr(&comp.elt);
            }
            if let Some(step) = take_first(&comp.generators, pos) {
                return step;
            }
            Step::Stop
        },
        Expr::Starred(starred) => {
            if starred.value.span.contains_pos(pos) {
                return Step::Expr(&starred.value);
            }
            Step::Stop
        },
        Expr::DictComp(_) => Step::Stop,
        Expr::ConfigIfEntry(entry) => {
            if entry.if_cond.span.contains_pos(pos) {
                return Step::Expr(&entry.if_cond);
            }
            if let Some(step) = take_first_entry(&entry.items, pos) {
                return step;
            }
            if let Some(step) = take_opt(&entry.orelse, pos) {
                return step;
            }
            Step::Stop
        },
        Expr::CompClause(clause) => {
            if let Some(step) = take_first(&clause.targets, pos) {
                return step;
            }
            if clause.iter.span.contains_pos(pos) {
                return Step::Expr(&clause.iter);
            }
            if let Some(step) = take_first(&clause.ifs, pos) {
                return step;
            }
            Step::Stop
        },
        Expr::Check(check) => {
            if check.test.span.contains_pos(pos) {
                return Step::Expr(&check.test);
            }
            if let Some(step) = take_opt(&check.if_cond, pos) {
                return step;
            }
            if let Some(step) = take_opt(&check.msg, pos) {
                return step;
            }
            Step::Stop
        },
        Expr::Lambda(lambda) => {
            if let Some(step) = take_opt(&lambda.args, pos) {
                return step;
            }
            if let Some(step) = take_first_stmt(&lambda.body, pos) {
                return step;
            }
            Step::Stop
        },
        Expr::Subscript(subscript) => {
            if subscript.value.span.contains_pos(pos) {
                return Step::Expr(&subscript.value);
            }
            if let Some(step) = take_opt(&subscript.index, pos) {
                return step;
            }
            if let Some(step) = take_opt(&subscript.lower, pos) {
                return step;
            }
            if let Some(step) = take_opt(&subscript.upper, pos) {
                return step;
            }
            if let Some(step) = take_opt(&subscript.step, pos) {
                return step;
            }
            Step::Stop
        },
        Expr::Keyword(keyword) => {
            if keyword.arg.span.contains_pos(pos) {
                return Step::Expr(&keyword.arg);
            }
            if let Some(step) = take_opt(&keyword.value, pos) {
                return step;
            }
            Step::Stop
        },
        Expr::Arguments(arguments) => {
            if let Some(step) = take_first(&arguments.args, pos) {
                return step;
            }
            if let Some(step) = take_default_or_annotation(
                &arguments.defaults,
                &arguments.type_annotation_list,
                pos,
            ) {
                return step;
            }
            Step::Stop
        },
        Expr::Compare(compare) => {
            if compare.left.span.contains_pos(pos) {
                return Step::Expr(&compare.left);
            }
            if let Some(step) = take_first(&compare.comparators, pos) {
                return step;
            }
            Step::Stop
        },
        Expr::NumberLit(_) => Step::Stop,
        Expr::StringLit(_) => Step::Stop,
        Expr::NameConstantLit(_) => Step::Stop,
        Expr::JoinedString(joined) => {
            if let Some(step) = take_first(&joined.values, pos) {
                return step;
            }
            Step::Stop
        },
        Expr::FormattedValue(formatted) => {
            if formatted.value.span.contains_pos(pos) {
                return Step::Expr(&formatted.value);
            }
            Step::Stop
        },
        Expr::Missing => Step::Stop,
    }
}

/// Takes the step from a statement.
pub fn take_stmt_step<'a>(stmt: &'a Stmt, pos: &Position) -> (step: Step<'a>)
    ensures
        step == stmt_step(stmt, pos),
{
    match stmt {
        Stmt::Assign(assign) => {
            if let Some(annotation) = &assign.type_annotation {
                return Step::Name(annotation);
            }
            if assign.value.span.contains_pos(pos) {
                return Step::Expr(&assign.value);
            }
            if let Some(step) = take_first(&assign.targets, pos) {
                return step;
            }
            Step::Stop
        },
        Stmt::TypeAlias(alias) => {
            if alias.name.span.contains_pos(pos) {
                return Step::Expr(&alias.name);
            }
            Step::Stop
        },
        Stmt::Expr(exprs) => {
            if let Some(step) = take_first(&exprs.exprs, pos) {
                return step;
            }
            Step::Stop
        },
        Stmt::Unification(unification) => {
            if unification.target.span.contains_pos(pos) {
                return Step::Expr(&unification.target);
            }
            if unification.value.span.contains_pos(pos) {
                return Step::Expr(&unification.value);
            }
            Step::Stop
        },
        Stmt::AugAssign(aug) => {
            if aug.value.span.contains_pos(pos) {
                return Step::Expr(&aug.value);
            }
            if aug.target.span.contains_pos(pos) {
                return Step::Expr(&aug.target);
            }
            Step::Stop
        },
        Stmt::Assert(assert_stmt) => {
            if assert_stmt.test.span.contains_pos(pos) {
                return Step::Expr(&assert_stmt.test);
            }
            if let Some(step) = take_opt(&assert_stmt.if_cond, pos) {
                return step;
            }
            if let Some(step) = take_opt(&assert_stmt.msg, pos) {
                return step;
            }
            Step::Stop
        },
        Stmt::If(if_stmt) => {
            if if_stmt.cond.span.contains_pos(pos) {
                return Step::Expr(&if_stmt.cond);
            }
            if let Some(step) = take_first_stmt(&if_stmt.body, pos) {
                return step;
            }
            if let Some(step) = take_first_stmt(&if_stmt.orelse, pos) {
                return step;
            }
            Step::Stop
        },
        Stmt::Schema(schema) => {
            if schema.name.span.contains_pos(pos) {
                return Step::Name(&schema.name);
            }
            if let Some(step) = take_opt(&schema.parent_name, pos) {
                return step;
            }
            if let Some(step) = take_opt(&schema.for_host_name, pos) {
                return step;
            }
            if let Some(step) = take_first(&schema.mixins, pos) {
                return step;
            }
            if let Some(step) = take_first_stmt(&schema.body, pos) {
                return step;
            }
            if let Some(step) = take_first(&schema.decorators, pos) {
                return step;
            }
            if let Some(step) = take_first(&schema.checks, pos) {
                return step;
            }
            Step::Stop
        },
        Stmt::SchemaAttr(attr) => {
            if attr.ty.span.contains_pos(pos) {
                return Step::Type(&attr.ty);
            }
            if let Some(step) = take_opt(&attr.value, pos) {
                return step;
            }
            if let Some(step) = take_first(&attr.decorators, pos) {
                return step;
            }
            Step::Stop
        },
        Stmt::Rule(rule) => {
            if let Some(step) = take_first(&rule.parent_rules, pos) {
                return step;
            }
            if let Some(step) = take_first(&rule.decorators, pos) {
                return step;
            }
            if let Some(step) = take_first(&rule.checks, pos) {
                return step;
            }
            Step::Stop
        },
        Stmt::Import(_) => Step::Stop,
    }
}

} // verus!
