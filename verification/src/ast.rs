//! The syntax tree that the navigator walks.
//!
//! Every node carries its span and owns its children. A slot that the grammar
//! fills with an identifier, a keyword argument, a call, a check, a
//! comprehension clause, an argument list or a schema instantiation holds an
//! expression node like any other slot: those forms are variants of [`Expr`].
//! Names and type annotations that are plain text in the source are
//! `Node<String>`, and parsed types are `Node<Type>`.

use vstd::prelude::*;
use crate::position::Span;

verus! {

/// A piece of syntax together with the place it was read from.
#[derive(Clone, Debug, PartialEq)]
pub struct Node<T> {
    pub node: T,
    pub span: Span,
}

pub type NodeRef<T> = Box<Node<T>>;

/// How an identifier or a subscript is used.
#[derive(Clone, Copy, Debug, PartialEq, Eq)]
pub enum ExprContext {
    Load,
    Store,
}

#[derive(Clone, Copy, Debug, PartialEq, Eq)]
pub enum UnaryOp {
    UAdd,
    USub,
    Invert,
    Not,
}

#[derive(Clone, Copy, Debug, PartialEq, Eq)]
pub enum BinOp {
    Add,
    Sub,
    Mul,
    Div,
    Mod,
    Pow,
    FloorDiv,
    LShift,
    RShift,
    BitXor,
    BitAnd,
    BitOr,
    And,
    Or,
    As,
}

#[derive(Clone, Copy, Debug, PartialEq, Eq)]
pub enum CmpOp {
    Eq,
    NotEq,
    Lt,
    LtE,
    Gt,
    GtE,
    Is,
    In,
    NotIn,
    Not,
    IsNot,
}

#[derive(Clone, Copy, Debug, PartialEq, Eq)]
pub enum AugOp {
    Assign,
    Add,
    Sub,
    Mul,
    Div,
    Mod,
    Pow,
    FloorDiv,
    LShift,
    RShift,
    BitXor,
    BitAnd,
    BitOr,
}

#[derive(Clone, Copy, Debug, PartialEq, Eq)]
pub enum BinOrCmpOp {
    Bin(BinOp),
    Cmp(CmpOp),
}

#[derive(Clone, Copy, Debug, PartialEq, Eq)]
pub enum BinOrAugOp {
    Bin(BinOp),
    Aug(AugOp),
}

#[derive(Clone, Copy, Debug, PartialEq, Eq)]
pub enum QuantOperation {
    All,
    Any,
    Filter,
    Transform,
}

#[derive(Clone, Copy, Debug, PartialEq, Eq)]
pub enum ConfigEntryOperation {
    Union,
    Override,
    Insert,
}

#[derive(Clone, Copy, Debug, PartialEq, Eq)]
pub enum NameConstant {
    True,
    False,
    Nothing,
    Undefined,
}

/// The unit written behind a number, as in `1Ki`: `n`, `u`, `m`, `k`, `K`,
/// `M`, `G`, `T`, `P`, `Ki`, `Mi`, `Gi`, `Ti`, `Pi`, in this order.
#[derive(Clone, Copy, Debug, PartialEq, Eq)]
pub enum NumberBinarySuffix {
    Nano,
    Micro,
    Milli,
    Kilo,
    KiloUpper,
    Mega,
    Giga,
    Tera,
    Peta,
    Kibi,
    Mebi,
    Gibi,
    Tebi,
    Pebi,
}

/// The value of a number literal. A floating-point value is kept as the bits
/// of its IEEE 754 double.
#[derive(Clone, Copy, Debug, PartialEq, Eq)]
pub enum NumberLitValue {
    Int(i64),
    Float { bits: u64 },
}

#[derive(Clone, Copy, Debug, PartialEq, Eq)]
pub enum BasicType {
    Bool,
    Int,
    Float,
    Str,
}

/// A dotted name, with the package it was resolved to if any.
#[derive(Clone, Debug, PartialEq)]
pub struct Identifier {
    pub names: Vec<String>,
    pub pkgpath: String,
    pub ctx: ExprContext,
}

#[derive(Debug, PartialEq)]
pub struct UnaryExpr {
    pub op: UnaryOp,
    pub operand: NodeRef<Expr>,
}

#[derive(Debug, PartialEq)]
pub struct BinaryExpr {
    pub left: NodeRef<Expr>,
    pub op: BinOrCmpOp,
    pub right: NodeRef<Expr>,
}

/// `body if cond else orelse`.
#[derive(Debug, PartialEq)]
pub struct IfExpr {
    pub body: NodeRef<Expr>,
    pub cond: NodeRef<Expr>,
    pub orelse: NodeRef<Expr>,
}

/// `value.attr` or `value?.attr`; `attr` is an identifier.
#[derive(Debug, PartialEq)]
pub struct SelectorExpr {
    pub value: NodeRef<Expr>,
    pub attr: NodeRef<Expr>,
    pub ctx: ExprContext,
    pub has_question: bool,
}

/// `func(args, keywords)`; each of `keywords` is a keyword argument.
#[derive(Debug, PartialEq)]
pub struct CallExpr {
    pub func: NodeRef<Expr>,
    pub args: Vec<Node<Expr>>,
    pub keywords: Vec<Node<Expr>>,
}

#[derive(Debug, PartialEq)]
pub struct ParenExpr {
    pub expr: NodeRef<Expr>,
}

/// `all x, y in target { test if if_cond }`; each of `variables` is an
/// identifier.
#[derive(Debug, PartialEq)]
pub struct QuantExpr {
    pub target: NodeRef<Expr>,
    pub variables: Vec<Node<Expr>>,
    pub op: QuantOperation,
    pub test: NodeRef<Expr>,
    pub if_cond: Option<NodeRef<Expr>>,
    pub ctx: ExprContext,
}

#[derive(Debug, PartialEq)]
pub struct ListExpr {
    pub elts: Vec<Node<Expr>>,
    pub ctx: ExprContext,
}

/// `if if_cond: exprs else: orelse` among the items of a list.
#[derive(Debug, PartialEq)]
pub struct ListIfItemExpr {
    pub if_cond: NodeRef<Expr>,
    pub exprs: Vec<Node<Expr>>,
    pub orelse: Option<NodeRef<Expr>>,
}

/// `[elt for ... in ...]`; each of `generators` is a comprehension clause.
#[derive(Debug, PartialEq)]
pub struct ListComp {
    pub elt: NodeRef<Expr>,
    pub generators: Vec<Node<Expr>>,
}

#[derive(Debug, PartialEq)]
pub struct StarredExpr {
    pub value: NodeRef<Expr>,
    pub ctx: ExprContext,
}

/// `{key: value for ... in ...}`.
#[derive(Debug, PartialEq)]
pub struct DictComp {
    pub entry: ConfigEntry,
    pub generators: Vec<Node<Expr>>,
}

/// `if if_cond: items else: orelse` among the entries of a config.
#[derive(Debug, PartialEq)]
pub struct ConfigIfEntryExpr {
    pub if_cond: NodeRef<Expr>,
    pub items: Vec<Node<ConfigEntry>>,
    pub orelse: Option<NodeRef<Expr>>,
}

/// `for targets in iter if ifs`; each of `targets` is an identifier.
#[derive(Debug, PartialEq)]
pub struct CompClause {
    pub targets: Vec<Node<Expr>>,
    pub iter: NodeRef<Expr>,
    pub ifs: Vec<Node<Expr>>,
}

/// `name(args, kwargs) { config }`: a schema instantiation. `name` is an
/// identifier, each of `kwargs` a keyword argument, `config` the config body.
#[derive(Debug, PartialEq)]
pub struct SchemaExpr {
    pub name: NodeRef<Expr>,
    pub args: Vec<Node<Expr>>,
    pub kwargs: Vec<Node<Expr>>,
    pub config: NodeRef<Expr>,
}

#[derive(Debug, PartialEq)]
pub struct ConfigExpr {
    pub items: Vec<Node<ConfigEntry>>,
}

/// One `key: value` of a config. An entry that unpacks a value has no key.
#[derive(Debug, PartialEq)]
pub struct ConfigEntry {
    pub key: Option<NodeRef<Expr>>,
    pub value: NodeRef<Expr>,
    pub operation: ConfigEntryOperation,
    pub insert_index: isize,
}

/// `test if if_cond, msg` in the check block of a schema or a rule.
#[derive(Debug, PartialEq)]
pub struct CheckExpr {
    pub test: NodeRef<Expr>,
    pub if_cond: Option<NodeRef<Expr>>,
    pub msg: Option<NodeRef<Expr>>,
}

/// `lambda args -> return_type { body }`; `args` is an argument list.
#[derive(Debug, PartialEq)]
pub struct LambdaExpr {
    pub args: Option<NodeRef<Expr>>,
    pub return_type_str: Option<String>,
    pub body: Vec<Node<Stmt>>,
    pub return_ty: Option<NodeRef<Type>>,
}

/// `value[index]` or `value[lower:upper:step]`.
#[derive(Debug, PartialEq)]
pub struct Subscript {
    pub value: NodeRef<Expr>,
    pub index: Option<NodeRef<Expr>>,
    pub lower: Option<NodeRef<Expr>>,
    pub upper: Option<NodeRef<Expr>>,
    pub step: Option<NodeRef<Expr>>,
    pub ctx: ExprContext,
    pub has_question: bool,
}

/// `arg=value` in a call; `arg` is an identifier.
#[derive(Debug, PartialEq)]
pub struct Keyword {
    pub arg: NodeRef<Expr>,
    pub value: Option<NodeRef<Expr>>,
}

/// The parameters of a schema, a rule or a lambda. Each of `args` is an
/// identifier; the three other lists run parallel to it.
#[derive(Debug, PartialEq)]
pub struct Arguments {
    pub args: Vec<Node<Expr>>,
    pub defaults: Vec<Option<Node<Expr>>>,
    pub type_annotation_list: Vec<Option<Node<String>>>,
    pub ty_list: Vec<Option<Node<Type>>>,
}

#[derive(Debug, PartialEq)]
pub struct Compare {
    pub left: NodeRef<Expr>,
    pub ops: Vec<CmpOp>,
    pub comparators: Vec<Node<Expr>>,
}

#[derive(Debug, PartialEq)]
pub struct NumberLit {
    pub binary_suffix: Option<NumberBinarySuffix>,
    pub value: NumberLitValue,
}

#[derive(Debug, PartialEq)]
pub struct StringLit {
    pub is_long_string: bool,
    pub raw_value: String,
    pub value: String,
}

#[derive(Debug, PartialEq)]
pub struct NameConstantLit {
    pub value: NameConstant,
}

/// A string with `${...}` parts; each of `values` is a string literal or a
/// formatted value.
#[derive(Debug, PartialEq)]
pub struct JoinedString {
    pub is_long_string: bool,
    pub values: Vec<Node<Expr>>,
    pub raw_value: String,
}

#[derive(Debug, PartialEq)]
pub struct FormattedValue {
    pub is_long_string: bool,
    pub value: NodeRef<Expr>,
    pub format_spec: Option<String>,
}

/// An expression.
#[derive(Debug, PartialEq)]
pub enum Expr {
    Identifier(Identifier),
    Unary(UnaryExpr),
    Binary(BinaryExpr),
    If(IfExpr),
    Selector(SelectorExpr),
    Call(CallExpr),
    Paren(ParenExpr),
    Quant(QuantExpr),
    List(ListExpr),
    ListIfItem(ListIfItemExpr),
    ListComp(ListComp),
    Starred(StarredExpr),
    DictComp(DictComp),
    ConfigIfEntry(ConfigIfEntryExpr),
    CompClause(CompClause),
    Schema(SchemaExpr),
    Config(ConfigExpr),
    Check(CheckExpr),
    Lambda(LambdaExpr),
    Subscript(Subscript),
    Keyword(Keyword),
    Arguments(Arguments),
    Compare(Compare),
    NumberLit(NumberLit),
    StringLit(StringLit),
    NameConstantLit(NameConstantLit),
    JoinedString(JoinedString),
    FormattedValue(FormattedValue),
    /// What the parser leaves where an expression could not be read.
    Missing,
}

#[derive(Debug, PartialEq)]
pub struct ListType {
    pub inner_type: Option<NodeRef<Type>>,
}

#[derive(Debug, PartialEq)]
pub struct DictType {
    pub key_type: Option<NodeRef<Type>>,
    pub value_type: Option<NodeRef<Type>>,
}

#[derive(Debug, PartialEq)]
pub struct UnionType {
    pub type_elements: Vec<Node<Type>>,
}

/// A literal used as a type. A floating-point value is kept as its bits.
#[derive(Debug, PartialEq)]
pub enum LiteralType {
    Bool(bool),
    Int(i64, Option<NumberBinarySuffix>),
    Float { bits: u64 },
    Str(String),
}

/// A type as written in an annotation.
#[derive(Debug, PartialEq)]
pub enum Type {
    Any,
    Named(Identifier),
    Basic(BasicType),
    List(ListType),
    Dict(DictType),
    Union(UnionType),
    Literal(LiteralType),
}

/// `type name = type_value`; `name` is an identifier.
#[derive(Debug, PartialEq)]
pub struct TypeAliasStmt {
    pub name: NodeRef<Expr>,
    pub type_value: Node<String>,
    pub ty: NodeRef<Type>,
}

#[derive(Debug, PartialEq)]
pub struct ExprStmt {
    pub exprs: Vec<Node<Expr>>,
}

/// `target: value`, where `target` is an identifier and `value` a schema
/// instantiation.
#[derive(Debug, PartialEq)]
pub struct UnificationStmt {
    pub target: NodeRef<Expr>,
    pub value: NodeRef<Expr>,
}

/// `a = b: type_annotation = value`; each of `targets` is an identifier.
#[derive(Debug, PartialEq)]
pub struct AssignStmt {
    pub targets: Vec<Node<Expr>>,
    pub value: NodeRef<Expr>,
    pub type_annotation: Option<Node<String>>,
    pub ty: Option<NodeRef<Type>>,
}

/// `target op= value`; `target` is an identifier.
#[derive(Debug, PartialEq)]
pub struct AugAssignStmt {
    pub target: NodeRef<Expr>,
    pub value: NodeRef<Expr>,
    pub op: AugOp,
}

#[derive(Debug, PartialEq)]
pub struct AssertStmt {
    pub test: NodeRef<Expr>,
    pub if_cond: Option<NodeRef<Expr>>,
    pub msg: Option<NodeRef<Expr>>,
}

#[derive(Debug, PartialEq)]
pub struct IfStmt {
    pub body: Vec<Node<Stmt>>,
    pub cond: NodeRef<Expr>,
    pub orelse: Vec<Node<Stmt>>,
}

#[derive(Debug, PartialEq)]
pub struct ImportStmt {
    pub path: String,
    pub rawpath: String,
    pub name: String,
    pub asname: Option<String>,
    pub pkg_name: String,
}

/// `[key_name: key_type]: value_type = value` in a schema.
#[derive(Debug, PartialEq)]
pub struct SchemaIndexSignature {
    pub key_name: Option<String>,
    pub key_type: Node<String>,
    pub value_type: Node<String>,
    pub value: Option<NodeRef<Expr>>,
    pub any_other: bool,
    pub value_ty: NodeRef<Type>,
}

/// A schema definition. `parent_name`, `for_host_name` and each of `mixins`
/// are identifiers, `args` is an argument list, each of `decorators` a call
/// and each of `checks` a check.
#[derive(Debug, PartialEq)]
pub struct SchemaStmt {
    pub doc: String,
    pub name: Node<String>,
    pub parent_name: Option<NodeRef<Expr>>,
    pub for_host_name: Option<NodeRef<Expr>>,
    pub is_mixin: bool,
    pub is_protocol: bool,
    pub args: Option<NodeRef<Expr>>,
    pub mixins: Vec<Node<Expr>>,
    pub body: Vec<Node<Stmt>>,
    pub decorators: Vec<Node<Expr>>,
    pub checks: Vec<Node<Expr>>,
    pub index_signature: Option<Node<SchemaIndexSignature>>,
}

/// An attribute of a schema; each of `decorators` is a call.
#[derive(Debug, PartialEq)]
pub struct SchemaAttr {
    pub doc: String,
    pub name: Node<String>,
    pub type_str: Node<String>,
    pub op: Option<BinOrAugOp>,
    pub value: Option<NodeRef<Expr>>,
    pub is_optional: bool,
    pub decorators: Vec<Node<Expr>>,
    pub ty: NodeRef<Type>,
}

/// A rule definition. Each of `parent_rules` is an identifier, each of
/// `decorators` a call, each of `checks` a check, `args` an argument list and
/// `for_host_name` an identifier.
#[derive(Debug, PartialEq)]
pub struct RuleStmt {
    pub doc: String,
    pub name: Node<String>,
    pub parent_rules: Vec<Node<Expr>>,
    pub decorators: Vec<Node<Expr>>,
    pub checks: Vec<Node<Expr>>,
    pub args: Option<NodeRef<Expr>>,
    pub for_host_name: Option<NodeRef<Expr>>,
}

/// A statement.
#[derive(Debug, PartialEq)]
pub enum Stmt {
    TypeAlias(TypeAliasStmt),
    Expr(ExprStmt),
    Unification(UnificationStmt),
    Assign(AssignStmt),
    AugAssign(AugAssignStmt),
    Assert(AssertStmt),
    If(IfStmt),
    Import(ImportStmt),
    SchemaAttr(SchemaAttr),
    Schema(SchemaStmt),
    Rule(RuleStmt),
}

} // verus!
