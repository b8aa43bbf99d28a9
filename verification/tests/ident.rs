use kcl_lsp_core::ast::{
    BasicType, DictType, ExprContext, Identifier, ListType, LiteralType, Node, Type, UnionType,
};
use kcl_lsp_core::ident::{
    build_identifier_from_string, build_identifier_from_ty_string, duplicate_identifier,
};
use kcl_lsp_core::position::{Position, Span};

fn on(line: u32, from: u32, to: u32) -> Span {
    Span { file: "main.k".to_string(), start_line: line, start_column: from, end_line: line, end_column: to }
}

fn at(line: u32, column: u32) -> Position {
    Position { file: "main.k".to_string(), line, column: Some(column) }
}

fn id(names: &[&str], pkgpath: &str) -> Identifier {
    Identifier {
        names: names.iter().map(|n| n.to_string()).collect(),
        pkgpath: pkgpath.to_string(),
        ctx: ExprContext::Load,
    }
}

fn named(name: &str, span: Span) -> Node<Type> {
    Node { node: Type::Named(id(&[name], "")), span }
}

fn basic(ty: BasicType, span: Span) -> Node<Type> {
    Node { node: Type::Basic(ty), span }
}

fn dict(key: Option<Node<Type>>, value: Option<Node<Type>>, span: Span) -> Node<Type> {
    Node {
        node: Type::Dict(DictType { key_type: key.map(Box::new), value_type: value.map(Box::new) }),
        span,
    }
}

fn list(inner: Option<Node<Type>>, span: Span) -> Node<Type> {
    Node { node: Type::List(ListType { inner_type: inner.map(Box::new) }), span }
}

fn union(elements: Vec<Node<Type>>, span: Span) -> Node<Type> {
    Node { node: Type::Union(UnionType { type_elements: elements }), span }
}

#[test]
fn identifier_from_a_name_has_that_one_name_and_its_span() {
    let name = Node { node: "Person".to_string(), span: on(3, 7, 13) };
    let made_up = build_identifier_from_string(&name);
    assert_eq!(made_up.node.names, vec!["Person".to_string()]);
    assert_eq!(made_up.node.pkgpath, "");
    assert_eq!(made_up.node.ctx, ExprContext::Load);
    assert_eq!(made_up.span, on(3, 7, 13));
}

#[test]
fn identifier_from_an_empty_name_has_one_empty_name() {
    let name = Node { node: String::new(), span: on(1, 0, 0) };
    assert_eq!(build_identifier_from_string(&name).node.names, vec![String::new()]);
}

#[test]
fn named_value_type_of_a_dict_gives_an_identifier_with_its_span() {
    // {str:Foo}
    let ty = dict(
        Some(basic(BasicType::Str, on(1, 1, 4))),
        Some(named("Foo", on(1, 5, 8))),
        on(1, 0, 9),
    );
    for column in [5, 6, 8] {
        let made_up = build_identifier_from_ty_string(&ty, &at(1, column)).unwrap();
        assert_eq!(made_up.node, id(&["Foo"], ""));
        assert_eq!(made_up.span, on(1, 5, 8));
    }
    // In the key, which is `str`; on the braces; outside.
    assert_eq!(build_identifier_from_ty_string(&ty, &at(1, 2)), None);
    assert_eq!(build_identifier_from_ty_string(&ty, &at(1, 0)), None);
    assert_eq!(build_identifier_from_ty_string(&ty, &at(1, 9)), None);
    assert_eq!(build_identifier_from_ty_string(&ty, &at(1, 10)), None);
    assert_eq!(build_identifier_from_ty_string(&ty, &at(2, 6)), None);
}

#[test]
fn named_type_keeps_all_its_names_and_its_package() {
    let ty = Node { node: Type::Named(id(&["pkg", "Name"], "some.pkg")), span: on(1, 0, 8) };
    let made_up = build_identifier_from_ty_string(&ty, &at(1, 4)).unwrap();
    assert_eq!(made_up.node, id(&["pkg", "Name"], "some.pkg"));
    assert_eq!(made_up.span, on(1, 0, 8));
}

#[test]
fn key_type_of_a_dict_comes_before_its_value_type() {
    let ty = dict(Some(named("Key", on(1, 1, 8))), Some(named("Value", on(1, 1, 8))), on(1, 0, 9));
    let made_up = build_identifier_from_ty_string(&ty, &at(1, 4)).unwrap();
    assert_eq!(made_up.node, id(&["Key"], ""));
    let keyless = dict(None, Some(named("Value", on(1, 2, 7))), on(1, 0, 8));
    assert_eq!(build_identifier_from_ty_string(&keyless, &at(1, 3)).unwrap().node, id(&["Value"], ""));
    assert_eq!(build_identifier_from_ty_string(&dict(None, None, on(1, 0, 2)), &at(1, 1)), None);
}

#[test]
fn key_type_that_names_nothing_ends_the_descent() {
    // The key holds the position and is no named type: the value is not tried.
    let ty = dict(
        Some(basic(BasicType::Str, on(1, 1, 8))),
        Some(named("Value", on(1, 1, 8))),
        on(1, 0, 9),
    );
    assert_eq!(build_identifier_from_ty_string(&ty, &at(1, 4)), None);
}

#[test]
fn list_goes_on_into_its_element_type() {
    // [[Foo]]
    let ty = list(Some(list(Some(named("Foo", on(1, 2, 5))), on(1, 1, 6))), on(1, 0, 7));
    let made_up = build_identifier_from_ty_string(&ty, &at(1, 3)).unwrap();
    assert_eq!(made_up.node, id(&["Foo"], ""));
    assert_eq!(made_up.span, on(1, 2, 5));
    assert_eq!(build_identifier_from_ty_string(&ty, &at(1, 1)), None);
    assert_eq!(build_identifier_from_ty_string(&list(None, on(1, 0, 2)), &at(1, 1)), None);
}

#[test]
fn union_goes_on_into_the_member_under_the_position() {
    // A | int | B
    let ty = union(
        vec![named("A", on(1, 0, 1)), basic(BasicType::Int, on(1, 4, 7)), named("B", on(1, 10, 11))],
        on(1, 0, 11),
    );
    assert_eq!(build_identifier_from_ty_string(&ty, &at(1, 0)).unwrap().node, id(&["A"], ""));
    let last = build_identifier_from_ty_string(&ty, &at(1, 10)).unwrap();
    assert_eq!(last.node, id(&["B"], ""));
    assert_eq!(last.span, on(1, 10, 11));
    assert_eq!(build_identifier_from_ty_string(&ty, &at(1, 5)), None);
    assert_eq!(build_identifier_from_ty_string(&ty, &at(1, 2)), None);
}

#[test]
fn any_basic_and_literal_types_give_nothing() {
    let types = vec![
        Node { node: Type::Any, span: on(1, 0, 3) },
        basic(BasicType::Bool, on(1, 0, 3)),
        Node { node: Type::Literal(LiteralType::Str("abc".to_string())), span: on(1, 0, 3) },
        Node { node: Type::Literal(LiteralType::Int(1, None)), span: on(1, 0, 3) },
    ];
    for ty in &types {
        assert_eq!(build_identifier_from_ty_string(ty, &at(1, 1)), None);
    }
}

#[test]
fn duplicate_of_an_identifier_is_equal_to_it() {
    let dotted = id(&["a", "b", "c"], "pkg");
    assert_eq!(duplicate_identifier(&dotted), dotted);
    let empty = id(&[], "");
    assert_eq!(duplicate_identifier(&empty), empty);
}
