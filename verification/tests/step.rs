use kcl_lsp_core::ast::{
    Arguments, AssignStmt, BasicType, ConfigEntry, ConfigEntryOperation, ConfigExpr, Expr,
    ExprContext, ExprStmt, Identifier, ImportStmt, LambdaExpr, Node, SchemaAttr, SchemaExpr, Stmt,
    Type,
};
use kcl_lsp_core::position::{Position, Span};
use kcl_lsp_core::scan::{find_hit, find_hit_opt};
use kcl_lsp_core::step::{take_expr_step, take_stmt_step, Step};

fn on(line: u32, from: u32, to: u32) -> Span {
    Span { file: "main.k".to_string(), start_line: line, start_column: from, end_line: line, end_column: to }
}

fn at(line: u32, column: u32) -> Position {
    Position { file: "main.k".to_string(), line, column: Some(column) }
}

fn ident(name: &str, span: Span) -> Node<Expr> {
    Node {
        node: Expr::Identifier(Identifier {
            names: vec![name.to_string()],
            pkgpath: String::new(),
            ctx: ExprContext::Load,
        }),
        span,
    }
}

fn name(value: &str, span: Span) -> Node<String> {
    Node { node: value.to_string(), span }
}

#[test]
fn first_hit_is_the_first_node_that_holds_the_position() {
    let nodes = vec![ident("a", on(1, 0, 2)), ident("b", on(1, 4, 8)), ident("c", on(1, 6, 9))];
    assert_eq!(find_hit(&nodes, &at(1, 1)), 0);
    assert_eq!(find_hit(&nodes, &at(1, 5)), 1);
    assert_eq!(find_hit(&nodes, &at(1, 7)), 1);
    assert_eq!(find_hit(&nodes, &at(1, 9)), 2);
    assert_eq!(find_hit(&nodes, &at(1, 3)), 3);
    assert_eq!(find_hit(&nodes, &at(2, 1)), 3);
    assert_eq!(find_hit(&Vec::<Node<Expr>>::new(), &at(1, 1)), 0);
}

#[test]
fn first_hit_passes_over_missing_nodes() {
    let nodes = vec![None, Some(ident("a", on(1, 0, 2))), None, Some(ident("b", on(1, 0, 8)))];
    assert_eq!(find_hit_opt(&nodes, &at(1, 1)), 1);
    assert_eq!(find_hit_opt(&nodes, &at(1, 5)), 3);
    assert_eq!(find_hit_opt(&nodes, &at(1, 9)), 4);
    assert_eq!(find_hit_opt(&vec![None::<Node<Expr>>, None], &at(1, 1)), 2);
}

fn instantiation() -> Node<Expr> {
    // Person(a) { k: v }
    Node {
        node: Expr::Schema(SchemaExpr {
            name: Box::new(ident("Person", on(1, 0, 6))),
            args: vec![ident("a", on(1, 7, 8))],
            kwargs: vec![],
            config: Box::new(Node {
                node: Expr::Config(ConfigExpr {
                    items: vec![Node {
                        node: ConfigEntry {
                            key: Some(Box::new(ident("k", on(1, 12, 13)))),
                            value: Box::new(ident("v", on(1, 15, 16))),
                            operation: ConfigEntryOperation::Union,
                            insert_index: -1,
                        },
                        span: on(1, 12, 16),
                    }],
                }),
                span: on(1, 10, 18),
            }),
        }),
        span: on(1, 0, 18),
    }
}

#[test]
fn instantiation_steps_into_its_body_last() {
    let tree = instantiation();
    let parts = match &tree.node {
        Expr::Schema(schema) => schema,
        _ => unreachable!(),
    };
    assert_eq!(take_expr_step(&tree, &at(1, 3)), Step::Expr(&parts.name));
    assert_eq!(take_expr_step(&tree, &at(1, 7)), Step::Expr(&parts.args[0]));
    assert_eq!(take_expr_step(&tree, &at(1, 11)), Step::Body(&parts.config));
    assert_eq!(take_expr_step(&tree, &at(1, 13)), Step::Body(&parts.config));
    assert_eq!(take_expr_step(&tree, &at(1, 9)), Step::Stop);
}

#[test]
fn config_steps_into_the_entry_under_the_position() {
    let tree = instantiation();
    let body = match &tree.node {
        Expr::Schema(schema) => &*schema.config,
        _ => unreachable!(),
    };
    let items = match &body.node {
        Expr::Config(config) => &config.items,
        _ => unreachable!(),
    };
    assert_eq!(take_expr_step(body, &at(1, 12)), Step::Entry(&items[0]));
    assert_eq!(take_expr_step(body, &at(1, 14)), Step::Entry(&items[0]));
    assert_eq!(take_expr_step(body, &at(1, 17)), Step::Stop);
}

#[test]
fn lambda_steps_into_a_statement_and_arguments_onto_an_annotation() {
    let arguments = Node {
        node: Expr::Arguments(Arguments {
            args: vec![ident("x", on(1, 7, 8))],
            defaults: vec![None],
            type_annotation_list: vec![Some(name("int", on(1, 10, 13)))],
            ty_list: vec![Some(Node { node: Type::Basic(BasicType::Int), span: on(1, 10, 13) })],
        }),
        span: on(1, 7, 13),
    };
    match take_expr_step(&arguments, &at(1, 11)) {
        Step::Name(annotation) => assert_eq!(annotation.node, "int"),
        other => panic!("expected a step onto the annotation, got {:?}", other),
    }
    let lambda = Node {
        node: Expr::Lambda(LambdaExpr {
            args: Some(Box::new(arguments)),
            return_type_str: None,
            body: vec![Node {
                node: Stmt::Expr(ExprStmt { exprs: vec![ident("x", on(2, 4, 5))] }),
                span: on(2, 4, 5),
            }],
            return_ty: None,
        }),
        span: Span { file: "main.k".to_string(), start_line: 1, start_column: 0, end_line: 3, end_column: 1 },
    };
    assert!(matches!(take_expr_step(&lambda, &at(1, 8)), Step::Expr(_)));
    assert!(matches!(take_expr_step(&lambda, &at(2, 4)), Step::Stmt(_)));
    assert_eq!(take_expr_step(&lambda, &at(3, 0)), Step::Stop);
}

#[test]
fn statements_step_onto_names_and_into_types() {
    let annotated = Stmt::Assign(AssignStmt {
        targets: vec![ident("a", on(1, 0, 1))],
        value: Box::new(ident("v", on(1, 9, 10))),
        type_annotation: Some(name("T", on(1, 3, 4))),
        ty: None,
    });
    for pos in [at(1, 0), at(1, 3), at(1, 9), at(5, 5)] {
        match take_stmt_step(&annotated, &pos) {
            Step::Name(annotation) => assert_eq!(annotation.span, on(1, 3, 4)),
            other => panic!("expected a step onto the annotation, got {:?}", other),
        }
    }
    let attr = Stmt::SchemaAttr(SchemaAttr {
        doc: String::new(),
        name: name("a", on(1, 0, 1)),
        type_str: name("T", on(1, 3, 4)),
        op: None,
        value: Some(Box::new(ident("v", on(1, 7, 8)))),
        is_optional: false,
        decorators: vec![],
        ty: Box::new(Node { node: Type::Any, span: on(1, 3, 4) }),
    });
    assert!(matches!(take_stmt_step(&attr, &at(1, 3)), Step::Type(_)));
    assert!(matches!(take_stmt_step(&attr, &at(1, 7)), Step::Expr(_)));
    assert_eq!(take_stmt_step(&attr, &at(1, 0)), Step::Stop);
    let import = Stmt::Import(ImportStmt {
        path: "p".to_string(),
        rawpath: "p".to_string(),
        name: "p".to_string(),
        asname: None,
        pkg_name: "__main__".to_string(),
    });
    assert_eq!(take_stmt_step(&import, &at(1, 7)), Step::Stop);
}
