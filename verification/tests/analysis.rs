use moss::analyzer::analyze_program;
use moss::ast::{Expr, FuncCall, FuncDeclare, Literal, Span, Stmt};
use moss::builtins::{get_builtin_func_bindings, get_builtin_type_bindings};
use moss::errors::TypeError;
use moss::typed_ast::TypedExpr;
use moss::typing::{ProtoType, Type};

fn sp() -> Span {
    Span { start: 0, end: 0 }
}

fn stmt(expr: Expr) -> Stmt {
    Stmt { expr }
}

fn block(stmts: Vec<Stmt>) -> Expr {
    Expr::Block(stmts, sp())
}

fn lit_int(i: i32) -> Expr {
    Expr::Literal(Literal::Int(i))
}

fn boolean(b: bool) -> Expr {
    Expr::Literal(Literal::Bool(b))
}

fn ident(name: &str) -> Expr {
    Expr::Identifier(name.to_string())
}

fn let_decl(name: &str, value: Expr) -> Expr {
    Expr::Declaration {
        ident: name.to_string(),
        type_annotation: None,
        expr: Box::new(value),
        is_mutable: false,
    }
}

fn atomic(name: &str) -> ProtoType {
    ProtoType::Atomic(name.to_string())
}

/// A non-closure function literal `(params): ret => { body }`.
fn func(params: Vec<(&str, &str)>, ret: &str, body: Vec<Stmt>, is_closure: bool) -> Expr {
    Expr::FuncDeclare(FuncDeclare {
        params: params
            .into_iter()
            .map(|(n, t)| (n.to_string(), atomic(t)))
            .collect(),
        return_type: Box::new(atomic(ret)),
        block: Box::new(block(body)),
        is_closure,
    })
}

fn call(callee: Expr, args: Vec<Expr>) -> Expr {
    Expr::FuncCall(
        FuncCall {
            func: Box::new(callee),
            args,
        },
        sp(),
    )
}

fn analyze(program: Expr) -> Result<TypedExpr, TypeError> {
    analyze_program(program, get_builtin_func_bindings(), get_builtin_type_bindings())
}

/// `let foo = if true { 7; } else { false; }; foo;`
#[test]
fn if_else_non_matching() {
    let program = block(vec![
        stmt(let_decl(
            "foo",
            Expr::IfElse(
                Box::new(boolean(true)),
                Box::new(block(vec![stmt(lit_int(7))])),
                Box::new(block(vec![stmt(boolean(false))])),
            ),
        )),
        stmt(ident("foo")),
    ]);
    let result = analyze(program);
    assert!(matches!(
        result,
        Err(TypeError::IfElseBlockTypeMismatch(Type::Int, Type::Bool))
    ));
}

/// `let foo = if true { 7; } else { false; }; foo;` through the driver
/// path that parses whole files.
#[test]
fn conditions_if_else_non_matching() {
    let program = block(vec![
        stmt(let_decl(
            "foo",
            Expr::IfElse(
                Box::new(boolean(true)),
                Box::new(block(vec![stmt(lit_int(7))])),
                Box::new(block(vec![stmt(boolean(false))])),
            ),
        )),
        stmt(ident("foo")),
    ]);
    analyze(program).expect_err("if-else branches must return the same type.");
}

/// `let foo = (x: Int): Int => { x; }; foo(false);`
#[test]
fn call_wrong_arg() {
    let program = block(vec![
        stmt(let_decl(
            "foo",
            func(vec![("x", "Int")], "Int", vec![stmt(ident("x"))], false),
        )),
        stmt(call(ident("foo"), vec![boolean(false)])),
    ]);
    let result = analyze(program);
    assert!(matches!(result, Err(TypeError::InvokeWrongSignature(..))));
}

/// `let foo = (x: Int, y: Int): Int => { x + y; }; foo(7);`
#[test]
fn call_too_few_args() {
    let program = block(vec![
        stmt(let_decl(
            "foo",
            func(
                vec![("x", "Int"), ("y", "Int")],
                "Int",
                vec![stmt(Expr::Add(Box::new(ident("x")), Box::new(ident("y"))))],
                false,
            ),
        )),
        stmt(call(ident("foo"), vec![lit_int(7)])),
    ]);
    analyze(program).expect_err("foo expects 2 arguments, got 1.");
}

/// `let foo = (x: Int): Int => { x; }; foo(7, 5);`
#[test]
fn call_too_many_args() {
    let program = block(vec![
        stmt(let_decl(
            "foo",
            func(vec![("x", "Int")], "Int", vec![stmt(ident("x"))], false),
        )),
        stmt(call(ident("foo"), vec![lit_int(7), lit_int(5)])),
    ]);
    analyze(program).expect_err("foo expects 1 arguments, got 2.");
}

/// `let add = (a: Int, b: Int): String => { a + b; };` (the frontend
/// hands the string type over under its scope name `Str`)
#[test]
fn call_with_wrong_return_type() {
    let program = block(vec![stmt(let_decl(
        "add",
        func(
            vec![("a", "Int"), ("b", "Int")],
            "Str",
            vec![stmt(Expr::Add(Box::new(ident("a")), Box::new(ident("b"))))],
            false,
        ),
    ))]);
    let result = analyze(program);
    assert!(matches!(
        result,
        Err(TypeError::FuncWrongReturnType(Type::Str, Type::Int, _))
    ));
}

/// `let foo = 2 + 5; let bar = (): Int => { foo; }; bar();`
#[test]
fn search_parent_scope_non_closure_type_error() {
    let program = block(vec![
        stmt(let_decl("foo", Expr::Add(Box::new(lit_int(2)), Box::new(lit_int(5))))),
        stmt(let_decl(
            "bar",
            func(vec![], "Int", vec![stmt(ident("foo"))], false),
        )),
        stmt(call(ident("bar"), vec![])),
    ]);
    analyze(program).expect_err("() => {} syntax should not create a closure.");
}

/// `let foo = (): Void => { let bar = 2 + 5; }; foo(); bar;`
#[test]
fn search_child_scope_error_type_error() {
    let program = block(vec![
        stmt(let_decl(
            "foo",
            func(
                vec![],
                "Void",
                vec![stmt(let_decl(
                    "bar",
                    Expr::Add(Box::new(lit_int(2)), Box::new(lit_int(5))),
                ))],
                false,
            ),
        )),
        stmt(call(ident("foo"), vec![])),
        stmt(ident("bar")),
    ]);
    analyze(program).expect_err("bar is not in scope.");
}

/// A closure sees its enclosing bindings, so the same shape with `||`
/// syntax passes analysis.
#[test]
fn search_parent_scope_closure_accepted() {
    let program = block(vec![
        stmt(let_decl("foo", Expr::Add(Box::new(lit_int(2)), Box::new(lit_int(5))))),
        stmt(let_decl(
            "bar",
            func(vec![], "Int", vec![stmt(ident("foo"))], true),
        )),
        stmt(call(ident("bar"), vec![])),
    ]);
    let typed = analyze(program).unwrap();
    assert!(typed.ty().type_eq(&Type::Int));
}

/// `10 + 5 * 2 - 8 / 4;` is well typed with type `Int`.
#[test]
fn operation_precedence_types() {
    let program = block(vec![stmt(Expr::Sub(
        Box::new(Expr::Add(
            Box::new(lit_int(10)),
            Box::new(Expr::Mult(Box::new(lit_int(5)), Box::new(lit_int(2)))),
        )),
        Box::new(Expr::Div(Box::new(lit_int(8)), Box::new(lit_int(4)))),
    ))]);
    let typed = analyze(program).unwrap();
    assert!(typed.ty().type_eq(&Type::Int));
}

/// A literal zero denominator is rejected during analysis.
#[test]
fn division_by_literal_zero_rejected() {
    let program = block(vec![stmt(Expr::Div(Box::new(lit_int(8)), Box::new(lit_int(0))))]);
    let result = analyze(program);
    assert!(matches!(result, Err(TypeError::DivisionZero)));
}

/// A literal zero denominator of `%` is rejected during analysis.
#[test]
fn modulo_by_literal_zero_rejected() {
    let program = block(vec![stmt(Expr::Modulo(Box::new(lit_int(8)), Box::new(lit_int(0))))]);
    let result = analyze(program);
    assert!(matches!(result, Err(TypeError::DivisionZero)));
}

/// An empty list literal without a type hint has no element type.
#[test]
fn empty_list_without_hint_rejected() {
    let program = block(vec![stmt(let_decl("xs", Expr::List(vec![])))]);
    let result = analyze(program);
    assert!(matches!(result, Err(TypeError::AmbiguousListType)));
}

/// An empty list literal with a `List<Str>` annotation is accepted.
#[test]
fn empty_list_with_hint_accepted() {
    let program = block(vec![stmt(Expr::Declaration {
        ident: "xs".to_string(),
        type_annotation: Some(ProtoType::Applied(
            "List".to_string(),
            vec![atomic("Str")],
        )),
        expr: Box::new(Expr::List(vec![])),
        is_mutable: false,
    })]);
    analyze(program).unwrap();
}

/// Redeclaring a name in the same innermost scope is rejected.
#[test]
fn redeclaration_rejected() {
    let program = block(vec![
        stmt(let_decl("foo", lit_int(1))),
        stmt(let_decl("foo", lit_int(2))),
    ]);
    let result = analyze(program);
    assert!(matches!(
        result,
        Err(TypeError::ScopeBindingAlreadyExists(name)) if name == "foo"
    ));
}

/// Reassigning an immutable binding is rejected.
#[test]
fn reassign_immutable_rejected() {
    let program = block(vec![
        stmt(let_decl("foo", lit_int(1))),
        stmt(Expr::Assignment {
            ident: "foo".to_string(),
            expr: Box::new(lit_int(2)),
        }),
    ]);
    let result = analyze(program);
    assert!(matches!(
        result,
        Err(TypeError::AssignImmutable(name)) if name == "foo"
    ));
}

/// Reassigning a mutable binding is accepted.
#[test]
fn reassign_mutable_accepted() {
    let program = block(vec![
        stmt(Expr::Declaration {
            ident: "foo".to_string(),
            type_annotation: None,
            expr: Box::new(lit_int(1)),
            is_mutable: true,
        }),
        stmt(Expr::Assignment {
            ident: "foo".to_string(),
            expr: Box::new(lit_int(2)),
        }),
    ]);
    analyze(program).unwrap();
}

/// `"hello" + " world";` is well typed with type `String`.
#[test]
fn string_concatenation_types() {
    let program = block(vec![stmt(Expr::Add(
        Box::new(Expr::Literal(Literal::String("hello".to_string()))),
        Box::new(Expr::Literal(Literal::String(" world".to_string()))),
    ))]);
    let typed = analyze(program).unwrap();
    assert!(typed.ty().type_eq(&Type::Str));
}

/// The condition of an `if` must be `Bool`.
#[test]
fn non_bool_condition_rejected() {
    let program = block(vec![stmt(Expr::If(
        Box::new(lit_int(1)),
        Box::new(block(vec![stmt(lit_int(7))])),
    ))]);
    let result = analyze(program);
    assert!(matches!(result, Err(TypeError::IfElseConditionNonBool(Type::Int))));
}

/// A declaration may not bind a `Void` value.
#[test]
fn assign_void_rejected() {
    let program = block(vec![stmt(let_decl("foo", Expr::Break))]);
    let result = analyze(program);
    assert!(matches!(result, Err(TypeError::AssignVoid)));
}

/// Direct recursion is possible for a closure: the function's name is
/// bound before its body is analyzed, and a closure body sees the
/// enclosing bindings. A non-closure body starts from a fresh stack and
/// cannot see its own name.
#[test]
fn direct_recursion_accepted() {
    let program = block(vec![stmt(let_decl(
        "f",
        func(
            vec![("x", "Int")],
            "Int",
            vec![stmt(call(ident("f"), vec![ident("x")]))],
            true,
        ),
    ))]);
    analyze(program).unwrap();

    let hidden = block(vec![stmt(let_decl(
        "g",
        func(
            vec![("x", "Int")],
            "Int",
            vec![stmt(call(ident("g"), vec![ident("x")]))],
            false,
        ),
    ))]);
    assert!(matches!(
        analyze(hidden),
        Err(TypeError::ScopeBindingNotFound(name)) if name == "g"
    ));
}
