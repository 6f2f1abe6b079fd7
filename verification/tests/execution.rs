use moss::analyzer::analyze_program;
use moss::ast::{Expr, FuncCall, FuncDeclare, Literal, Span, Stmt};
use moss::builtins::get_builtin_func_bindings;
use moss::errors::{RuntimeError, TypeError};
use moss::evaluation::{do_op, interpret_program, unwind_until};
use moss::interpreter::ResolvedValue;
use moss::state::{ControlFlow, ControlOp, ExecContext, IoContext};
use moss::typed_ast::TypedExpr;
use moss::typing::ProtoType;

fn sp() -> Span {
    Span { start: 0, end: 0 }
}

fn stmt(expr: Expr) -> Stmt {
    Stmt { expr }
}

fn block(stmts: Vec<Stmt>) -> Expr {
    Expr::Block(stmts, sp())
}

fn lit_int(i: i32) -> Expr {
    Expr::Literal(Literal::Int(i))
}

fn lit_str(s: &str) -> Expr {
    Expr::Literal(Literal::String(s.to_string()))
}

fn boolean(b: bool) -> Expr {
    Expr::Literal(Literal::Bool(b))
}

fn ident(name: &str) -> Expr {
    Expr::Identifier(name.to_string())
}

fn let_decl(name: &str, value: Expr) -> Expr {
    Expr::Declaration {
        ident: name.to_string(),
        type_annotation: None,
        expr: Box::new(value),
        is_mutable: false,
    }
}

fn func(params: Vec<(&str, &str)>, ret: &str, body: Vec<Stmt>, is_closure: bool) -> Expr {
    Expr::FuncDeclare(FuncDeclare {
        params: params
            .into_iter()
            .map(|(n, t)| (n.to_string(), ProtoType::Atomic(t.to_string())))
            .collect(),
        return_type: Box::new(ProtoType::Atomic(ret.to_string())),
        block: Box::new(block(body)),
        is_closure,
    })
}

fn call(callee: Expr, args: Vec<Expr>) -> Expr {
    Expr::FuncCall(
        FuncCall {
            func: Box::new(callee),
            args,
        },
        sp(),
    )
}

fn add(l: Expr, r: Expr) -> Expr {
    Expr::Add(Box::new(l), Box::new(r))
}

fn analyze(program: Expr) -> Result<TypedExpr, TypeError> {
    analyze_program(
        program,
        get_builtin_func_bindings(),
        moss::builtins::get_builtin_type_bindings(),
    )
}

/// Analyzes and runs a program against the given input lines; hands
/// back the final value and the lines written.
fn run_with_input(program: Expr, input: Vec<String>) -> (ResolvedValue, Vec<String>) {
    let typed = analyze(program).unwrap();
    let mut io = IoContext::new(input);
    let result = interpret_program(
        typed,
        ExecContext::new(),
        &mut io,
        get_builtin_func_bindings(),
        100_000,
    )
    .unwrap()
    .expect("the fuel bound must suffice here");
    let written = io.written().clone();
    (result, written)
}

fn run(program: Expr) -> ResolvedValue {
    run_with_input(program, vec![]).0
}

/// `10 + 5 * 2 - 8 / 4;` evaluates to 18.
#[test]
fn operation_precedence() {
    let program = block(vec![stmt(Expr::Sub(
        Box::new(add(
            lit_int(10),
            Expr::Mult(Box::new(lit_int(5)), Box::new(lit_int(2))),
        )),
        Box::new(Expr::Div(Box::new(lit_int(8)), Box::new(lit_int(4)))),
    ))]);
    assert_eq!(run(program).unwrap_int(), 18);
}

/// `-10 + -5 * 2 - -8 / 4;` evaluates to -18.
#[test]
fn operation_precedence_with_negatives() {
    let neg = |e: Expr| Expr::Negate(Box::new(e));
    let program = block(vec![stmt(Expr::Sub(
        Box::new(add(
            neg(lit_int(10)),
            Expr::Mult(Box::new(neg(lit_int(5))), Box::new(lit_int(2))),
        )),
        Box::new(Expr::Div(Box::new(neg(lit_int(8))), Box::new(lit_int(4)))),
    ))]);
    assert_eq!(run(program).unwrap_int(), -18);
}

/// `15 - 5 == 5 + 5;` and `15 + 5 == 5 + 5;`.
#[test]
fn equality_comparison_true() {
    let program = block(vec![stmt(Expr::Eq(
        Box::new(Expr::Sub(Box::new(lit_int(15)), Box::new(lit_int(5)))),
        Box::new(add(lit_int(5), lit_int(5))),
    ))]);
    assert!(run(program).unwrap_bool());
}

#[test]
fn equality_comparison_false() {
    let program = block(vec![stmt(Expr::Eq(
        Box::new(add(lit_int(15), lit_int(5))),
        Box::new(add(lit_int(5), lit_int(5))),
    ))]);
    assert!(!run(program).unwrap_bool());
}

/// `true == true;` and `true == false;`.
#[test]
fn boolean_literal_true() {
    let program = block(vec![stmt(Expr::Eq(
        Box::new(boolean(true)),
        Box::new(boolean(true)),
    ))]);
    assert!(run(program).unwrap_bool());
}

#[test]
fn boolean_literal_false() {
    let program = block(vec![stmt(Expr::Eq(
        Box::new(boolean(true)),
        Box::new(boolean(false)),
    ))]);
    assert!(!run(program).unwrap_bool());
}

/// `"hello" + " world";` evaluates to the concatenation.
#[test]
fn string_concatenation() {
    let program = block(vec![stmt(add(lit_str("hello"), lit_str(" world")))]);
    assert_eq!(run(program).unwrap_string(), "hello world");
}

/// `let foo = "hello"; foo + " world";`
#[test]
fn string_concatenation_assigned() {
    let program = block(vec![
        stmt(let_decl("foo", lit_str("hello"))),
        stmt(add(ident("foo"), lit_str(" world"))),
    ]);
    assert_eq!(run(program).unwrap_string(), "hello world");
}

/// `let foo = 2 + 5; foo;`
#[test]
fn assignment_basic() {
    let program = block(vec![
        stmt(let_decl("foo", add(lit_int(2), lit_int(5)))),
        stmt(ident("foo")),
    ]);
    assert_eq!(run(program).unwrap_int(), 7);
}

/// `let foo = 2 + 5; foo + 3;`
#[test]
fn assignment_operated_on() {
    let program = block(vec![
        stmt(let_decl("foo", add(lit_int(2), lit_int(5)))),
        stmt(add(ident("foo"), lit_int(3))),
    ]);
    assert_eq!(run(program).unwrap_int(), 10);
}

/// `let foo = ||: Int => { 5; };` yields `Void` at top level.
#[test]
fn assignment_function() {
    let program = block(vec![stmt(let_decl(
        "foo",
        func(vec![], "Int", vec![stmt(lit_int(5))], true),
    ))]);
    run(program).unwrap_void();
}

/// `if true { 7; } else { 8; };` and the `false` twin.
#[test]
fn if_else_basic_true() {
    let program = block(vec![stmt(Expr::IfElse(
        Box::new(boolean(true)),
        Box::new(block(vec![stmt(lit_int(7))])),
        Box::new(block(vec![stmt(lit_int(8))])),
    ))]);
    assert_eq!(run(program).unwrap_int(), 7);
}

#[test]
fn if_else_basic_false() {
    let program = block(vec![stmt(Expr::IfElse(
        Box::new(boolean(false)),
        Box::new(block(vec![stmt(lit_int(7))])),
        Box::new(block(vec![stmt(lit_int(8))])),
    ))]);
    assert_eq!(run(program).unwrap_int(), 8);
}

/// `let foo = if true { 7; } else { 8; }; foo;`
#[test]
fn if_else_assign() {
    let program = block(vec![
        stmt(let_decl(
            "foo",
            Expr::IfElse(
                Box::new(boolean(true)),
                Box::new(block(vec![stmt(lit_int(7))])),
                Box::new(block(vec![stmt(lit_int(8))])),
            ),
        )),
        stmt(ident("foo")),
    ]);
    assert_eq!(run(program).unwrap_int(), 7);
}

/// `let foo = (): Int => { 7; }; foo();`
#[test]
fn non_closure_no_params() {
    let program = block(vec![
        stmt(let_decl("foo", func(vec![], "Int", vec![stmt(lit_int(7))], false))),
        stmt(call(ident("foo"), vec![])),
    ]);
    assert_eq!(run(program).unwrap_int(), 7);
}

/// `let foo = ||: Int => { 7; }; foo();`
#[test]
fn closure_no_params() {
    let program = block(vec![
        stmt(let_decl("foo", func(vec![], "Int", vec![stmt(lit_int(7))], true))),
        stmt(call(ident("foo"), vec![])),
    ]);
    assert_eq!(run(program).unwrap_int(), 7);
}

/// `let foo = (x: Int): Int => { x; }; foo(7);`
#[test]
fn call_one_arg() {
    let program = block(vec![
        stmt(let_decl(
            "foo",
            func(vec![("x", "Int")], "Int", vec![stmt(ident("x"))], false),
        )),
        stmt(call(ident("foo"), vec![lit_int(7)])),
    ]);
    assert_eq!(run(program).unwrap_int(), 7);
}

/// `let add = (x: Int, y: Int): Int => { x + y; }; add(7, 8);`
#[test]
fn call_two_args() {
    let program = block(vec![
        stmt(let_decl(
            "add",
            func(
                vec![("x", "Int"), ("y", "Int")],
                "Int",
                vec![stmt(add(ident("x"), ident("y")))],
                false,
            ),
        )),
        stmt(call(ident("add"), vec![lit_int(7), lit_int(8)])),
    ]);
    assert_eq!(run(program).unwrap_int(), 15);
}

/// Two functions composed: `sub(add(3, 2), 1);` evaluates to 4.
#[test]
fn call_with_composition() {
    let program = block(vec![
        stmt(let_decl(
            "add",
            func(
                vec![("a", "Int"), ("b", "Int")],
                "Int",
                vec![stmt(add(ident("a"), ident("b")))],
                false,
            ),
        )),
        stmt(let_decl(
            "sub",
            func(
                vec![("a", "Int"), ("b", "Int")],
                "Int",
                vec![stmt(Expr::Sub(Box::new(ident("a")), Box::new(ident("b"))))],
                false,
            ),
        )),
        stmt(call(
            ident("sub"),
            vec![call(ident("add"), vec![lit_int(3), lit_int(2)]), lit_int(1)],
        )),
    ]);
    assert_eq!(run(program).unwrap_int(), 4);
}

/// A closure observes its enclosing bindings at call time.
#[test]
fn search_parent_scope() {
    let program = block(vec![
        stmt(let_decl("foo", add(lit_int(2), lit_int(5)))),
        stmt(let_decl("bar", func(vec![], "Int", vec![stmt(ident("foo"))], true))),
        stmt(call(ident("bar"), vec![])),
    ]);
    assert_eq!(run(program).unwrap_int(), 7);
}

/// A mutable binding reassigned inside the block is observed by later
/// statements.
#[test]
fn reassignment_observed() {
    let program = block(vec![
        stmt(Expr::Declaration {
            ident: "x".to_string(),
            type_annotation: None,
            expr: Box::new(lit_int(1)),
            is_mutable: true,
        }),
        stmt(Expr::Assignment {
            ident: "x".to_string(),
            expr: Box::new(lit_int(9)),
        }),
        stmt(ident("x")),
    ]);
    assert_eq!(run(program).unwrap_int(), 9);
}

/// `print_line` writes through the I/O context; `read_line` and `int`
/// read a number and compute with it.
#[test]
fn builtins_end_to_end() {
    let program = block(vec![
        stmt(call(ident("print_line"), vec![lit_str("ready")])),
        stmt(let_decl(
            "n",
            call(ident("int"), vec![call(ident("read_line"), vec![])]),
        )),
        stmt(add(ident("n"), lit_int(1))),
    ]);
    let (result, written) = run_with_input(program, vec!["41\n".to_string()]);
    assert_eq!(result.unwrap_int(), 42);
    assert_eq!(written, vec!["ready".to_string()]);
}

/// Division by a value that is zero only at run time fails with the
/// runtime error, not at analysis.
#[test]
fn runtime_division_by_zero() {
    let program = block(vec![
        stmt(let_decl("z", Expr::Sub(Box::new(lit_int(1)), Box::new(lit_int(1))))),
        stmt(Expr::Div(Box::new(lit_int(8)), Box::new(ident("z")))),
    ]);
    let typed = analyze(program).unwrap();
    let mut io = IoContext::new(vec![]);
    let err: RuntimeError = interpret_program(
        typed,
        ExecContext::new(),
        &mut io,
        get_builtin_func_bindings(),
        100_000,
    )
    .unwrap_err();
    assert_eq!(err.message, "Division by zero.");
}

/// A program that loops without breaking exhausts the fuel bound.
#[test]
fn endless_loop_runs_out_of_fuel() {
    let program = block(vec![stmt(Expr::Loop(Box::new(block(vec![stmt(lit_int(1))]))))]);
    let typed = analyze(program).unwrap();
    let mut io = IoContext::new(vec![]);
    let out = interpret_program(
        typed,
        ExecContext::new(),
        &mut io,
        get_builtin_func_bindings(),
        1_000,
    )
    .unwrap();
    assert!(out.is_none());
}

/// Loop iteration is stack-balanced: the control stack is exactly as
/// long each time the loop's `PushLoop` operation begins as it was the
/// time before.
#[test]
fn loop_iteration_stack_balanced() {
    let program = block(vec![stmt(Expr::Loop(Box::new(block(vec![stmt(lit_int(1))]))))]);
    let typed = analyze(program).unwrap();
    let mut io = IoContext::new(vec![]);
    let mut exec = ExecContext::new();
    // Drive the machine by hand, as interpret_program does, recording
    // the control-stack length whenever a PushLoop begins.
    if let TypedExpr::Block(moss::typed_ast::TypedBlock::Interpreted(stmts, _)) = typed {
        exec.control_stack.push(ControlOp::MarkBlockStart);
        for stmt in stmts.into_iter().rev() {
            exec.control_stack.push(ControlOp::EvalStmt(stmt));
        }
    } else {
        panic!("analysis yields a block");
    }
    let mut lens_at_push_loop: Vec<usize> = Vec::new();
    for _ in 0..200 {
        let Some(op) = exec.control_stack.pop() else { break };
        if matches!(op, ControlOp::PushLoop(_)) {
            lens_at_push_loop.push(exec.control_stack.len());
        }
        match do_op(op, &mut exec, &mut io).unwrap() {
            ControlFlow::Continue => {}
            ControlFlow::Break => unwind_until(&mut exec, true),
            ControlFlow::Return => unwind_until(&mut exec, false),
        }
    }
    assert!(lens_at_push_loop.len() >= 3);
    for pair in lens_at_push_loop.windows(2) {
        assert_eq!(pair[0], pair[1]);
    }
}

/// `break` unwinds past the loop within the fuel bound. The broken
/// loop leaves no value behind, so the enclosing statement check then
/// finds the value stack empty and reports the defense error (the
/// original evaluator's panic site).
#[test]
fn loop_with_break_terminates() {
    let program = block(vec![stmt(Expr::Loop(Box::new(block(vec![stmt(
        Expr::Break,
    )]))))]);
    let typed = analyze(program).unwrap();
    let mut io = IoContext::new(vec![]);
    let err = interpret_program(
        typed,
        ExecContext::new(),
        &mut io,
        get_builtin_func_bindings(),
        1_000,
    )
    .unwrap_err();
    assert_eq!(err.message, "The value stack is empty.");
}

/// `15 + 5 > 5 + 5;` and `15 - 5 > 5 + 5;`.
#[test]
fn greater_than_comparison_true() {
    let program = block(vec![stmt(Expr::Gt(
        Box::new(add(lit_int(15), lit_int(5))),
        Box::new(add(lit_int(5), lit_int(5))),
    ))]);
    assert!(run(program).unwrap_bool());
}

#[test]
fn greater_than_comparison_false() {
    let program = block(vec![stmt(Expr::Gt(
        Box::new(Expr::Sub(Box::new(lit_int(15)), Box::new(lit_int(5)))),
        Box::new(add(lit_int(5), lit_int(5))),
    ))]);
    assert!(!run(program).unwrap_bool());
}

/// `10 - 5 < 5 + 5;` and `15 + 5 < 5 + 5;`.
#[test]
fn less_than_comparison_true() {
    let program = block(vec![stmt(Expr::Lt(
        Box::new(Expr::Sub(Box::new(lit_int(10)), Box::new(lit_int(5)))),
        Box::new(add(lit_int(5), lit_int(5))),
    ))]);
    assert!(run(program).unwrap_bool());
}

#[test]
fn less_than_comparison_false() {
    let program = block(vec![stmt(Expr::Lt(
        Box::new(add(lit_int(15), lit_int(5))),
        Box::new(add(lit_int(5), lit_int(5))),
    ))]);
    assert!(!run(program).unwrap_bool());
}

/// `let foo = (x: Int): Int => { 7; }; foo(0);` and the closure twin.
#[test]
fn non_closure_one_param() {
    let program = block(vec![
        stmt(let_decl(
            "foo",
            func(vec![("x", "Int")], "Int", vec![stmt(lit_int(7))], false),
        )),
        stmt(call(ident("foo"), vec![lit_int(0)])),
    ]);
    assert_eq!(run(program).unwrap_int(), 7);
}

#[test]
fn closure_one_param() {
    let program = block(vec![
        stmt(let_decl(
            "foo",
            func(vec![("x", "Int")], "Int", vec![stmt(lit_int(7))], true),
        )),
        stmt(call(ident("foo"), vec![lit_int(0)])),
    ]);
    assert_eq!(run(program).unwrap_int(), 7);
}

/// `let foo = (x: Int, y: Int): Int => { 7; }; foo(0, 0);` and the
/// closure twin.
#[test]
fn non_closure_two_params() {
    let program = block(vec![
        stmt(let_decl(
            "foo",
            func(vec![("x", "Int"), ("y", "Int")], "Int", vec![stmt(lit_int(7))], false),
        )),
        stmt(call(ident("foo"), vec![lit_int(0), lit_int(0)])),
    ]);
    assert_eq!(run(program).unwrap_int(), 7);
}

#[test]
fn closure_two_params() {
    let program = block(vec![
        stmt(let_decl(
            "foo",
            func(vec![("x", "Int"), ("y", "Int")], "Int", vec![stmt(lit_int(7))], true),
        )),
        stmt(call(ident("foo"), vec![lit_int(0), lit_int(0)])),
    ]);
    assert_eq!(run(program).unwrap_int(), 7);
}

/// A list literal keeps source order, and `push` appends to it.
#[test]
fn list_literal_and_push() {
    let program = block(vec![
        stmt(Expr::Declaration {
            ident: "xs".to_string(),
            type_annotation: None,
            expr: Box::new(Expr::List(vec![lit_str("a"), lit_str("b")])),
            is_mutable: false,
        }),
        stmt(call(ident("push"), vec![ident("xs"), lit_str("c")])),
    ]);
    match run(program) {
        ResolvedValue::List(items) => {
            assert_eq!(items.len(), 3);
            assert_eq!(items[0].unwrap_string(), "a");
            assert_eq!(items[1].unwrap_string(), "b");
            assert_eq!(items[2].unwrap_string(), "c");
        }
        _ => panic!("push must return a list"),
    }
}

/// Arguments evaluate in source order: the write from the first
/// argument lands before the write from the second.
#[test]
fn argument_order_observed() {
    let program = block(vec![
        stmt(let_decl(
            "both",
            func(vec![("a", "Void"), ("b", "Void")], "Int", vec![stmt(lit_int(1))], false),
        )),
        stmt(call(
            ident("both"),
            vec![
                call(ident("print_line"), vec![lit_str("first")]),
                call(ident("print_line"), vec![lit_str("second")]),
            ],
        )),
    ]);
    let typed = analyze(program).unwrap();
    let mut io = IoContext::new(vec![]);
    let _ = interpret_program(
        typed,
        ExecContext::new(),
        &mut io,
        get_builtin_func_bindings(),
        100_000,
    )
    .unwrap();
    assert_eq!(io.written().as_slice(), &["first".to_string(), "second".to_string()]);
}
