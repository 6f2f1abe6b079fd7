use moss::analyzer::spec::BinOp;
use moss::builtins::get_builtin_func_bindings;
use moss::typing::Type;
use moss::interpreter::{apply_binop_values, apply_negate_value, eval_literal_value, ResolvedValue};
use moss::typed_ast::TypedLiteral;

fn int_v(i: i32) -> ResolvedValue {
    ResolvedValue::Int(i)
}

fn str_v(s: &str) -> ResolvedValue {
    ResolvedValue::String(s.to_string())
}

/// `10 + 5 * 2 - 8 / 4` evaluates to 18 step by step, as the evaluator
/// combines popped operands.
#[test]
fn binop_steps_precedence() {
    let m = apply_binop_values(BinOp::Mult, int_v(5), int_v(2)).unwrap();
    let a = apply_binop_values(BinOp::Add, int_v(10), m).unwrap();
    let d = apply_binop_values(BinOp::Div, int_v(8), int_v(4)).unwrap();
    let s = apply_binop_values(BinOp::Sub, a, d).unwrap();
    assert_eq!(s.unwrap_int(), 18);
}

/// `-10 + -5 * 2 - -8 / 4` evaluates to -18: negation, truncated
/// division and subtraction on negatives.
#[test]
fn binop_steps_negatives() {
    let n10 = apply_negate_value(int_v(10)).unwrap();
    let n5 = apply_negate_value(int_v(5)).unwrap();
    let n8 = apply_negate_value(int_v(8)).unwrap();
    let m = apply_binop_values(BinOp::Mult, n5, int_v(2)).unwrap();
    let a = apply_binop_values(BinOp::Add, n10, m).unwrap();
    let d = apply_binop_values(BinOp::Div, n8, int_v(4)).unwrap();
    let s = apply_binop_values(BinOp::Sub, a, d).unwrap();
    assert_eq!(s.unwrap_int(), -18);
}

/// `15 - 5 == 5 + 5` and `15 + 5 == 5 + 5`.
#[test]
fn equality_comparison_steps() {
    let l = apply_binop_values(BinOp::Sub, int_v(15), int_v(5)).unwrap();
    let r = apply_binop_values(BinOp::Add, int_v(5), int_v(5)).unwrap();
    assert!(apply_binop_values(BinOp::Eq, l, r).unwrap().unwrap_bool());
    let l2 = apply_binop_values(BinOp::Add, int_v(15), int_v(5)).unwrap();
    let r2 = apply_binop_values(BinOp::Add, int_v(5), int_v(5)).unwrap();
    assert!(!apply_binop_values(BinOp::Eq, l2, r2).unwrap().unwrap_bool());
}

/// The four orderings on integers.
#[test]
fn ordering_comparisons() {
    assert!(apply_binop_values(BinOp::Gt, int_v(20), int_v(10)).unwrap().unwrap_bool());
    assert!(!apply_binop_values(BinOp::Gt, int_v(10), int_v(10)).unwrap().unwrap_bool());
    assert!(apply_binop_values(BinOp::Gte, int_v(10), int_v(10)).unwrap().unwrap_bool());
    assert!(apply_binop_values(BinOp::Lt, int_v(5), int_v(10)).unwrap().unwrap_bool());
    assert!(!apply_binop_values(BinOp::Lt, int_v(20), int_v(10)).unwrap().unwrap_bool());
    assert!(apply_binop_values(BinOp::Lte, int_v(10), int_v(10)).unwrap().unwrap_bool());
}

/// Booleans compare for equality.
#[test]
fn boolean_equality() {
    let t = ResolvedValue::Bool(true);
    let t2 = ResolvedValue::Bool(true);
    let f = ResolvedValue::Bool(false);
    assert!(apply_binop_values(BinOp::Eq, t, t2).unwrap().unwrap_bool());
    let t3 = ResolvedValue::Bool(true);
    assert!(!apply_binop_values(BinOp::Eq, t3, f).unwrap().unwrap_bool());
}

/// `"hello" + " world"` concatenates.
#[test]
fn string_concat_step() {
    let r = apply_binop_values(BinOp::Add, str_v("hello"), str_v(" world")).unwrap();
    assert_eq!(r.unwrap_string(), "hello world");
}

/// Concatenation associativity on concrete strings.
#[test]
fn string_concatenation_associative() {
    let ab = apply_binop_values(BinOp::Add, str_v("a"), str_v("b")).unwrap();
    let ab_c = apply_binop_values(BinOp::Add, ab, str_v("c")).unwrap();
    let bc = apply_binop_values(BinOp::Add, str_v("b"), str_v("c")).unwrap();
    let a_bc = apply_binop_values(BinOp::Add, str_v("a"), bc).unwrap();
    assert_eq!(ab_c.unwrap_string(), a_bc.unwrap_string());
}

/// Integer arithmetic wraps to 32 bits, two's complement.
#[test]
fn integer_arithmetic_wraps() {
    let r = apply_binop_values(BinOp::Add, int_v(i32::MAX), int_v(1)).unwrap();
    assert_eq!(r.unwrap_int(), i32::MIN);
    let s = apply_binop_values(BinOp::Sub, int_v(i32::MIN), int_v(1)).unwrap();
    assert_eq!(s.unwrap_int(), i32::MAX);
    let d = apply_binop_values(BinOp::Div, int_v(i32::MIN), int_v(-1)).unwrap();
    assert_eq!(d.unwrap_int(), i32::MIN);
}

/// Division truncates toward zero, and the remainder takes the
/// dividend's sign.
#[test]
fn division_truncates() {
    assert_eq!(apply_binop_values(BinOp::Div, int_v(-7), int_v(2)).unwrap().unwrap_int(), -3);
    assert_eq!(apply_binop_values(BinOp::Div, int_v(7), int_v(-2)).unwrap().unwrap_int(), -3);
    assert_eq!(apply_binop_values(BinOp::Modulo, int_v(-7), int_v(2)).unwrap().unwrap_int(), -1);
    assert_eq!(apply_binop_values(BinOp::Modulo, int_v(7), int_v(-2)).unwrap().unwrap_int(), 1);
}

/// A zero denominator reached at run time is a runtime error.
#[test]
fn division_by_runtime_zero_fails() {
    let e = apply_binop_values(BinOp::Div, int_v(8), int_v(0)).unwrap_err();
    assert_eq!(e.message, "Division by zero.");
    let e2 = apply_binop_values(BinOp::Modulo, int_v(8), int_v(0)).unwrap_err();
    assert_eq!(e2.message, "Division by zero.");
}

/// Negation wraps at the smallest integer.
#[test]
fn negation_wraps() {
    assert_eq!(apply_negate_value(int_v(5)).unwrap().unwrap_int(), -5);
    assert_eq!(apply_negate_value(int_v(i32::MIN)).unwrap().unwrap_int(), i32::MIN);
}

/// Mismatched operand kinds are refused as a defense.
#[test]
fn mismatched_operands_fail() {
    let e = apply_binop_values(BinOp::Add, int_v(1), str_v("x")).unwrap_err();
    assert_eq!(e.message, "Operands do not support this operation.");
    let e2 = apply_negate_value(str_v("x")).unwrap_err();
    assert_eq!(e2.message, "Operands do not support this operation.");
}

/// Literals evaluate to the corresponding runtime value.
#[test]
fn literal_evaluation() {
    assert_eq!(eval_literal_value(&TypedLiteral::Int(7)).unwrap_int(), 7);
    assert_eq!(
        eval_literal_value(&TypedLiteral::String("hi".to_string())).unwrap_string(),
        "hi"
    );
    assert!(eval_literal_value(&TypedLiteral::Bool(true)).unwrap_bool());
}

/// `push` appends and returns the new list; the item lands at the end.
#[test]
fn push_appends() {
    let mut io = moss::state::IoContext::new(vec![]);
    let list = ResolvedValue::List(vec![str_v("a"), str_v("b")]);
    let args = vec![list, str_v("c")];
    let result = moss::interpreter::eval_push(&mut io, args).unwrap();
    match result {
        ResolvedValue::List(items) => {
            assert_eq!(items.len(), 3);
            assert_eq!(items[2].unwrap_string(), "c");
        }
        _ => panic!("push must return a list"),
    }
}

/// `push` refuses a non-list first argument as a defense.
#[test]
fn push_wrong_shape_fails() {
    let mut io = moss::state::IoContext::new(vec![]);
    let args = vec![int_v(1), str_v("c")];
    let e = moss::interpreter::eval_push(&mut io, args).unwrap_err();
    assert_eq!(e.message, "Builtin arguments have the wrong shape.");
}

/// The `read_line` builtin hands over the next input line, stripped.
#[test]
fn read_line_builtin() {
    let mut io = moss::state::IoContext::new(vec!["alpha\r\n".to_string()]);
    let v = moss::interpreter::eval_read_line(&mut io, vec![]).unwrap();
    assert_eq!(v.unwrap_string(), "alpha");
    let end = moss::interpreter::eval_read_line(&mut io, vec![]).unwrap();
    assert_eq!(end.unwrap_string(), "");
}

/// `str` renders integers in decimal and booleans as `True`/`False`.
#[test]
fn str_builtin() {
    let mut io = moss::state::IoContext::new(vec![]);
    let r = moss::interpreter::eval_str(&mut io, vec![int_v(-305)]).unwrap();
    assert_eq!(r.unwrap_string(), "-305");
    let r0 = moss::interpreter::eval_str(&mut io, vec![int_v(0)]).unwrap();
    assert_eq!(r0.unwrap_string(), "0");
    let rmin = moss::interpreter::eval_str(&mut io, vec![int_v(i32::MIN)]).unwrap();
    assert_eq!(rmin.unwrap_string(), "-2147483648");
    let t = moss::interpreter::eval_str(&mut io, vec![ResolvedValue::Bool(true)]).unwrap();
    assert_eq!(t.unwrap_string(), "True");
    let f = moss::interpreter::eval_str(&mut io, vec![ResolvedValue::Bool(false)]).unwrap();
    assert_eq!(f.unwrap_string(), "False");
    let e = moss::interpreter::eval_str(&mut io, vec![ResolvedValue::Void]).unwrap_err();
    assert_eq!(e.message, "This value kind is not supported here.");
}

/// `int` parses base-ten strings, with signs and range limits, and
/// maps booleans to one and zero.
#[test]
fn int_builtin() {
    let mut io = moss::state::IoContext::new(vec![]);
    let r = moss::interpreter::eval_int(&mut io, vec![str_v("42")]).unwrap();
    assert_eq!(r.unwrap_int(), 42);
    let n = moss::interpreter::eval_int(&mut io, vec![str_v("-17")]).unwrap();
    assert_eq!(n.unwrap_int(), -17);
    let p = moss::interpreter::eval_int(&mut io, vec![str_v("+8")]).unwrap();
    assert_eq!(p.unwrap_int(), 8);
    let min = moss::interpreter::eval_int(&mut io, vec![str_v("-2147483648")]).unwrap();
    assert_eq!(min.unwrap_int(), i32::MIN);
    let max = moss::interpreter::eval_int(&mut io, vec![str_v("2147483647")]).unwrap();
    assert_eq!(max.unwrap_int(), i32::MAX);
    let t = moss::interpreter::eval_int(&mut io, vec![ResolvedValue::Bool(true)]).unwrap();
    assert_eq!(t.unwrap_int(), 1);
    let f = moss::interpreter::eval_int(&mut io, vec![ResolvedValue::Bool(false)]).unwrap();
    assert_eq!(f.unwrap_int(), 0);
}

/// `int` refuses non-numbers, empty digits and out-of-range values.
#[test]
fn int_builtin_parse_failures() {
    let mut io = moss::state::IoContext::new(vec![]);
    for bad in ["", "-", "+", "12x", "x12", "2147483648", "-2147483649", "1 2"] {
        let e = moss::interpreter::eval_int(&mut io, vec![str_v(bad)]).unwrap_err();
        assert_eq!(e.message, "Cannot parse an integer from the string.");
    }
}

/// `print_line` writes one line per call, rendering each kind in its
/// written form; a function prints as its type.
#[test]
fn print_line_builtin() {
    let mut io = moss::state::IoContext::new(vec![]);
    moss::interpreter::eval_print_line(&mut io, vec![int_v(-7)]).unwrap();
    moss::interpreter::eval_print_line(&mut io, vec![str_v("hi")]).unwrap();
    moss::interpreter::eval_print_line(&mut io, vec![ResolvedValue::Bool(true)]).unwrap();
    moss::interpreter::eval_print_line(&mut io, vec![ResolvedValue::Void]).unwrap();
    let written = io.written();
    assert_eq!(written.len(), 4);
    assert_eq!(written[0], "-7");
    assert_eq!(written[1], "hi");
    assert_eq!(written[2], "true");
    assert_eq!(written[3], "Void");
}

/// `print_line` renders a function value by its type's written form.
#[test]
fn print_line_function_value() {
    let bindings = get_builtin_func_bindings();
    let mut io = moss::state::IoContext::new(vec![]);
    for (name, decl) in bindings {
        if name == "int" {
            if let moss::typed_ast::TypedExpr::FuncDeclare(f, _) = decl {
                moss::interpreter::eval_print_line(&mut io, vec![ResolvedValue::Func(f)])
                    .unwrap();
            }
        }
    }
    assert_eq!(io.written()[0], "Func<Any, Int>");
}

/// `print_line` fails on a list.
#[test]
fn print_line_list_fails() {
    let mut io = moss::state::IoContext::new(vec![]);
    let e = moss::interpreter::eval_print_line(&mut io, vec![ResolvedValue::List(vec![])])
        .unwrap_err();
    assert_eq!(e.message, "This value kind is not supported here.");
}

/// A type renders in its canonical written form.
#[test]
fn type_display_forms() {
    assert_eq!(Type::Str.display_string(), "String");
    assert_eq!(
        Type::Func(vec![Type::Int, Type::List(Box::new(Type::Str)), Type::Void])
            .display_string(),
        "Func<Int, List<String>, Void>"
    );
    assert_eq!(Type::Func(vec![]).display_string(), "Func<>");
}
