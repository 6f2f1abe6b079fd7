use moss::errors::{Error, RuntimeError};
use moss::scopes::{ScopeError, ScopeStack};
use moss::state::IoContext;
use moss::typing::{Type, TypeBinding};

/// `write_line` appends lines in order.
#[test]
fn write_line_appends() {
    let mut io = IoContext::new(vec![]);
    io.write_line("first").unwrap();
    io.write_line("second").unwrap();
    let written = io.written();
    assert_eq!(written.len(), 2);
    assert_eq!(written[0], "first");
    assert_eq!(written[1], "second");
}

/// `read_line` strips a trailing newline.
#[test]
fn read_line_strips_newline() {
    let mut io = IoContext::new(vec!["hello\n".to_string()]);
    assert_eq!(io.read_line().unwrap(), "hello");
}

/// `read_line` also strips a carriage return before the newline.
#[test]
fn read_line_strips_carriage_return() {
    let mut io = IoContext::new(vec!["hello\r\n".to_string()]);
    assert_eq!(io.read_line().unwrap(), "hello");
}

/// A final line without a newline is handed over unchanged.
#[test]
fn read_line_without_newline() {
    let mut io = IoContext::new(vec!["hello".to_string()]);
    assert_eq!(io.read_line().unwrap(), "hello");
}

/// At the end of input the line is empty.
#[test]
fn read_line_at_end_of_input() {
    let mut io = IoContext::new(vec![]);
    assert_eq!(io.read_line().unwrap(), "");
}

/// Lines come out in order.
#[test]
fn read_line_in_order() {
    let mut io = IoContext::new(vec!["a\n".to_string(), "b\n".to_string()]);
    assert_eq!(io.read_line().unwrap(), "a");
    assert_eq!(io.read_line().unwrap(), "b");
    assert_eq!(io.read_line().unwrap(), "");
}

/// `Type::from_str` resolves every primitive name; `String` denotes the
/// string type and an unknown name is refused.
#[test]
fn type_from_str_cases() {
    assert!(Type::from_str("Int").unwrap().type_eq(&Type::Int));
    assert!(Type::from_str("Float").unwrap().type_eq(&Type::Float));
    assert!(Type::from_str("String").unwrap().type_eq(&Type::Str));
    assert!(Type::from_str("Bool").unwrap().type_eq(&Type::Bool));
    assert!(Type::from_str("Void").unwrap().type_eq(&Type::Void));
    assert!(Type::from_str("Func").unwrap().type_eq(&Type::Func(vec![])));
    assert!(Type::from_str("Banana").is_err());
}

/// Structural type equality: equal trees are equal, different trees are
/// not, and `Any` equals only itself.
#[test]
fn type_eq_is_structural() {
    let f1 = Type::Func(vec![Type::Int, Type::Int]);
    let f2 = Type::Func(vec![Type::Int, Type::Int]);
    let f3 = Type::Func(vec![Type::Int, Type::Bool]);
    assert!(f1.type_eq(&f2));
    assert!(!f1.type_eq(&f3));
    assert!(!Type::Any.type_eq(&Type::Int));
    let l1 = Type::List(Box::new(Type::Str));
    let l2 = Type::List(Box::new(Type::Str));
    assert!(l1.type_eq(&l2));
}

/// The builtin type scope binds the primitive names and the `List`
/// constructor.
#[test]
fn builtin_type_bindings_content() {
    let bindings = moss::builtins::get_builtin_type_bindings();
    let names: Vec<&str> = bindings.iter().map(|(n, _)| n.as_str()).collect();
    assert_eq!(names, vec!["Int", "Bool", "Float", "Str", "Void", "Bool", "List"]);
    assert!(matches!(&bindings[0].1, TypeBinding::Atomic(Type::Int)));
    assert!(matches!(&bindings[6].1, TypeBinding::Applied { arity: 1 }));
}

/// Bindings resolve innermost-out; shadowing in a nested scope wins and
/// is undone when the scope pops.
#[test]
fn scope_stack_shadowing() {
    let mut ss: ScopeStack<Type> = ScopeStack::new();
    ss.insert("x".to_string(), false, Type::Int).unwrap();
    ss.push_scope();
    ss.insert("x".to_string(), false, Type::Bool).unwrap();
    assert!(ss.lookup(&"x".to_string()).unwrap().value.type_eq(&Type::Bool));
    ss.pop_scope();
    assert!(ss.lookup(&"x".to_string()).unwrap().value.type_eq(&Type::Int));
}

/// Binding a name twice in the same innermost scope is refused.
#[test]
fn scope_stack_duplicate_refused() {
    let mut ss: ScopeStack<Type> = ScopeStack::new();
    ss.insert("x".to_string(), false, Type::Int).unwrap();
    let result = ss.insert("x".to_string(), false, Type::Bool);
    assert!(matches!(result, Err(ScopeError::AlreadyExists)));
}

/// A fresh stack hides every caller binding; restoring brings them
/// back.
#[test]
fn scope_stack_isolation() {
    let mut ss: ScopeStack<Type> = ScopeStack::new();
    ss.insert("caller".to_string(), false, Type::Int).unwrap();
    ss.create_new_stack();
    assert!(ss.lookup(&"caller".to_string()).is_err());
    ss.restore_previous_stack();
    assert!(ss.lookup(&"caller".to_string()).is_ok());
}

/// A pushed scope keeps every enclosing binding visible.
#[test]
fn scope_stack_closure_visibility() {
    let mut ss: ScopeStack<Type> = ScopeStack::new();
    ss.insert("caller".to_string(), false, Type::Int).unwrap();
    ss.push_scope();
    assert!(ss.lookup(&"caller".to_string()).is_ok());
}

/// `mutate` replaces the value of the first binding found, keeping its
/// mutability flag.
#[test]
fn scope_stack_mutate() {
    let mut ss: ScopeStack<Type> = ScopeStack::new();
    ss.insert("x".to_string(), true, Type::Int).unwrap();
    ss.mutate(&"x".to_string(), Type::Bool).unwrap();
    let entry = ss.lookup(&"x".to_string()).unwrap();
    assert!(entry.is_mutable);
    assert!(entry.value.type_eq(&Type::Bool));
    let missing = ss.mutate(&"y".to_string(), Type::Int);
    assert!(matches!(missing, Err(ScopeError::NotFound)));
}

/// The runtime error for an unresolved name carries the identifier.
#[test]
fn runtime_error_message() {
    let e = RuntimeError::scope_binding_not_found(&"bar".to_string());
    assert_eq!(e.message, "Binding for identifier \"bar\" not found in scope.");
}
