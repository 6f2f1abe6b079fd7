use vstd::prelude::*;

use crate::ast::Span;
use crate::typed_ast::{typed_expr_view, TypedExpr, TypedExprV};
use crate::typing::{type_view, Type, TypeV};

verus! {

/// An error type that can report the two scope failures. Lets scope
/// errors surface as analysis errors or as runtime errors alike.
pub trait Error: View + Sized {
    /// The model of the error reported for an unresolved name.
    spec fn not_found_v(name: Seq<char>) -> Self::V;

    /// The model of the error reported for a repeated binding.
    spec fn already_exists_v(name: Seq<char>) -> Self::V;

    fn scope_binding_not_found(name: &String) -> (r: Self)
        ensures
            r@ == Self::not_found_v(name@),
    ;

    fn scope_binding_already_exists(name: &String) -> (r: Self)
        ensures
            r@ == Self::already_exists_v(name@),
    ;
}

/// Mathematical model of an analysis error.
pub enum TypeErrorV {
    AmbiguousListType,
    AssignWrongType(TypeV, TypeV),
    AssignImmutable(Seq<char>),
    AssignVoid,
    BinaryOpWrongTypes(Seq<char>, TypeV, TypeV),
    DivisionZero,
    ExpectedTypeReceivedList(TypeV),
    FuncWrongReturnType(TypeV, TypeV, Span),
    IfElseBlockTypeMismatch(TypeV, TypeV),
    IfElseConditionNonBool(TypeV),
    InvokeNonFunc(TypeV),
    InvokeWrongSignature(Seq<TypeV>, Seq<TypedExprV>, Span),
    UnaryOpWrongType(Seq<char>, TypeV),
    ScopeBindingAlreadyExists(Seq<char>),
    ScopeBindingNotFound(Seq<char>),
    AppliedTypeWrongNumberArgs(Seq<char>, usize, usize),
}

/// A structured analysis error, carrying the types, identifiers and
/// spans a driver needs to render a diagnostic.
#[derive(Debug)]
pub enum TypeError {
    AmbiguousListType,
    AssignWrongType(Type, Type),
    AssignImmutable(String),
    AssignVoid,
    BinaryOpWrongTypes(String, Type, Type),
    DivisionZero,
    ExpectedTypeReceivedList(Type),
    FuncWrongReturnType(Type, Type, Span),
    IfElseBlockTypeMismatch(Type, Type),
    IfElseConditionNonBool(Type),
    InvokeNonFunc(Type),
    InvokeWrongSignature(Vec<Type>, Vec<TypedExpr>, Span),
    UnaryOpWrongType(String, Type),
    ScopeBindingAlreadyExists(String),
    ScopeBindingNotFound(String),
    AppliedTypeWrongNumberArgs(String, usize, usize),
}

pub open spec fn types_view(ts: Seq<Type>) -> Seq<TypeV> {
    Seq::new(ts.len(), |i: int| type_view(ts[i]))
}

pub open spec fn typed_exprs_view(es: Seq<TypedExpr>) -> Seq<TypedExprV> {
    Seq::new(es.len(), |i: int| typed_expr_view(es[i]))
}

impl View for TypeError {
    type V = TypeErrorV;

    open spec fn view(&self) -> TypeErrorV {
        match self {
            TypeError::AmbiguousListType => TypeErrorV::AmbiguousListType,
            TypeError::AssignWrongType(a, b) => TypeErrorV::AssignWrongType(
                type_view(*a),
                type_view(*b),
            ),
            TypeError::AssignImmutable(name) => TypeErrorV::AssignImmutable(name@),
            TypeError::AssignVoid => TypeErrorV::AssignVoid,
            TypeError::BinaryOpWrongTypes(op, a, b) => TypeErrorV::BinaryOpWrongTypes(
                op@,
                type_view(*a),
                type_view(*b),
            ),
            TypeError::DivisionZero => TypeErrorV::DivisionZero,
            TypeError::ExpectedTypeReceivedList(t) => TypeErrorV::ExpectedTypeReceivedList(
                type_view(*t),
            ),
            TypeError::FuncWrongReturnType(a, b, span) => TypeErrorV::FuncWrongReturnType(
                type_view(*a),
                type_view(*b),
                *span,
            ),
            TypeError::IfElseBlockTypeMismatch(a, b) => TypeErrorV::IfElseBlockTypeMismatch(
                type_view(*a),
                type_view(*b),
            ),
            TypeError::IfElseConditionNonBool(t) => TypeErrorV::IfElseConditionNonBool(
                type_view(*t),
            ),
            TypeError::InvokeNonFunc(t) => TypeErrorV::InvokeNonFunc(type_view(*t)),
            TypeError::InvokeWrongSignature(params, args, span) => {
                TypeErrorV::InvokeWrongSignature(types_view(params@), typed_exprs_view(args@), *span)
            },
            TypeError::UnaryOpWrongType(op, t) => TypeErrorV::UnaryOpWrongType(op@, type_view(*t)),
            TypeError::ScopeBindingAlreadyExists(name) => TypeErrorV::ScopeBindingAlreadyExists(
                name@,
            ),
            TypeError::ScopeBindingNotFound(name) => TypeErrorV::ScopeBindingNotFound(name@),
            TypeError::AppliedTypeWrongNumberArgs(name, expected, received) => {
                TypeErrorV::AppliedTypeWrongNumberArgs(name@, *expected, *received)
            },
        }
    }
}

impl Error for TypeError {
    open spec fn not_found_v(name: Seq<char>) -> TypeErrorV {
        TypeErrorV::ScopeBindingNotFound(name)
    }

    open spec fn already_exists_v(name: Seq<char>) -> TypeErrorV {
        TypeErrorV::ScopeBindingAlreadyExists(name)
    }

    fn scope_binding_not_found(name: &String) -> (r: Self) {
        TypeError::ScopeBindingNotFound(name.clone())
    }

    fn scope_binding_already_exists(name: &String) -> (r: Self) {
        TypeError::ScopeBindingAlreadyExists(name.clone())
    }
}

/// The message reported for an unresolved name at run time.
pub open spec fn rt_not_found_msg(name: Seq<char>) -> Seq<char> {
    "Binding for identifier \""@ + name + "\" not found in scope."@
}

/// The message reported for a repeated binding at run time.
pub open spec fn rt_already_exists_msg(name: Seq<char>) -> Seq<char> {
    "Scope binding already exists for identifier \""@ + name + "\"."@
}

/// A structured runtime failure with a human-readable message.
#[derive(Debug)]
pub struct RuntimeError {
    pub message: String,
}

impl View for RuntimeError {
    type V = Seq<char>;

    open spec fn view(&self) -> Seq<char> {
        self.message@
    }
}

impl RuntimeError {
    /// A runtime error with the given message.
    pub fn new(message: String) -> (r: RuntimeError)
        ensures
            r@ == message@,
    {
        RuntimeError { message }
    }
}

impl Error for RuntimeError {
    open spec fn not_found_v(name: Seq<char>) -> Seq<char> {
        rt_not_found_msg(name)
    }

    open spec fn already_exists_v(name: Seq<char>) -> Seq<char> {
        rt_already_exists_msg(name)
    }

    fn scope_binding_not_found(name: &String) -> (r: Self) {
        let message = String::from_str("Binding for identifier \"").concat(name.as_str()).concat(
            "\" not found in scope.",
        );
        RuntimeError { message }
    }

    fn scope_binding_already_exists(name: &String) -> (r: Self) {
        let message = String::from_str("Scope binding already exists for identifier \"").concat(
            name.as_str(),
        ).concat("\".");
        RuntimeError { message }
    }
}

} // verus!
