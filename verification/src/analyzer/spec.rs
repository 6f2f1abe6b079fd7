use vstd::prelude::*;

use crate::ast::{ExprV, FuncDeclareV, Span};
use crate::errors::TypeErrorV;
use crate::scopes::{stack_insert_v, stack_lookup_v, ScopeStackV};
use crate::typed_ast::{block_ty_v, ty_v, TypedBlockV, TypedExprV, TypedFuncCallV, TypedFuncV};
use crate::typing::{ProtoTypeV, TypeBindingV, TypeV};

verus! {

broadcast use
    vstd::seq::axiom_seq_index_decreases,
    vstd::seq::axiom_seq_subrange_decreases;

/// The type scope: what each type name stands for.
pub type TScopeV = Map<Seq<char>, TypeBindingV>;

/// The value scope stack during analysis: each name bound to its type.
pub type AStackV = ScopeStackV<TypeV>;

/// What analyzing one expression yields: the typed expression and the
/// scope stack it leaves behind, or the first error met.
pub type AResultV = Result<(TypedExprV, AStackV), TypeErrorV>;

/// Resolution of a syntactic type against the type scope: atomic names
/// must be bound to a concrete type; applied names must be bound to a
/// constructor of matching arity, and only the `Func` and `List`
/// constructors are recognized.
pub open spec fn spec_resolve(ts: TScopeV, p: ProtoTypeV) -> Result<TypeV, TypeErrorV>
    decreases p, 1int,
{
    match p {
        ProtoTypeV::Atomic(name) => {
            if !ts.contains_key(name) {
                Err(TypeErrorV::ScopeBindingNotFound(name))
            } else {
                match ts[name] {
                    TypeBindingV::Atomic(t) => Ok(t),
                    TypeBindingV::Applied { .. } => Err(TypeErrorV::ScopeBindingNotFound(name)),
                }
            }
        },
        ProtoTypeV::Applied(name, inners) => {
            if !ts.contains_key(name) {
                Err(TypeErrorV::ScopeBindingNotFound(name))
            } else {
                match ts[name] {
                    TypeBindingV::Atomic(_) => Err(TypeErrorV::ScopeBindingNotFound(name)),
                    TypeBindingV::Applied { arity } => {
                        if inners.len() != arity {
                            Err(
                                TypeErrorV::AppliedTypeWrongNumberArgs(
                                    name,
                                    arity,
                                    inners.len() as usize,
                                ),
                            )
                        } else if name == "Func"@ {
                            match spec_resolve_list(ts, inners) {
                                Ok(tys) => Ok(TypeV::Func(tys)),
                                Err(e) => Err(e),
                            }
                        } else if name == "List"@ {
                            if inners.len() != 1 {
                                Err(TypeErrorV::ScopeBindingNotFound(name))
                            } else {
                                match spec_resolve(ts, inners[0]) {
                                    Ok(t) => Ok(TypeV::List(Box::new(t))),
                                    Err(e) => Err(e),
                                }
                            }
                        } else {
                            Err(TypeErrorV::ScopeBindingNotFound(name))
                        }
                    },
                }
            }
        },
    }
}

/// Resolution of a list of syntactic types, left to right, stopping at
/// the first error.
pub open spec fn spec_resolve_list(ts: TScopeV, ps: Seq<ProtoTypeV>) -> Result<
    Seq<TypeV>,
    TypeErrorV,
>
    decreases ps, 0int,
{
    if ps.len() == 0 {
        Ok(Seq::empty())
    } else {
        match spec_resolve(ts, ps.first()) {
            Err(e) => Err(e),
            Ok(t) => match spec_resolve_list(ts, ps.drop_first()) {
                Err(e) => Err(e),
                Ok(rest) => Ok(seq![t] + rest),
            },
        }
    }
}

/// The binary operators of the language.
pub enum BinOp {
    Eq,
    Gt,
    Lt,
    Gte,
    Lte,
    Add,
    Sub,
    Mult,
    Div,
    Modulo,
}

/// The operator's source form, as reported in diagnostics.
pub open spec fn op_str(op: BinOp) -> Seq<char> {
    match op {
        BinOp::Eq => "=="@,
        BinOp::Gt => ">"@,
        BinOp::Lt => "<"@,
        BinOp::Gte => ">="@,
        BinOp::Lte => "<="@,
        BinOp::Add => "+"@,
        BinOp::Sub => "-"@,
        BinOp::Mult => "*"@,
        BinOp::Div => "/"@,
        BinOp::Modulo => "%"@,
    }
}

/// Whether the operator admits operands of the given (common) type:
/// `==` admits any equal pair; `+` admits `Int`, `Float` and `Str`; the
/// other arithmetic and ordering operators admit `Int` and `Float`.
pub open spec fn op_admits(op: BinOp, t: TypeV) -> bool {
    match op {
        BinOp::Eq => true,
        BinOp::Add => t == TypeV::Int || t == TypeV::Float || t == TypeV::Str,
        _ => t == TypeV::Int || t == TypeV::Float,
    }
}

/// Whether the operator yields `Bool` (the comparisons) rather than the
/// operand type (the arithmetic operators).
pub open spec fn op_is_comparison(op: BinOp) -> bool {
    match op {
        BinOp::Eq | BinOp::Gt | BinOp::Lt | BinOp::Gte | BinOp::Lte => true,
        _ => false,
    }
}

/// Whether the operator divides, so that a literal integer zero on its
/// right side is rejected during analysis.
pub open spec fn op_divides(op: BinOp) -> bool {
    op == BinOp::Div || op == BinOp::Modulo
}

pub open spec fn mk_binop_v(op: BinOp, l: TypedExprV, r: TypedExprV, ty: TypeV) -> TypedExprV {
    match op {
        BinOp::Eq => TypedExprV::Eq(Box::new(l), Box::new(r), ty),
        BinOp::Gt => TypedExprV::Gt(Box::new(l), Box::new(r), ty),
        BinOp::Lt => TypedExprV::Lt(Box::new(l), Box::new(r), ty),
        BinOp::Gte => TypedExprV::Gte(Box::new(l), Box::new(r), ty),
        BinOp::Lte => TypedExprV::Lte(Box::new(l), Box::new(r), ty),
        BinOp::Add => TypedExprV::Add(Box::new(l), Box::new(r), ty),
        BinOp::Sub => TypedExprV::Sub(Box::new(l), Box::new(r), ty),
        BinOp::Mult => TypedExprV::Mult(Box::new(l), Box::new(r), ty),
        BinOp::Div => TypedExprV::Div(Box::new(l), Box::new(r), ty),
        BinOp::Modulo => TypedExprV::Modulo(Box::new(l), Box::new(r), ty),
    }
}

/// Whether a typed expression is the literal integer zero.
pub open spec fn is_zero_literal(e: TypedExprV) -> bool {
    e matches TypedExprV::Literal(crate::ast::LiteralV::Int(0), _)
}

/// The checks on an analyzed operator application: the operand types
/// must be equal and admitted by the operator; `/` and `%` refuse a
/// literal integer zero denominator; comparisons yield `Bool` and the
/// arithmetic operators yield the operand type.
pub open spec fn spec_binop_combine(op: BinOp, l: TypedExprV, r: TypedExprV) -> Result<
    TypedExprV,
    TypeErrorV,
> {
    if ty_v(l) != ty_v(r) {
        Err(TypeErrorV::BinaryOpWrongTypes(op_str(op), ty_v(l), ty_v(r)))
    } else if !op_admits(op, ty_v(l)) {
        Err(TypeErrorV::BinaryOpWrongTypes(op_str(op), ty_v(l), ty_v(r)))
    } else if op_divides(op) && is_zero_literal(r) {
        Err(TypeErrorV::DivisionZero)
    } else {
        let ty = if op_is_comparison(op) {
            TypeV::Bool
        } else {
            ty_v(l)
        };
        Ok(mk_binop_v(op, l, r, ty))
    }
}

/// The scope-stack discipline when entering a function: a closure opens
/// a nested scope, a non-closure parks the whole stack.
pub open spec fn enter_func_v(s: AStackV, is_closure: bool) -> AStackV {
    if is_closure {
        ScopeStackV { current: s.current.push(Map::empty()), previous: s.previous }
    } else {
        ScopeStackV { current: seq![Map::empty()], previous: Some(s.current) }
    }
}

/// The scope-stack discipline when leaving a function: symmetric to
/// `enter_func_v`.
pub open spec fn leave_func_v(s: AStackV, is_closure: bool) -> AStackV {
    if is_closure {
        ScopeStackV {
            current: if s.current.len() > 0 {
                s.current.drop_last()
            } else {
                s.current
            },
            previous: s.previous,
        }
    } else {
        match s.previous {
            Some(prev) => ScopeStackV { current: prev, previous: None },
            None => s,
        }
    }
}

/// The function type listing the given parameter types and then the
/// return type.
pub open spec fn sig_of_pairs(pairs: Seq<(Seq<char>, TypeV)>, ret: TypeV) -> TypeV {
    TypeV::Func(Seq::new(pairs.len(), |i: int| pairs[i].1).push(ret))
}

/// Binding the parameters, in declared order, as immutable names in the
/// innermost scope, each with its resolved type.
pub open spec fn spec_bind_params(ts: TScopeV, s: AStackV, params: Seq<(Seq<char>, ProtoTypeV)>) -> Result<
    AStackV,
    TypeErrorV,
>
    decreases params.len(),
{
    if params.len() == 0 {
        Ok(s)
    } else {
        match spec_resolve(ts, params.first().1) {
            Err(e) => Err(e),
            Ok(t) => match stack_insert_v(s.current, params.first().0, (false, t)) {
                None => Err(TypeErrorV::ScopeBindingAlreadyExists(params.first().0)),
                Some(cur) => spec_bind_params(
                    ts,
                    ScopeStackV { current: cur, previous: s.previous },
                    params.drop_first(),
                ),
            },
        }
    }
}

/// The resolved types of the parameters, in declared order.
pub open spec fn spec_param_types(ts: TScopeV, params: Seq<(Seq<char>, ProtoTypeV)>) -> Result<
    Seq<(Seq<char>, TypeV)>,
    TypeErrorV,
>
    decreases params.len(),
{
    if params.len() == 0 {
        Ok(Seq::empty())
    } else {
        match spec_resolve(ts, params.first().1) {
            Err(e) => Err(e),
            Ok(t) => match spec_param_types(ts, params.drop_first()) {
                Err(e) => Err(e),
                Ok(rest) => Ok(seq![(params.first().0, t)] + rest),
            },
        }
    }
}

/// A block's type: the type of its first statement whose expression is
/// not `Void`, otherwise `Void`.
pub open spec fn block_type_of(stmts: Seq<TypedExprV>) -> TypeV
    decreases stmts.len(),
{
    if stmts.len() == 0 {
        TypeV::Void
    } else if ty_v(stmts.first()) != TypeV::Void {
        ty_v(stmts.first())
    } else {
        block_type_of(stmts.drop_first())
    }
}

/// Analysis of one expression, mirroring the per-node contracts of the
/// semantic analyzer. The scope stack threads through in evaluation
/// order; the first error aborts.
pub open spec fn spec_analyze_expr(ts: TScopeV, s: AStackV, hint: Option<TypeV>, e: ExprV) -> AResultV
    decreases e, 3int,
{
    match e {
        ExprV::Eq(l, r) => match spec_analyze_expr(ts, s, None, *l) {
            Err(er) => Err(er),
            Ok((tl, s1)) => match spec_analyze_expr(ts, s1, None, *r) {
                Err(er) => Err(er),
                Ok((tr, s2)) => match spec_binop_combine(BinOp::Eq, tl, tr) {
                    Err(er) => Err(er),
                    Ok(te) => Ok((te, s2)),
                },
            },
        },
        ExprV::Gt(l, r) => match spec_analyze_expr(ts, s, None, *l) {
            Err(er) => Err(er),
            Ok((tl, s1)) => match spec_analyze_expr(ts, s1, None, *r) {
                Err(er) => Err(er),
                Ok((tr, s2)) => match spec_binop_combine(BinOp::Gt, tl, tr) {
                    Err(er) => Err(er),
                    Ok(te) => Ok((te, s2)),
                },
            },
        },
        ExprV::Lt(l, r) => match spec_analyze_expr(ts, s, None, *l) {
            Err(er) => Err(er),
            Ok((tl, s1)) => match spec_analyze_expr(ts, s1, None, *r) {
                Err(er) => Err(er),
                Ok((tr, s2)) => match spec_binop_combine(BinOp::Lt, tl, tr) {
                    Err(er) => Err(er),
                    Ok(te) => Ok((te, s2)),
                },
            },
        },
        ExprV::Gte(l, r) => match spec_analyze_expr(ts, s, None, *l) {
            Err(er) => Err(er),
            Ok((tl, s1)) => match spec_analyze_expr(ts, s1, None, *r) {
                Err(er) => Err(er),
                Ok((tr, s2)) => match spec_binop_combine(BinOp::Gte, tl, tr) {
                    Err(er) => Err(er),
                    Ok(te) => Ok((te, s2)),
                },
            },
        },
        ExprV::Lte(l, r) => match spec_analyze_expr(ts, s, None, *l) {
            Err(er) => Err(er),
            Ok((tl, s1)) => match spec_analyze_expr(ts, s1, None, *r) {
                Err(er) => Err(er),
                Ok((tr, s2)) => match spec_binop_combine(BinOp::Lte, tl, tr) {
                    Err(er) => Err(er),
                    Ok(te) => Ok((te, s2)),
                },
            },
        },
        ExprV::Add(l, r) => match spec_analyze_expr(ts, s, None, *l) {
            Err(er) => Err(er),
            Ok((tl, s1)) => match spec_analyze_expr(ts, s1, None, *r) {
                Err(er) => Err(er),
                Ok((tr, s2)) => match spec_binop_combine(BinOp::Add, tl, tr) {
                    Err(er) => Err(er),
                    Ok(te) => Ok((te, s2)),
                },
            },
        },
        ExprV::Sub(l, r) => match spec_analyze_expr(ts, s, None, *l) {
            Err(er) => Err(er),
            Ok((tl, s1)) => match spec_analyze_expr(ts, s1, None, *r) {
                Err(er) => Err(er),
                Ok((tr, s2)) => match spec_binop_combine(BinOp::Sub, tl, tr) {
                    Err(er) => Err(er),
                    Ok(te) => Ok((te, s2)),
                },
            },
        },
        ExprV::Mult(l, r) => match spec_analyze_expr(ts, s, None, *l) {
            Err(er) => Err(er),
            Ok((tl, s1)) => match spec_analyze_expr(ts, s1, None, *r) {
                Err(er) => Err(er),
                Ok((tr, s2)) => match spec_binop_combine(BinOp::Mult, tl, tr) {
                    Err(er) => Err(er),
                    Ok(te) => Ok((te, s2)),
                },
            },
        },
        ExprV::Div(l, r) => match spec_analyze_expr(ts, s, None, *l) {
            Err(er) => Err(er),
            Ok((tl, s1)) => match spec_analyze_expr(ts, s1, None, *r) {
                Err(er) => Err(er),
                Ok((tr, s2)) => match spec_binop_combine(BinOp::Div, tl, tr) {
                    Err(er) => Err(er),
                    Ok(te) => Ok((te, s2)),
                },
            },
        },
        ExprV::Modulo(l, r) => match spec_analyze_expr(ts, s, None, *l) {
            Err(er) => Err(er),
            Ok((tl, s1)) => match spec_analyze_expr(ts, s1, None, *r) {
                Err(er) => Err(er),
                Ok((tr, s2)) => match spec_binop_combine(BinOp::Modulo, tl, tr) {
                    Err(er) => Err(er),
                    Ok(te) => Ok((te, s2)),
                },
            },
        },
        ExprV::Negate(inner) => match spec_analyze_expr(ts, s, None, *inner) {
            Err(e) => Err(e),
            Ok((ti, s1)) => {
                if ty_v(ti) != TypeV::Int && ty_v(ti) != TypeV::Float {
                    Err(TypeErrorV::UnaryOpWrongType("-"@, ty_v(ti)))
                } else {
                    Ok((TypedExprV::Negate(Box::new(ti), ty_v(ti)), s1))
                }
            },
        },
        ExprV::Assignment { ident, expr } => match stack_lookup_v(s.current, ident) {
            None => Err(TypeErrorV::ScopeBindingNotFound(ident)),
            Some((is_mutable, _)) => {
                if !is_mutable {
                    Err(TypeErrorV::AssignImmutable(ident))
                } else {
                    match spec_analyze_expr(ts, s, None, *expr) {
                        Err(e) => Err(e),
                        Ok((te, s1)) => Ok(
                            (TypedExprV::Assignment { ident, expr: Box::new(te) }, s1),
                        ),
                    }
                }
            },
        },
        ExprV::Declaration { ident, type_annotation, expr, is_mutable } => match *expr {
            ExprV::FuncDeclare(f) => spec_analyze_func_declaration(
                ts,
                s,
                ident,
                is_mutable,
                f,
                *expr,
            ),
            _ => spec_analyze_plain_declaration(ts, s, ident, type_annotation, is_mutable, *expr),
        },
        ExprV::FuncCall(call, span) => match spec_analyze_expr(ts, s, None, *call.func) {
            Err(e) => Err(e),
            Ok((callee, s1)) => match spec_analyze_exprs(ts, s1, call.args) {
                Err(e) => Err(e),
                Ok((targs, s2)) => match spec_check_call(callee, targs, span) {
                    Err(e) => Err(e),
                    Ok(te) => Ok((te, s2)),
                },
            },
        },
        ExprV::If(cond, then) => match spec_analyze_expr(ts, s, None, *cond) {
            Err(e) => Err(e),
            Ok((tcond, s1)) => {
                if ty_v(tcond) != TypeV::Bool {
                    Err(TypeErrorV::IfElseConditionNonBool(ty_v(tcond)))
                } else {
                    match spec_analyze_block_expr(ts, s1, *then) {
                        Err(e) => Err(e),
                        Ok((tthen, s2)) => Ok(
                            (
                                TypedExprV::If(
                                    Box::new(tcond),
                                    Box::new(tthen),
                                    ty_v(tthen),
                                ),
                                s2,
                            ),
                        ),
                    }
                }
            },
        },
        ExprV::IfElse(cond, then, els) => match spec_analyze_expr(ts, s, None, *cond) {
            Err(e) => Err(e),
            Ok((tcond, s1)) => {
                if ty_v(tcond) != TypeV::Bool {
                    Err(TypeErrorV::IfElseConditionNonBool(ty_v(tcond)))
                } else {
                    match spec_analyze_block_expr(ts, s1, *then) {
                        Err(e) => Err(e),
                        Ok((tthen, s2)) => match spec_analyze_expr(ts, s2, None, *els) {
                            Err(e) => Err(e),
                            Ok((tels, s3)) => {
                                if ty_v(tthen) != ty_v(tels) {
                                    Err(
                                        TypeErrorV::IfElseBlockTypeMismatch(
                                            ty_v(tthen),
                                            ty_v(tels),
                                        ),
                                    )
                                } else {
                                    Ok(
                                        (
                                            TypedExprV::IfElse(
                                                Box::new(tcond),
                                                Box::new(tthen),
                                                Box::new(tels),
                                                ty_v(tthen),
                                            ),
                                            s3,
                                        ),
                                    )
                                }
                            },
                        },
                    }
                }
            },
        },
        ExprV::Block(stmts, span) => spec_analyze_block(ts, s, stmts, span),
        ExprV::Loop(block) => match spec_analyze_block_expr(ts, s, *block) {
            Err(e) => Err(e),
            Ok((tblock, s1)) => Ok((TypedExprV::Loop(Box::new(tblock)), s1)),
        },
        ExprV::Break => Ok((TypedExprV::Break, s)),
        ExprV::Literal(lit) => Ok(
            (
                match lit {
                    crate::ast::LiteralV::Int(_) => TypedExprV::Literal(lit, TypeV::Int),
                    crate::ast::LiteralV::Str(_) => TypedExprV::Literal(lit, TypeV::Str),
                    crate::ast::LiteralV::Bool(_) => TypedExprV::Literal(lit, TypeV::Bool),
                },
                s,
            ),
        ),
        ExprV::Identifier(ident) => match stack_lookup_v(s.current, ident) {
            None => Err(TypeErrorV::ScopeBindingNotFound(ident)),
            Some((_, ty)) => Ok((TypedExprV::Identifier(ident, ty), s)),
        },
        ExprV::FuncDeclare(_) => spec_analyze_func_declare(ts, s, e),
        ExprV::List(values) => {
            let elem_hint = match hint {
                Some(TypeV::List(inner)) => Ok(Some(*inner)),
                Some(other) => Err(TypeErrorV::ExpectedTypeReceivedList(other)),
                None => Ok(None::<TypeV>),
            };
            match elem_hint {
                Err(e) => Err(e),
                Ok(elem_hint) => match spec_analyze_exprs(ts, s, values) {
                    Err(e) => Err(e),
                    Ok((titems, s1)) => {
                        let list_type = if titems.len() > 0 {
                            Ok(ty_v(titems.first()))
                        } else {
                            match elem_hint {
                                Some(t) => Ok(t),
                                None => Err(TypeErrorV::AmbiguousListType),
                            }
                        };
                        match list_type {
                            Err(e) => Err(e),
                            Ok(t) => Ok(
                                (
                                    TypedExprV::List(titems, TypeV::List(Box::new(t))),
                                    s1,
                                ),
                            ),
                        }
                    },
                },
            }
        },
    }
}

/// Analysis of a list of expressions, left to right, without hints.
pub open spec fn spec_analyze_exprs(ts: TScopeV, s: AStackV, es: Seq<ExprV>) -> Result<
    (Seq<TypedExprV>, AStackV),
    TypeErrorV,
>
    decreases es, 0int,
{
    if es.len() == 0 {
        Ok((Seq::empty(), s))
    } else {
        match spec_analyze_expr(ts, s, None, es.first()) {
            Err(e) => Err(e),
            Ok((te, s1)) => match spec_analyze_exprs(ts, s1, es.drop_first()) {
                Err(e) => Err(e),
                Ok((rest, s2)) => Ok((seq![te] + rest, s2)),
            },
        }
    }
}

/// The call-site check: the callee must have a `Func` type; arity must
/// match; every argument type must match its parameter type, where
/// `Any` on the parameter side matches anything. The call's type is the
/// function's return type.
pub open spec fn spec_check_call(callee: TypedExprV, targs: Seq<TypedExprV>, span: Span) -> Result<
    TypedExprV,
    TypeErrorV,
> {
    match ty_v(callee) {
        TypeV::Func(inner) => {
            if inner.len() == 0 {
                Err(TypeErrorV::InvokeNonFunc(ty_v(callee)))
            } else {
                let return_type = inner.last();
                let param_types = inner.drop_last();
                if param_types.len() != targs.len() {
                    Err(TypeErrorV::InvokeWrongSignature(param_types, targs, span))
                } else if exists|i: int|
                    0 <= i < targs.len() && ty_v(targs[i]) != param_types[i] && param_types[i]
                        != TypeV::Any {
                    Err(TypeErrorV::InvokeWrongSignature(param_types, targs, span))
                } else {
                    Ok(
                        TypedExprV::FuncCall(
                            TypedFuncCallV { func: Box::new(callee), args: targs },
                            return_type,
                        ),
                    )
                }
            }
        },
        _ => Err(TypeErrorV::InvokeNonFunc(ty_v(callee))),
    }
}

/// Analysis of an expression that must be a block; any other shape is
/// refused (the frontend always produces a block here).
pub open spec fn spec_analyze_block_expr(ts: TScopeV, s: AStackV, e: ExprV) -> AResultV
    decreases e, 2int,
{
    match e {
        ExprV::Block(stmts, span) => spec_analyze_block(ts, s, stmts, span),
        _ => Err(TypeErrorV::ScopeBindingNotFound(Seq::empty())),
    }
}

/// Analysis of a block: a scope is pushed, the statements are analyzed
/// in order, the scope is popped; the block's type is that of its first
/// non-`Void` statement.
pub open spec fn spec_analyze_block(ts: TScopeV, s: AStackV, stmts: Seq<ExprV>, span: Span) -> AResultV
    decreases stmts, 1int,
{
    let s1 = ScopeStackV { current: s.current.push(Map::empty()), previous: s.previous };
    match spec_analyze_stmts(ts, s1, stmts) {
        Err(e) => Err(e),
        Ok((tstmts, s2)) => {
            let s3 = ScopeStackV {
                current: if s2.current.len() > 0 {
                    s2.current.drop_last()
                } else {
                    s2.current
                },
                previous: s2.previous,
            };
            Ok(
                (
                    TypedExprV::Block(TypedBlockV::Interpreted(tstmts, block_type_of(tstmts))),
                    s3,
                ),
            )
        },
    }
}

/// Analysis of a block's statements, in order, without hints.
pub open spec fn spec_analyze_stmts(ts: TScopeV, s: AStackV, stmts: Seq<ExprV>) -> Result<
    (Seq<TypedExprV>, AStackV),
    TypeErrorV,
>
    decreases stmts, 0int,
{
    if stmts.len() == 0 {
        Ok((Seq::empty(), s))
    } else {
        match spec_analyze_expr(ts, s, None, stmts.first()) {
            Err(e) => Err(e),
            Ok((te, s1)) => match spec_analyze_stmts(ts, s1, stmts.drop_first()) {
                Err(e) => Err(e),
                Ok((rest, s2)) => Ok((seq![te] + rest, s2)),
            },
        }
    }
}

/// Analysis of a declaration whose value is not a function literal: the
/// annotation, if any, resolves and serves as a hint; the value may not
/// be `Void` and must equal the annotation; the binding is then made in
/// the innermost scope. The declaration itself has type `Void`.
pub open spec fn spec_analyze_plain_declaration(
    ts: TScopeV,
    s: AStackV,
    ident: Seq<char>,
    type_annotation: Option<ProtoTypeV>,
    is_mutable: bool,
    value: ExprV,
) -> AResultV
    decreases value, 4int,
{
    let annotation = match type_annotation {
        Some(p) => match spec_resolve(ts, p) {
            Ok(t) => Ok(Some(t)),
            Err(e) => Err(e),
        },
        None => Ok(None::<TypeV>),
    };
    match annotation {
        Err(e) => Err(e),
        Ok(annotation) => match spec_analyze_expr(ts, s, annotation, value) {
            Err(e) => Err(e),
            Ok((tvalue, s1)) => {
                if ty_v(tvalue) == TypeV::Void {
                    Err(TypeErrorV::AssignVoid)
                } else if annotation matches Some(a) && ty_v(tvalue) != a {
                    Err(TypeErrorV::AssignWrongType(annotation->Some_0, ty_v(tvalue)))
                } else {
                    match stack_insert_v(s1.current, ident, (is_mutable, ty_v(tvalue))) {
                        None => Err(TypeErrorV::ScopeBindingAlreadyExists(ident)),
                        Some(cur) => Ok(
                            (
                                TypedExprV::Declaration {
                                    ident,
                                    is_mutable,
                                    expr: Box::new(tvalue),
                                    ty: TypeV::Void,
                                },
                                ScopeStackV { current: cur, previous: s1.previous },
                            ),
                        ),
                    }
                }
            },
        },
    }
}

/// Analysis of a declaration whose value is a function literal: the
/// declared signature resolves first and the name is bound before the
/// body is analyzed, so the function may call itself.
pub open spec fn spec_analyze_func_declaration(
    ts: TScopeV,
    s: AStackV,
    ident: Seq<char>,
    is_mutable: bool,
    f: FuncDeclareV,
    value: ExprV,
) -> AResultV
    decreases value, 4int,
{
    match spec_resolve(ts, f.return_type) {
        Err(e) => Err(e),
        Ok(return_type) => match spec_param_types(ts, f.params) {
            Err(e) => Err(e),
            Ok(param_pairs) => {
                let sig = sig_of_pairs(param_pairs, return_type);
                match stack_insert_v(s.current, ident, (is_mutable, sig)) {
                    None => Err(TypeErrorV::ScopeBindingAlreadyExists(ident)),
                    Some(cur) => {
                        let s1 = ScopeStackV { current: cur, previous: s.previous };
                        match spec_analyze_expr(ts, s1, None, value) {
                            Err(e) => Err(e),
                            Ok((tvalue, s2)) => {
                                if ty_v(tvalue) == TypeV::Void {
                                    Err(TypeErrorV::AssignVoid)
                                } else {
                                    Ok(
                                        (
                                            TypedExprV::Declaration {
                                                ident,
                                                is_mutable,
                                                expr: Box::new(tvalue),
                                                ty: TypeV::Void,
                                            },
                                            s2,
                                        ),
                                    )
                                }
                            },
                        }
                    },
                }
            },
        },
    }
}

/// Analysis of a function literal: the scope regime follows the closure
/// flag; the parameters bind as immutable names; the body block's type
/// must equal the declared return type; the function's type lists the
/// parameter types and then the return type.
pub open spec fn spec_analyze_func_declare(ts: TScopeV, s: AStackV, e: ExprV) -> AResultV
    decreases e, 2int,
{
    match e {
        ExprV::FuncDeclare(f) => spec_analyze_func_declare_parts(ts, s, f),
        _ => Err(TypeErrorV::ScopeBindingNotFound(Seq::empty())),
    }
}

pub open spec fn spec_analyze_func_declare_parts(ts: TScopeV, s: AStackV, f: FuncDeclareV) -> AResultV
    decreases f, 2int,
{
    let s1 = enter_func_v(s, f.is_closure);
    match spec_bind_params(ts, s1, f.params) {
        Err(er) => Err(er),
        Ok(s2) => {
            if !(*f.block matches ExprV::Block(_, _)) {
                Err(TypeErrorV::ScopeBindingNotFound(Seq::empty()))
            } else {
                let span = (*f.block)->Block_1;
                match spec_analyze_block_expr(ts, s2, *f.block) {
                    Err(er) => Err(er),
                    Ok((tblock, s3)) => {
                        let s4 = leave_func_v(s3, f.is_closure);
                        match spec_param_types(ts, f.params) {
                            Err(er) => Err(er),
                            Ok(param_pairs) => match spec_resolve(ts, f.return_type) {
                                Err(er) => Err(er),
                                Ok(declared_return_type) => {
                                    if declared_return_type != ty_v(tblock) {
                                        Err(
                                            TypeErrorV::FuncWrongReturnType(
                                                declared_return_type,
                                                ty_v(tblock),
                                                span,
                                            ),
                                        )
                                    } else {
                                        let func = TypedFuncV {
                                            params: param_pairs,
                                            block: Box::new(tblock),
                                            is_closure: f.is_closure,
                                        };
                                        let sig = sig_of_pairs(
                                            param_pairs,
                                            declared_return_type,
                                        );
                                        Ok((TypedExprV::FuncDeclare(func, sig), s4))
                                    }
                                },
                            },
                        }
                    },
                }
            }
        },
    }
}

/// The initial value scope: every builtin bound, immutably, to its
/// declared type, in order; a repeated name is an error.
pub open spec fn spec_seed_values(s: AStackV, builtins: Seq<(Seq<char>, TypedExprV)>) -> Result<
    AStackV,
    TypeErrorV,
>
    decreases builtins.len(),
{
    if builtins.len() == 0 {
        Ok(s)
    } else {
        match stack_insert_v(s.current, builtins.first().0, (false, ty_v(builtins.first().1))) {
            None => Err(TypeErrorV::ScopeBindingAlreadyExists(builtins.first().0)),
            Some(cur) => spec_seed_values(
                ScopeStackV { current: cur, previous: s.previous },
                builtins.drop_first(),
            ),
        }
    }
}

/// The initial type scope: every builtin type name bound, in order,
/// later entries replacing earlier ones.
pub open spec fn spec_seed_types(bindings: Seq<(Seq<char>, TypeBindingV)>) -> TScopeV
    decreases bindings.len(),
{
    if bindings.len() == 0 {
        Map::empty()
    } else {
        spec_seed_types(bindings.drop_last()).insert(bindings.last().0, bindings.last().1)
    }
}

/// Analysis of a whole program: the value scope is seeded with the
/// builtin bindings, the type scope with the builtin type names, and
/// the top-level block is analyzed.
pub open spec fn spec_analyze_program(
    e: ExprV,
    builtin_funcs: Seq<(Seq<char>, TypedExprV)>,
    builtin_types: Seq<(Seq<char>, TypeBindingV)>,
) -> Result<TypedExprV, TypeErrorV> {
    let s0 = ScopeStackV::<TypeV> { current: seq![Map::empty()], previous: None };
    match spec_seed_values(s0, builtin_funcs) {
        Err(er) => Err(er),
        Ok(s1) => {
            let ts = spec_seed_types(builtin_types);
            match spec_analyze_block_expr(ts, s1, e) {
                Err(er) => Err(er),
                Ok((te, _)) => Ok(te),
            }
        },
    }
}

} // verus!
