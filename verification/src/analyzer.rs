pub mod spec;

use vstd::prelude::*;

use crate::analyzer::spec::{spec_resolve, spec_resolve_list};
use crate::errors::{TypeError, TypeErrorV};
use crate::scopes::Scope;
use crate::typing::{
    clone_string, proto_type_view, str_eq, ProtoType, ProtoTypeV, Type, TypeBinding, TypeV,
};

verus! {

broadcast use
    vstd::seq::axiom_seq_index_decreases,
    vstd::seq::axiom_seq_subrange_decreases,
    vstd::std_specs::vec::axiom_vec_index_decreases,
    vstd::std_specs::vec::axiom_vec_decreases_to_view;

pub open spec fn protos_view(ps: Seq<ProtoType>) -> Seq<ProtoTypeV> {
    Seq::new(ps.len(), |i: int| proto_type_view(ps[i]))
}

pub open spec fn types_view_of(ts: Seq<Type>) -> Seq<TypeV> {
    crate::errors::types_view(ts)
}

/// Resolves a syntactic type against the type scope.
#[verifier::loop_isolation(false)]
pub fn analyze_proto_type(type_scope: &Scope<TypeBinding>, proto: &ProtoType) -> (r: Result<
    Type,
    TypeError,
>)
    requires
        type_scope.wf(),
    ensures
        match r {
            Ok(t) => spec_resolve(type_scope@, proto@) == Ok::<TypeV, TypeErrorV>(t@),
            Err(e) => spec_resolve(type_scope@, proto@) == Err::<TypeV, TypeErrorV>(e@),
        },
    decreases proto,
{
    match proto {
        ProtoType::Atomic(name) => {
            match type_scope.get(name) {
                None => Err(TypeError::ScopeBindingNotFound(clone_string(name))),
                Some(binding) => match binding {
                    TypeBinding::Atomic(t) => Ok(t.clone()),
                    TypeBinding::Applied { .. } => Err(
                        TypeError::ScopeBindingNotFound(clone_string(name)),
                    ),
                },
            }
        },
        ProtoType::Applied(name, inners) => {
            proof {
                assert(protos_view(inners@) =~= proto@->Applied_1);
            }
            let binding = match type_scope.get(name) {
                None => {
                    return Err(TypeError::ScopeBindingNotFound(clone_string(name)));
                },
                Some(binding) => binding,
            };
            let arity: usize = match binding {
                TypeBinding::Atomic(_) => {
                    return Err(TypeError::ScopeBindingNotFound(clone_string(name)));
                },
                TypeBinding::Applied { arity } => *arity,
            };
            if inners.len() != arity {
                return Err(
                    TypeError::AppliedTypeWrongNumberArgs(clone_string(name), arity, inners.len()),
                );
            }
            if str_eq(name.as_str(), "Func") {
                let ghost original = protos_view(inners@);
                let mut out: Vec<Type> = Vec::new();
                let n = inners.len();
                let mut i: usize = 0;
                proof {
                    assert(original.skip(0) =~= original);
                    assert(types_view_of(out@) + spec_resolve_list(type_scope@, original)->Ok_0
                        =~= spec_resolve_list(type_scope@, original)->Ok_0);
                }
                proof {
                    assert(spec_resolve(type_scope@, proto@) == match spec_resolve_list(
                        type_scope@,
                        original,
                    ) {
                        Ok(tys) => Ok::<TypeV, TypeErrorV>(TypeV::Func(tys)),
                        Err(e) => Err(e),
                    });
                }
                while i < n
                    invariant
                        type_scope.wf(),
                        n == inners@.len(),
                        i <= n,
                        original == protos_view(inners@),
                        proto matches ProtoType::Applied(_, x) && x == inners,
                        spec_resolve(type_scope@, proto@) == match spec_resolve_list(
                            type_scope@,
                            original,
                        ) {
                            Ok(tys) => Ok::<TypeV, TypeErrorV>(TypeV::Func(tys)),
                            Err(e) => Err(e),
                        },
                        spec_resolve_list(type_scope@, original) == match spec_resolve_list(
                            type_scope@,
                            original.skip(i as int),
                        ) {
                            Ok(rest) => Ok::<Seq<TypeV>, TypeErrorV>(types_view_of(out@) + rest),
                            Err(e) => Err(e),
                        },
                    decreases n - i,
                {
                    let ghost remaining = original.skip(i as int);
                    proof {
                        assert(remaining.first() == proto_type_view(inners@[i as int]));
                        assert(remaining.drop_first() =~= original.skip(i + 1));
                        vstd::std_specs::vec::axiom_vec_index_decreases(*inners, i as int);
                    }
                    match analyze_proto_type(type_scope, &inners[i]) {
                        Err(e) => {
                            proof {
                                assert(spec_resolve_list(type_scope@, remaining) == Err::<
                                    Seq<TypeV>,
                                    TypeErrorV,
                                >(e@));
                                assert(spec_resolve_list(type_scope@, original) == Err::<
                                    Seq<TypeV>,
                                    TypeErrorV,
                                >(e@));
                                assert(spec_resolve(type_scope@, proto@) == Err::<
                                    TypeV,
                                    TypeErrorV,
                                >(e@));
                            }
                            return Err(e);
                        },
                        Ok(t) => {
                            let ghost old_out = out@;
                            out.push(t);
                            proof {
                                assert(types_view_of(out@) =~= types_view_of(old_out).push(t@));
                                if spec_resolve_list(type_scope@, original.skip(i + 1)) is Ok {
                                    let rest = spec_resolve_list(
                                        type_scope@,
                                        original.skip(i + 1),
                                    )->Ok_0;
                                    assert(types_view_of(old_out) + (seq![t@] + rest)
                                        =~= types_view_of(out@) + rest);
                                }
                            }
                        },
                    }
                    i += 1;
                }
                proof {
                    assert(original.skip(n as int) =~= Seq::<ProtoTypeV>::empty());
                    assert(types_view_of(out@) + Seq::<TypeV>::empty() =~= types_view_of(out@));
                }
                let result = Type::Func(out);
                proof {
                    assert(result@->Func_0 =~= types_view_of(out@));
                    assert(result@ == TypeV::Func(spec_resolve_list(type_scope@, original)->Ok_0));
                }
                Ok(result)
            } else if str_eq(name.as_str(), "List") {
                if inners.len() != 1 {
                    return Err(TypeError::ScopeBindingNotFound(clone_string(name)));
                }
                proof {
                    assert(protos_view(inners@)[0] == proto_type_view(inners@[0]));
                }
                match analyze_proto_type(type_scope, &inners[0]) {
                    Err(e) => Err(e),
                    Ok(t) => Ok(Type::List(Box::new(t))),
                }
            } else {
                Err(TypeError::ScopeBindingNotFound(clone_string(name)))
            }
        },
    }
}

} // verus!

use crate::analyzer::spec::{
    block_type_of, enter_func_v, leave_func_v, op_str, spec_analyze_block, spec_analyze_expr,
    spec_analyze_func_declare,
    spec_analyze_exprs, spec_analyze_func_declare_parts, spec_analyze_plain_declaration,
    spec_analyze_func_declaration, spec_analyze_program, spec_analyze_stmts, spec_bind_params,
    spec_binop_combine, spec_check_call, spec_param_types, spec_seed_types, spec_seed_values,
    AResultV, AStackV, BinOp, TScopeV,
};
use crate::ast::{expr_view, Expr, ExprV, FuncCall, FuncDeclare, Literal, Span, Stmt};
use crate::errors::{typed_exprs_view, types_view};
use crate::scopes::{ScopeError, ScopeStack, ScopeStackV};
use crate::typed_ast::{
    ty_v, typed_expr_view, typed_params_view, TypedBlock, TypedExpr, TypedFunc, TypedFuncCall,
    TypedLiteral, TypedStmt,
};

verus! {

/// How an executable analysis step is held to its specification: on
/// success the typed tree and the final scope stack agree with it, on
/// failure the error does.
pub open spec fn agrees(sr: AResultV, r: Result<TypedExpr, TypeError>, s2: AStackV) -> bool {
    match r {
        Ok(te) => sr == Ok::<(crate::typed_ast::TypedExprV, AStackV), TypeErrorV>((te@, s2)),
        Err(er) => sr == Err::<(crate::typed_ast::TypedExprV, AStackV), TypeErrorV>(er@),
    }
}

pub open spec fn opt_ty_v(h: Option<Type>) -> Option<TypeV> {
    match h {
        Some(t) => Some(crate::typing::type_view(t)),
        None => None,
    }
}

/// Analysis of one expression against the value scope stack and the
/// type scope, mirroring `spec_analyze_expr`.
#[verifier::rlimit(100)]
#[verifier::spinoff_prover]
pub fn analyze_expr(
    vss: &mut ScopeStack<Type>,
    ts: &Scope<TypeBinding>,
    hint: &Option<Type>,
    expr: &Expr,
) -> (r: Result<TypedExpr, TypeError>)
    requires
        old(vss).wf(),
        ts.wf(),
    ensures
        final(vss).wf(),
        agrees(
            spec_analyze_expr(ts@, old(vss)@, opt_ty_v(*hint), expr@),
            r,
            final(vss)@,
        ),
        expr@ matches ExprV::Assignment { ident, .. } && (crate::scopes::stack_lookup_v(
            old(vss)@.current,
            ident,
        ) is None || !crate::scopes::stack_lookup_v(old(vss)@.current, ident)->Some_0.0) ==> r
            is Err && final(vss)@ == old(vss)@,
    decreases expr, 3int,
{
    match expr {
        Expr::Eq(..) | Expr::Gt(..) | Expr::Lt(..) | Expr::Gte(..) | Expr::Lte(..) | Expr::Add(
            ..,
        ) | Expr::Sub(..) | Expr::Mult(..) | Expr::Div(..) | Expr::Modulo(..) => analyze_binary_op(
            vss,
            ts,
            expr,
        ),
        Expr::Negate(inner) => {
            let ti = match analyze_expr(vss, ts, &None, inner) {
                Ok(t) => t,
                Err(e) => {
                    return Err(e);
                },
            };
            let ity = ti.ty();
            if !(matches!(ity, Type::Int) || matches!(ity, Type::Float)) {
                return Err(TypeError::UnaryOpWrongType(new_string("-"), ti.ty()));
            }
            Ok(TypedExpr::Negate(Box::new(ti), ity))
        },
        Expr::Assignment { ident, expr: value } => {
            let is_mutable = match vss.lookup(ident) {
                Ok(entry) => entry.is_mutable,
                Err(_) => {
                    return Err(TypeError::ScopeBindingNotFound(clone_string(ident)));
                },
            };
            if !is_mutable {
                return Err(TypeError::AssignImmutable(clone_string(ident)));
            }
            let te = match analyze_expr(vss, ts, &None, value) {
                Ok(t) => t,
                Err(e) => {
                    return Err(e);
                },
            };
            Ok(TypedExpr::Assignment { ident: clone_string(ident), expr: Box::new(te) })
        },
        Expr::Declaration { ident, type_annotation, expr: value, is_mutable } => {
            if value.is_func_declare() {
                analyze_func_declaration(vss, ts, ident, *is_mutable, value)
            } else {
                analyze_non_func_declaration(vss, ts, ident, *is_mutable, type_annotation, value)
            }
        },
        Expr::FuncCall(call, span) => {
            proof {
                assert(expr@->FuncCall_0.args =~= call@.args);
                assert(expr@ == ExprV::FuncCall(call@, *span));
            }
            analyze_func_call(vss, ts, call, *span)
        },
        Expr::If(cond, then) => {
            let tcond = match analyze_expr(vss, ts, &None, cond) {
                Ok(t) => t,
                Err(e) => {
                    return Err(e);
                },
            };
            if !matches!(tcond.ty(), Type::Bool) {
                return Err(TypeError::IfElseConditionNonBool(tcond.ty()));
            }
            let tthen = match analyze_block_expr(vss, ts, then) {
                Ok(t) => t,
                Err(e) => {
                    return Err(e);
                },
            };
            let bty = tthen.ty();
            Ok(TypedExpr::If(Box::new(tcond), Box::new(tthen), bty))
        },
        Expr::IfElse(cond, then, els) => {
            let tcond = match analyze_expr(vss, ts, &None, cond) {
                Ok(t) => t,
                Err(e) => {
                    return Err(e);
                },
            };
            if !matches!(tcond.ty(), Type::Bool) {
                return Err(TypeError::IfElseConditionNonBool(tcond.ty()));
            }
            let tthen = match analyze_block_expr(vss, ts, then) {
                Ok(t) => t,
                Err(e) => {
                    return Err(e);
                },
            };
            let tels = match analyze_expr(vss, ts, &None, els) {
                Ok(t) => t,
                Err(e) => {
                    return Err(e);
                },
            };
            if !tthen.ty().type_eq(&tels.ty()) {
                return Err(TypeError::IfElseBlockTypeMismatch(tthen.ty(), tels.ty()));
            }
            let bty = tthen.ty();
            Ok(TypedExpr::IfElse(Box::new(tcond), Box::new(tthen), Box::new(tels), bty))
        },
        Expr::Block(stmts, span) => {
            proof {
                assert(stmts_exprs_view(stmts@) =~= expr@->Block_0);
            }
            analyze_block(vss, ts, stmts, *span)
        },
        Expr::Loop(block) => {
            let tblock = match analyze_block_expr(vss, ts, block) {
                Ok(t) => t,
                Err(e) => {
                    return Err(e);
                },
            };
            Ok(TypedExpr::Loop(Box::new(tblock)))
        },
        Expr::Break => Ok(TypedExpr::Break),
        Expr::Literal(lit) => Ok(
            match lit {
                Literal::Int(i) => TypedExpr::Literal(TypedLiteral::Int(*i), Type::Int),
                Literal::String(s) => TypedExpr::Literal(
                    TypedLiteral::String(clone_string(s)),
                    Type::Str,
                ),
                Literal::Bool(b) => TypedExpr::Literal(TypedLiteral::Bool(*b), Type::Bool),
            },
        ),
        Expr::Identifier(ident) => {
            match vss.lookup(ident) {
                Ok(entry) => {
                    let ty = entry.value.clone();
                    Ok(TypedExpr::Identifier(clone_string(ident), ty))
                },
                Err(_) => Err(TypeError::ScopeBindingNotFound(clone_string(ident))),
            }
        },
        Expr::FuncDeclare(func) => {
            proof {
                assert(spec_analyze_func_declare(ts@, old(vss)@, expr@)
                    == spec_analyze_func_declare_parts(ts@, old(vss)@, func@));
            }
            analyze_func_declare(vss, ts, func)
        },
        Expr::List(values) => {
            proof {
                assert(exprs_view_of(values@) =~= expr@->List_0);
                assert(ExprV::List(exprs_view_of(values@)) == expr@);
            }
            analyze_list(vss, ts, hint, values)
        },
    }
}

/// A fresh string with the given characters.
fn new_string(s: &str) -> (r: String)
    ensures
        r@ == s@,
{
    String::from_str(s)
}

} // verus!

verus! {

pub open spec fn tstmts_view(ss: Seq<TypedStmt>) -> Seq<crate::typed_ast::TypedExprV> {
    Seq::new(ss.len(), |i: int| typed_expr_view(ss[i].expr))
}

pub open spec fn stmts_exprs_view(ss: Seq<Stmt>) -> Seq<ExprV> {
    Seq::new(ss.len(), |i: int| expr_view(ss[i].expr))
}

pub open spec fn exprs_view_of(es: Seq<Expr>) -> Seq<ExprV> {
    Seq::new(es.len(), |i: int| expr_view(es[i]))
}

/// Whether an untyped expression is a binary operator application.
pub open spec fn is_binary_expr(e: ExprV) -> bool {
    ||| e is Eq
    ||| e is Gt
    ||| e is Lt
    ||| e is Gte
    ||| e is Lte
    ||| e is Add
    ||| e is Sub
    ||| e is Mult
    ||| e is Div
    ||| e is Modulo
}

/// The operator's source form.
fn op_string(op: &BinOp) -> (r: String)
    ensures
        r@ == op_str(*op),
{
    match op {
        BinOp::Eq => new_string("=="),
        BinOp::Gt => new_string(">"),
        BinOp::Lt => new_string("<"),
        BinOp::Gte => new_string(">="),
        BinOp::Lte => new_string("<="),
        BinOp::Add => new_string("+"),
        BinOp::Sub => new_string("-"),
        BinOp::Mult => new_string("*"),
        BinOp::Div => new_string("/"),
        BinOp::Modulo => new_string("%"),
    }
}

/// The checks on an analyzed operator application, mirroring
/// `spec_binop_combine`.
fn binop_combine(op: BinOp, tl: TypedExpr, tr: TypedExpr) -> (r: Result<TypedExpr, TypeError>)
    ensures
        match r {
            Ok(te) => spec_binop_combine(op, tl@, tr@) == Ok::<
                crate::typed_ast::TypedExprV,
                TypeErrorV,
            >(te@),
            Err(e) => spec_binop_combine(op, tl@, tr@) == Err::<
                crate::typed_ast::TypedExprV,
                TypeErrorV,
            >(e@),
        },
{
    let lty = tl.ty();
    let rty = tr.ty();
    if !lty.type_eq(&rty) {
        return Err(TypeError::BinaryOpWrongTypes(op_string(&op), lty, rty));
    }
    let admitted = match op {
        BinOp::Eq => true,
        BinOp::Add => matches!(lty, Type::Int) || matches!(lty, Type::Float) || matches!(
            lty,
            Type::Str,
        ),
        _ => matches!(lty, Type::Int) || matches!(lty, Type::Float),
    };
    if !admitted {
        return Err(TypeError::BinaryOpWrongTypes(op_string(&op), lty, rty));
    }
    let divides = matches!(op, BinOp::Div) || matches!(op, BinOp::Modulo);
    if divides && matches!(tr, TypedExpr::Literal(TypedLiteral::Int(0), _)) {
        return Err(TypeError::DivisionZero);
    }
    let is_comparison = matches!(op, BinOp::Eq) || matches!(op, BinOp::Gt) || matches!(
        op,
        BinOp::Lt,
    ) || matches!(op, BinOp::Gte) || matches!(op, BinOp::Lte);
    let ty = if is_comparison {
        Type::Bool
    } else {
        lty
    };
    Ok(
        match op {
            BinOp::Eq => TypedExpr::Eq(Box::new(tl), Box::new(tr), ty),
            BinOp::Gt => TypedExpr::Gt(Box::new(tl), Box::new(tr), ty),
            BinOp::Lt => TypedExpr::Lt(Box::new(tl), Box::new(tr), ty),
            BinOp::Gte => TypedExpr::Gte(Box::new(tl), Box::new(tr), ty),
            BinOp::Lte => TypedExpr::Lte(Box::new(tl), Box::new(tr), ty),
            BinOp::Add => TypedExpr::Add(Box::new(tl), Box::new(tr), ty),
            BinOp::Sub => TypedExpr::Sub(Box::new(tl), Box::new(tr), ty),
            BinOp::Mult => TypedExpr::Mult(Box::new(tl), Box::new(tr), ty),
            BinOp::Div => TypedExpr::Div(Box::new(tl), Box::new(tr), ty),
            BinOp::Modulo => TypedExpr::Modulo(Box::new(tl), Box::new(tr), ty),
        },
    )
}

/// Analysis of a binary operator application: left operand, right
/// operand, then the operator's checks.
#[verifier::rlimit(30)]
pub fn analyze_binary_op(
    vss: &mut ScopeStack<Type>,
    ts: &Scope<TypeBinding>,
    expr: &Expr,
) -> (r: Result<TypedExpr, TypeError>)
    requires
        old(vss).wf(),
        ts.wf(),
        is_binary_expr(expr@),
    ensures
        final(vss).wf(),
        agrees(spec_analyze_expr(ts@, old(vss)@, None, expr@), r, final(vss)@),
    decreases expr, 2int,
{
    let (op, l, r) = match expr {
        Expr::Eq(l, r) => (BinOp::Eq, l, r),
        Expr::Gt(l, r) => (BinOp::Gt, l, r),
        Expr::Lt(l, r) => (BinOp::Lt, l, r),
        Expr::Gte(l, r) => (BinOp::Gte, l, r),
        Expr::Lte(l, r) => (BinOp::Lte, l, r),
        Expr::Add(l, r) => (BinOp::Add, l, r),
        Expr::Sub(l, r) => (BinOp::Sub, l, r),
        Expr::Mult(l, r) => (BinOp::Mult, l, r),
        Expr::Div(l, r) => (BinOp::Div, l, r),
        Expr::Modulo(l, r) => (BinOp::Modulo, l, r),
        _ => unreached(),
    };
    let tl = match analyze_expr(vss, ts, &None, l) {
        Ok(t) => t,
        Err(e) => {
            return Err(e);
        },
    };
    let tr = match analyze_expr(vss, ts, &None, r) {
        Ok(t) => t,
        Err(e) => {
            return Err(e);
        },
    };
    binop_combine(op, tl, tr)
}

/// Analysis of an expression that must be a block.
fn analyze_block_expr(vss: &mut ScopeStack<Type>, ts: &Scope<TypeBinding>, e: &Expr) -> (r: Result<
    TypedExpr,
    TypeError,
>)
    requires
        old(vss).wf(),
        ts.wf(),
    ensures
        final(vss).wf(),
        agrees(spec::spec_analyze_block_expr(ts@, old(vss)@, e@), r, final(vss)@),
    decreases e, 2int,
{
    match e {
        Expr::Block(stmts, span) => {
            proof {
                assert(stmts_exprs_view(stmts@) =~= e@->Block_0);
            }
            analyze_block(vss, ts, stmts, *span)
        },
        _ => {
            proof {
                reveal_strlit("");
                assert(""@ =~= Seq::<char>::empty());
            }
            Err(TypeError::ScopeBindingNotFound(new_string("")))
        },
    }
}

/// Analysis of a block: a scope is pushed, the statements are analyzed
/// in order, the scope is popped; the block's type is that of its first
/// non-`Void` statement.
#[verifier::rlimit(30)]
#[verifier::loop_isolation(false)]
fn analyze_block(
    vss: &mut ScopeStack<Type>,
    ts: &Scope<TypeBinding>,
    stmts: &Vec<Stmt>,
    span: Span,
) -> (r: Result<TypedExpr, TypeError>)
    requires
        old(vss).wf(),
        ts.wf(),
    ensures
        final(vss).wf(),
        agrees(
            spec_analyze_block(ts@, old(vss)@, stmts_exprs_view(stmts@), span),
            r,
            final(vss)@,
        ),
    decreases stmts, 1int,
{
    vss.push_scope();
    let ghost s1 = ScopeStackV {
        current: old(vss)@.current.push(Map::empty()),
        previous: old(vss)@.previous,
    };
    proof {
        assert(vss@ == s1);
    }
    let ghost all = stmts_exprs_view(stmts@);
    let n = stmts.len();
    let mut out: Vec<TypedStmt> = Vec::new();
    let mut i: usize = 0;
    proof {
        assert(all.skip(0) =~= all);
        if spec_analyze_stmts(ts@, s1, all) is Ok {
            assert(tstmts_view(out@) + spec_analyze_stmts(ts@, s1, all)->Ok_0.0 =~= spec_analyze_stmts(
                ts@,
                s1,
                all,
            )->Ok_0.0);
        }
    }
    while i < n
        invariant
            ts.wf(),
            vss.wf(),
            n == stmts@.len(),
            i <= n,
            all == stmts_exprs_view(stmts@),
            spec_analyze_stmts(ts@, s1, all) == match spec_analyze_stmts(
                ts@,
                vss@,
                all.skip(i as int),
            ) {
                Ok((rest, sf)) => Ok::<(Seq<crate::typed_ast::TypedExprV>, AStackV), TypeErrorV>(
                    (tstmts_view(out@) + rest, sf),
                ),
                Err(e) => Err(e),
            },
        decreases n - i,
    {
        let ghost remaining = all.skip(i as int);
        proof {
            assert(remaining.first() == expr_view(stmts@[i as int].expr));
            assert(remaining.drop_first() =~= all.skip(i + 1));
        }
        match analyze_expr(vss, ts, &None, &stmts[i].expr) {
            Err(e) => {
                return Err(e);
            },
            Ok(te) => {
                let ghost old_out = out@;
                out.push(TypedStmt { expr: te });
                proof {
                    assert(tstmts_view(out@) =~= tstmts_view(old_out).push(te@));
                    if spec_analyze_stmts(ts@, vss@, all.skip(i + 1)) is Ok {
                        let rest = spec_analyze_stmts(ts@, vss@, all.skip(i + 1))->Ok_0.0;
                        assert(tstmts_view(old_out) + (seq![te@] + rest) =~= tstmts_view(out@)
                            + rest);
                    }
                }
            },
        }
        i += 1;
    }
    proof {
        assert(all.skip(n as int) =~= Seq::<ExprV>::empty());
        assert(tstmts_view(out@) + Seq::<crate::typed_ast::TypedExprV>::empty() =~= tstmts_view(
            out@,
        ));
    }
    let ghost s2 = vss@;
    vss.pop_scope();
    proof {
        let s3 = ScopeStackV {
            current: if s2.current.len() > 0 {
                s2.current.drop_last()
            } else {
                s2.current
            },
            previous: s2.previous,
        };
        assert(vss@ == s3);
    }
    Ok(finish_block(out))
}

/// The typed block node for the given statements, typed by its first
/// non-`Void` statement.
fn finish_block(out: Vec<TypedStmt>) -> (r: TypedExpr)
    ensures
        r@ == crate::typed_ast::TypedExprV::Block(
            crate::typed_ast::TypedBlockV::Interpreted(
                tstmts_view(out@),
                block_type_of(tstmts_view(out@)),
            ),
        ),
{
    let ty = block_type(&out);
    let ghost out_v = tstmts_view(out@);
    let ghost b0 = TypedBlock::Interpreted(out, ty);
    let result = TypedExpr::Block(TypedBlock::Interpreted(out, ty));
    proof {
        assert(result@->Block_0 == crate::typed_ast::typed_block_view(b0));
        assert(crate::typed_ast::typed_block_view(b0)->Interpreted_0 =~= out_v);
    }
    result
}

/// The block's type: that of the first statement whose expression is
/// not `Void`, otherwise `Void`.
#[verifier::loop_isolation(false)]
fn block_type(stmts: &Vec<TypedStmt>) -> (r: Type)
    ensures
        r@ == block_type_of(tstmts_view(stmts@)),
{
    let ghost all = tstmts_view(stmts@);
    proof {
        assert(all.skip(0) =~= all);
    }
    let n = stmts.len();
    let mut i: usize = 0;
    while i < n
        invariant
            n == stmts@.len(),
            i <= n,
            all == tstmts_view(stmts@),
            block_type_of(all) == block_type_of(all.skip(i as int)),
        decreases n - i,
    {
        let ghost remaining = all.skip(i as int);
        proof {
            assert(remaining.first() == typed_expr_view(stmts@[i as int].expr));
            assert(remaining.drop_first() =~= all.skip(i + 1));
        }
        let ty = stmts[i].expr.ty();
        if !matches!(ty, Type::Void) {
            return ty;
        }
        i += 1;
    }
    proof {
        assert(all.skip(n as int) =~= Seq::<crate::typed_ast::TypedExprV>::empty());
    }
    Type::Void
}

} // verus!

verus! {

pub open spec fn opt_proto_v(p: Option<ProtoType>) -> Option<ProtoTypeV> {
    match p {
        Some(p) => Some(proto_type_view(p)),
        None => None,
    }
}

/// Analysis of a declaration whose value is not a function literal.
#[verifier::rlimit(30)]
fn analyze_non_func_declaration(
    vss: &mut ScopeStack<Type>,
    ts: &Scope<TypeBinding>,
    ident: &String,
    is_mutable: bool,
    type_annotation: &Option<ProtoType>,
    value: &Expr,
) -> (r: Result<TypedExpr, TypeError>)
    requires
        old(vss).wf(),
        ts.wf(),
    ensures
        final(vss).wf(),
        agrees(
            spec_analyze_plain_declaration(
                ts@,
                old(vss)@,
                ident@,
                opt_proto_v(*type_annotation),
                is_mutable,
                value@,
            ),
            r,
            final(vss)@,
        ),
    decreases value, 4int,
{
    let annotation: Option<Type> = match type_annotation {
        Some(p) => match analyze_proto_type(ts, p) {
            Ok(t) => Some(t),
            Err(e) => {
                return Err(e);
            },
        },
        None => None,
    };
    let tvalue = match analyze_expr(vss, ts, &annotation, value) {
        Ok(t) => t,
        Err(e) => {
            return Err(e);
        },
    };
    if matches!(tvalue.ty(), Type::Void) {
        return Err(TypeError::AssignVoid);
    }
    if let Some(a) = &annotation {
        if !tvalue.ty().type_eq(a) {
            return Err(TypeError::AssignWrongType(a.clone(), tvalue.ty()));
        }
    }
    match vss.insert(clone_string(ident), is_mutable, tvalue.ty()) {
        Ok(_) => {},
        Err(_) => {
            return Err(TypeError::ScopeBindingAlreadyExists(clone_string(ident)));
        },
    }
    Ok(
        TypedExpr::Declaration {
            ident: clone_string(ident),
            is_mutable,
            expr: Box::new(tvalue),
            ty: Type::Void,
        },
    )
}

/// The resolved parameter list: each name with its resolved type, in
/// declared order.
#[verifier::loop_isolation(false)]
fn resolve_params(ts: &Scope<TypeBinding>, params: &Vec<(String, ProtoType)>) -> (r: Result<
    Vec<(String, Type)>,
    TypeError,
>)
    requires
        ts.wf(),
    ensures
        match r {
            Ok(ps) => spec_param_types(ts@, crate::ast::params_view(params@)) == Ok::<
                Seq<(Seq<char>, TypeV)>,
                TypeErrorV,
            >(typed_params_view(ps@)),
            Err(e) => spec_param_types(ts@, crate::ast::params_view(params@)) == Err::<
                Seq<(Seq<char>, TypeV)>,
                TypeErrorV,
            >(e@),
        },
{
    let ghost all = crate::ast::params_view(params@);
    let n = params.len();
    let mut out: Vec<(String, Type)> = Vec::new();
    let mut i: usize = 0;
    proof {
        assert(all.skip(0) =~= all);
        if spec_param_types(ts@, all) is Ok {
            assert(typed_params_view(out@) + spec_param_types(ts@, all)->Ok_0 =~= spec_param_types(
                ts@,
                all,
            )->Ok_0);
        }
    }
    while i < n
        invariant
            ts.wf(),
            n == params@.len(),
            i <= n,
            all == crate::ast::params_view(params@),
            spec_param_types(ts@, all) == match spec_param_types(ts@, all.skip(i as int)) {
                Ok(rest) => Ok::<Seq<(Seq<char>, TypeV)>, TypeErrorV>(
                    typed_params_view(out@) + rest,
                ),
                Err(e) => Err(e),
            },
        decreases n - i,
    {
        let ghost remaining = all.skip(i as int);
        proof {
            assert(remaining.first() == (params@[i as int].0@, proto_type_view(
                params@[i as int].1,
            )));
            assert(remaining.drop_first() =~= all.skip(i + 1));
        }
        match analyze_proto_type(ts, &params[i].1) {
            Err(e) => {
                return Err(e);
            },
            Ok(t) => {
                let ghost old_out = out@;
                out.push((clone_string(&params[i].0), t));
                proof {
                    assert(typed_params_view(out@) =~= typed_params_view(old_out).push(
                        (params@[i as int].0@, t@),
                    ));
                    if spec_param_types(ts@, all.skip(i + 1)) is Ok {
                        let rest = spec_param_types(ts@, all.skip(i + 1))->Ok_0;
                        assert(typed_params_view(old_out) + (seq![
                            (params@[i as int].0@, t@),
                        ] + rest) =~= typed_params_view(out@) + rest);
                    }
                }
            },
        }
        i += 1;
    }
    proof {
        assert(all.skip(n as int) =~= Seq::<(Seq<char>, ProtoTypeV)>::empty());
        assert(typed_params_view(out@) + Seq::<(Seq<char>, TypeV)>::empty() =~= typed_params_view(
            out@,
        ));
    }
    Ok(out)
}

/// The function type listing the given parameter types and then the
/// return type.
#[verifier::loop_isolation(false)]
pub(crate) fn signature_type(params: &Vec<(String, Type)>, return_type: Type) -> (r: Type)
    ensures
        r@ == spec::sig_of_pairs(typed_params_view(params@), return_type@),
{
    let n = params.len();
    let mut tys: Vec<Type> = Vec::new();
    let mut i: usize = 0;
    while i < n
        invariant
            n == params@.len(),
            i <= n,
            tys@.len() == i,
            forall|j: int| 0 <= j < i ==> crate::typing::type_view(tys@[j]) == crate::typing::type_view(params@[j].1),
        decreases n - i,
    {
        tys.push(params[i].1.clone());
        i += 1;
    }
    let ghost rt = return_type@;
    tys.push(return_type);
    let result = Type::Func(tys);
    proof {
        assert(result@->Func_0 =~= spec::sig_of_pairs(typed_params_view(params@), rt)->Func_0);
    }
    result
}

/// Analysis of a declaration whose value is a function literal: the
/// name binds, with the declared signature, before the body is
/// analyzed, so the function may call itself.
#[verifier::rlimit(30)]
fn analyze_func_declaration(
    vss: &mut ScopeStack<Type>,
    ts: &Scope<TypeBinding>,
    ident: &String,
    is_mutable: bool,
    value: &Expr,
) -> (r: Result<TypedExpr, TypeError>)
    requires
        old(vss).wf(),
        ts.wf(),
        value@ is FuncDeclare,
    ensures
        final(vss).wf(),
        agrees(
            spec_analyze_func_declaration(
                ts@,
                old(vss)@,
                ident@,
                is_mutable,
                value@->FuncDeclare_0,
                value@,
            ),
            r,
            final(vss)@,
        ),
    decreases value, 4int,
{
    let func = value.as_func_declare();
    let return_type = match analyze_proto_type(ts, &func.return_type) {
        Ok(t) => t,
        Err(e) => {
            return Err(e);
        },
    };
    let param_pairs = match resolve_params(ts, &func.params) {
        Ok(ps) => ps,
        Err(e) => {
            return Err(e);
        },
    };
    let sig = signature_type(&param_pairs, return_type);
    match vss.insert(clone_string(ident), is_mutable, sig) {
        Ok(_) => {},
        Err(_) => {
            return Err(TypeError::ScopeBindingAlreadyExists(clone_string(ident)));
        },
    }
    let tvalue = match analyze_expr(vss, ts, &None, value) {
        Ok(t) => t,
        Err(e) => {
            return Err(e);
        },
    };
    if matches!(tvalue.ty(), Type::Void) {
        return Err(TypeError::AssignVoid);
    }
    Ok(
        TypedExpr::Declaration {
            ident: clone_string(ident),
            is_mutable,
            expr: Box::new(tvalue),
            ty: Type::Void,
        },
    )
}

/// Analysis of a call: the callee, the arguments in source order, then
/// the signature check.
#[verifier::rlimit(30)]
#[verifier::loop_isolation(false)]
fn analyze_func_call(
    vss: &mut ScopeStack<Type>,
    ts: &Scope<TypeBinding>,
    call: &FuncCall,
    span: Span,
) -> (r: Result<TypedExpr, TypeError>)
    requires
        old(vss).wf(),
        ts.wf(),
    ensures
        final(vss).wf(),
        agrees(
            spec_analyze_expr(ts@, old(vss)@, None, ExprV::FuncCall(call@, span)),
            r,
            final(vss)@,
        ),
    decreases call, 2int,
{
    let callee = match analyze_expr(vss, ts, &None, &call.func) {
        Ok(t) => t,
        Err(e) => {
            return Err(e);
        },
    };
    let ghost argsv = exprs_view_of(call.args@);
    proof {
        assert(argsv =~= call@.args);
    }
    let ghost s1 = vss@;
    let n = call.args.len();
    let mut targs: Vec<TypedExpr> = Vec::new();
    let mut i: usize = 0;
    proof {
        assert(argsv.skip(0) =~= argsv);
        if spec_analyze_exprs(ts@, s1, argsv) is Ok {
            assert(typed_exprs_view(targs@) + spec_analyze_exprs(ts@, s1, argsv)->Ok_0.0
                =~= spec_analyze_exprs(ts@, s1, argsv)->Ok_0.0);
        }
    }
    while i < n
        invariant
            ts.wf(),
            vss.wf(),
            n == call.args@.len(),
            i <= n,
            argsv == exprs_view_of(call.args@),
            spec_analyze_exprs(ts@, s1, argsv) == match spec_analyze_exprs(
                ts@,
                vss@,
                argsv.skip(i as int),
            ) {
                Ok((rest, sf)) => Ok::<(Seq<crate::typed_ast::TypedExprV>, AStackV), TypeErrorV>(
                    (typed_exprs_view(targs@) + rest, sf),
                ),
                Err(e) => Err(e),
            },
        decreases n - i,
    {
        let ghost remaining = argsv.skip(i as int);
        proof {
            assert(remaining.first() == expr_view(call.args@[i as int]));
            assert(remaining.drop_first() =~= argsv.skip(i + 1));
        }
        match analyze_expr(vss, ts, &None, &call.args[i]) {
            Err(e) => {
                return Err(e);
            },
            Ok(te) => {
                let ghost old_targs = targs@;
                targs.push(te);
                proof {
                    assert(typed_exprs_view(targs@) =~= typed_exprs_view(old_targs).push(te@));
                    if spec_analyze_exprs(ts@, vss@, argsv.skip(i + 1)) is Ok {
                        let rest = spec_analyze_exprs(ts@, vss@, argsv.skip(i + 1))->Ok_0.0;
                        assert(typed_exprs_view(old_targs) + (seq![te@] + rest)
                            =~= typed_exprs_view(targs@) + rest);
                    }
                }
            },
        }
        i += 1;
    }
    proof {
        assert(argsv.skip(n as int) =~= Seq::<ExprV>::empty());
        assert(typed_exprs_view(targs@) + Seq::<crate::typed_ast::TypedExprV>::empty()
            =~= typed_exprs_view(targs@));
    }
    check_call(callee, targs, span)
}

/// The signature check at a call site, mirroring `spec_check_call`.
#[verifier::rlimit(30)]
#[verifier::loop_isolation(false)]
fn check_call(callee: TypedExpr, targs: Vec<TypedExpr>, span: Span) -> (r: Result<
    TypedExpr,
    TypeError,
>)
    ensures
        match r {
            Ok(te) => spec_check_call(callee@, typed_exprs_view(targs@), span) == Ok::<
                crate::typed_ast::TypedExprV,
                TypeErrorV,
            >(te@),
            Err(e) => spec_check_call(callee@, typed_exprs_view(targs@), span) == Err::<
                crate::typed_ast::TypedExprV,
                TypeErrorV,
            >(e@),
        },
{
    let ghost callee_v = callee@;
    let cty = callee.ty();
    let mut inner = match cty {
        Type::Func(inner) => inner,
        _ => {
            return Err(TypeError::InvokeNonFunc(callee.ty()));
        },
    };
    let ghost cfv = ty_v(callee_v)->Func_0;
    proof {
        assert(types_view_of(inner@) =~= cfv);
        assert(inner@.len() == cfv.len());
    }
    let return_type = match inner.pop() {
        Some(t) => t,
        None => {
            return Err(TypeError::InvokeNonFunc(callee.ty()));
        },
    };
    let param_types = inner;
    proof {
        assert(return_type@ == cfv.last());
        assert(types_view_of(param_types@) =~= cfv.drop_last());
    }
    if param_types.len() != targs.len() {
        proof {
            assert(typed_exprs_view(targs@).len() == targs@.len());
            assert(types_view_of(param_types@) == cfv.drop_last());
            assert(cfv.drop_last().len() != typed_exprs_view(targs@).len());
            assert(spec_check_call(callee_v, typed_exprs_view(targs@), span) == Err::<
                crate::typed_ast::TypedExprV,
                TypeErrorV,
            >(TypeErrorV::InvokeWrongSignature(cfv.drop_last(), typed_exprs_view(targs@), span)));
        }
        return Err(TypeError::InvokeWrongSignature(param_types, targs, span));
    }
    let n = param_types.len();
    let mut i: usize = 0;
    while i < n
        invariant
            n == param_types@.len() == targs@.len(),
            i <= n,
            forall|j: int|
                0 <= j < i ==> !(ty_v(typed_exprs_view(targs@)[j]) != types_view_of(param_types@)[j]
                    && types_view_of(param_types@)[j] != TypeV::Any),
        decreases n - i,
    {
        let pt = &param_types[i];
        if !targs[i].ty().type_eq(pt) && !matches!(pt, Type::Any) {
            proof {
                assert(ty_v(typed_exprs_view(targs@)[i as int]) != types_view_of(param_types@)[
                    i as int
                ] && types_view_of(param_types@)[i as int] != TypeV::Any);
            }
            return Err(TypeError::InvokeWrongSignature(param_types, targs, span));
        }
        i += 1;
    }
    let ghost targs_v = typed_exprs_view(targs@);
    let result = TypedExpr::FuncCall(
        TypedFuncCall { func_expr: Box::new(callee), args: targs },
        return_type,
    );
    proof {
        assert(result@->FuncCall_0.args =~= targs_v);
        assert(result@ == crate::typed_ast::TypedExprV::FuncCall(
            crate::typed_ast::TypedFuncCallV { func: Box::new(callee_v), args: targs_v },
            cfv.last(),
        ));
    }
    Ok(result)
}

/// Analysis of a function literal, mirroring
/// `spec_analyze_func_declare_parts`.
#[verifier::rlimit(30)]
#[verifier::loop_isolation(false)]
fn analyze_func_declare(
    vss: &mut ScopeStack<Type>,
    ts: &Scope<TypeBinding>,
    func: &FuncDeclare,
) -> (r: Result<TypedExpr, TypeError>)
    requires
        old(vss).wf(),
        ts.wf(),
    ensures
        final(vss).wf(),
        agrees(spec_analyze_func_declare_parts(ts@, old(vss)@, func@), r, final(vss)@),
    decreases func, 2int,
{
    if func.is_closure {
        vss.push_scope();
    } else {
        vss.create_new_stack();
    }
    proof {
        assert(vss@ == enter_func_v(old(vss)@, func@.is_closure));
    }
    let ghost s1 = vss@;
    let ghost all = crate::ast::params_view(func.params@);
    let n = func.params.len();
    let mut i: usize = 0;
    proof {
        assert(all.skip(0) =~= all);
    }
    while i < n
        invariant
            ts.wf(),
            vss.wf(),
            n == func.params@.len(),
            i <= n,
            all == crate::ast::params_view(func.params@),
            spec_bind_params(ts@, s1, all) == spec_bind_params(ts@, vss@, all.skip(i as int)),
        decreases n - i,
    {
        let ghost remaining = all.skip(i as int);
        proof {
            assert(remaining.first() == (func.params@[i as int].0@, proto_type_view(
                func.params@[i as int].1,
            )));
            assert(remaining.drop_first() =~= all.skip(i + 1));
        }
        let ty = match analyze_proto_type(ts, &func.params[i].1) {
            Ok(t) => t,
            Err(e) => {
                return Err(e);
            },
        };
        match vss.insert(clone_string(&func.params[i].0), false, ty) {
            Ok(_) => {},
            Err(_) => {
                return Err(
                    TypeError::ScopeBindingAlreadyExists(clone_string(&func.params[i].0)),
                );
            },
        }
        i += 1;
    }
    proof {
        assert(all.skip(n as int) =~= Seq::<(Seq<char>, ProtoTypeV)>::empty());
    }
    let (stmts, span) = match &*func.block {
        Expr::Block(stmts, span) => (stmts, *span),
        _ => {
            proof {
                reveal_strlit("");
                assert(""@ =~= Seq::<char>::empty());
            }
            return Err(TypeError::ScopeBindingNotFound(new_string("")));
        },
    };
    proof {
        assert(stmts_exprs_view(stmts@) =~= expr_view(*func.block)->Block_0);
    }
    let tblock = match analyze_block(vss, ts, stmts, span) {
        Ok(t) => t,
        Err(e) => {
            return Err(e);
        },
    };
    let ghost s3 = vss@;
    if func.is_closure {
        vss.pop_scope();
    } else {
        vss.restore_previous_stack();
    }
    proof {
        assert(vss@ == leave_func_v(s3, func@.is_closure));
    }
    let param_pairs = match resolve_params(ts, &func.params) {
        Ok(ps) => ps,
        Err(e) => {
            return Err(e);
        },
    };
    let declared_return_type = match analyze_proto_type(ts, &func.return_type) {
        Ok(t) => t,
        Err(e) => {
            return Err(e);
        },
    };
    if !declared_return_type.type_eq(&tblock.ty()) {
        return Err(TypeError::FuncWrongReturnType(declared_return_type, tblock.ty(), span));
    }
    let ghost drt = declared_return_type@;
    let ghost tblock_v = tblock@;
    let sig = signature_type(&param_pairs, declared_return_type);
    let ghost pairs_v = typed_params_view(param_pairs@);
    let tfunc = TypedFunc { params: param_pairs, block: Box::new(tblock), is_closure: func.is_closure };
    let ghost tf0 = tfunc;
    let result = TypedExpr::FuncDeclare(tfunc, sig);
    proof {
        assert(result@->FuncDeclare_0 == crate::typed_ast::typed_func_view(tf0));
        assert(crate::typed_ast::typed_func_view(tf0).params =~= pairs_v);
        assert(result@ == crate::typed_ast::TypedExprV::FuncDeclare(
            crate::typed_ast::TypedFuncV {
                params: pairs_v,
                block: Box::new(tblock_v),
                is_closure: func.is_closure,
            },
            spec::sig_of_pairs(pairs_v, drt),
        ));
    }
    Ok(result)
}

/// Analysis of a list literal: a `List` hint supplies the element type
/// of an empty list; a non-`List` hint is refused; a non-empty list
/// takes its first element's type.
#[verifier::rlimit(30)]
#[verifier::loop_isolation(false)]
fn analyze_list(
    vss: &mut ScopeStack<Type>,
    ts: &Scope<TypeBinding>,
    hint: &Option<Type>,
    values: &Vec<Expr>,
) -> (r: Result<TypedExpr, TypeError>)
    requires
        old(vss).wf(),
        ts.wf(),
    ensures
        final(vss).wf(),
        agrees(
            spec_analyze_expr(
                ts@,
                old(vss)@,
                opt_ty_v(*hint),
                ExprV::List(exprs_view_of(values@)),
            ),
            r,
            final(vss)@,
        ),
    decreases values, 2int,
{
    let elem_hint: Option<Type> = match hint {
        Some(Type::List(inner)) => Some((**inner).clone()),
        Some(other) => {
            return Err(TypeError::ExpectedTypeReceivedList(other.clone()));
        },
        None => None,
    };
    let ghost allv = exprs_view_of(values@);
    let ghost s0 = vss@;
    let n = values.len();
    let mut titems: Vec<TypedExpr> = Vec::new();
    let mut i: usize = 0;
    proof {
        assert(allv.skip(0) =~= allv);
        if spec_analyze_exprs(ts@, s0, allv) is Ok {
            assert(typed_exprs_view(titems@) + spec_analyze_exprs(ts@, s0, allv)->Ok_0.0
                =~= spec_analyze_exprs(ts@, s0, allv)->Ok_0.0);
        }
    }
    while i < n
        invariant
            ts.wf(),
            vss.wf(),
            n == values@.len(),
            i <= n,
            allv == exprs_view_of(values@),
            spec_analyze_exprs(ts@, s0, allv) == match spec_analyze_exprs(
                ts@,
                vss@,
                allv.skip(i as int),
            ) {
                Ok((rest, sf)) => Ok::<(Seq<crate::typed_ast::TypedExprV>, AStackV), TypeErrorV>(
                    (typed_exprs_view(titems@) + rest, sf),
                ),
                Err(e) => Err(e),
            },
        decreases n - i,
    {
        let ghost remaining = allv.skip(i as int);
        proof {
            assert(remaining.first() == expr_view(values@[i as int]));
            assert(remaining.drop_first() =~= allv.skip(i + 1));
        }
        match analyze_expr(vss, ts, &None, &values[i]) {
            Err(e) => {
                return Err(e);
            },
            Ok(te) => {
                let ghost old_items = titems@;
                titems.push(te);
                proof {
                    assert(typed_exprs_view(titems@) =~= typed_exprs_view(old_items).push(te@));
                    if spec_analyze_exprs(ts@, vss@, allv.skip(i + 1)) is Ok {
                        let rest = spec_analyze_exprs(ts@, vss@, allv.skip(i + 1))->Ok_0.0;
                        assert(typed_exprs_view(old_items) + (seq![te@] + rest)
                            =~= typed_exprs_view(titems@) + rest);
                    }
                }
            },
        }
        i += 1;
    }
    proof {
        assert(allv.skip(n as int) =~= Seq::<ExprV>::empty());
        assert(typed_exprs_view(titems@) + Seq::<crate::typed_ast::TypedExprV>::empty()
            =~= typed_exprs_view(titems@));
    }
    let list_type: Type = if titems.len() > 0 {
        titems[0].ty()
    } else {
        match elem_hint {
            Some(t) => t,
            None => {
                return Err(TypeError::AmbiguousListType);
            },
        }
    };
    let ghost items_v = typed_exprs_view(titems@);
    let result = TypedExpr::List(titems, Type::List(Box::new(list_type)));
    proof {
        assert(result@->List_0 =~= items_v);
    }
    Ok(result)
}

pub open spec fn builtin_funcs_view(bs: Seq<(String, TypedExpr)>) -> Seq<
    (Seq<char>, crate::typed_ast::TypedExprV),
> {
    Seq::new(bs.len(), |i: int| (bs[i].0@, typed_expr_view(bs[i].1)))
}

pub open spec fn builtin_types_view(bs: Seq<(String, TypeBinding)>) -> Seq<
    (Seq<char>, crate::typing::TypeBindingV),
> {
    Seq::new(bs.len(), |i: int| (bs[i].0@, bs[i].1@))
}

/// Analysis of a whole program: the value scope is seeded with the
/// builtin bindings, the type scope with the builtin type names, and
/// the top-level block is analyzed.
#[verifier::rlimit(30)]
#[verifier::loop_isolation(false)]
pub fn analyze_program(
    stmts: Expr,
    builtin_funcs: Vec<(String, TypedExpr)>,
    builtin_types: Vec<(String, TypeBinding)>,
) -> (r: Result<TypedExpr, TypeError>)
    ensures
        match r {
            Ok(te) => spec_analyze_program(
                stmts@,
                builtin_funcs_view(builtin_funcs@),
                builtin_types_view(builtin_types@),
            ) == Ok::<crate::typed_ast::TypedExprV, TypeErrorV>(te@),
            Err(e) => spec_analyze_program(
                stmts@,
                builtin_funcs_view(builtin_funcs@),
                builtin_types_view(builtin_types@),
            ) == Err::<crate::typed_ast::TypedExprV, TypeErrorV>(e@),
        },
{
    let mut vss: ScopeStack<Type> = ScopeStack::new();
    let ghost s0 = ScopeStackV::<TypeV> { current: seq![Map::empty()], previous: None };
    proof {
        assert(vss@ == s0);
    }
    let ghost bfv = builtin_funcs_view(builtin_funcs@);
    let nb = builtin_funcs.len();
    let mut i: usize = 0;
    proof {
        assert(bfv.skip(0) =~= bfv);
    }
    while i < nb
        invariant
            vss.wf(),
            nb == builtin_funcs@.len(),
            i <= nb,
            bfv == builtin_funcs_view(builtin_funcs@),
            spec_seed_values(s0, bfv) == spec_seed_values(vss@, bfv.skip(i as int)),
        decreases nb - i,
    {
        let ghost remaining = bfv.skip(i as int);
        proof {
            assert(remaining.first() == (builtin_funcs@[i as int].0@, typed_expr_view(
                builtin_funcs@[i as int].1,
            )));
            assert(remaining.drop_first() =~= bfv.skip(i + 1));
        }
        let ty = builtin_funcs[i].1.ty();
        match vss.insert(clone_string(&builtin_funcs[i].0), false, ty) {
            Ok(_) => {},
            Err(_) => {
                return Err(
                    TypeError::ScopeBindingAlreadyExists(clone_string(&builtin_funcs[i].0)),
                );
            },
        }
        i += 1;
    }
    proof {
        assert(bfv.skip(nb as int) =~= Seq::<(Seq<char>, crate::typed_ast::TypedExprV)>::empty());
    }
    let mut type_scope: Scope<TypeBinding> = Scope::new();
    let ghost btv = builtin_types_view(builtin_types@);
    let nt = builtin_types.len();
    let mut j: usize = 0;
    proof {
        assert(btv.take(0) =~= Seq::<(Seq<char>, crate::typing::TypeBindingV)>::empty());
    }
    while j < nt
        invariant
            type_scope.wf(),
            nt == builtin_types@.len(),
            j <= nt,
            btv == builtin_types_view(builtin_types@),
            type_scope@ == spec_seed_types(btv.take(j as int)),
        decreases nt - j,
    {
        type_scope.insert(clone_string(&builtin_types[j].0), builtin_types[j].1.clone());
        proof {
            assert(btv.take(j + 1).drop_last() =~= btv.take(j as int));
            assert(btv.take(j + 1).last() == (builtin_types@[j as int].0@, builtin_types@[
                j as int
            ].1@));
        }
        j += 1;
    }
    proof {
        assert(btv.take(nt as int) =~= btv);
    }
    match &stmts {
        Expr::Block(ss, span) => {
            proof {
                assert(stmts_exprs_view(ss@) =~= stmts@->Block_0);
            }
            match analyze_block(&mut vss, &type_scope, ss, *span) {
                Ok(te) => Ok(te),
                Err(e) => Err(e),
            }
        },
        _ => {
            proof {
                reveal_strlit("");
                assert(""@ =~= Seq::<char>::empty());
            }
            Err(TypeError::ScopeBindingNotFound(new_string("")))
        },
    }
}

} // verus!

verus! {

/// The canonical syntactic form of a type: the name it is written
/// under, with `List` applied to its element's form.
pub open spec fn proto_of(t: TypeV) -> ProtoTypeV
    decreases t,
{
    match t {
        TypeV::Any => ProtoTypeV::Atomic("Any"@),
        TypeV::Bool => ProtoTypeV::Atomic("Bool"@),
        TypeV::Int => ProtoTypeV::Atomic("Int"@),
        TypeV::Float => ProtoTypeV::Atomic("Float"@),
        TypeV::Str => ProtoTypeV::Atomic("Str"@),
        TypeV::Void => ProtoTypeV::Atomic("Void"@),
        TypeV::Func(_) => ProtoTypeV::Atomic("Func"@),
        TypeV::List(inner) => ProtoTypeV::Applied("List"@, seq![proto_of(*inner)]),
    }
}

/// Whether a type has a syntactic form that the builtin type scope
/// resolves: the five primitive types, and `List` of such a type. `Any`
/// has no source name, and the builtin scope binds no `Func`
/// constructor.
pub open spec fn nameable(t: TypeV) -> bool
    decreases t,
{
    match t {
        TypeV::Bool | TypeV::Int | TypeV::Float | TypeV::Str | TypeV::Void => true,
        TypeV::List(inner) => nameable(*inner),
        TypeV::Any | TypeV::Func(_) => false,
    }
}

/// Re-resolving an already-resolved type yields the same type: against
/// the builtin type scope, the canonical syntactic form of any
/// nameable type resolves back to exactly that type.
pub proof fn lemma_resolve_roundtrip(t: TypeV)
    requires
        nameable(t),
    ensures
        spec_resolve(
            spec::spec_seed_types(crate::builtins::builtin_type_bindings_v()),
            proto_of(t),
        ) == Ok::<TypeV, TypeErrorV>(t),
    decreases t,
{
    reveal_strlit("Int");
    reveal_strlit("Bool");
    reveal_strlit("Float");
    reveal_strlit("Str");
    reveal_strlit("Void");
    reveal_strlit("List");
    reveal_strlit("Func");
    let ts0 = spec::spec_seed_types(crate::builtins::builtin_type_bindings_v());
    let b7 = seq![("Int"@, crate::typing::TypeBindingV::Atomic(TypeV::Int)), ("Bool"@, crate::typing::TypeBindingV::Atomic(TypeV::Bool)), ("Float"@, crate::typing::TypeBindingV::Atomic(TypeV::Float)), ("Str"@, crate::typing::TypeBindingV::Atomic(TypeV::Str)), ("Void"@, crate::typing::TypeBindingV::Atomic(TypeV::Void)), ("Bool"@, crate::typing::TypeBindingV::Atomic(TypeV::Bool)), ("List"@, crate::typing::TypeBindingV::Applied { arity: 1 })];
    assert(crate::builtins::builtin_type_bindings_v() =~= b7);
    let b6 = seq![("Int"@, crate::typing::TypeBindingV::Atomic(TypeV::Int)), ("Bool"@, crate::typing::TypeBindingV::Atomic(TypeV::Bool)), ("Float"@, crate::typing::TypeBindingV::Atomic(TypeV::Float)), ("Str"@, crate::typing::TypeBindingV::Atomic(TypeV::Str)), ("Void"@, crate::typing::TypeBindingV::Atomic(TypeV::Void)), ("Bool"@, crate::typing::TypeBindingV::Atomic(TypeV::Bool))];
    assert(b7.drop_last() =~= b6);
    assert(b7.last() == ("List"@, crate::typing::TypeBindingV::Applied { arity: 1 }));
    assert(spec::spec_seed_types(b7) == spec::spec_seed_types(b6).insert(("List"@, crate::typing::TypeBindingV::Applied { arity: 1 }).0, ("List"@, crate::typing::TypeBindingV::Applied { arity: 1 }).1));
    let b5 = seq![("Int"@, crate::typing::TypeBindingV::Atomic(TypeV::Int)), ("Bool"@, crate::typing::TypeBindingV::Atomic(TypeV::Bool)), ("Float"@, crate::typing::TypeBindingV::Atomic(TypeV::Float)), ("Str"@, crate::typing::TypeBindingV::Atomic(TypeV::Str)), ("Void"@, crate::typing::TypeBindingV::Atomic(TypeV::Void))];
    assert(b6.drop_last() =~= b5);
    assert(b6.last() == ("Bool"@, crate::typing::TypeBindingV::Atomic(TypeV::Bool)));
    assert(spec::spec_seed_types(b6) == spec::spec_seed_types(b5).insert(("Bool"@, crate::typing::TypeBindingV::Atomic(TypeV::Bool)).0, ("Bool"@, crate::typing::TypeBindingV::Atomic(TypeV::Bool)).1));
    let b4 = seq![("Int"@, crate::typing::TypeBindingV::Atomic(TypeV::Int)), ("Bool"@, crate::typing::TypeBindingV::Atomic(TypeV::Bool)), ("Float"@, crate::typing::TypeBindingV::Atomic(TypeV::Float)), ("Str"@, crate::typing::TypeBindingV::Atomic(TypeV::Str))];
    assert(b5.drop_last() =~= b4);
    assert(b5.last() == ("Void"@, crate::typing::TypeBindingV::Atomic(TypeV::Void)));
    assert(spec::spec_seed_types(b5) == spec::spec_seed_types(b4).insert(("Void"@, crate::typing::TypeBindingV::Atomic(TypeV::Void)).0, ("Void"@, crate::typing::TypeBindingV::Atomic(TypeV::Void)).1));
    let b3 = seq![("Int"@, crate::typing::TypeBindingV::Atomic(TypeV::Int)), ("Bool"@, crate::typing::TypeBindingV::Atomic(TypeV::Bool)), ("Float"@, crate::typing::TypeBindingV::Atomic(TypeV::Float))];
    assert(b4.drop_last() =~= b3);
    assert(b4.last() == ("Str"@, crate::typing::TypeBindingV::Atomic(TypeV::Str)));
    assert(spec::spec_seed_types(b4) == spec::spec_seed_types(b3).insert(("Str"@, crate::typing::TypeBindingV::Atomic(TypeV::Str)).0, ("Str"@, crate::typing::TypeBindingV::Atomic(TypeV::Str)).1));
    let b2 = seq![("Int"@, crate::typing::TypeBindingV::Atomic(TypeV::Int)), ("Bool"@, crate::typing::TypeBindingV::Atomic(TypeV::Bool))];
    assert(b3.drop_last() =~= b2);
    assert(b3.last() == ("Float"@, crate::typing::TypeBindingV::Atomic(TypeV::Float)));
    assert(spec::spec_seed_types(b3) == spec::spec_seed_types(b2).insert(("Float"@, crate::typing::TypeBindingV::Atomic(TypeV::Float)).0, ("Float"@, crate::typing::TypeBindingV::Atomic(TypeV::Float)).1));
    let b1 = seq![("Int"@, crate::typing::TypeBindingV::Atomic(TypeV::Int))];
    assert(b2.drop_last() =~= b1);
    assert(b2.last() == ("Bool"@, crate::typing::TypeBindingV::Atomic(TypeV::Bool)));
    assert(spec::spec_seed_types(b2) == spec::spec_seed_types(b1).insert(("Bool"@, crate::typing::TypeBindingV::Atomic(TypeV::Bool)).0, ("Bool"@, crate::typing::TypeBindingV::Atomic(TypeV::Bool)).1));
    let b0 = Seq::<(Seq<char>, crate::typing::TypeBindingV)>::empty();
    assert(b1.drop_last() =~= b0);
    assert(b1.last() == ("Int"@, crate::typing::TypeBindingV::Atomic(TypeV::Int)));
    assert(spec::spec_seed_types(b1) == spec::spec_seed_types(b0).insert(("Int"@, crate::typing::TypeBindingV::Atomic(TypeV::Int)).0, ("Int"@, crate::typing::TypeBindingV::Atomic(TypeV::Int)).1));
    assert(spec::spec_seed_types(b0) == Map::<Seq<char>, crate::typing::TypeBindingV>::empty());
    assert("Int"@.len() == 3 && "Bool"@.len() == 4 && "Float"@.len() == 5 && "Str"@.len() == 3
        && "Void"@.len() == 4 && "List"@.len() == 4 && "Func"@.len() == 4);
    assert("Int"@ != "Str"@) by {
        assert("Int"@[0] == 'I' && "Str"@[0] == 'S');
    }
    assert("Bool"@ != "Void"@) by {
        assert("Bool"@[0] == 'B' && "Void"@[0] == 'V');
    }
    assert("Bool"@ != "List"@) by {
        assert("Bool"@[0] == 'B' && "List"@[0] == 'L');
    }
    assert("Bool"@ != "Func"@) by {
        assert("Bool"@[0] == 'B' && "Func"@[0] == 'F');
    }
    assert("Void"@ != "List"@) by {
        assert("Void"@[0] == 'V' && "List"@[0] == 'L');
    }
    assert("Void"@ != "Func"@) by {
        assert("Void"@[0] == 'V' && "Func"@[0] == 'F');
    }
    assert("List"@ != "Func"@) by {
        assert("List"@[0] == 'L' && "Func"@[0] == 'F');
    }
    assert(ts0.contains_key("Int"@) && ts0["Int"@] == crate::typing::TypeBindingV::Atomic(
        TypeV::Int,
    ));
    assert(ts0.contains_key("Bool"@) && ts0["Bool"@] == crate::typing::TypeBindingV::Atomic(
        TypeV::Bool,
    ));
    assert(ts0.contains_key("Float"@) && ts0["Float"@] == crate::typing::TypeBindingV::Atomic(
        TypeV::Float,
    ));
    assert(ts0.contains_key("Str"@) && ts0["Str"@] == crate::typing::TypeBindingV::Atomic(
        TypeV::Str,
    ));
    assert(ts0.contains_key("Void"@) && ts0["Void"@] == crate::typing::TypeBindingV::Atomic(
        TypeV::Void,
    ));
    assert(ts0.contains_key("List"@) && ts0["List"@] == crate::typing::TypeBindingV::Applied {
        arity: 1,
    });
    match t {
        TypeV::List(inner) => {
            lemma_resolve_roundtrip(*inner);
            let p = proto_of(t);
            assert(p->Applied_1.len() == 1);
            assert(p->Applied_1[0] == proto_of(*inner));
            assert(spec_resolve(ts0, p) == Ok::<TypeV, TypeErrorV>(TypeV::List(Box::new(*inner))));
        },
        _ => {},
    }
}

} // verus!

verus! {

/// A literal integer zero denominator of `/` fails analysis with
/// `DivisionZero`, whatever well-typed integer expression stands on the
/// left.
pub proof fn lemma_literal_zero_divisor_rejected(ts: TScopeV, s: AStackV, l: ExprV)
    requires
        spec_analyze_expr(ts, s, None, l) matches Ok((tl, s1)) && ty_v(tl) == TypeV::Int,
    ensures
        spec_analyze_expr(
            ts,
            s,
            None,
            ExprV::Div(Box::new(l), Box::new(ExprV::Literal(crate::ast::LiteralV::Int(0)))),
        ) == Err::<(crate::typed_ast::TypedExprV, AStackV), TypeErrorV>(TypeErrorV::DivisionZero),
{
    let zero = ExprV::Literal(crate::ast::LiteralV::Int(0));
    let (tl, s1) = spec_analyze_expr(ts, s, None, l)->Ok_0;
    assert(spec_analyze_expr(ts, s1, None, zero) == Ok::<
        (crate::typed_ast::TypedExprV, AStackV),
        TypeErrorV,
    >(
        (
            crate::typed_ast::TypedExprV::Literal(crate::ast::LiteralV::Int(0), TypeV::Int),
            s1,
        ),
    ));
}

/// A literal integer zero denominator of `%` fails analysis with
/// `DivisionZero`, whatever well-typed integer expression stands on the
/// left.
pub proof fn lemma_literal_zero_modulus_rejected(ts: TScopeV, s: AStackV, l: ExprV)
    requires
        spec_analyze_expr(ts, s, None, l) matches Ok((tl, s1)) && ty_v(tl) == TypeV::Int,
    ensures
        spec_analyze_expr(
            ts,
            s,
            None,
            ExprV::Modulo(Box::new(l), Box::new(ExprV::Literal(crate::ast::LiteralV::Int(0)))),
        ) == Err::<(crate::typed_ast::TypedExprV, AStackV), TypeErrorV>(TypeErrorV::DivisionZero),
{
    let zero = ExprV::Literal(crate::ast::LiteralV::Int(0));
    let (tl, s1) = spec_analyze_expr(ts, s, None, l)->Ok_0;
    assert(spec_analyze_expr(ts, s1, None, zero) == Ok::<
        (crate::typed_ast::TypedExprV, AStackV),
        TypeErrorV,
    >(
        (
            crate::typed_ast::TypedExprV::Literal(crate::ast::LiteralV::Int(0), TypeV::Int),
            s1,
        ),
    ));
}

/// An empty list literal without a type hint fails analysis with
/// `AmbiguousListType`, in any state.
pub proof fn lemma_empty_list_without_hint_rejected(ts: TScopeV, s: AStackV)
    ensures
        spec_analyze_expr(ts, s, None, ExprV::List(Seq::empty())) == Err::<
            (crate::typed_ast::TypedExprV, AStackV),
            TypeErrorV,
        >(TypeErrorV::AmbiguousListType),
{
    assert(spec::spec_analyze_exprs(ts, s, Seq::empty()) == Ok::<
        (Seq<crate::typed_ast::TypedExprV>, AStackV),
        TypeErrorV,
    >((Seq::empty(), s)));
}

/// Declaring a name that the innermost scope already binds fails with
/// `ScopeBindingAlreadyExists`, whenever the declared value itself
/// passes its checks.
pub proof fn lemma_redeclaration_rejected(
    ts: TScopeV,
    s: AStackV,
    ident: Seq<char>,
    is_mutable: bool,
    value: ExprV,
)
    requires
        spec_analyze_expr(ts, s, None, value) matches Ok((tv, s1)) && ty_v(tv) != TypeV::Void
            && s1.current.len() > 0 && s1.current.last().contains_key(ident),
    ensures
        spec::spec_analyze_plain_declaration(ts, s, ident, None, is_mutable, value) == Err::<
            (crate::typed_ast::TypedExprV, AStackV),
            TypeErrorV,
        >(TypeErrorV::ScopeBindingAlreadyExists(ident)),
{
}

/// Reassigning an immutable binding fails with `AssignImmutable`: when
/// the innermost-out search finds the name bound immutably, the
/// assignment is refused.
pub proof fn lemma_reassign_immutable_rejected(
    ts: TScopeV,
    s: AStackV,
    hint: Option<TypeV>,
    ident: Seq<char>,
    value: ExprV,
)
    requires
        crate::scopes::stack_lookup_v(s.current, ident) matches Some((is_mutable, _))
            && !is_mutable,
    ensures
        spec_analyze_expr(
            ts,
            s,
            hint,
            ExprV::Assignment { ident, expr: Box::new(value) },
        ) == Err::<(crate::typed_ast::TypedExprV, AStackV), TypeErrorV>(
            TypeErrorV::AssignImmutable(ident),
        ),
{
}

} // verus!
