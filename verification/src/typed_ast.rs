use vstd::prelude::*;

use crate::ast::Span;
use crate::builtins::BuiltinFuncId;
use crate::typing::{type_view, Type, TypeV};

verus! {

broadcast use
    vstd::seq::axiom_seq_index_decreases,
    vstd::std_specs::vec::axiom_vec_index_decreases,
    vstd::std_specs::vec::axiom_vec_decreases_to_view;

/// A literal carried over into the typed tree.
#[derive(Debug)]
pub enum TypedLiteral {
    Int(i32),
    String(String),
    Bool(bool),
}

impl View for TypedLiteral {
    type V = crate::ast::LiteralV;

    open spec fn view(&self) -> crate::ast::LiteralV {
        match self {
            TypedLiteral::Int(i) => crate::ast::LiteralV::Int(*i),
            TypedLiteral::String(s) => crate::ast::LiteralV::Str(s@),
            TypedLiteral::Bool(b) => crate::ast::LiteralV::Bool(*b),
        }
    }
}

/// A typed statement: one typed expression.
#[derive(Debug)]
pub struct TypedStmt {
    pub expr: TypedExpr,
}

/// A typed call: the typed callee and the typed arguments in source
/// order.
#[derive(Debug)]
pub struct TypedFuncCall {
    pub func_expr: Box<TypedExpr>,
    pub args: Vec<TypedExpr>,
}

/// A typed function value: parameters with resolved types, the body, and
/// the closure flag.
#[derive(Debug)]
pub struct TypedFunc {
    pub params: Vec<(String, Type)>,
    pub block: Box<TypedExpr>,
    pub is_closure: bool,
}

/// A typed block body: ordinary statements, or a builtin dispatched by
/// identifier that reads its named parameters from the call scope.
#[derive(Debug)]
pub enum TypedBlock {
    Interpreted(Vec<TypedStmt>, Type),
    Builtin(Vec<String>, BuiltinFuncId, Type),
}

/// An expression of the typed tree: the untyped shape, annotated with
/// the computed result type.
#[derive(Debug)]
pub enum TypedExpr {
    Eq(Box<TypedExpr>, Box<TypedExpr>, Type),
    Gt(Box<TypedExpr>, Box<TypedExpr>, Type),
    Lt(Box<TypedExpr>, Box<TypedExpr>, Type),
    Gte(Box<TypedExpr>, Box<TypedExpr>, Type),
    Lte(Box<TypedExpr>, Box<TypedExpr>, Type),
    Add(Box<TypedExpr>, Box<TypedExpr>, Type),
    Sub(Box<TypedExpr>, Box<TypedExpr>, Type),
    Mult(Box<TypedExpr>, Box<TypedExpr>, Type),
    Div(Box<TypedExpr>, Box<TypedExpr>, Type),
    Modulo(Box<TypedExpr>, Box<TypedExpr>, Type),
    Negate(Box<TypedExpr>, Type),
    Assignment { ident: String, expr: Box<TypedExpr> },
    Declaration { ident: String, is_mutable: bool, expr: Box<TypedExpr>, ty: Type },
    FuncCall(TypedFuncCall, Type),
    If(Box<TypedExpr>, Box<TypedExpr>, Type),
    IfElse(Box<TypedExpr>, Box<TypedExpr>, Box<TypedExpr>, Type),
    Block(TypedBlock),
    Loop(Box<TypedExpr>),
    Break,
    Literal(TypedLiteral, Type),
    Identifier(String, Type),
    FuncDeclare(TypedFunc, Type),
    List(Vec<TypedExpr>, Type),
}

/// Mathematical model of a typed expression.
pub enum TypedExprV {
    Eq(Box<TypedExprV>, Box<TypedExprV>, TypeV),
    Gt(Box<TypedExprV>, Box<TypedExprV>, TypeV),
    Lt(Box<TypedExprV>, Box<TypedExprV>, TypeV),
    Gte(Box<TypedExprV>, Box<TypedExprV>, TypeV),
    Lte(Box<TypedExprV>, Box<TypedExprV>, TypeV),
    Add(Box<TypedExprV>, Box<TypedExprV>, TypeV),
    Sub(Box<TypedExprV>, Box<TypedExprV>, TypeV),
    Mult(Box<TypedExprV>, Box<TypedExprV>, TypeV),
    Div(Box<TypedExprV>, Box<TypedExprV>, TypeV),
    Modulo(Box<TypedExprV>, Box<TypedExprV>, TypeV),
    Negate(Box<TypedExprV>, TypeV),
    Assignment { ident: Seq<char>, expr: Box<TypedExprV> },
    Declaration { ident: Seq<char>, is_mutable: bool, expr: Box<TypedExprV>, ty: TypeV },
    FuncCall(TypedFuncCallV, TypeV),
    If(Box<TypedExprV>, Box<TypedExprV>, TypeV),
    IfElse(Box<TypedExprV>, Box<TypedExprV>, Box<TypedExprV>, TypeV),
    Block(TypedBlockV),
    Loop(Box<TypedExprV>),
    Break,
    Literal(crate::ast::LiteralV, TypeV),
    Identifier(Seq<char>, TypeV),
    FuncDeclare(TypedFuncV, TypeV),
    List(Seq<TypedExprV>, TypeV),
}

pub struct TypedFuncCallV {
    pub func: Box<TypedExprV>,
    pub args: Seq<TypedExprV>,
}

pub struct TypedFuncV {
    pub params: Seq<(Seq<char>, TypeV)>,
    pub block: Box<TypedExprV>,
    pub is_closure: bool,
}

pub enum TypedBlockV {
    Interpreted(Seq<TypedExprV>, TypeV),
    Builtin(Seq<Seq<char>>, BuiltinFuncId, TypeV),
}

pub open spec fn typed_params_view(ps: Seq<(String, Type)>) -> Seq<(Seq<char>, TypeV)> {
    Seq::new(ps.len(), |i: int| (ps[i].0@, type_view(ps[i].1)))
}

pub open spec fn names_view(ns: Seq<String>) -> Seq<Seq<char>> {
    Seq::new(ns.len(), |i: int| ns[i]@)
}

pub open spec fn typed_func_view(f: TypedFunc) -> TypedFuncV
    decreases f,
{
    TypedFuncV {
        params: typed_params_view(f.params@),
        block: Box::new(typed_expr_view(*f.block)),
        is_closure: f.is_closure,
    }
}

pub open spec fn typed_block_view(b: TypedBlock) -> TypedBlockV
    decreases b,
{
    match b {
        TypedBlock::Interpreted(stmts, ty) => TypedBlockV::Interpreted(
            Seq::new(
                stmts@.len(),
                |i: int|
                    if 0 <= i < stmts@.len() {
                        typed_expr_view(stmts@[i].expr)
                    } else {
                        TypedExprV::Break
                    },
            ),
            type_view(ty),
        ),
        TypedBlock::Builtin(params, id, ty) => TypedBlockV::Builtin(
            names_view(params@),
            id,
            type_view(ty),
        ),
    }
}

pub open spec fn typed_expr_view(e: TypedExpr) -> TypedExprV
    decreases e,
{
    match e {
        TypedExpr::Eq(l, r, ty) => TypedExprV::Eq(
            Box::new(typed_expr_view(*l)),
            Box::new(typed_expr_view(*r)),
            type_view(ty),
        ),
        TypedExpr::Gt(l, r, ty) => TypedExprV::Gt(
            Box::new(typed_expr_view(*l)),
            Box::new(typed_expr_view(*r)),
            type_view(ty),
        ),
        TypedExpr::Lt(l, r, ty) => TypedExprV::Lt(
            Box::new(typed_expr_view(*l)),
            Box::new(typed_expr_view(*r)),
            type_view(ty),
        ),
        TypedExpr::Gte(l, r, ty) => TypedExprV::Gte(
            Box::new(typed_expr_view(*l)),
            Box::new(typed_expr_view(*r)),
            type_view(ty),
        ),
        TypedExpr::Lte(l, r, ty) => TypedExprV::Lte(
            Box::new(typed_expr_view(*l)),
            Box::new(typed_expr_view(*r)),
            type_view(ty),
        ),
        TypedExpr::Add(l, r, ty) => TypedExprV::Add(
            Box::new(typed_expr_view(*l)),
            Box::new(typed_expr_view(*r)),
            type_view(ty),
        ),
        TypedExpr::Sub(l, r, ty) => TypedExprV::Sub(
            Box::new(typed_expr_view(*l)),
            Box::new(typed_expr_view(*r)),
            type_view(ty),
        ),
        TypedExpr::Mult(l, r, ty) => TypedExprV::Mult(
            Box::new(typed_expr_view(*l)),
            Box::new(typed_expr_view(*r)),
            type_view(ty),
        ),
        TypedExpr::Div(l, r, ty) => TypedExprV::Div(
            Box::new(typed_expr_view(*l)),
            Box::new(typed_expr_view(*r)),
            type_view(ty),
        ),
        TypedExpr::Modulo(l, r, ty) => TypedExprV::Modulo(
            Box::new(typed_expr_view(*l)),
            Box::new(typed_expr_view(*r)),
            type_view(ty),
        ),
        TypedExpr::Negate(inner, ty) => TypedExprV::Negate(
            Box::new(typed_expr_view(*inner)),
            type_view(ty),
        ),
        TypedExpr::Assignment { ident, expr } => TypedExprV::Assignment {
            ident: ident@,
            expr: Box::new(typed_expr_view(*expr)),
        },
        TypedExpr::Declaration { ident, is_mutable, expr, ty } => TypedExprV::Declaration {
            ident: ident@,
            is_mutable,
            expr: Box::new(typed_expr_view(*expr)),
            ty: type_view(ty),
        },
        TypedExpr::FuncCall(call, ty) => TypedExprV::FuncCall(
            TypedFuncCallV {
                func: Box::new(typed_expr_view(*call.func_expr)),
                args: Seq::new(
                    call.args@.len(),
                    |i: int|
                        if 0 <= i < call.args@.len() {
                            typed_expr_view(call.args@[i])
                        } else {
                            TypedExprV::Break
                        },
                ),
            },
            type_view(ty),
        ),
        TypedExpr::If(cond, then, ty) => TypedExprV::If(
            Box::new(typed_expr_view(*cond)),
            Box::new(typed_expr_view(*then)),
            type_view(ty),
        ),
        TypedExpr::IfElse(cond, then, els, ty) => TypedExprV::IfElse(
            Box::new(typed_expr_view(*cond)),
            Box::new(typed_expr_view(*then)),
            Box::new(typed_expr_view(*els)),
            type_view(ty),
        ),
        TypedExpr::Block(block) => TypedExprV::Block(typed_block_view(block)),
        TypedExpr::Loop(block) => TypedExprV::Loop(Box::new(typed_expr_view(*block))),
        TypedExpr::Break => TypedExprV::Break,
        TypedExpr::Literal(lit, ty) => TypedExprV::Literal(lit@, type_view(ty)),
        TypedExpr::Identifier(ident, ty) => TypedExprV::Identifier(ident@, type_view(ty)),
        TypedExpr::FuncDeclare(func, ty) => TypedExprV::FuncDeclare(
            typed_func_view(func),
            type_view(ty),
        ),
        TypedExpr::List(items, ty) => TypedExprV::List(
            Seq::new(
                items@.len(),
                |i: int|
                    if 0 <= i < items@.len() {
                        typed_expr_view(items@[i])
                    } else {
                        TypedExprV::Break
                    },
            ),
            type_view(ty),
        ),
    }
}

impl View for TypedExpr {
    type V = TypedExprV;

    open spec fn view(&self) -> TypedExprV {
        typed_expr_view(*self)
    }
}

impl View for TypedStmt {
    type V = TypedExprV;

    open spec fn view(&self) -> TypedExprV {
        typed_expr_view(self.expr)
    }
}

impl View for TypedFunc {
    type V = TypedFuncV;

    open spec fn view(&self) -> TypedFuncV {
        typed_func_view(*self)
    }
}

impl View for TypedBlock {
    type V = TypedBlockV;

    open spec fn view(&self) -> TypedBlockV {
        typed_block_view(*self)
    }
}

/// The type recorded on a typed block.
pub open spec fn block_ty_v(b: TypedBlockV) -> TypeV {
    match b {
        TypedBlockV::Interpreted(_, ty) => ty,
        TypedBlockV::Builtin(_, _, ty) => ty,
    }
}

/// The result type an expression of the typed tree carries: the
/// annotation where one is recorded; `Void` for assignments,
/// declarations and `break`; the body's type for a loop.
pub open spec fn ty_v(e: TypedExprV) -> TypeV
    decreases e,
{
    match e {
        TypedExprV::Eq(_, _, ty) => ty,
        TypedExprV::Gt(_, _, ty) => ty,
        TypedExprV::Lt(_, _, ty) => ty,
        TypedExprV::Gte(_, _, ty) => ty,
        TypedExprV::Lte(_, _, ty) => ty,
        TypedExprV::Add(_, _, ty) => ty,
        TypedExprV::Sub(_, _, ty) => ty,
        TypedExprV::Mult(_, _, ty) => ty,
        TypedExprV::Div(_, _, ty) => ty,
        TypedExprV::Modulo(_, _, ty) => ty,
        TypedExprV::Negate(_, ty) => ty,
        TypedExprV::Assignment { .. } => TypeV::Void,
        TypedExprV::Declaration { ty, .. } => ty,
        TypedExprV::FuncCall(_, ty) => ty,
        TypedExprV::If(_, _, ty) => ty,
        TypedExprV::IfElse(_, _, _, ty) => ty,
        TypedExprV::Block(block) => block_ty_v(block),
        TypedExprV::Loop(block) => ty_v(*block),
        TypedExprV::Break => TypeV::Void,
        TypedExprV::Literal(_, ty) => ty,
        TypedExprV::Identifier(_, ty) => ty,
        TypedExprV::FuncDeclare(_, ty) => ty,
        TypedExprV::List(_, ty) => ty,
    }
}

impl TypedBlock {
    /// The type recorded on this block.
    pub fn ty(&self) -> (r: Type)
        ensures
            r@ == block_ty_v(self@),
    {
        match self {
            TypedBlock::Interpreted(_, ty) => ty.clone(),
            TypedBlock::Builtin(_, _, ty) => ty.clone(),
        }
    }
}

impl TypedExpr {
    /// The result type this expression carries.
    pub fn ty(&self) -> (r: Type)
        ensures
            r@ == ty_v(self@),
        decreases self,
    {
        match self {
            TypedExpr::Eq(_, _, ty) => ty.clone(),
            TypedExpr::Gt(_, _, ty) => ty.clone(),
            TypedExpr::Lt(_, _, ty) => ty.clone(),
            TypedExpr::Gte(_, _, ty) => ty.clone(),
            TypedExpr::Lte(_, _, ty) => ty.clone(),
            TypedExpr::Add(_, _, ty) => ty.clone(),
            TypedExpr::Sub(_, _, ty) => ty.clone(),
            TypedExpr::Mult(_, _, ty) => ty.clone(),
            TypedExpr::Div(_, _, ty) => ty.clone(),
            TypedExpr::Modulo(_, _, ty) => ty.clone(),
            TypedExpr::Negate(_, ty) => ty.clone(),
            TypedExpr::Assignment { .. } => Type::Void,
            TypedExpr::Declaration { ty, .. } => ty.clone(),
            TypedExpr::FuncCall(_, ty) => ty.clone(),
            TypedExpr::If(_, _, ty) => ty.clone(),
            TypedExpr::IfElse(_, _, _, ty) => ty.clone(),
            TypedExpr::Block(block) => block.ty(),
            TypedExpr::Loop(block) => block.ty(),
            TypedExpr::Break => Type::Void,
            TypedExpr::Literal(_, ty) => ty.clone(),
            TypedExpr::Identifier(_, ty) => ty.clone(),
            TypedExpr::FuncDeclare(_, ty) => ty.clone(),
            TypedExpr::List(_, ty) => ty.clone(),
        }
    }

    /// Whether this expression is a function literal.
    pub fn is_func_declare(&self) -> (r: bool)
        ensures
            r == (self@ is FuncDeclare),
    {
        matches!(self, TypedExpr::FuncDeclare(_, _))
    }
}

} // verus!


verus! {

impl Clone for TypedLiteral {
    /// A structural copy; the copy has the same view as the original.
    fn clone(&self) -> (r: TypedLiteral)
        ensures
            r@ == self@,
    {
        match self {
            TypedLiteral::Int(i) => TypedLiteral::Int(*i),
            TypedLiteral::String(s) => TypedLiteral::String(crate::typing::clone_string(s)),
            TypedLiteral::Bool(b) => TypedLiteral::Bool(*b),
        }
    }
}

impl Clone for TypedStmt {
    /// A structural copy; the copy has the same view as the original.
    fn clone(&self) -> (r: TypedStmt)
        ensures
            r@ == self@,
        decreases self,
    {
        TypedStmt { expr: self.expr.clone() }
    }
}

impl Clone for TypedFunc {
    /// A structural copy; the copy has the same view as the original.
    fn clone(&self) -> (r: TypedFunc)
        ensures
            r@ == self@,
        decreases self,
    {
        let n = self.params.len();
        let mut params: Vec<(String, Type)> = Vec::new();
        let mut i: usize = 0;
        while i < n
            invariant
                n == self.params@.len(),
                i <= n,
                params@.len() == i,
                forall|j: int|
                    0 <= j < i ==> params@[j].0@ == self.params@[j].0@ && type_view(params@[j].1)
                        == type_view(self.params@[j].1),
            decreases n - i,
        {
            params.push(
                (crate::typing::clone_string(&self.params[i].0), self.params[i].1.clone()),
            );
            i += 1;
        }
        let result = TypedFunc {
            params,
            block: Box::new((*self.block).clone()),
            is_closure: self.is_closure,
        };
        proof {
            assert(typed_params_view(result.params@) =~= typed_params_view(self.params@));
        }
        result
    }
}

impl Clone for TypedBlock {
    /// A structural copy; the copy has the same view as the original.
    fn clone(&self) -> (r: TypedBlock)
        ensures
            r@ == self@,
        decreases self,
    {
        match self {
            TypedBlock::Interpreted(stmts, ty) => {
                let n = stmts.len();
                let mut out: Vec<TypedStmt> = Vec::new();
                let mut i: usize = 0;
                while i < n
                    invariant
                        self matches TypedBlock::Interpreted(x, _) && x == stmts,
                        n == stmts@.len(),
                        i <= n,
                        out@.len() == i,
                        forall|j: int|
                            0 <= j < i ==> typed_expr_view(out@[j].expr) == typed_expr_view(
                                stmts@[j].expr,
                            ),
                    decreases n - i,
                {
                    proof {
                        vstd::std_specs::vec::axiom_vec_index_decreases(*stmts, i as int);
                    }
                    out.push(stmts[i].clone());
                    i += 1;
                }
                let result = TypedBlock::Interpreted(out, ty.clone());
                proof {
                    assert(result@->Interpreted_0 =~= self@->Interpreted_0);
                }
                result
            },
            TypedBlock::Builtin(names, id, ty) => {
                let n = names.len();
                let mut out: Vec<String> = Vec::new();
                let mut i: usize = 0;
                while i < n
                    invariant
                        n == names@.len(),
                        i <= n,
                        out@.len() == i,
                        forall|j: int| 0 <= j < i ==> out@[j]@ == names@[j]@,
                    decreases n - i,
                {
                    out.push(crate::typing::clone_string(&names[i]));
                    i += 1;
                }
                let result = TypedBlock::Builtin(out, *id, ty.clone());
                proof {
                    assert(result@->Builtin_0 =~= self@->Builtin_0);
                }
                result
            },
        }
    }
}

impl Clone for TypedFuncCall {
    /// A structural copy; the copy has the same view as the original.
    fn clone(&self) -> (r: TypedFuncCall)
        ensures
            typed_expr_view(*r.func_expr) == typed_expr_view(*self.func_expr),
            crate::errors::typed_exprs_view(r.args@) == crate::errors::typed_exprs_view(
                self.args@,
            ),
        decreases self,
    {
        let n = self.args.len();
        let mut args: Vec<TypedExpr> = Vec::new();
        let mut i: usize = 0;
        while i < n
            invariant
                n == self.args@.len(),
                i <= n,
                args@.len() == i,
                forall|j: int|
                    0 <= j < i ==> typed_expr_view(args@[j]) == typed_expr_view(self.args@[j]),
            decreases n - i,
        {
            proof {
                vstd::std_specs::vec::axiom_vec_index_decreases(self.args, i as int);
            }
            args.push(self.args[i].clone());
            i += 1;
        }
        let result = TypedFuncCall { func_expr: Box::new((*self.func_expr).clone()), args };
        proof {
            assert(crate::errors::typed_exprs_view(result.args@)
                =~= crate::errors::typed_exprs_view(self.args@));
        }
        result
    }
}

impl Clone for TypedExpr {
    /// A structural copy; the copy has the same view as the original.
    fn clone(&self) -> (r: TypedExpr)
        ensures
            r@ == self@,
        decreases self,
    {
        match self {
            TypedExpr::Eq(l, r, ty) => TypedExpr::Eq(
                Box::new((**l).clone()),
                Box::new((**r).clone()),
                ty.clone(),
            ),
            TypedExpr::Gt(l, r, ty) => TypedExpr::Gt(
                Box::new((**l).clone()),
                Box::new((**r).clone()),
                ty.clone(),
            ),
            TypedExpr::Lt(l, r, ty) => TypedExpr::Lt(
                Box::new((**l).clone()),
                Box::new((**r).clone()),
                ty.clone(),
            ),
            TypedExpr::Gte(l, r, ty) => TypedExpr::Gte(
                Box::new((**l).clone()),
                Box::new((**r).clone()),
                ty.clone(),
            ),
            TypedExpr::Lte(l, r, ty) => TypedExpr::Lte(
                Box::new((**l).clone()),
                Box::new((**r).clone()),
                ty.clone(),
            ),
            TypedExpr::Add(l, r, ty) => TypedExpr::Add(
                Box::new((**l).clone()),
                Box::new((**r).clone()),
                ty.clone(),
            ),
            TypedExpr::Sub(l, r, ty) => TypedExpr::Sub(
                Box::new((**l).clone()),
                Box::new((**r).clone()),
                ty.clone(),
            ),
            TypedExpr::Mult(l, r, ty) => TypedExpr::Mult(
                Box::new((**l).clone()),
                Box::new((**r).clone()),
                ty.clone(),
            ),
            TypedExpr::Div(l, r, ty) => TypedExpr::Div(
                Box::new((**l).clone()),
                Box::new((**r).clone()),
                ty.clone(),
            ),
            TypedExpr::Modulo(l, r, ty) => TypedExpr::Modulo(
                Box::new((**l).clone()),
                Box::new((**r).clone()),
                ty.clone(),
            ),
            TypedExpr::Negate(inner, ty) => TypedExpr::Negate(
                Box::new((**inner).clone()),
                ty.clone(),
            ),
            TypedExpr::Assignment { ident, expr } => TypedExpr::Assignment {
                ident: crate::typing::clone_string(ident),
                expr: Box::new((**expr).clone()),
            },
            TypedExpr::Declaration { ident, is_mutable, expr, ty } => TypedExpr::Declaration {
                ident: crate::typing::clone_string(ident),
                is_mutable: *is_mutable,
                expr: Box::new((**expr).clone()),
                ty: ty.clone(),
            },
            TypedExpr::FuncCall(call, ty) => {
                let result = TypedExpr::FuncCall(call.clone(), ty.clone());
                proof {
                    assert(result@->FuncCall_0.args =~= crate::errors::typed_exprs_view(
                        call.args@,
                    ));
                    assert(self@->FuncCall_0.args =~= crate::errors::typed_exprs_view(
                        call.args@,
                    ));
                }
                result
            },
            TypedExpr::If(cond, then, ty) => TypedExpr::If(
                Box::new((**cond).clone()),
                Box::new((**then).clone()),
                ty.clone(),
            ),
            TypedExpr::IfElse(cond, then, els, ty) => TypedExpr::IfElse(
                Box::new((**cond).clone()),
                Box::new((**then).clone()),
                Box::new((**els).clone()),
                ty.clone(),
            ),
            TypedExpr::Block(block) => TypedExpr::Block(block.clone()),
            TypedExpr::Loop(block) => TypedExpr::Loop(Box::new((**block).clone())),
            TypedExpr::Break => TypedExpr::Break,
            TypedExpr::Literal(lit, ty) => TypedExpr::Literal(lit.clone(), ty.clone()),
            TypedExpr::Identifier(ident, ty) => TypedExpr::Identifier(
                crate::typing::clone_string(ident),
                ty.clone(),
            ),
            TypedExpr::FuncDeclare(func, ty) => TypedExpr::FuncDeclare(func.clone(), ty.clone()),
            TypedExpr::List(items, ty) => {
                let n = items.len();
                let mut out: Vec<TypedExpr> = Vec::new();
                let mut i: usize = 0;
                while i < n
                    invariant
                        self matches TypedExpr::List(x, _) && x == items,
                        n == items@.len(),
                        i <= n,
                        out@.len() == i,
                        forall|j: int|
                            0 <= j < i ==> typed_expr_view(out@[j]) == typed_expr_view(
                                items@[j],
                            ),
                    decreases n - i,
                {
                    proof {
                        vstd::std_specs::vec::axiom_vec_index_decreases(*items, i as int);
                    }
                    out.push(items[i].clone());
                    i += 1;
                }
                let result = TypedExpr::List(out, ty.clone());
                proof {
                    assert(result@->List_0 =~= self@->List_0);
                }
                result
            },
        }
    }
}

} // verus!
