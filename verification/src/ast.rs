use vstd::prelude::*;

use crate::typing::{proto_type_view, ProtoType, ProtoTypeV};

verus! {

broadcast use
    vstd::seq::axiom_seq_index_decreases,
    vstd::std_specs::vec::axiom_vec_index_decreases,
    vstd::std_specs::vec::axiom_vec_decreases_to_view;

/// Byte offsets into the source text, for diagnostics.
#[derive(Clone, Copy, Debug)]
pub struct Span {
    pub start: usize,
    pub end: usize,
}

/// A literal as the parser hands it over. Integers are 32-bit.
#[derive(Debug)]
pub enum Literal {
    Int(i32),
    String(String),
    Bool(bool),
}

/// Mathematical model of a literal.
pub enum LiteralV {
    Int(i32),
    Str(Seq<char>),
    Bool(bool),
}

impl View for Literal {
    type V = LiteralV;

    open spec fn view(&self) -> LiteralV {
        match self {
            Literal::Int(i) => LiteralV::Int(*i),
            Literal::String(s) => LiteralV::Str(s@),
            Literal::Bool(b) => LiteralV::Bool(*b),
        }
    }
}

/// An expression of the untyped tree produced by the parsing frontend.
#[derive(Debug)]
pub enum Expr {
    Eq(Box<Expr>, Box<Expr>),
    Gt(Box<Expr>, Box<Expr>),
    Lt(Box<Expr>, Box<Expr>),
    Gte(Box<Expr>, Box<Expr>),
    Lte(Box<Expr>, Box<Expr>),
    Add(Box<Expr>, Box<Expr>),
    Sub(Box<Expr>, Box<Expr>),
    Mult(Box<Expr>, Box<Expr>),
    Div(Box<Expr>, Box<Expr>),
    Modulo(Box<Expr>, Box<Expr>),
    Negate(Box<Expr>),
    Assignment { ident: String, expr: Box<Expr> },
    Declaration { ident: String, type_annotation: Option<ProtoType>, expr: Box<Expr>, is_mutable: bool },
    FuncCall(FuncCall, Span),
    If(Box<Expr>, Box<Expr>),
    IfElse(Box<Expr>, Box<Expr>, Box<Expr>),
    Block(Vec<Stmt>, Span),
    Loop(Box<Expr>),
    Break,
    Literal(Literal),
    Identifier(String),
    FuncDeclare(FuncDeclare),
    List(Vec<Expr>),
}

/// A statement: one expression.
#[derive(Debug)]
pub struct Stmt {
    pub expr: Expr,
}

/// A call: the callee expression and the argument expressions in source
/// order.
#[derive(Debug)]
pub struct FuncCall {
    pub func: Box<Expr>,
    pub args: Vec<Expr>,
}

/// A function literal: ordered typed parameters, a return type, a block
/// body, and whether the function is a closure.
#[derive(Debug)]
pub struct FuncDeclare {
    pub params: Vec<(String, ProtoType)>,
    pub return_type: Box<ProtoType>,
    pub block: Box<Expr>,
    pub is_closure: bool,
}

/// Mathematical model of an untyped expression. Statements appear as
/// their expressions.
pub enum ExprV {
    Eq(Box<ExprV>, Box<ExprV>),
    Gt(Box<ExprV>, Box<ExprV>),
    Lt(Box<ExprV>, Box<ExprV>),
    Gte(Box<ExprV>, Box<ExprV>),
    Lte(Box<ExprV>, Box<ExprV>),
    Add(Box<ExprV>, Box<ExprV>),
    Sub(Box<ExprV>, Box<ExprV>),
    Mult(Box<ExprV>, Box<ExprV>),
    Div(Box<ExprV>, Box<ExprV>),
    Modulo(Box<ExprV>, Box<ExprV>),
    Negate(Box<ExprV>),
    Assignment { ident: Seq<char>, expr: Box<ExprV> },
    Declaration { ident: Seq<char>, type_annotation: Option<ProtoTypeV>, expr: Box<ExprV>, is_mutable: bool },
    FuncCall(FuncCallV, Span),
    If(Box<ExprV>, Box<ExprV>),
    IfElse(Box<ExprV>, Box<ExprV>, Box<ExprV>),
    Block(Seq<ExprV>, Span),
    Loop(Box<ExprV>),
    Break,
    Literal(LiteralV),
    Identifier(Seq<char>),
    FuncDeclare(FuncDeclareV),
    List(Seq<ExprV>),
}

pub struct FuncCallV {
    pub func: Box<ExprV>,
    pub args: Seq<ExprV>,
}

pub struct FuncDeclareV {
    pub params: Seq<(Seq<char>, ProtoTypeV)>,
    pub return_type: ProtoTypeV,
    pub block: Box<ExprV>,
    pub is_closure: bool,
}

pub open spec fn params_view(ps: Seq<(String, ProtoType)>) -> Seq<(Seq<char>, ProtoTypeV)> {
    Seq::new(ps.len(), |i: int| (ps[i].0@, ps[i].1@))
}

pub open spec fn expr_view(e: Expr) -> ExprV
    decreases e,
{
    match e {
        Expr::Eq(l, r) => ExprV::Eq(Box::new(expr_view(*l)), Box::new(expr_view(*r))),
        Expr::Gt(l, r) => ExprV::Gt(Box::new(expr_view(*l)), Box::new(expr_view(*r))),
        Expr::Lt(l, r) => ExprV::Lt(Box::new(expr_view(*l)), Box::new(expr_view(*r))),
        Expr::Gte(l, r) => ExprV::Gte(Box::new(expr_view(*l)), Box::new(expr_view(*r))),
        Expr::Lte(l, r) => ExprV::Lte(Box::new(expr_view(*l)), Box::new(expr_view(*r))),
        Expr::Add(l, r) => ExprV::Add(Box::new(expr_view(*l)), Box::new(expr_view(*r))),
        Expr::Sub(l, r) => ExprV::Sub(Box::new(expr_view(*l)), Box::new(expr_view(*r))),
        Expr::Mult(l, r) => ExprV::Mult(Box::new(expr_view(*l)), Box::new(expr_view(*r))),
        Expr::Div(l, r) => ExprV::Div(Box::new(expr_view(*l)), Box::new(expr_view(*r))),
        Expr::Modulo(l, r) => ExprV::Modulo(Box::new(expr_view(*l)), Box::new(expr_view(*r))),
        Expr::Negate(inner) => ExprV::Negate(Box::new(expr_view(*inner))),
        Expr::Assignment { ident, expr } => ExprV::Assignment {
            ident: ident@,
            expr: Box::new(expr_view(*expr)),
        },
        Expr::Declaration { ident, type_annotation, expr, is_mutable } => ExprV::Declaration {
            ident: ident@,
            type_annotation: match type_annotation {
                Some(p) => Some(proto_type_view(p)),
                None => None,
            },
            expr: Box::new(expr_view(*expr)),
            is_mutable,
        },
        Expr::FuncCall(call, span) => ExprV::FuncCall(
            FuncCallV {
                func: Box::new(expr_view(*call.func)),
                args: Seq::new(
                    call.args@.len(),
                    |i: int|
                        if 0 <= i < call.args@.len() {
                            expr_view(call.args@[i])
                        } else {
                            ExprV::Break
                        },
                ),
            },
            span,
        ),
        Expr::If(cond, then) => ExprV::If(Box::new(expr_view(*cond)), Box::new(expr_view(*then))),
        Expr::IfElse(cond, then, els) => ExprV::IfElse(
            Box::new(expr_view(*cond)),
            Box::new(expr_view(*then)),
            Box::new(expr_view(*els)),
        ),
        Expr::Block(stmts, span) => ExprV::Block(
            Seq::new(
                stmts@.len(),
                |i: int|
                    if 0 <= i < stmts@.len() {
                        expr_view(stmts@[i].expr)
                    } else {
                        ExprV::Break
                    },
            ),
            span,
        ),
        Expr::Loop(block) => ExprV::Loop(Box::new(expr_view(*block))),
        Expr::Break => ExprV::Break,
        Expr::Literal(lit) => ExprV::Literal(lit@),
        Expr::Identifier(ident) => ExprV::Identifier(ident@),
        Expr::FuncDeclare(func) => ExprV::FuncDeclare(
            FuncDeclareV {
                params: params_view(func.params@),
                return_type: proto_type_view(*func.return_type),
                block: Box::new(expr_view(*func.block)),
                is_closure: func.is_closure,
            },
        ),
        Expr::List(values) => ExprV::List(
            Seq::new(
                values@.len(),
                |i: int|
                    if 0 <= i < values@.len() {
                        expr_view(values@[i])
                    } else {
                        ExprV::Break
                    },
            ),
        ),
    }
}

impl View for Expr {
    type V = ExprV;

    open spec fn view(&self) -> ExprV {
        expr_view(*self)
    }
}

impl View for FuncDeclare {
    type V = FuncDeclareV;

    open spec fn view(&self) -> FuncDeclareV {
        FuncDeclareV {
            params: params_view(self.params@),
            return_type: proto_type_view(*self.return_type),
            block: Box::new(expr_view(*self.block)),
            is_closure: self.is_closure,
        }
    }
}

impl View for FuncCall {
    type V = FuncCallV;

    open spec fn view(&self) -> FuncCallV {
        FuncCallV {
            func: Box::new(expr_view(*self.func)),
            args: Seq::new(
                self.args@.len(),
                |i: int|
                    if 0 <= i < self.args@.len() {
                        expr_view(self.args@[i])
                    } else {
                        ExprV::Break
                    },
            ),
        }
    }
}

impl View for Stmt {
    type V = ExprV;

    open spec fn view(&self) -> ExprV {
        expr_view(self.expr)
    }
}

impl Expr {
    /// Whether this expression is a function literal.
    pub fn is_func_declare(&self) -> (r: bool)
        ensures
            r == (self@ is FuncDeclare),
    {
        matches!(self, Expr::FuncDeclare(_))
    }

    /// The function literal inside this expression.
    pub fn as_func_declare(&self) -> (r: &FuncDeclare)
        requires
            self@ is FuncDeclare,
        ensures
            self@ == ExprV::FuncDeclare(
                FuncDeclareV {
                    params: params_view(r.params@),
                    return_type: proto_type_view(*r.return_type),
                    block: Box::new(expr_view(*r.block)),
                    is_closure: r.is_closure,
                },
            ),
    {
        if let Expr::FuncDeclare(func) = self {
            func
        } else {
            unreached()
        }
    }
}

} // verus!
