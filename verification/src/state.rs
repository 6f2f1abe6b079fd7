use vstd::prelude::*;

verus! {

/// Mathematical model of the I/O context: the input lines still to be
/// read (front first, each line as handed over by the host, newline
/// included), and the lines written so far (without their newlines).
pub struct IoContextV {
    pub input: Seq<Seq<char>>,
    pub output: Seq<Seq<char>>,
}

pub open spec fn lines_view(v: Seq<String>) -> Seq<Seq<char>> {
    Seq::new(v.len(), |i: int| v[i]@)
}

/// A line as `read_line` hands it over: a trailing `'\n'` is removed,
/// and then a trailing `'\r'` if one remains.
pub open spec fn strip_line_v(l: Seq<char>) -> Seq<char> {
    if l.len() > 0 && l.last() == '\n' {
        let m = l.drop_last();
        if m.len() > 0 && m.last() == '\r' {
            m.drop_last()
        } else {
            m
        }
    } else {
        l
    }
}

/// The evaluator's window onto the host's streams, held as a transcript:
/// a queue of input lines and the lines written so far. The driver
/// fills the input from its byte source and forwards the output to its
/// sink.
pub struct IoContext {
    input: Vec<String>,
    output: Vec<String>,
}

impl View for IoContext {
    type V = IoContextV;

    closed spec fn view(&self) -> IoContextV {
        IoContextV { input: lines_view(self.input@), output: lines_view(self.output@) }
    }
}

impl IoContext {
    /// A context with the given input lines pending and nothing written.
    pub fn new(input: Vec<String>) -> (r: IoContext)
        ensures
            r@.input =~= lines_view(input@),
            r@.output =~= Seq::<Seq<char>>::empty(),
    {
        IoContext { input, output: Vec::new() }
    }

    /// The lines written so far, in order.
    pub fn written(&self) -> (r: &Vec<String>)
        ensures
            lines_view(r@) == self@.output,
    {
        &self.output
    }

    /// Appends one line to the output: the string, then a newline, as
    /// one flushed write.
    pub fn write_line(&mut self, s: &str) -> (r: Result<(), crate::errors::RuntimeError>)
        ensures
            r is Ok,
            final(self)@.output =~= old(self)@.output.push(s@),
            final(self)@.input == old(self)@.input,
    {
        self.output.push(s.to_owned());
        proof {
            assert(lines_view(self.output@) =~= lines_view(old(self).output@).push(s@));
            assert(lines_view(self.input@) == old(self)@.input);
        }
        Ok(())
    }

    /// Reads one line: consumes through the first newline and hands the
    /// line over without its `'\n'` and an optional preceding `'\r'`.
    /// At the end of input the line is empty.
    pub fn read_line(&mut self) -> (r: Result<String, crate::errors::RuntimeError>)
        ensures
            final(self)@.output == old(self)@.output,
            match r {
                Ok(line) => if old(self)@.input.len() == 0 {
                    final(self)@.input == old(self)@.input && line@ == Seq::<char>::empty()
                } else {
                    final(self)@.input =~= old(self)@.input.drop_first() && line@ == strip_line_v(
                        old(self)@.input.first(),
                    )
                },
                Err(_) => false,
            },
    {
        if self.input.len() == 0 {
            let empty = String::new();
            return Ok(empty);
        }
        let line = self.input.remove(0);
        proof {
            assert(lines_view(self.input@) =~= lines_view(old(self).input@).drop_first());
            assert(line@ == old(self)@.input.first());
        }
        let n = line.as_str().unicode_len();
        if n > 0 && line.as_str().get_char(n - 1) == '\n' {
            let m = n - 1;
            if m > 0 && line.as_str().get_char(m - 1) == '\r' {
                let stripped = line.as_str().substring_char(0, m - 1).to_owned();
                proof {
                    assert(stripped@ =~= strip_line_v(line@));
                }
                Ok(stripped)
            } else {
                let stripped = line.as_str().substring_char(0, m).to_owned();
                proof {
                    assert(stripped@ =~= strip_line_v(line@));
                }
                Ok(stripped)
            }
        } else {
            Ok(line)
        }
    }
}

} // verus!

use crate::interpreter::{value_view, values_view, ResolvedValue, ValueV};
use crate::scopes::{ScopeStack, ScopeStackV};
use crate::typed_ast::{typed_expr_view, TypedExpr, TypedExprV, TypedStmt};

verus! {

/// What one evaluator operation returned: go on, or unwind to the
/// nearest loop or block marker.
#[derive(Clone, Copy, PartialEq, Eq, Structural, Debug)]
pub enum ControlFlow {
    Continue,
    Break,
    Return,
}

/// A unit of pending work on the evaluator's control stack.
#[derive(Debug)]
pub enum ControlOp {
    EvalBlock(TypedExpr),
    EvalStmt(TypedStmt),
    EvalExpr(TypedExpr),
    ApplyStmt,
    ApplyAdd,
    ApplySub,
    ApplyMult,
    ApplyDiv,
    ApplyModulo,
    ApplyEq,
    ApplyGt,
    ApplyLt,
    ApplyGte,
    ApplyLte,
    ApplyNegate,
    ApplyAssignment(String),
    ApplyDeclaration(String, bool),
    ApplyFuncCall(Vec<TypedExpr>),
    ApplyBinding(String),
    PushScope { create_new_stack: bool },
    PopScope { restore_previous_stack: bool },
    ApplyIf(TypedExpr),
    ApplyIfElse(TypedExpr, TypedExpr),
    PushLoop(TypedExpr),
    MarkLoopStart,
    MarkBlockStart,
    ApplyList(usize),
}

/// Mathematical model of a control operation.
pub enum ControlOpV {
    EvalBlock(TypedExprV),
    EvalStmt(TypedExprV),
    EvalExpr(TypedExprV),
    ApplyStmt,
    ApplyAdd,
    ApplySub,
    ApplyMult,
    ApplyDiv,
    ApplyModulo,
    ApplyEq,
    ApplyGt,
    ApplyLt,
    ApplyGte,
    ApplyLte,
    ApplyNegate,
    ApplyAssignment(Seq<char>),
    ApplyDeclaration(Seq<char>, bool),
    ApplyFuncCall(Seq<TypedExprV>),
    ApplyBinding(Seq<char>),
    PushScope { create_new_stack: bool },
    PopScope { restore_previous_stack: bool },
    ApplyIf(TypedExprV),
    ApplyIfElse(TypedExprV, TypedExprV),
    PushLoop(TypedExprV),
    MarkLoopStart,
    MarkBlockStart,
    ApplyList(nat),
}

pub open spec fn control_op_view(op: ControlOp) -> ControlOpV {
    match op {
        ControlOp::EvalBlock(e) => ControlOpV::EvalBlock(typed_expr_view(e)),
        ControlOp::EvalStmt(s) => ControlOpV::EvalStmt(typed_expr_view(s.expr)),
        ControlOp::EvalExpr(e) => ControlOpV::EvalExpr(typed_expr_view(e)),
        ControlOp::ApplyStmt => ControlOpV::ApplyStmt,
        ControlOp::ApplyAdd => ControlOpV::ApplyAdd,
        ControlOp::ApplySub => ControlOpV::ApplySub,
        ControlOp::ApplyMult => ControlOpV::ApplyMult,
        ControlOp::ApplyDiv => ControlOpV::ApplyDiv,
        ControlOp::ApplyModulo => ControlOpV::ApplyModulo,
        ControlOp::ApplyEq => ControlOpV::ApplyEq,
        ControlOp::ApplyGt => ControlOpV::ApplyGt,
        ControlOp::ApplyLt => ControlOpV::ApplyLt,
        ControlOp::ApplyGte => ControlOpV::ApplyGte,
        ControlOp::ApplyLte => ControlOpV::ApplyLte,
        ControlOp::ApplyNegate => ControlOpV::ApplyNegate,
        ControlOp::ApplyAssignment(ident) => ControlOpV::ApplyAssignment(ident@),
        ControlOp::ApplyDeclaration(ident, is_mutable) => ControlOpV::ApplyDeclaration(
            ident@,
            is_mutable,
        ),
        ControlOp::ApplyFuncCall(args) => ControlOpV::ApplyFuncCall(
            crate::errors::typed_exprs_view(args@),
        ),
        ControlOp::ApplyBinding(ident) => ControlOpV::ApplyBinding(ident@),
        ControlOp::PushScope { create_new_stack } => ControlOpV::PushScope { create_new_stack },
        ControlOp::PopScope { restore_previous_stack } => ControlOpV::PopScope {
            restore_previous_stack,
        },
        ControlOp::ApplyIf(then) => ControlOpV::ApplyIf(typed_expr_view(then)),
        ControlOp::ApplyIfElse(then, els) => ControlOpV::ApplyIfElse(
            typed_expr_view(then),
            typed_expr_view(els),
        ),
        ControlOp::PushLoop(body) => ControlOpV::PushLoop(typed_expr_view(body)),
        ControlOp::MarkLoopStart => ControlOpV::MarkLoopStart,
        ControlOp::MarkBlockStart => ControlOpV::MarkBlockStart,
        ControlOp::ApplyList(n) => ControlOpV::ApplyList(n as nat),
    }
}

impl View for ControlOp {
    type V = ControlOpV;

    open spec fn view(&self) -> ControlOpV {
        control_op_view(*self)
    }
}

pub open spec fn ops_view(ops: Seq<ControlOp>) -> Seq<ControlOpV> {
    Seq::new(ops.len(), |i: int| control_op_view(ops[i]))
}

/// Mathematical model of the execution state the evaluator drives.
pub struct ExecContextV {
    pub ops: Seq<ControlOpV>,
    pub vals: Seq<ValueV>,
    pub scopes: ScopeStackV<ValueV>,
}

/// The evaluator's execution state: the control stack of pending work,
/// the value stack, and the runtime scope stack.
pub struct ExecContext {
    pub control_stack: Vec<ControlOp>,
    pub value_stack: Vec<ResolvedValue>,
    pub scope_stack: ScopeStack<ResolvedValue>,
}

impl View for ExecContext {
    type V = ExecContextV;

    open spec fn view(&self) -> ExecContextV {
        ExecContextV {
            ops: ops_view(self.control_stack@),
            vals: values_view(self.value_stack@),
            scopes: self.scope_stack@,
        }
    }
}

impl ExecContext {
    /// The scope stack keeps its key discipline.
    pub open spec fn wf(&self) -> bool {
        self.scope_stack.wf()
    }

    /// A fresh execution state: empty stacks, one empty scope.
    pub fn new() -> (r: ExecContext)
        ensures
            r.wf(),
            r@.ops =~= Seq::<ControlOpV>::empty(),
            r@.vals =~= Seq::<ValueV>::empty(),
            r@.scopes.current =~= seq![Map::<Seq<char>, (bool, ValueV)>::empty()],
            r@.scopes.previous is None,
    {
        ExecContext {
            control_stack: Vec::new(),
            value_stack: Vec::new(),
            scope_stack: ScopeStack::new(),
        }
    }
}

} // verus!
