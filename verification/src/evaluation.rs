use vstd::prelude::*;

use crate::analyzer::spec::BinOp;
use crate::errors::{rt_already_exists_msg, rt_not_found_msg};
use crate::interpreter::{
    print_form, spec_apply_binop, spec_apply_negate, spec_eval_int, spec_eval_literal,
    spec_eval_push, spec_eval_str, rt_wrong_builtin_args_msg, rt_wrong_operands_msg, ValueV,
};
use crate::scopes::{stack_insert_v, stack_lookup_v, stack_mutate_v, ScopeStackV};
use crate::state::{ControlFlow, ControlOpV, ExecContextV, IoContextV};
use crate::typed_ast::{TypedBlockV, TypedExprV, TypedFuncV};
use crate::builtins::BuiltinFuncId;

verus! {

broadcast use
    vstd::seq::axiom_seq_index_decreases,
    vstd::seq::axiom_seq_subrange_decreases;

/// The message reported when the evaluator needs a value the stack
/// does not hold; analysis rules this out for programs it accepts.
pub open spec fn rt_empty_stack_msg() -> Seq<char> {
    "The value stack is empty."@
}

/// The message reported when the typed tree has a shape the evaluator
/// cannot schedule; analysis never produces such a tree.
pub open spec fn rt_malformed_msg() -> Seq<char> {
    "The typed tree is malformed here."@
}

/// The state the machine moves through: control, values, scopes, I/O.
pub struct StateV {
    pub ops: Seq<ControlOpV>,
    pub vals: Seq<ValueV>,
    pub scopes: ScopeStackV<ValueV>,
    pub io: IoContextV,
}

/// The `EvalStmt` operations for the statements, pushed in reverse so
/// the first statement runs first.
pub open spec fn rev_stmt_ops(stmts: Seq<TypedExprV>) -> Seq<ControlOpV> {
    Seq::new(stmts.len(), |i: int| ControlOpV::EvalStmt(stmts[stmts.len() - 1 - i]))
}

/// The `EvalExpr` operations for the expressions, pushed in reverse so
/// the first expression evaluates first.
pub open spec fn rev_expr_ops(es: Seq<TypedExprV>) -> Seq<ControlOpV> {
    Seq::new(es.len(), |i: int| ControlOpV::EvalExpr(es[es.len() - 1 - i]))
}

/// The `ApplyBinding` operations for the parameters, in declared order,
/// so the last parameter binds first and takes the topmost argument.
pub open spec fn binding_ops(params: Seq<(Seq<char>, crate::typing::TypeV)>) -> Seq<ControlOpV> {
    Seq::new(params.len(), |i: int| ControlOpV::ApplyBinding(params[i].0))
}

/// The values the named parameters hold in the current scope, in order.
pub open spec fn spec_collect_params(
    cur: Seq<Map<Seq<char>, (bool, ValueV)>>,
    names: Seq<Seq<char>>,
) -> Result<Seq<ValueV>, Seq<char>>
    decreases names.len(),
{
    if names.len() == 0 {
        Ok(Seq::empty())
    } else {
        match stack_lookup_v(cur, names.first()) {
            None => Err(rt_not_found_msg(names.first())),
            Some((_, v)) => match spec_collect_params(cur, names.drop_first()) {
                Err(m) => Err(m),
                Ok(rest) => Ok(seq![v] + rest),
            },
        }
    }
}

/// What a builtin yields on the collected arguments, and how it moves
/// the I/O transcript: the conversions and `push` leave it alone,
/// `print_line` writes one line, `read_line` consumes one.
pub open spec fn spec_builtin(id: BuiltinFuncId, io: IoContextV, args: Seq<ValueV>) -> Result<
    (ValueV, IoContextV),
    Seq<char>,
> {
    match id {
        BuiltinFuncId::Int => match spec_eval_int(args) {
            Ok(v) => Ok((v, io)),
            Err(m) => Err(m),
        },
        BuiltinFuncId::Str => match spec_eval_str(args) {
            Ok(v) => Ok((v, io)),
            Err(m) => Err(m),
        },
        BuiltinFuncId::Push => match spec_eval_push(args) {
            Ok(v) => Ok((v, io)),
            Err(m) => Err(m),
        },
        BuiltinFuncId::PrintLine => if args.len() == 0 {
            Err(rt_wrong_builtin_args_msg())
        } else {
            match print_form(args.last()) {
                Ok(line) => Ok(
                    (
                        ValueV::Void,
                        IoContextV { input: io.input, output: io.output.push(line) },
                    ),
                ),
                Err(m) => Err(m),
            }
        },
        BuiltinFuncId::ReadLine => if io.input.len() == 0 {
            Ok((ValueV::Str(Seq::empty()), io))
        } else {
            Ok(
                (
                    ValueV::Str(crate::state::strip_line_v(io.input.first())),
                    IoContextV { input: io.input.drop_first(), output: io.output },
                ),
            )
        },
    }
}

/// Scheduling a block: an ordinary block pushes a block marker and its
/// statements; a builtin block reads its parameters from the call
/// scope, runs the builtin, and pushes the result at once.
pub open spec fn spec_push_block(b: TypedExprV, st: StateV) -> Result<
    (StateV, ControlFlow),
    Seq<char>,
> {
    match b {
        TypedExprV::Block(TypedBlockV::Interpreted(stmts, _)) => Ok(
            (
                StateV {
                    ops: st.ops.push(ControlOpV::MarkBlockStart) + rev_stmt_ops(stmts),
                    ..st
                },
                ControlFlow::Continue,
            ),
        ),
        TypedExprV::Block(TypedBlockV::Builtin(names, id, _)) => {
            match spec_collect_params(st.scopes.current, names) {
                Err(m) => Err(m),
                Ok(args) => match spec_builtin(id, st.io, args) {
                    Err(m) => Err(m),
                    Ok((v, io2)) => Ok(
                        (StateV { vals: st.vals.push(v), io: io2, ..st }, ControlFlow::Continue),
                    ),
                },
            }
        },
        _ => Err(rt_malformed_msg()),
    }
}

/// Scheduling one expression: the LIFO push conventions of the
/// evaluator, so that operands evaluate left to right before their
/// combining operation runs.
pub open spec fn spec_eval_expr(e: TypedExprV, st: StateV) -> Result<
    (StateV, ControlFlow),
    Seq<char>,
> {
    match e {
        TypedExprV::Eq(l, r, _) => Ok((push_binop(st, ControlOpV::ApplyEq, *l, *r), ControlFlow::Continue)),
        TypedExprV::Gt(l, r, _) => Ok((push_binop(st, ControlOpV::ApplyGt, *l, *r), ControlFlow::Continue)),
        TypedExprV::Lt(l, r, _) => Ok((push_binop(st, ControlOpV::ApplyLt, *l, *r), ControlFlow::Continue)),
        TypedExprV::Gte(l, r, _) => Ok((push_binop(st, ControlOpV::ApplyGte, *l, *r), ControlFlow::Continue)),
        TypedExprV::Lte(l, r, _) => Ok((push_binop(st, ControlOpV::ApplyLte, *l, *r), ControlFlow::Continue)),
        TypedExprV::Add(l, r, _) => Ok((push_binop(st, ControlOpV::ApplyAdd, *l, *r), ControlFlow::Continue)),
        TypedExprV::Sub(l, r, _) => Ok((push_binop(st, ControlOpV::ApplySub, *l, *r), ControlFlow::Continue)),
        TypedExprV::Mult(l, r, _) => Ok((push_binop(st, ControlOpV::ApplyMult, *l, *r), ControlFlow::Continue)),
        TypedExprV::Div(l, r, _) => Ok((push_binop(st, ControlOpV::ApplyDiv, *l, *r), ControlFlow::Continue)),
        TypedExprV::Modulo(l, r, _) => Ok((push_binop(st, ControlOpV::ApplyModulo, *l, *r), ControlFlow::Continue)),
        TypedExprV::Negate(inner, _) => Ok(
            (
                StateV {
                    ops: st.ops.push(ControlOpV::ApplyNegate).push(ControlOpV::EvalExpr(*inner)),
                    ..st
                },
                ControlFlow::Continue,
            ),
        ),
        TypedExprV::Assignment { ident, expr } => Ok(
            (
                StateV {
                    ops: st.ops.push(ControlOpV::ApplyAssignment(ident)).push(
                        ControlOpV::EvalExpr(*expr),
                    ),
                    ..st
                },
                ControlFlow::Continue,
            ),
        ),
        TypedExprV::Declaration { ident, is_mutable, expr, .. } => Ok(
            (
                StateV {
                    ops: st.ops.push(ControlOpV::ApplyDeclaration(ident, is_mutable)).push(
                        ControlOpV::EvalExpr(*expr),
                    ),
                    ..st
                },
                ControlFlow::Continue,
            ),
        ),
        TypedExprV::FuncCall(call, _) => Ok(
            (
                StateV {
                    ops: st.ops.push(ControlOpV::ApplyFuncCall(call.args)).push(
                        ControlOpV::EvalExpr(*call.func),
                    ),
                    ..st
                },
                ControlFlow::Continue,
            ),
        ),
        TypedExprV::If(cond, then, _) => Ok(
            (
                StateV {
                    ops: st.ops.push(ControlOpV::ApplyIf(*then)).push(
                        ControlOpV::EvalExpr(*cond),
                    ),
                    ..st
                },
                ControlFlow::Continue,
            ),
        ),
        TypedExprV::IfElse(cond, then, els, _) => Ok(
            (
                StateV {
                    ops: st.ops.push(ControlOpV::ApplyIfElse(*then, *els)).push(
                        ControlOpV::EvalExpr(*cond),
                    ),
                    ..st
                },
                ControlFlow::Continue,
            ),
        ),
        TypedExprV::Block(_) => spec_push_block(e, st),
        TypedExprV::Loop(body) => Ok(
            (
                StateV {
                    ops: st.ops.push(ControlOpV::MarkLoopStart).push(
                        ControlOpV::PushLoop(*body),
                    ).push(ControlOpV::EvalBlock(*body)),
                    ..st
                },
                ControlFlow::Continue,
            ),
        ),
        TypedExprV::Break => Ok((st, ControlFlow::Break)),
        TypedExprV::Literal(lit, _) => Ok(
            (StateV { vals: st.vals.push(spec_eval_literal(lit)), ..st }, ControlFlow::Continue),
        ),
        TypedExprV::Identifier(ident, _) => match stack_lookup_v(st.scopes.current, ident) {
            None => Err(rt_not_found_msg(ident)),
            Some((_, v)) => Ok(
                (StateV { vals: st.vals.push(v), ..st }, ControlFlow::Continue),
            ),
        },
        TypedExprV::FuncDeclare(f, _) => Ok(
            (StateV { vals: st.vals.push(ValueV::Func(f)), ..st }, ControlFlow::Continue),
        ),
        TypedExprV::List(items, _) => Ok(
            (
                StateV {
                    ops: st.ops.push(ControlOpV::ApplyList(items.len())) + rev_expr_ops(items),
                    ..st
                },
                ControlFlow::Continue,
            ),
        ),
    }
}

pub open spec fn push_binop(st: StateV, op: ControlOpV, l: TypedExprV, r: TypedExprV) -> StateV {
    StateV {
        ops: st.ops.push(op).push(ControlOpV::EvalExpr(r)).push(ControlOpV::EvalExpr(l)),
        ..st
    }
}

/// A popped binary apply operation: the two topmost values combine.
pub open spec fn spec_apply_bin(op: BinOp, st: StateV) -> Result<
    (StateV, ControlFlow),
    Seq<char>,
> {
    if st.vals.len() < 2 {
        Err(rt_empty_stack_msg())
    } else {
        match spec_apply_binop(op, st.vals[st.vals.len() - 2], st.vals.last()) {
            Err(m) => Err(m),
            Ok(v) => Ok(
                (
                    StateV { vals: st.vals.take(st.vals.len() - 2).push(v), ..st },
                    ControlFlow::Continue,
                ),
            ),
        }
    }
}

/// One dispatch of the evaluator on a popped control operation.
pub open spec fn spec_do_op(op: ControlOpV, st: StateV) -> Result<
    (StateV, ControlFlow),
    Seq<char>,
> {
    match op {
        ControlOpV::EvalBlock(b) => spec_push_block(b, st),
        ControlOpV::EvalStmt(e) => Ok(
            (
                StateV {
                    ops: st.ops.push(ControlOpV::ApplyStmt).push(ControlOpV::EvalExpr(e)),
                    ..st
                },
                ControlFlow::Continue,
            ),
        ),
        ControlOpV::EvalExpr(e) => spec_eval_expr(e, st),
        ControlOpV::ApplyStmt => if st.vals.len() == 0 {
            Err(rt_empty_stack_msg())
        } else if st.vals.last() is Void {
            Ok((st, ControlFlow::Continue))
        } else {
            Ok((st, ControlFlow::Return))
        },
        ControlOpV::ApplyAdd => spec_apply_bin(BinOp::Add, st),
        ControlOpV::ApplySub => spec_apply_bin(BinOp::Sub, st),
        ControlOpV::ApplyMult => spec_apply_bin(BinOp::Mult, st),
        ControlOpV::ApplyDiv => spec_apply_bin(BinOp::Div, st),
        ControlOpV::ApplyModulo => spec_apply_bin(BinOp::Modulo, st),
        ControlOpV::ApplyEq => spec_apply_bin(BinOp::Eq, st),
        ControlOpV::ApplyGt => spec_apply_bin(BinOp::Gt, st),
        ControlOpV::ApplyLt => spec_apply_bin(BinOp::Lt, st),
        ControlOpV::ApplyGte => spec_apply_bin(BinOp::Gte, st),
        ControlOpV::ApplyLte => spec_apply_bin(BinOp::Lte, st),
        ControlOpV::ApplyNegate => if st.vals.len() == 0 {
            Err(rt_empty_stack_msg())
        } else {
            match spec_apply_negate(st.vals.last()) {
                Err(m) => Err(m),
                Ok(v) => Ok(
                    (
                        StateV { vals: st.vals.drop_last().push(v), ..st },
                        ControlFlow::Continue,
                    ),
                ),
            }
        },
        ControlOpV::ApplyAssignment(ident) => if st.vals.len() == 0 {
            Err(rt_empty_stack_msg())
        } else {
            match stack_mutate_v(st.scopes.current, ident, st.vals.last()) {
                None => Err(rt_not_found_msg(ident)),
                Some(cur) => Ok(
                    (
                        StateV {
                            vals: st.vals.drop_last().push(ValueV::Void),
                            scopes: ScopeStackV { current: cur, previous: st.scopes.previous },
                            ..st
                        },
                        ControlFlow::Continue,
                    ),
                ),
            }
        },
        ControlOpV::ApplyDeclaration(ident, is_mutable) => if st.vals.len() == 0 {
            Err(rt_empty_stack_msg())
        } else {
            match stack_insert_v(st.scopes.current, ident, (is_mutable, st.vals.last())) {
                None => Err(rt_already_exists_msg(ident)),
                Some(cur) => Ok(
                    (
                        StateV {
                            vals: st.vals.drop_last().push(ValueV::Void),
                            scopes: ScopeStackV { current: cur, previous: st.scopes.previous },
                            ..st
                        },
                        ControlFlow::Continue,
                    ),
                ),
            }
        },
        ControlOpV::ApplyFuncCall(args) => if st.vals.len() == 0 {
            Err(rt_empty_stack_msg())
        } else {
            match st.vals.last() {
                ValueV::Func(f) => Ok((spec_schedule_call(f, args, st), ControlFlow::Continue)),
                _ => Err(rt_wrong_operands_msg()),
            }
        },
        ControlOpV::ApplyBinding(ident) => if st.vals.len() == 0 {
            Err(rt_empty_stack_msg())
        } else {
            match stack_insert_v(st.scopes.current, ident, (false, st.vals.last())) {
                None => Err(rt_already_exists_msg(ident)),
                Some(cur) => Ok(
                    (
                        StateV {
                            vals: st.vals.drop_last(),
                            scopes: ScopeStackV { current: cur, previous: st.scopes.previous },
                            ..st
                        },
                        ControlFlow::Continue,
                    ),
                ),
            }
        },
        ControlOpV::PushScope { create_new_stack } => Ok(
            (
                StateV {
                    scopes: if create_new_stack {
                        ScopeStackV {
                            current: seq![Map::empty()],
                            previous: Some(st.scopes.current),
                        }
                    } else {
                        ScopeStackV {
                            current: st.scopes.current.push(Map::empty()),
                            previous: st.scopes.previous,
                        }
                    },
                    ..st
                },
                ControlFlow::Continue,
            ),
        ),
        ControlOpV::PopScope { restore_previous_stack } => Ok(
            (
                StateV {
                    scopes: if restore_previous_stack {
                        match st.scopes.previous {
                            Some(prev) => ScopeStackV { current: prev, previous: None },
                            None => st.scopes,
                        }
                    } else {
                        ScopeStackV {
                            current: if st.scopes.current.len() > 0 {
                                st.scopes.current.drop_last()
                            } else {
                                st.scopes.current
                            },
                            previous: st.scopes.previous,
                        }
                    },
                    ..st
                },
                ControlFlow::Continue,
            ),
        ),
        ControlOpV::ApplyIf(then) => if st.vals.len() == 0 {
            Err(rt_empty_stack_msg())
        } else {
            match st.vals.last() {
                ValueV::Bool(b) => {
                    if !b {
                        Ok((StateV { vals: st.vals.drop_last(), ..st }, ControlFlow::Continue))
                    } else {
                        match then {
                            TypedExprV::Block(TypedBlockV::Interpreted(stmts, _)) => Ok(
                                (
                                    StateV {
                                        ops: st.ops + rev_stmt_ops(stmts),
                                        vals: st.vals.drop_last(),
                                        ..st
                                    },
                                    ControlFlow::Continue,
                                ),
                            ),
                            _ => Err(rt_malformed_msg()),
                        }
                    }
                },
                _ => Err(rt_wrong_operands_msg()),
            }
        },
        ControlOpV::ApplyIfElse(then, els) => if st.vals.len() == 0 {
            Err(rt_empty_stack_msg())
        } else {
            match st.vals.last() {
                ValueV::Bool(b) => {
                    let branch = if b {
                        then
                    } else {
                        els
                    };
                    match branch {
                        TypedExprV::Block(TypedBlockV::Interpreted(stmts, _)) => Ok(
                            (
                                StateV {
                                    ops: st.ops + rev_stmt_ops(stmts),
                                    vals: st.vals.drop_last(),
                                    ..st
                                },
                                ControlFlow::Continue,
                            ),
                        ),
                        TypedExprV::IfElse(c2, t2, e2, _) => Ok(
                            (
                                StateV {
                                    ops: st.ops.push(ControlOpV::ApplyIfElse(*t2, *e2)).push(
                                        ControlOpV::EvalExpr(*c2),
                                    ),
                                    vals: st.vals.drop_last(),
                                    ..st
                                },
                                ControlFlow::Continue,
                            ),
                        ),
                        _ => Err(rt_malformed_msg()),
                    }
                },
                _ => Err(rt_wrong_operands_msg()),
            }
        },
        ControlOpV::PushLoop(body) => Ok(
            (
                StateV {
                    ops: st.ops.push(ControlOpV::PushLoop(body)).push(
                        ControlOpV::EvalBlock(body),
                    ),
                    ..st
                },
                ControlFlow::Continue,
            ),
        ),
        ControlOpV::MarkLoopStart => Ok((st, ControlFlow::Continue)),
        ControlOpV::MarkBlockStart => Ok((st, ControlFlow::Continue)),
        ControlOpV::ApplyList(n) => if st.vals.len() < n {
            Err(rt_empty_stack_msg())
        } else {
            Ok(
                (
                    StateV {
                        vals: st.vals.take(st.vals.len() - n).push(
                            ValueV::List(st.vals.skip(st.vals.len() - n)),
                        ),
                        ..st
                    },
                    ControlFlow::Continue,
                ),
            )
        },
    }
}

/// Scheduling a call once the callee function value is popped: the
/// arguments evaluate in source order, a frame opens under the closure
/// regime, the parameters bind in order, the body runs, the frame
/// closes.
pub open spec fn spec_schedule_call(f: TypedFuncV, args: Seq<TypedExprV>, st: StateV) -> StateV {
    StateV {
        ops: st.ops.push(ControlOpV::PopScope { restore_previous_stack: !f.is_closure }).push(
            ControlOpV::EvalBlock(*f.block),
        ) + binding_ops(f.params) + seq![
            ControlOpV::PushScope { create_new_stack: !f.is_closure },
        ] + rev_expr_ops(args),
        vals: st.vals.drop_last(),
        ..st
    }
}

/// Unwinding after `Break` or `Return`: control operations pop until
/// the matching marker is removed; with no marker the stack empties.
pub open spec fn spec_unwind(ops: Seq<ControlOpV>, to_loop: bool) -> Seq<ControlOpV>
    decreases ops.len(),
{
    if ops.len() == 0 {
        ops
    } else if (to_loop && ops.last() is MarkLoopStart) || (!to_loop
        && ops.last() is MarkBlockStart) {
        ops.drop_last()
    } else {
        spec_unwind(ops.drop_last(), to_loop)
    }
}

/// One full machine step: pop the top operation, dispatch it, and
/// unwind if it signalled `Break` or `Return`.
pub open spec fn spec_step(st: StateV) -> Result<StateV, Seq<char>> {
    let rest = StateV { ops: st.ops.drop_last(), ..st };
    match spec_do_op(st.ops.last(), rest) {
        Err(m) => Err(m),
        Ok((st2, flow)) => Ok(
            match flow {
                ControlFlow::Continue => st2,
                ControlFlow::Break => StateV { ops: spec_unwind(st2.ops, true), ..st2 },
                ControlFlow::Return => StateV { ops: spec_unwind(st2.ops, false), ..st2 },
            },
        ),
    }
}

/// Where a bounded run ends: the final value and transcript, the first
/// runtime failure, or the bound exhausted.
pub enum RunResultV {
    Finished(ValueV, IoContextV),
    Failed(Seq<char>, IoContextV),
    OutOfFuel(IoContextV),
}

/// A bounded run of the machine: steps fire until the control stack
/// empties — the program's value is then the top of the value stack —
/// or a step fails, or the bound runs out.
pub open spec fn spec_run(st: StateV, fuel: nat) -> RunResultV
    decreases fuel,
{
    if st.ops.len() == 0 {
        if st.vals.len() > 0 {
            RunResultV::Finished(st.vals.last(), st.io)
        } else {
            RunResultV::Failed(rt_empty_stack_msg(), st.io)
        }
    } else if fuel == 0 {
        RunResultV::OutOfFuel(st.io)
    } else {
        match spec_step(st) {
            Ok(st2) => spec_run(st2, (fuel - 1) as nat),
            Err(m) => RunResultV::Failed(m, st.io),
        }
    }
}

/// Seeding the runtime scope: every builtin binding is a function
/// declaration whose function value binds immutably, in order.
pub open spec fn spec_seed_runtime(
    s: ScopeStackV<ValueV>,
    bindings: Seq<(Seq<char>, TypedExprV)>,
) -> Result<ScopeStackV<ValueV>, Seq<char>>
    decreases bindings.len(),
{
    if bindings.len() == 0 {
        Ok(s)
    } else {
        match bindings.first().1 {
            TypedExprV::FuncDeclare(f, _) => match stack_insert_v(
                s.current,
                bindings.first().0,
                (false, ValueV::Func(f)),
            ) {
                None => Err(rt_already_exists_msg(bindings.first().0)),
                Some(cur) => spec_seed_runtime(
                    ScopeStackV { current: cur, previous: s.previous },
                    bindings.drop_first(),
                ),
            },
            _ => Err(rt_malformed_msg()),
        }
    }
}

/// The machine a program starts from: the caller's execution state
/// with the top-level block's statements scheduled under a block
/// marker, and the builtin bindings seeded into scope.
pub open spec fn spec_init(
    program: TypedExprV,
    bindings: Seq<(Seq<char>, TypedExprV)>,
    e0: ExecContextV,
    io: IoContextV,
) -> Result<StateV, Seq<char>> {
    match program {
        TypedExprV::Block(TypedBlockV::Interpreted(stmts, _)) => {
            match spec_seed_runtime(e0.scopes, bindings) {
                Err(m) => Err(m),
                Ok(sc) => Ok(
                    StateV {
                        ops: e0.ops.push(ControlOpV::MarkBlockStart) + rev_stmt_ops(stmts),
                        vals: e0.vals,
                        scopes: sc,
                        io,
                    },
                ),
            }
        },
        _ => Err(rt_malformed_msg()),
    }
}

} // verus!

use crate::analyzer::tstmts_view;
use crate::errors::{typed_exprs_view, Error, RuntimeError};
use crate::interpreter::{apply_binop_values, apply_negate_value, eval_int, eval_literal_value,
    eval_print_line, eval_push, eval_read_line, eval_str, ResolvedValue};
use crate::state::{ops_view, ControlOp, ExecContext, IoContext};
use crate::typed_ast::{typed_params_view, TypedBlock, TypedExpr, TypedFunc, TypedStmt};
use crate::typing::clone_string;

verus! {

/// The machine state the execution context and the transcript form.
pub open spec fn st_of(e: ExecContextV, io: IoContextV) -> StateV {
    StateV { ops: e.ops, vals: e.vals, scopes: e.scopes, io }
}

/// How an executable machine step is held to its specification.
pub open spec fn step_agrees(
    sr: Result<(StateV, ControlFlow), Seq<char>>,
    r: Result<ControlFlow, RuntimeError>,
    m2: StateV,
) -> bool {
    match r {
        Ok(flow) => sr == Ok::<(StateV, ControlFlow), Seq<char>>((m2, flow)),
        Err(e) => sr == Err::<(StateV, ControlFlow), Seq<char>>(e@),
    }
}

/// Pushes the statements in reverse, so the first runs first.
#[verifier::loop_isolation(false)]
fn push_stmts_rev(ctrl: &mut Vec<ControlOp>, stmts: Vec<TypedStmt>)
    ensures
        ops_view(final(ctrl)@) =~= ops_view(old(ctrl)@) + rev_stmt_ops(tstmts_view(stmts@)),
{
    let ghost all = tstmts_view(stmts@);
    let ghost base = ops_view(ctrl@);
    let n = stmts.len();
    let mut stmts = stmts;
    while stmts.len() > 0
        invariant
            stmts@.len() <= n,
            n == all.len(),
            tstmts_view(stmts@) =~= all.take(stmts@.len() as int),
            ops_view(ctrl@) =~= base + rev_stmt_ops(all).take(n - stmts@.len()),
        decreases stmts.len(),
    {
        let ghost k = n - stmts@.len();
        let ghost prev = stmts@;
        let stmt = match stmts.pop() {
            Some(s) => s,
            None => {
                proof {
                    assert(false);
                }
                unreached()
            },
        };
        ctrl.push(ControlOp::EvalStmt(stmt));
        proof {
            assert(crate::typed_ast::typed_expr_view(stmt.expr) == tstmts_view(prev)[prev.len()
                - 1]);
            assert(crate::typed_ast::typed_expr_view(stmt.expr) == all[n - 1 - k as int]);
            assert(tstmts_view(stmts@) =~= all.take(stmts@.len() as int));
            assert(rev_stmt_ops(all)[k as int] == ControlOpV::EvalStmt(all[n - 1 - k as int]));
            assert(ops_view(ctrl@).len() == base.len() + k + 1);
            assert(ops_view(ctrl@)[base.len() + k] == rev_stmt_ops(all)[k as int]);
            assert(forall|j: int|
                0 <= j < base.len() + k ==> ops_view(ctrl@)[j] == (base + rev_stmt_ops(
                    all,
                ).take(k))[j]);
            assert(ops_view(ctrl@) =~= base + rev_stmt_ops(all).take(k + 1));
        }
    }
    proof {
        assert(rev_stmt_ops(all).take(n as int) =~= rev_stmt_ops(all));
    }
}

/// Pushes the expressions in reverse, so the first evaluates first.
#[verifier::loop_isolation(false)]
fn push_exprs_rev(ctrl: &mut Vec<ControlOp>, es: Vec<TypedExpr>)
    ensures
        ops_view(final(ctrl)@) =~= ops_view(old(ctrl)@) + rev_expr_ops(typed_exprs_view(es@)),
{
    let ghost all = typed_exprs_view(es@);
    let ghost base = ops_view(ctrl@);
    let n = es.len();
    let mut es = es;
    while es.len() > 0
        invariant
            es@.len() <= n,
            n == all.len(),
            typed_exprs_view(es@) =~= all.take(es@.len() as int),
            ops_view(ctrl@) =~= base + rev_expr_ops(all).take(n - es@.len()),
        decreases es.len(),
    {
        let ghost k = n - es@.len();
        let ghost prev = es@;
        let e = match es.pop() {
            Some(e) => e,
            None => {
                proof {
                    assert(false);
                }
                unreached()
            },
        };
        ctrl.push(ControlOp::EvalExpr(e));
        proof {
            assert(crate::typed_ast::typed_expr_view(e) == typed_exprs_view(prev)[prev.len()
                - 1]);
            assert(crate::typed_ast::typed_expr_view(e) == all[n - 1 - k as int]);
            assert(typed_exprs_view(es@) =~= all.take(es@.len() as int));
            assert(rev_expr_ops(all)[k as int] == ControlOpV::EvalExpr(all[n - 1 - k as int]));
            assert(ops_view(ctrl@).len() == base.len() + k + 1);
            assert(ops_view(ctrl@)[base.len() + k] == rev_expr_ops(all)[k as int]);
            assert(forall|j: int|
                0 <= j < base.len() + k ==> ops_view(ctrl@)[j] == (base + rev_expr_ops(
                    all,
                ).take(k))[j]);
            assert(ops_view(ctrl@) =~= base + rev_expr_ops(all).take(k + 1));
        }
    }
    proof {
        assert(rev_expr_ops(all).take(n as int) =~= rev_expr_ops(all));
    }
}

/// Pushes one binding operation per parameter, in declared order.
#[verifier::loop_isolation(false)]
fn push_bindings(ctrl: &mut Vec<ControlOp>, params: &Vec<(String, crate::typing::Type)>)
    ensures
        ops_view(final(ctrl)@) =~= ops_view(old(ctrl)@) + binding_ops(
            typed_params_view(params@),
        ),
{
    let ghost all = typed_params_view(params@);
    let ghost base = ops_view(ctrl@);
    let n = params.len();
    let mut i: usize = 0;
    while i < n
        invariant
            n == params@.len(),
            i <= n,
            all == typed_params_view(params@),
            ops_view(ctrl@) =~= base + binding_ops(all).take(i as int),
        decreases n - i,
    {
        let name = clone_string(&params[i].0);
        proof {
            assert(name@ == all[i as int].0);
        }
        ctrl.push(ControlOp::ApplyBinding(name));
        proof {
            assert(binding_ops(all)[i as int] == ControlOpV::ApplyBinding(all[i as int].0));
            assert(ops_view(ctrl@).len() == base.len() + i + 1);
            assert(ops_view(ctrl@)[base.len() + i as int] == binding_ops(all)[i as int]);
            assert(forall|j: int|
                0 <= j < base.len() + i ==> ops_view(ctrl@)[j] == (base + binding_ops(all).take(
                    i as int,
                ))[j]);
            assert(ops_view(ctrl@) =~= base + binding_ops(all).take(i + 1));
        }
        i += 1;
    }
    proof {
        assert(binding_ops(all).take(n as int) =~= binding_ops(all));
    }
}

/// The values the named parameters hold in the current scope.
#[verifier::loop_isolation(false)]
fn collect_builtin_args(
    scope_stack: &crate::scopes::ScopeStack<ResolvedValue>,
    names: &Vec<String>,
) -> (r: Result<Vec<ResolvedValue>, RuntimeError>)
    requires
        scope_stack.wf(),
    ensures
        match r {
            Ok(args) => spec_collect_params(scope_stack@.current, crate::typed_ast::names_view(names@)) == Ok::<
                Seq<ValueV>,
                Seq<char>,
            >(crate::interpreter::values_view(args@)),
            Err(e) => spec_collect_params(scope_stack@.current, crate::typed_ast::names_view(names@)) == Err::<
                Seq<ValueV>,
                Seq<char>,
            >(e@),
        },
{
    let ghost all = crate::typed_ast::names_view(names@);
    let n = names.len();
    let mut out: Vec<ResolvedValue> = Vec::new();
    let mut i: usize = 0;
    proof {
        assert(all.skip(0) =~= all);
        if spec_collect_params(scope_stack@.current, all) is Ok {
            assert(crate::interpreter::values_view(out@) + spec_collect_params(
                scope_stack@.current,
                all,
            )->Ok_0 =~= spec_collect_params(scope_stack@.current, all)->Ok_0);
        }
    }
    while i < n
        invariant
            scope_stack.wf(),
            n == names@.len(),
            i <= n,
            all == crate::typed_ast::names_view(names@),
            spec_collect_params(scope_stack@.current, all) == match spec_collect_params(
                scope_stack@.current,
                all.skip(i as int),
            ) {
                Ok(rest) => Ok::<Seq<ValueV>, Seq<char>>(
                    crate::interpreter::values_view(out@) + rest,
                ),
                Err(m) => Err(m),
            },
        decreases n - i,
    {
        let ghost remaining = all.skip(i as int);
        proof {
            assert(remaining.first() == names@[i as int]@);
            assert(remaining.drop_first() =~= all.skip(i + 1));
        }
        match scope_stack.lookup(&names[i]) {
            Ok(entry) => {
                let ghost old_out = out@;
                let v = entry.value.clone();
                out.push(v);
                proof {
                    assert(crate::interpreter::values_view(out@)
                        =~= crate::interpreter::values_view(old_out).push(v@));
                    if spec_collect_params(scope_stack@.current, all.skip(i + 1)) is Ok {
                        let rest = spec_collect_params(
                            scope_stack@.current,
                            all.skip(i + 1),
                        )->Ok_0;
                        assert(crate::interpreter::values_view(old_out) + (seq![v@] + rest)
                            =~= crate::interpreter::values_view(out@) + rest);
                    }
                }
            },
            Err(_) => {
                return Err(RuntimeError::scope_binding_not_found(&names[i]));
            },
        }
        i += 1;
    }
    proof {
        assert(all.skip(n as int) =~= Seq::<Seq<char>>::empty());
        assert(crate::interpreter::values_view(out@) + Seq::<ValueV>::empty()
            =~= crate::interpreter::values_view(out@));
    }
    Ok(out)
}

/// Runs the builtin the identifier names on the collected arguments.
fn dispatch_builtin(id: BuiltinFuncId, io: &mut IoContext, args: Vec<ResolvedValue>) -> (r: Result<
    ResolvedValue,
    RuntimeError,
>)
    ensures
        match r {
            Ok(v) => spec_builtin(id, old(io)@, crate::interpreter::values_view(args@)) == Ok::<
                (ValueV, IoContextV),
                Seq<char>,
            >((v@, final(io)@)),
            Err(e) => spec_builtin(id, old(io)@, crate::interpreter::values_view(args@)) == Err::<
                (ValueV, IoContextV),
                Seq<char>,
            >(e@) && final(io)@ == old(io)@,
        },
{
    match id {
        BuiltinFuncId::Int => eval_int(io, args),
        BuiltinFuncId::Str => eval_str(io, args),
        BuiltinFuncId::Push => eval_push(io, args),
        BuiltinFuncId::PrintLine => {
            let r = eval_print_line(io, args);
            proof {
                if r is Ok {
                    assert(final(io)@ == IoContextV {
                        input: old(io)@.input,
                        output: final(io)@.output,
                    });
                }
            }
            r
        },
        BuiltinFuncId::ReadLine => {
            let r = eval_read_line(io, args);
            proof {
                if old(io)@.input.len() > 0 {
                    assert(final(io)@ == IoContextV {
                        input: old(io)@.input.drop_first(),
                        output: old(io)@.output,
                    });
                } else {
                    assert(final(io)@ == old(io)@);
                }
            }
            r
        },
    }
}

} // verus!

verus! {

/// Schedules a block, mirroring `spec_push_block`: statements go under
/// a block marker; a builtin runs at once against the call scope.
#[verifier::loop_isolation(false)]
fn do_push_block(b: TypedBlock, exec: &mut ExecContext, io: &mut IoContext) -> (r: Result<
    ControlFlow,
    RuntimeError,
>)
    requires
        old(exec).wf(),
    ensures
        final(exec).wf(),
        step_agrees(
            spec_push_block(
                crate::typed_ast::TypedExprV::Block(b@),
                st_of(old(exec)@, old(io)@),
            ),
            r,
            st_of(final(exec)@, final(io)@),
        ),
        r is Err ==> final(io)@ == old(io)@,
{
    let ghost st0 = st_of(old(exec)@, old(io)@);
    let ghost bv = b@;
    match b {
        TypedBlock::Interpreted(stmts, _ty) => {
            let ghost stmts_v = tstmts_view(stmts@);
            proof {
                assert(stmts_v =~= bv->Interpreted_0);
            }
            exec.control_stack.push(ControlOp::MarkBlockStart);
            push_stmts_rev(&mut exec.control_stack, stmts);
            proof {
                assert(ops_view(exec.control_stack@) =~= st0.ops.push(
                    ControlOpV::MarkBlockStart,
                ) + rev_stmt_ops(stmts_v));
                assert(st_of(exec@, io@) == StateV {
                    ops: st0.ops.push(ControlOpV::MarkBlockStart) + rev_stmt_ops(stmts_v),
                    ..st0
                });
            }
            Ok(ControlFlow::Continue)
        },
        TypedBlock::Builtin(names, id, _ty) => {
            proof {
                assert(crate::typed_ast::names_view(names@) =~= bv->Builtin_0);
            }
            let args = match collect_builtin_args(&exec.scope_stack, &names) {
                Ok(args) => args,
                Err(e) => {
                    return Err(e);
                },
            };
            let v = match dispatch_builtin(id, io, args) {
                Ok(v) => v,
                Err(e) => {
                    return Err(e);
                },
            };
            let ghost vv = v@;
            exec.value_stack.push(v);
            proof {
                assert(crate::interpreter::values_view(exec.value_stack@) =~= st0.vals.push(vv));
                assert(st_of(exec@, io@) == StateV {
                    vals: st0.vals.push(vv),
                    io: io@,
                    ..st0
                });
            }
            Ok(ControlFlow::Continue)
        },
    }
}

/// Schedules one expression, mirroring `spec_eval_expr`.
#[verifier::loop_isolation(false)]
#[verifier::rlimit(50)]
fn do_eval_expr(e: TypedExpr, exec: &mut ExecContext, io: &mut IoContext) -> (r: Result<
    ControlFlow,
    RuntimeError,
>)
    requires
        old(exec).wf(),
    ensures
        final(exec).wf(),
        step_agrees(
            spec_eval_expr(e@, st_of(old(exec)@, old(io)@)),
            r,
            st_of(final(exec)@, final(io)@),
        ),
        r is Err ==> final(io)@ == old(io)@,
{
    let ghost st0 = st_of(old(exec)@, old(io)@);
    let ghost ev = e@;
    match e {
        TypedExpr::Eq(l, r, _) => push_binop_ops(exec, ControlOp::ApplyEq, l, r),
        TypedExpr::Gt(l, r, _) => push_binop_ops(exec, ControlOp::ApplyGt, l, r),
        TypedExpr::Lt(l, r, _) => push_binop_ops(exec, ControlOp::ApplyLt, l, r),
        TypedExpr::Gte(l, r, _) => push_binop_ops(exec, ControlOp::ApplyGte, l, r),
        TypedExpr::Lte(l, r, _) => push_binop_ops(exec, ControlOp::ApplyLte, l, r),
        TypedExpr::Add(l, r, _) => push_binop_ops(exec, ControlOp::ApplyAdd, l, r),
        TypedExpr::Sub(l, r, _) => push_binop_ops(exec, ControlOp::ApplySub, l, r),
        TypedExpr::Mult(l, r, _) => push_binop_ops(exec, ControlOp::ApplyMult, l, r),
        TypedExpr::Div(l, r, _) => push_binop_ops(exec, ControlOp::ApplyDiv, l, r),
        TypedExpr::Modulo(l, r, _) => push_binop_ops(exec, ControlOp::ApplyModulo, l, r),
        TypedExpr::Negate(inner, _) => {
            exec.control_stack.push(ControlOp::ApplyNegate);
            exec.control_stack.push(ControlOp::EvalExpr(*inner));
            proof {
                assert(ops_view(exec.control_stack@) =~= st0.ops.push(
                    ControlOpV::ApplyNegate,
                ).push(ControlOpV::EvalExpr(*ev->Negate_0)));
                assert(st_of(exec@, io@) == StateV {
                    ops: ops_view(exec.control_stack@),
                    ..st0
                });
            }
            Ok(ControlFlow::Continue)
        },
        TypedExpr::Assignment { ident, expr } => {
            let ghost id_v = ident@;
            exec.control_stack.push(ControlOp::ApplyAssignment(ident));
            exec.control_stack.push(ControlOp::EvalExpr(*expr));
            proof {
                assert(ops_view(exec.control_stack@) =~= st0.ops.push(
                    ControlOpV::ApplyAssignment(id_v),
                ).push(ControlOpV::EvalExpr(*ev->Assignment_expr)));
                assert(st_of(exec@, io@) == StateV {
                    ops: ops_view(exec.control_stack@),
                    ..st0
                });
            }
            Ok(ControlFlow::Continue)
        },
        TypedExpr::Declaration { ident, is_mutable, expr, ty: _ } => {
            let ghost id_v = ident@;
            exec.control_stack.push(ControlOp::ApplyDeclaration(ident, is_mutable));
            exec.control_stack.push(ControlOp::EvalExpr(*expr));
            proof {
                assert(ops_view(exec.control_stack@) =~= st0.ops.push(
                    ControlOpV::ApplyDeclaration(id_v, is_mutable),
                ).push(ControlOpV::EvalExpr(*ev->Declaration_expr)));
                assert(st_of(exec@, io@) == StateV {
                    ops: ops_view(exec.control_stack@),
                    ..st0
                });
            }
            Ok(ControlFlow::Continue)
        },
        TypedExpr::FuncCall(call, _) => {
            let ghost args_v = typed_exprs_view(call.args@);
            proof {
                assert(args_v =~= ev->FuncCall_0.args);
            }
            exec.control_stack.push(ControlOp::ApplyFuncCall(call.args));
            exec.control_stack.push(ControlOp::EvalExpr(*call.func_expr));
            proof {
                assert(ops_view(exec.control_stack@) =~= st0.ops.push(
                    ControlOpV::ApplyFuncCall(ev->FuncCall_0.args),
                ).push(ControlOpV::EvalExpr(*ev->FuncCall_0.func)));
                assert(st_of(exec@, io@) == StateV {
                    ops: ops_view(exec.control_stack@),
                    ..st0
                });
            }
            Ok(ControlFlow::Continue)
        },
        TypedExpr::If(cond, then, _) => {
            exec.control_stack.push(ControlOp::ApplyIf(*then));
            exec.control_stack.push(ControlOp::EvalExpr(*cond));
            proof {
                assert(ops_view(exec.control_stack@) =~= st0.ops.push(
                    ControlOpV::ApplyIf(*ev->If_1),
                ).push(ControlOpV::EvalExpr(*ev->If_0)));
                assert(st_of(exec@, io@) == StateV {
                    ops: ops_view(exec.control_stack@),
                    ..st0
                });
            }
            Ok(ControlFlow::Continue)
        },
        TypedExpr::IfElse(cond, then, els, _) => {
            exec.control_stack.push(ControlOp::ApplyIfElse(*then, *els));
            exec.control_stack.push(ControlOp::EvalExpr(*cond));
            proof {
                assert(ops_view(exec.control_stack@) =~= st0.ops.push(
                    ControlOpV::ApplyIfElse(*ev->IfElse_1, *ev->IfElse_2),
                ).push(ControlOpV::EvalExpr(*ev->IfElse_0)));
                assert(st_of(exec@, io@) == StateV {
                    ops: ops_view(exec.control_stack@),
                    ..st0
                });
            }
            Ok(ControlFlow::Continue)
        },
        TypedExpr::Block(b) => do_push_block(b, exec, io),
        TypedExpr::Loop(body) => {
            let ghost body_v = typed_expr_view_of(&body);
            let body_copy = (*body).clone();
            exec.control_stack.push(ControlOp::MarkLoopStart);
            exec.control_stack.push(ControlOp::PushLoop(body_copy));
            exec.control_stack.push(ControlOp::EvalBlock(*body));
            proof {
                assert(ops_view(exec.control_stack@) =~= st0.ops.push(
                    ControlOpV::MarkLoopStart,
                ).push(ControlOpV::PushLoop(*ev->Loop_0)).push(ControlOpV::EvalBlock(*ev->Loop_0)));
                assert(st_of(exec@, io@) == StateV {
                    ops: ops_view(exec.control_stack@),
                    ..st0
                });
            }
            Ok(ControlFlow::Continue)
        },
        TypedExpr::Break => {
            proof {
                assert(st_of(exec@, io@) == st0);
            }
            Ok(ControlFlow::Break)
        },
        TypedExpr::Literal(lit, _) => {
            let v = eval_literal_value(&lit);
            let ghost vv = v@;
            exec.value_stack.push(v);
            proof {
                assert(crate::interpreter::values_view(exec.value_stack@) =~= st0.vals.push(vv));
                assert(st_of(exec@, io@) == StateV {
                    vals: st0.vals.push(vv),
                    ..st0
                });
            }
            Ok(ControlFlow::Continue)
        },
        TypedExpr::Identifier(ident, _) => {
            match exec.scope_stack.lookup(&ident) {
                Ok(entry) => {
                    let v = entry.value.clone();
                    let ghost vv = v@;
                    exec.value_stack.push(v);
                    proof {
                        assert(crate::interpreter::values_view(exec.value_stack@)
                            =~= st0.vals.push(vv));
                        assert(st_of(exec@, io@) == StateV {
                            vals: st0.vals.push(vv),
                            ..st0
                        });
                    }
                    Ok(ControlFlow::Continue)
                },
                Err(_) => Err(RuntimeError::scope_binding_not_found(&ident)),
            }
        },
        TypedExpr::FuncDeclare(f, _) => {
            let v = ResolvedValue::Func(f);
            let ghost vv = v@;
            exec.value_stack.push(v);
            proof {
                assert(crate::interpreter::values_view(exec.value_stack@) =~= st0.vals.push(vv));
                assert(st_of(exec@, io@) == StateV {
                    vals: st0.vals.push(vv),
                    ..st0
                });
            }
            Ok(ControlFlow::Continue)
        },
        TypedExpr::List(items, _) => {
            let ghost items_v = typed_exprs_view(items@);
            exec.control_stack.push(ControlOp::ApplyList(items.len()));
            push_exprs_rev(&mut exec.control_stack, items);
            proof {
                assert(ops_view(exec.control_stack@) =~= st0.ops.push(
                    ControlOpV::ApplyList(items_v.len()),
                ) + rev_expr_ops(items_v));
                assert(ev->List_0 =~= items_v);
                assert(st_of(exec@, io@) == StateV {
                    ops: ops_view(exec.control_stack@),
                    ..st0
                });
            }
            Ok(ControlFlow::Continue)
        },
    }
}

/// The view of a boxed typed expression.
pub open spec fn typed_expr_view_of(e: &Box<TypedExpr>) -> crate::typed_ast::TypedExprV {
    crate::typed_ast::typed_expr_view(**e)
}

/// Pushes one binary apply operation and its operands, left on top.
fn push_binop_ops(exec: &mut ExecContext, op: ControlOp, l: Box<TypedExpr>, r: Box<TypedExpr>) -> (res: Result<
    ControlFlow,
    RuntimeError,
>)
    requires
        old(exec).wf(),
    ensures
        final(exec).wf(),
        res matches Ok(flow) && flow == ControlFlow::Continue,
        final(exec)@.ops =~= old(exec)@.ops.push(op@).push(
            ControlOpV::EvalExpr(crate::typed_ast::typed_expr_view(*r)),
        ).push(ControlOpV::EvalExpr(crate::typed_ast::typed_expr_view(*l))),
        final(exec)@.vals == old(exec)@.vals,
        final(exec)@.scopes == old(exec)@.scopes,
{
    exec.control_stack.push(op);
    exec.control_stack.push(ControlOp::EvalExpr(*r));
    exec.control_stack.push(ControlOp::EvalExpr(*l));
    proof {
        assert(ops_view(exec.control_stack@) =~= ops_view(old(exec).control_stack@).push(
            op@,
        ).push(ControlOpV::EvalExpr(crate::typed_ast::typed_expr_view(*r))).push(
            ControlOpV::EvalExpr(crate::typed_ast::typed_expr_view(*l)),
        ));
        assert(crate::interpreter::values_view(exec.value_stack@) == old(exec)@.vals);
    }
    Ok(ControlFlow::Continue)
}

} // verus!

verus! {

/// One dispatch of the evaluator on a popped control operation,
/// mirroring `spec_do_op`.
#[verifier::loop_isolation(false)]
#[verifier::rlimit(60)]
pub fn do_op(op: ControlOp, exec: &mut ExecContext, io: &mut IoContext) -> (r: Result<
    ControlFlow,
    RuntimeError,
>)
    requires
        old(exec).wf(),
    ensures
        final(exec).wf(),
        step_agrees(
            spec_do_op(op@, st_of(old(exec)@, old(io)@)),
            r,
            st_of(final(exec)@, final(io)@),
        ),
        r is Err ==> final(io)@ == old(io)@,
{
    let ghost st0 = st_of(old(exec)@, old(io)@);
    match op {
        ControlOp::EvalBlock(b) => {
            match b {
                TypedExpr::Block(inner) => do_push_block(inner, exec, io),
                _ => Err(RuntimeError::new(String::from_str("The typed tree is malformed here."))),
            }
        },
        ControlOp::EvalStmt(stmt) => {
            let ghost sv = crate::typed_ast::typed_expr_view(stmt.expr);
            exec.control_stack.push(ControlOp::ApplyStmt);
            exec.control_stack.push(ControlOp::EvalExpr(stmt.expr));
            proof {
                assert(ops_view(exec.control_stack@) =~= st0.ops.push(
                    ControlOpV::ApplyStmt,
                ).push(ControlOpV::EvalExpr(sv)));
                assert(st_of(exec@, io@) == StateV {
                    ops: ops_view(exec.control_stack@),
                    ..st0
                });
            }
            Ok(ControlFlow::Continue)
        },
        ControlOp::EvalExpr(e) => do_eval_expr(e, exec, io),
        ControlOp::ApplyStmt => {
            if exec.value_stack.len() == 0 {
                return Err(RuntimeError::new(String::from_str("The value stack is empty.")));
            }
            let flow = if matches!(exec.value_stack[exec.value_stack.len() - 1], ResolvedValue::Void) {
                ControlFlow::Continue
            } else {
                ControlFlow::Return
            };
            proof {
                assert(st0.vals.last() == crate::interpreter::value_view(
                    exec.value_stack@[exec.value_stack@.len() - 1],
                ));
                assert(st_of(exec@, io@) == st0);
            }
            Ok(flow)
        },
        ControlOp::ApplyAdd => apply_bin_exec(BinOp::Add, exec, io),
        ControlOp::ApplySub => apply_bin_exec(BinOp::Sub, exec, io),
        ControlOp::ApplyMult => apply_bin_exec(BinOp::Mult, exec, io),
        ControlOp::ApplyDiv => apply_bin_exec(BinOp::Div, exec, io),
        ControlOp::ApplyModulo => apply_bin_exec(BinOp::Modulo, exec, io),
        ControlOp::ApplyEq => apply_bin_exec(BinOp::Eq, exec, io),
        ControlOp::ApplyGt => apply_bin_exec(BinOp::Gt, exec, io),
        ControlOp::ApplyLt => apply_bin_exec(BinOp::Lt, exec, io),
        ControlOp::ApplyGte => apply_bin_exec(BinOp::Gte, exec, io),
        ControlOp::ApplyLte => apply_bin_exec(BinOp::Lte, exec, io),
        ControlOp::ApplyNegate => {
            let v = match exec.value_stack.pop() {
                Some(v) => v,
                None => {
                    return Err(
                        RuntimeError::new(String::from_str("The value stack is empty.")),
                    );
                },
            };
            proof {
                assert(crate::interpreter::values_view(exec.value_stack@)
                    =~= st0.vals.drop_last());
                assert(v@ == st0.vals.last());
            }
            match apply_negate_value(v) {
                Ok(out) => {
                    let ghost ov = out@;
                    exec.value_stack.push(out);
                    proof {
                        assert(crate::interpreter::values_view(exec.value_stack@)
                            =~= st0.vals.drop_last().push(ov));
                        assert(st_of(exec@, io@) == StateV {
                            vals: st0.vals.drop_last().push(ov),
                            ..st0
                        });
                    }
                    Ok(ControlFlow::Continue)
                },
                Err(e) => Err(e),
            }
        },
        ControlOp::ApplyAssignment(ident) => {
            let v = match exec.value_stack.pop() {
                Some(v) => v,
                None => {
                    return Err(
                        RuntimeError::new(String::from_str("The value stack is empty.")),
                    );
                },
            };
            proof {
                assert(crate::interpreter::values_view(exec.value_stack@)
                    =~= st0.vals.drop_last());
                assert(v@ == st0.vals.last());
            }
            match exec.scope_stack.mutate(&ident, v) {
                Ok(_) => {
                    exec.value_stack.push(ResolvedValue::Void);
                    proof {
                        assert(crate::interpreter::values_view(exec.value_stack@)
                            =~= st0.vals.drop_last().push(ValueV::Void));
                        assert(exec.scope_stack@ == ScopeStackV {
                            current: stack_mutate_v(
                                st0.scopes.current,
                                ident@,
                                st0.vals.last(),
                            )->Some_0,
                            previous: st0.scopes.previous,
                        });
                        assert(st_of(exec@, io@) == StateV {
                            vals: st0.vals.drop_last().push(ValueV::Void),
                            scopes: exec.scope_stack@,
                            ..st0
                        });
                    }
                    Ok(ControlFlow::Continue)
                },
                Err(_) => Err(RuntimeError::scope_binding_not_found(&ident)),
            }
        },
        ControlOp::ApplyDeclaration(ident, is_mutable) => {
            let v = match exec.value_stack.pop() {
                Some(v) => v,
                None => {
                    return Err(
                        RuntimeError::new(String::from_str("The value stack is empty.")),
                    );
                },
            };
            proof {
                assert(crate::interpreter::values_view(exec.value_stack@)
                    =~= st0.vals.drop_last());
                assert(v@ == st0.vals.last());
            }
            match exec.scope_stack.insert(clone_string(&ident), is_mutable, v) {
                Ok(_) => {
                    exec.value_stack.push(ResolvedValue::Void);
                    proof {
                        assert(crate::interpreter::values_view(exec.value_stack@)
                            =~= st0.vals.drop_last().push(ValueV::Void));
                        assert(exec.scope_stack@.current =~= stack_insert_v(
                            st0.scopes.current,
                            ident@,
                            (is_mutable, st0.vals.last()),
                        )->Some_0);
                        assert(st_of(exec@, io@) == StateV {
                            vals: st0.vals.drop_last().push(ValueV::Void),
                            scopes: ScopeStackV {
                                current: stack_insert_v(
                                    st0.scopes.current,
                                    ident@,
                                    (is_mutable, st0.vals.last()),
                                )->Some_0,
                                previous: st0.scopes.previous,
                            },
                            ..st0
                        });
                    }
                    Ok(ControlFlow::Continue)
                },
                Err(_) => Err(RuntimeError::scope_binding_already_exists(&ident)),
            }
        },
        ControlOp::ApplyFuncCall(args) => {
            let callee = match exec.value_stack.pop() {
                Some(v) => v,
                None => {
                    return Err(
                        RuntimeError::new(String::from_str("The value stack is empty.")),
                    );
                },
            };
            proof {
                assert(crate::interpreter::values_view(exec.value_stack@)
                    =~= st0.vals.drop_last());
                assert(callee@ == st0.vals.last());
            }
            let f = match callee {
                ResolvedValue::Func(f) => f,
                _ => {
                    return Err(
                        RuntimeError::new(
                            String::from_str("Operands do not support this operation."),
                        ),
                    );
                },
            };
            let ghost fv = crate::typed_ast::typed_func_view(f);
            let ghost args_v = typed_exprs_view(args@);
            let ghost block_v = crate::typed_ast::typed_expr_view(*f.block);
            proof {
                assert(*fv.block == block_v);
            }
            let TypedFunc { params, block, is_closure } = f;
            exec.control_stack.push(
                ControlOp::PopScope { restore_previous_stack: !is_closure },
            );
            exec.control_stack.push(ControlOp::EvalBlock(*block));
            let ghost stage1 = ops_view(exec.control_stack@);
            proof {
                assert(stage1 =~= st0.ops.push(
                    ControlOpV::PopScope { restore_previous_stack: !fv.is_closure },
                ).push(ControlOpV::EvalBlock(block_v)));
            }
            push_bindings(&mut exec.control_stack, &params);
            let ghost stage2 = ops_view(exec.control_stack@);
            proof {
                assert(typed_params_view(params@) =~= fv.params);
                assert(stage2 =~= stage1 + binding_ops(fv.params));
            }
            exec.control_stack.push(ControlOp::PushScope { create_new_stack: !is_closure });
            let ghost stage3 = ops_view(exec.control_stack@);
            proof {
                assert(stage3 =~= stage2 + seq![
                    ControlOpV::PushScope { create_new_stack: !fv.is_closure },
                ]);
            }
            push_exprs_rev(&mut exec.control_stack, args);
            proof {
                assert(ops_view(exec.control_stack@) =~= stage3 + rev_expr_ops(args_v));
                assert(ops_view(exec.control_stack@) =~= st0.ops.push(
                    ControlOpV::PopScope { restore_previous_stack: !fv.is_closure },
                ).push(ControlOpV::EvalBlock(*fv.block)) + binding_ops(fv.params) + seq![
                    ControlOpV::PushScope { create_new_stack: !fv.is_closure },
                ] + rev_expr_ops(args_v));
                assert(st_of(exec@, io@) == spec_schedule_call(fv, args_v, st0));
            }
            Ok(ControlFlow::Continue)
        },
        ControlOp::ApplyBinding(ident) => {
            let v = match exec.value_stack.pop() {
                Some(v) => v,
                None => {
                    return Err(
                        RuntimeError::new(String::from_str("The value stack is empty.")),
                    );
                },
            };
            proof {
                assert(crate::interpreter::values_view(exec.value_stack@)
                    =~= st0.vals.drop_last());
                assert(v@ == st0.vals.last());
            }
            match exec.scope_stack.insert(clone_string(&ident), false, v) {
                Ok(_) => {
                    proof {
                        assert(exec.scope_stack@.current =~= stack_insert_v(
                            st0.scopes.current,
                            ident@,
                            (false, st0.vals.last()),
                        )->Some_0);
                        assert(st_of(exec@, io@) == StateV {
                            vals: st0.vals.drop_last(),
                            scopes: ScopeStackV {
                                current: stack_insert_v(
                                    st0.scopes.current,
                                    ident@,
                                    (false, st0.vals.last()),
                                )->Some_0,
                                previous: st0.scopes.previous,
                            },
                            ..st0
                        });
                    }
                    Ok(ControlFlow::Continue)
                },
                Err(_) => Err(RuntimeError::scope_binding_already_exists(&ident)),
            }
        },
        ControlOp::PushScope { create_new_stack } => {
            if create_new_stack {
                exec.scope_stack.create_new_stack();
            } else {
                exec.scope_stack.push_scope();
            }
            proof {
                assert(st_of(exec@, io@) == StateV { scopes: exec.scope_stack@, ..st0 });
            }
            Ok(ControlFlow::Continue)
        },
        ControlOp::PopScope { restore_previous_stack } => {
            if restore_previous_stack {
                exec.scope_stack.restore_previous_stack();
            } else {
                exec.scope_stack.pop_scope();
            }
            proof {
                assert(st_of(exec@, io@) == StateV { scopes: exec.scope_stack@, ..st0 });
            }
            Ok(ControlFlow::Continue)
        },
        ControlOp::ApplyIf(then) => {
            let cond = match exec.value_stack.pop() {
                Some(v) => v,
                None => {
                    return Err(
                        RuntimeError::new(String::from_str("The value stack is empty.")),
                    );
                },
            };
            proof {
                assert(crate::interpreter::values_view(exec.value_stack@)
                    =~= st0.vals.drop_last());
                assert(cond@ == st0.vals.last());
            }
            let b = match cond {
                ResolvedValue::Bool(b) => b,
                _ => {
                    return Err(
                        RuntimeError::new(
                            String::from_str("Operands do not support this operation."),
                        ),
                    );
                },
            };
            if !b {
                proof {
                    assert(st_of(exec@, io@) == StateV {
                        vals: st0.vals.drop_last(),
                        ..st0
                    });
                }
                return Ok(ControlFlow::Continue);
            }
            let ghost then_v = crate::typed_ast::typed_expr_view(then);
            match then {
                TypedExpr::Block(inner) => {
                    let ghost inner_v = crate::typed_ast::typed_block_view(inner);
                    proof {
                        assert(then_v->Block_0 == inner_v);
                    }
                    match inner {
                        TypedBlock::Interpreted(stmts, _ty) => {
                            let ghost stmts_v = tstmts_view(stmts@);
                            proof {
                                assert(stmts_v =~= inner_v->Interpreted_0);
                            }
                            push_stmts_rev(&mut exec.control_stack, stmts);
                            proof {
                                assert(ops_view(exec.control_stack@) =~= st0.ops
                                    + rev_stmt_ops(stmts_v));
                                assert(st_of(exec@, io@) == StateV {
                                    ops: st0.ops + rev_stmt_ops(
                                        then_v->Block_0->Interpreted_0,
                                    ),
                                    vals: st0.vals.drop_last(),
                                    ..st0
                                });
                            }
                            Ok(ControlFlow::Continue)
                        },
                        _ => Err(
                            RuntimeError::new(
                                String::from_str("The typed tree is malformed here."),
                            ),
                        ),
                    }
                },
                _ => Err(RuntimeError::new(String::from_str("The typed tree is malformed here."))),
            }
        },
        ControlOp::ApplyIfElse(then, els) => {
            let cond = match exec.value_stack.pop() {
                Some(v) => v,
                None => {
                    return Err(
                        RuntimeError::new(String::from_str("The value stack is empty.")),
                    );
                },
            };
            proof {
                assert(crate::interpreter::values_view(exec.value_stack@)
                    =~= st0.vals.drop_last());
                assert(cond@ == st0.vals.last());
            }
            let b = match cond {
                ResolvedValue::Bool(b) => b,
                _ => {
                    return Err(
                        RuntimeError::new(
                            String::from_str("Operands do not support this operation."),
                        ),
                    );
                },
            };
            let branch = if b {
                then
            } else {
                els
            };
            let ghost branch_v = crate::typed_ast::typed_expr_view(branch);
            match branch {
                TypedExpr::Block(inner) => {
                    let ghost inner_v = crate::typed_ast::typed_block_view(inner);
                    proof {
                        assert(branch_v->Block_0 == inner_v);
                    }
                    match inner {
                        TypedBlock::Interpreted(stmts, _ty) => {
                            let ghost stmts_v = tstmts_view(stmts@);
                            proof {
                                assert(stmts_v =~= inner_v->Interpreted_0);
                            }
                            push_stmts_rev(&mut exec.control_stack, stmts);
                            proof {
                                assert(ops_view(exec.control_stack@) =~= st0.ops
                                    + rev_stmt_ops(branch_v->Block_0->Interpreted_0));
                                assert(st_of(exec@, io@) == StateV {
                                    ops: st0.ops + rev_stmt_ops(
                                        branch_v->Block_0->Interpreted_0,
                                    ),
                                    vals: st0.vals.drop_last(),
                                    ..st0
                                });
                            }
                            Ok(ControlFlow::Continue)
                        },
                        _ => Err(
                            RuntimeError::new(
                                String::from_str("The typed tree is malformed here."),
                            ),
                        ),
                    }
                },
                TypedExpr::IfElse(c2, t2, e2, _ty) => {
                    exec.control_stack.push(ControlOp::ApplyIfElse(*t2, *e2));
                    exec.control_stack.push(ControlOp::EvalExpr(*c2));
                    proof {
                        assert(ops_view(exec.control_stack@) =~= st0.ops.push(
                            ControlOpV::ApplyIfElse(
                                *branch_v->IfElse_1,
                                *branch_v->IfElse_2,
                            ),
                        ).push(ControlOpV::EvalExpr(*branch_v->IfElse_0)));
                        assert(st_of(exec@, io@) == StateV {
                            ops: ops_view(exec.control_stack@),
                            vals: st0.vals.drop_last(),
                            ..st0
                        });
                    }
                    Ok(ControlFlow::Continue)
                },
                _ => Err(RuntimeError::new(String::from_str("The typed tree is malformed here."))),
            }
        },
        ControlOp::PushLoop(body) => {
            let ghost body_v = crate::typed_ast::typed_expr_view(body);
            let copy = body.clone();
            exec.control_stack.push(ControlOp::PushLoop(copy));
            exec.control_stack.push(ControlOp::EvalBlock(body));
            proof {
                assert(ops_view(exec.control_stack@) =~= st0.ops.push(
                    ControlOpV::PushLoop(body_v),
                ).push(ControlOpV::EvalBlock(body_v)));
                assert(st_of(exec@, io@) == StateV {
                    ops: ops_view(exec.control_stack@),
                    ..st0
                });
            }
            Ok(ControlFlow::Continue)
        },
        ControlOp::MarkLoopStart => {
            proof {
                assert(st_of(exec@, io@) == st0);
            }
            Ok(ControlFlow::Continue)
        },
        ControlOp::MarkBlockStart => {
            proof {
                assert(st_of(exec@, io@) == st0);
            }
            Ok(ControlFlow::Continue)
        },
        ControlOp::ApplyList(n) => {
            if n > exec.value_stack.len() {
                return Err(RuntimeError::new(String::from_str("The value stack is empty.")));
            }
            let at = exec.value_stack.len() - n;
            let tail = exec.value_stack.split_off(at);
            proof {
                assert(crate::interpreter::values_view(exec.value_stack@) =~= st0.vals.take(
                    at as int,
                ));
                assert(crate::interpreter::values_view(tail@) =~= st0.vals.skip(at as int));
            }
            let ghost tail_v = crate::interpreter::values_view(tail@);
            let lv = ResolvedValue::List(tail);
            proof {
                assert(lv@->List_0 =~= tail_v);
                assert(lv@ == ValueV::List(st0.vals.skip(at as int)));
            }
            exec.value_stack.push(lv);
            proof {
                assert(crate::interpreter::values_view(exec.value_stack@) =~= st0.vals.take(
                    at as int,
                ).push(ValueV::List(st0.vals.skip(at as int))));
                assert(st_of(exec@, io@) == StateV {
                    vals: st0.vals.take(at as int).push(
                        ValueV::List(st0.vals.skip(at as int)),
                    ),
                    ..st0
                });
            }
            Ok(ControlFlow::Continue)
        },
    }
}

/// A popped binary apply operation: the two topmost values combine.
#[verifier::loop_isolation(false)]
fn apply_bin_exec(op: BinOp, exec: &mut ExecContext, io: &mut IoContext) -> (r: Result<
    ControlFlow,
    RuntimeError,
>)
    requires
        old(exec).wf(),
    ensures
        final(exec).wf(),
        step_agrees(
            spec_apply_bin(op, st_of(old(exec)@, old(io)@)),
            r,
            st_of(final(exec)@, final(io)@),
        ),
        r is Err ==> final(io)@ == old(io)@,
{
    let ghost st0 = st_of(old(exec)@, old(io)@);
    if exec.value_stack.len() < 2 {
        return Err(RuntimeError::new(String::from_str("The value stack is empty.")));
    }
    let rv = match exec.value_stack.pop() {
        Some(v) => v,
        None => unreached(),
    };
    let lv = match exec.value_stack.pop() {
        Some(v) => v,
        None => unreached(),
    };
    proof {
        assert(rv@ == st0.vals.last());
        assert(lv@ == st0.vals[st0.vals.len() - 2]);
        assert(crate::interpreter::values_view(exec.value_stack@) =~= st0.vals.take(
            st0.vals.len() - 2,
        ));
    }
    match apply_binop_values(op, lv, rv) {
        Ok(v) => {
            let ghost vv = v@;
            exec.value_stack.push(v);
            proof {
                assert(crate::interpreter::values_view(exec.value_stack@) =~= st0.vals.take(
                    st0.vals.len() - 2,
                ).push(vv));
                assert(st_of(exec@, io@) == StateV {
                    vals: st0.vals.take(st0.vals.len() - 2).push(vv),
                    ..st0
                });
            }
            Ok(ControlFlow::Continue)
        },
        Err(e) => Err(e),
    }
}

/// Pops control operations until the matching marker is removed.
#[verifier::loop_isolation(false)]
pub fn unwind_until(exec: &mut ExecContext, to_loop: bool)
    requires
        old(exec).wf(),
    ensures
        final(exec).wf(),
        final(exec)@.ops =~= spec_unwind(old(exec)@.ops, to_loop),
        final(exec)@.vals == old(exec)@.vals,
        final(exec)@.scopes == old(exec)@.scopes,
{
    loop
        invariant
            exec.wf(),
            spec_unwind(old(exec)@.ops, to_loop) == spec_unwind(ops_view(exec.control_stack@), to_loop),
            crate::interpreter::values_view(exec.value_stack@) == old(exec)@.vals,
            exec.scope_stack@ == old(exec)@.scopes,
        decreases exec.control_stack@.len(),
    {
        let ghost pre = ops_view(exec.control_stack@);
        match exec.control_stack.pop() {
            None => {
                proof {
                    assert(pre.len() == 0);
                    assert(spec_unwind(pre, to_loop) =~= ops_view(exec.control_stack@));
                }
                return ;
            },
            Some(op) => {
                proof {
                    assert(op@ == pre.last());
                    assert(ops_view(exec.control_stack@) =~= pre.drop_last());
                }
                let found = if to_loop {
                    matches!(op, ControlOp::MarkLoopStart)
                } else {
                    matches!(op, ControlOp::MarkBlockStart)
                };
                if found {
                    proof {
                        assert(spec_unwind(pre, to_loop) =~= ops_view(exec.control_stack@));
                    }
                    return ;
                }
            },
        }
    }
}

} // verus!

verus! {

/// Runs a typed program: the top-level block's statements are
/// scheduled, the builtin bindings seeded, and the machine steps until
/// the control stack empties — the program's value is then the top of
/// the value stack — or a step fails, or the fuel bound runs out.
/// `Ok(None)` reports an exhausted bound, as for a program that loops
/// without breaking.
#[verifier::loop_isolation(false)]
#[verifier::rlimit(60)]
pub fn interpret_program(
    program: TypedExpr,
    exec: ExecContext,
    io: &mut IoContext,
    builtin_bindings: Vec<(String, TypedExpr)>,
    fuel: u64,
) -> (r: Result<Option<ResolvedValue>, RuntimeError>)
    requires
        exec.wf(),
        program@ matches crate::typed_ast::TypedExprV::Block(TypedBlockV::Interpreted(_, _)),
    ensures
        ({
            let si = spec_init(
                program@,
                crate::analyzer::builtin_funcs_view(builtin_bindings@),
                exec@,
                old(io)@,
            );
            match si {
                Err(m) => r matches Err(e) && e@ == m && final(io)@ == old(io)@,
                Ok(m0) => match r {
                    Ok(Some(v)) => spec_run(m0, fuel as nat) == RunResultV::Finished(
                        v@,
                        final(io)@,
                    ),
                    Ok(None) => spec_run(m0, fuel as nat) == RunResultV::OutOfFuel(final(io)@),
                    Err(e) => spec_run(m0, fuel as nat) == RunResultV::Failed(e@, final(io)@),
                },
            }
        }),
{
    let ghost e0 = exec@;
    let ghost bindings_v = crate::analyzer::builtin_funcs_view(builtin_bindings@);
    let ghost program_v = program@;
    let mut exec = exec;
    let (stmts, block_ty) = match program {
        TypedExpr::Block(TypedBlock::Interpreted(stmts, ty)) => (stmts, ty),
        _ => unreached(),
    };
    let ghost stmts_v = tstmts_view(stmts@);
    proof {
        assert(program_v->Block_0 == crate::typed_ast::typed_block_view(
            TypedBlock::Interpreted(stmts, block_ty),
        ));
        assert(stmts_v =~= program_v->Block_0->Interpreted_0);
    }
    exec.control_stack.push(ControlOp::MarkBlockStart);
    push_stmts_rev(&mut exec.control_stack, stmts);
    proof {
        assert(ops_view(exec.control_stack@) =~= e0.ops.push(ControlOpV::MarkBlockStart)
            + rev_stmt_ops(program_v->Block_0->Interpreted_0));
    }
    let nb = builtin_bindings.len();
    let mut i: usize = 0;
    proof {
        assert(bindings_v.skip(0) =~= bindings_v);
    }
    while i < nb
        invariant
            exec.wf(),
            nb == builtin_bindings@.len(),
            i <= nb,
            ops_view(exec.control_stack@) =~= e0.ops.push(ControlOpV::MarkBlockStart)
                + rev_stmt_ops(program_v->Block_0->Interpreted_0),
            crate::interpreter::values_view(exec.value_stack@) == e0.vals,
            io@ == old(io)@,
            spec_seed_runtime(e0.scopes, bindings_v) == spec_seed_runtime(
                exec.scope_stack@,
                bindings_v.skip(i as int),
            ),
        decreases nb - i,
    {
        let ghost remaining = bindings_v.skip(i as int);
        proof {
            assert(remaining.first() == (builtin_bindings@[i as int].0@,
            crate::typed_ast::typed_expr_view(builtin_bindings@[i as int].1)));
            assert(remaining.drop_first() =~= bindings_v.skip(i + 1));
        }
        match &builtin_bindings[i].1 {
            TypedExpr::FuncDeclare(f, _ty) => {
                let value = ResolvedValue::Func(f.clone());
                proof {
                    assert(value@ == ValueV::Func(remaining.first().1->FuncDeclare_0));
                }
                match exec.scope_stack.insert(
                    clone_string(&builtin_bindings[i].0),
                    false,
                    value,
                ) {
                    Ok(_) => {},
                    Err(_) => {
                        return Err(
                            RuntimeError::scope_binding_already_exists(&builtin_bindings[i].0),
                        );
                    },
                }
            },
            _ => {
                return Err(
                    RuntimeError::new(String::from_str("The typed tree is malformed here.")),
                );
            },
        }
        i += 1;
    }
    proof {
        assert(bindings_v.skip(nb as int) =~= Seq::<
            (Seq<char>, crate::typed_ast::TypedExprV),
        >::empty());
        assert(spec_seed_runtime(e0.scopes, bindings_v) == Ok::<
            ScopeStackV<ValueV>,
            Seq<char>,
        >(exec.scope_stack@));
    }
    let ghost m0 = spec_init(program_v, bindings_v, e0, old(io)@)->Ok_0;
    proof {
        assert(spec_init(program_v, bindings_v, e0, old(io)@) is Ok);
        assert(st_of(exec@, io@) == m0);
    }
    let ghost fuel0 = fuel as nat;
    let mut remaining_fuel: u64 = fuel;
    loop
        invariant
            exec.wf(),
            remaining_fuel <= fuel,
            spec_run(m0, fuel0) == spec_run(st_of(exec@, io@), remaining_fuel as nat),
        decreases remaining_fuel,
    {
        if exec.control_stack.len() == 0 {
            break ;
        }
        if remaining_fuel == 0 {
            proof {
                assert(spec_run(st_of(exec@, io@), 0nat) == RunResultV::OutOfFuel(io@));
            }
            return Ok(None);
        }
        let ghost pre = st_of(exec@, io@);
        let op = match exec.control_stack.pop() {
            Some(op) => op,
            None => unreached(),
        };
        proof {
            assert(op@ == pre.ops.last());
            assert(ops_view(exec.control_stack@) =~= pre.ops.drop_last());
            assert(st_of(exec@, io@) == StateV { ops: pre.ops.drop_last(), ..pre });
        }
        match do_op(op, &mut exec, io) {
            Err(e) => {
                proof {
                    assert(spec_step(pre) == Err::<StateV, Seq<char>>(e@));
                    assert(spec_run(pre, remaining_fuel as nat) == RunResultV::Failed(
                        e@,
                        pre.io,
                    ));
                }
                return Err(e);
            },
            Ok(flow) => {
                let ghost mid = st_of(exec@, io@);
                match flow {
                    ControlFlow::Continue => {
                        proof {
                            assert(spec_step(pre) == Ok::<StateV, Seq<char>>(mid));
                        }
                    },
                    ControlFlow::Break => {
                        unwind_until(&mut exec, true);
                        proof {
                            assert(st_of(exec@, io@) == StateV {
                                ops: spec_unwind(mid.ops, true),
                                ..mid
                            });
                            assert(spec_step(pre) == Ok::<StateV, Seq<char>>(
                                st_of(exec@, io@),
                            ));
                        }
                    },
                    ControlFlow::Return => {
                        unwind_until(&mut exec, false);
                        proof {
                            assert(st_of(exec@, io@) == StateV {
                                ops: spec_unwind(mid.ops, false),
                                ..mid
                            });
                            assert(spec_step(pre) == Ok::<StateV, Seq<char>>(
                                st_of(exec@, io@),
                            ));
                        }
                    },
                }
                proof {
                    assert(spec_run(pre, remaining_fuel as nat) == spec_run(
                        st_of(exec@, io@),
                        (remaining_fuel - 1) as nat,
                    ));
                }
            },
        }
        remaining_fuel = remaining_fuel - 1;
    }
    proof {
        assert(st_of(exec@, io@).ops.len() == 0);
    }
    match exec.value_stack.pop() {
        Some(v) => {
            proof {
                assert(spec_run(m0, fuel0) == RunResultV::Finished(v@, io@));
            }
            Ok(Some(v))
        },
        None => {
            proof {
                assert(spec_run(m0, fuel0) == RunResultV::Failed(rt_empty_stack_msg(), io@));
            }
            Err(RuntimeError::new(String::from_str("The value stack is empty.")))
        },
    }
}

} // verus!
