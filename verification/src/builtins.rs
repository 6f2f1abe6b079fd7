use vstd::prelude::*;

use crate::typed_ast::{
    typed_block_view, typed_expr_view, typed_func_view, TypedBlock, TypedBlockV, TypedExpr,
    TypedExprV, TypedFunc, TypedFuncV,
};
use crate::typing::{Type, TypeBinding, TypeBindingV, TypeV};

verus! {

/// Stable identifier of a builtin function, shared by the analyzer's
/// typed declarations and the runtime dispatch.
#[derive(Clone, Copy, PartialEq, Eq, Structural, Debug)]
pub enum BuiltinFuncId {
    Int,
    PrintLine,
    Push,
    ReadLine,
    Str,
}

/// The typed declaration of a builtin: a non-closure function whose
/// body is a builtin block reading the named parameters.
pub open spec fn builtin_decl_v(
    params: Seq<(Seq<char>, TypeV)>,
    id: BuiltinFuncId,
    ret: TypeV,
) -> TypedExprV {
    TypedExprV::FuncDeclare(
        TypedFuncV {
            params,
            block: Box::new(
                TypedExprV::Block(
                    TypedBlockV::Builtin(Seq::new(params.len(), |i: int| params[i].0), id, ret),
                ),
            ),
            is_closure: false,
        },
        TypeV::Func(Seq::new(params.len(), |i: int| params[i].1).push(ret)),
    )
}

/// Builds the typed declaration of a one-parameter builtin.
#[verifier::loop_isolation(false)]
fn make_builtin_1(name: &str, id: BuiltinFuncId, param_ty: Type, ret: Type) -> (r: TypedExpr)
    ensures
        r@ == builtin_decl_v(seq![(name@, param_ty@)], id, ret@),
{
    let ghost pv = seq![(name@, param_ty@)];
    let ghost rv = ret@;
    let mut names: Vec<String> = Vec::new();
    names.push(name.to_owned());
    let block_inner = TypedBlock::Builtin(names, id, ret.clone());
    let ghost b0 = block_inner;
    let block = TypedExpr::Block(block_inner);
    proof {
        assert(block@->Block_0 == typed_block_view(b0));
        assert(typed_block_view(b0)->Builtin_0 =~= Seq::new(pv.len(), |i: int| pv[i].0));
        assert(block@ == TypedExprV::Block(
            TypedBlockV::Builtin(Seq::new(pv.len(), |i: int| pv[i].0), id, rv),
        ));
    }
    let ghost block_v = block@;
    let mut params: Vec<(String, Type)> = Vec::new();
    let ghost pt0 = param_ty@;
    params.push((name.to_owned(), param_ty));
    let mut sig: Vec<Type> = Vec::new();
    sig.push(clone_param(&params[0].1));
    sig.push(ret);
    let func = TypedFunc { params, block: Box::new(block), is_closure: false };
    let ghost f0 = func;
    let result = TypedExpr::FuncDeclare(func, Type::Func(sig));
    proof {
        assert(result@->FuncDeclare_0 == typed_func_view(f0));
        assert(typed_func_view(f0).params =~= pv);
        assert(result@->FuncDeclare_1->Func_0 =~= Seq::new(pv.len(), |i: int| pv[i].1).push(rv));
        assert(result@ == builtin_decl_v(pv, id, rv));
    }
    result
}

/// A structural copy of a parameter type.
fn clone_param(t: &Type) -> (r: Type)
    ensures
        r@ == t@,
{
    t.clone()
}

/// The typed declaration of `int(value: Any): Int`.
pub fn make_int() -> (r: TypedExpr)
    ensures
        r@ == builtin_decl_v(seq![("value"@, TypeV::Any)], BuiltinFuncId::Int, TypeV::Int),
{
    make_builtin_1("value", BuiltinFuncId::Int, Type::Any, Type::Int)
}

/// The typed declaration of `str(value: Any): Str`.
pub fn make_str() -> (r: TypedExpr)
    ensures
        r@ == builtin_decl_v(seq![("value"@, TypeV::Any)], BuiltinFuncId::Str, TypeV::Str),
{
    make_builtin_1("value", BuiltinFuncId::Str, Type::Any, Type::Str)
}

/// The typed declaration of `print_line(message: Any): Void`.
pub fn make_print_line() -> (r: TypedExpr)
    ensures
        r@ == builtin_decl_v(
            seq![("message"@, TypeV::Any)],
            BuiltinFuncId::PrintLine,
            TypeV::Void,
        ),
{
    make_builtin_1("message", BuiltinFuncId::PrintLine, Type::Any, Type::Void)
}

/// The typed declaration of `read_line(): Str`.
pub fn make_read_line() -> (r: TypedExpr)
    ensures
        r@ == builtin_decl_v(Seq::empty(), BuiltinFuncId::ReadLine, TypeV::Str),
{
    let ghost pv = Seq::<(Seq<char>, TypeV)>::empty();
    let names: Vec<String> = Vec::new();
    let block_inner = TypedBlock::Builtin(names, BuiltinFuncId::ReadLine, Type::Str);
    let ghost b0 = block_inner;
    let block = TypedExpr::Block(block_inner);
    proof {
        assert(block@->Block_0 == typed_block_view(b0));
        assert(typed_block_view(b0)->Builtin_0 =~= Seq::new(pv.len(), |i: int| pv[i].0));
    }
    let params: Vec<(String, Type)> = Vec::new();
    let mut sig: Vec<Type> = Vec::new();
    sig.push(Type::Str);
    let func = TypedFunc { params, block: Box::new(block), is_closure: false };
    let ghost f0 = func;
    let result = TypedExpr::FuncDeclare(func, Type::Func(sig));
    proof {
        assert(result@->FuncDeclare_0 == typed_func_view(f0));
        assert(typed_func_view(f0).params =~= pv);
        assert(result@->FuncDeclare_1->Func_0 =~= Seq::new(pv.len(), |i: int| pv[i].1).push(
            TypeV::Str,
        ));
        assert(result@ == builtin_decl_v(pv, BuiltinFuncId::ReadLine, TypeV::Str));
    }
    result
}

/// The typed declaration of `push(list: List<Str>, item: Str): List<Str>`.
pub fn make_push() -> (r: TypedExpr)
    ensures
        r@ == builtin_decl_v(
            seq![
                ("list"@, TypeV::List(Box::new(TypeV::Str))),
                ("item"@, TypeV::Str),
            ],
            BuiltinFuncId::Push,
            TypeV::List(Box::new(TypeV::Str)),
        ),
{
    let ghost pv = seq![("list"@, TypeV::List(Box::new(TypeV::Str))), ("item"@, TypeV::Str)];
    let ghost rv = TypeV::List(Box::new(TypeV::Str));
    let mut names: Vec<String> = Vec::new();
    names.push(String::from_str("list"));
    names.push(String::from_str("item"));
    let block_inner = TypedBlock::Builtin(names, BuiltinFuncId::Push, Type::List(Box::new(Type::Str)));
    let ghost b0 = block_inner;
    let block = TypedExpr::Block(block_inner);
    proof {
        assert(block@->Block_0 == typed_block_view(b0));
        assert(typed_block_view(b0)->Builtin_0 =~= Seq::new(pv.len(), |i: int| pv[i].0));
    }
    let mut params: Vec<(String, Type)> = Vec::new();
    params.push((String::from_str("list"), Type::List(Box::new(Type::Str))));
    params.push((String::from_str("item"), Type::Str));
    let mut sig: Vec<Type> = Vec::new();
    sig.push(Type::List(Box::new(Type::Str)));
    sig.push(Type::Str);
    sig.push(Type::List(Box::new(Type::Str)));
    let func = TypedFunc { params, block: Box::new(block), is_closure: false };
    let ghost f0 = func;
    let result = TypedExpr::FuncDeclare(func, Type::Func(sig));
    proof {
        assert(crate::typing::type_view(Type::Str) == TypeV::Str);
        assert(crate::typing::type_view(Type::List(Box::new(Type::Str))) == TypeV::List(
            Box::new(TypeV::Str),
        ));
        assert(result@->FuncDeclare_0 == typed_func_view(f0));
        assert(typed_func_view(f0).params =~= pv);
        assert(result@->FuncDeclare_1->Func_0 =~= Seq::new(pv.len(), |i: int| pv[i].1).push(rv));
        assert(result@ == builtin_decl_v(pv, BuiltinFuncId::Push, rv));
    }
    result
}

/// The builtin value bindings handed to the analyzer and to the
/// interpreter's scope seeding, in a fixed order.
pub open spec fn builtin_func_bindings_v() -> Seq<(Seq<char>, TypedExprV)> {
    seq![
        ("int"@, builtin_decl_v(seq![("value"@, TypeV::Any)], BuiltinFuncId::Int, TypeV::Int)),
        (
            "print_line"@,
            builtin_decl_v(seq![("message"@, TypeV::Any)], BuiltinFuncId::PrintLine, TypeV::Void),
        ),
        (
            "push"@,
            builtin_decl_v(
                seq![("list"@, TypeV::List(Box::new(TypeV::Str))), ("item"@, TypeV::Str)],
                BuiltinFuncId::Push,
                TypeV::List(Box::new(TypeV::Str)),
            ),
        ),
        ("read_line"@, builtin_decl_v(Seq::empty(), BuiltinFuncId::ReadLine, TypeV::Str)),
        ("str"@, builtin_decl_v(seq![("value"@, TypeV::Any)], BuiltinFuncId::Str, TypeV::Str)),
    ]
}

/// The builtin value bindings, each name with its typed declaration.
pub fn get_builtin_func_bindings() -> (r: Vec<(String, TypedExpr)>)
    ensures
        crate::analyzer::builtin_funcs_view(r@) =~= builtin_func_bindings_v(),
{
    let mut out: Vec<(String, TypedExpr)> = Vec::new();
    out.push((String::from_str("int"), make_int()));
    out.push((String::from_str("print_line"), make_print_line()));
    out.push((String::from_str("push"), make_push()));
    out.push((String::from_str("read_line"), make_read_line()));
    out.push((String::from_str("str"), make_str()));
    out
}

/// The builtin type names, in seeding order; a later binding of the
/// same name replaces the earlier one.
pub open spec fn builtin_type_bindings_v() -> Seq<(Seq<char>, TypeBindingV)> {
    seq![
        ("Int"@, TypeBindingV::Atomic(TypeV::Int)),
        ("Bool"@, TypeBindingV::Atomic(TypeV::Bool)),
        ("Float"@, TypeBindingV::Atomic(TypeV::Float)),
        ("Str"@, TypeBindingV::Atomic(TypeV::Str)),
        ("Void"@, TypeBindingV::Atomic(TypeV::Void)),
        ("Bool"@, TypeBindingV::Atomic(TypeV::Bool)),
        ("List"@, TypeBindingV::Applied { arity: 1 }),
    ]
}

/// The builtin type bindings handed to the analyzer.
pub fn get_builtin_type_bindings() -> (r: Vec<(String, TypeBinding)>)
    ensures
        crate::analyzer::builtin_types_view(r@) =~= builtin_type_bindings_v(),
{
    let mut out: Vec<(String, TypeBinding)> = Vec::new();
    out.push((String::from_str("Int"), TypeBinding::Atomic(Type::Int)));
    out.push((String::from_str("Bool"), TypeBinding::Atomic(Type::Bool)));
    out.push((String::from_str("Float"), TypeBinding::Atomic(Type::Float)));
    out.push((String::from_str("Str"), TypeBinding::Atomic(Type::Str)));
    out.push((String::from_str("Void"), TypeBinding::Atomic(Type::Void)));
    out.push((String::from_str("Bool"), TypeBinding::Atomic(Type::Bool)));
    out.push((String::from_str("List"), TypeBinding::Applied { arity: 1 }));
    out
}

} // verus!
