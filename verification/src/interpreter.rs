use vstd::prelude::*;

use crate::analyzer::spec::{spec_analyze_expr, AStackV, BinOp, TScopeV};
use crate::ast::{ExprV, LiteralV};
use crate::errors::RuntimeError;
use crate::typed_ast::{ty_v, typed_func_view, TypedFunc, TypedFuncV, TypedLiteral};
use crate::typing::TypeV;

verus! {

broadcast use
    vstd::seq::axiom_seq_index_decreases,
    vstd::std_specs::vec::axiom_vec_index_decreases,
    vstd::std_specs::vec::axiom_vec_decreases_to_view;

/// Mathematical model of a runtime value.
pub enum ValueV {
    Int(i32),
    Str(Seq<char>),
    Bool(bool),
    Void,
    Func(TypedFuncV),
    List(Seq<ValueV>),
}

/// A runtime value: what evaluation moves through the value stack.
#[derive(Debug)]
pub enum ResolvedValue {
    Int(i32),
    String(String),
    Bool(bool),
    Void,
    Func(TypedFunc),
    List(Vec<ResolvedValue>),
}

pub open spec fn value_view(v: ResolvedValue) -> ValueV
    decreases v,
{
    match v {
        ResolvedValue::Int(i) => ValueV::Int(i),
        ResolvedValue::String(s) => ValueV::Str(s@),
        ResolvedValue::Bool(b) => ValueV::Bool(b),
        ResolvedValue::Void => ValueV::Void,
        ResolvedValue::Func(f) => ValueV::Func(typed_func_view(f)),
        ResolvedValue::List(items) => ValueV::List(
            Seq::new(
                items@.len(),
                |i: int|
                    if 0 <= i < items@.len() {
                        value_view(items@[i])
                    } else {
                        ValueV::Void
                    },
            ),
        ),
    }
}

impl View for ResolvedValue {
    type V = ValueV;

    open spec fn view(&self) -> ValueV {
        value_view(*self)
    }
}

impl ResolvedValue {
    /// The integer inside an `Int` value.
    pub fn unwrap_int(&self) -> (r: i32)
        requires
            self@ is Int,
        ensures
            self@ == ValueV::Int(r),
    {
        match self {
            ResolvedValue::Int(i) => *i,
            _ => unreached(),
        }
    }

    /// The characters inside a `String` value.
    pub fn unwrap_string(&self) -> (r: String)
        requires
            self@ is Str,
        ensures
            self@ == ValueV::Str(r@),
    {
        match self {
            ResolvedValue::String(s) => crate::typing::clone_string(s),
            _ => unreached(),
        }
    }

    /// The truth value inside a `Bool` value.
    pub fn unwrap_bool(&self) -> (r: bool)
        requires
            self@ is Bool,
        ensures
            self@ == ValueV::Bool(r),
    {
        match self {
            ResolvedValue::Bool(b) => *b,
            _ => unreached(),
        }
    }

    /// Witnesses that this value is `Void`.
    pub fn unwrap_void(&self)
        requires
            self@ is Void,
    {
    }
}

/// The magnitude of a 32-bit integer.
pub open spec fn i32_abs(a: int) -> int {
    if a >= 0 {
        a
    } else {
        -a
    }
}

/// Truncated 32-bit division with two's-complement wrapping: the
/// quotient rounds toward zero, and the one overflowing case wraps.
pub open spec fn div_trunc_i32(a: i32, b: i32) -> i32 {
    if b == 0 {
        0
    } else if a == i32::MIN && b == -1 {
        i32::MIN
    } else {
        let q = i32_abs(a as int) / i32_abs(b as int);
        if (a < 0) != (b < 0) {
            (-q) as i32
        } else {
            q as i32
        }
    }
}

/// Truncated 32-bit remainder: the remainder takes the dividend's sign.
pub open spec fn rem_trunc_i32(a: i32, b: i32) -> i32 {
    if b == 0 {
        0
    } else if a == i32::MIN && b == -1 {
        0
    } else {
        let m = i32_abs(a as int) % i32_abs(b as int);
        if a < 0 {
            (-m) as i32
        } else {
            m as i32
        }
    }
}

/// The message reported when a denominator is zero at run time.
pub open spec fn rt_division_by_zero_msg() -> Seq<char> {
    "Division by zero."@
}

/// The message reported when operand kinds do not fit the operation;
/// analysis rules this out for programs it accepts.
pub open spec fn rt_wrong_operands_msg() -> Seq<char> {
    "Operands do not support this operation."@
}

/// What a binary operator yields on two runtime values: 32-bit
/// two's-complement arithmetic and ordering on integers, concatenation
/// and equality on strings, equality on booleans; a zero denominator
/// fails; anything else is refused as a defense on paths analysis
/// rules out.
pub open spec fn spec_apply_binop(op: BinOp, l: ValueV, r: ValueV) -> Result<ValueV, Seq<char>> {
    match (op, l, r) {
        (BinOp::Add, ValueV::Int(x), ValueV::Int(y)) => Ok(
            ValueV::Int(vstd::wrapping::i32_specs::wrapping_add(x, y)),
        ),
        (BinOp::Add, ValueV::Str(x), ValueV::Str(y)) => Ok(ValueV::Str(x + y)),
        (BinOp::Sub, ValueV::Int(x), ValueV::Int(y)) => Ok(
            ValueV::Int(vstd::wrapping::i32_specs::wrapping_sub(x, y)),
        ),
        (BinOp::Mult, ValueV::Int(x), ValueV::Int(y)) => Ok(
            ValueV::Int(vstd::wrapping::i32_specs::wrapping_mul(x, y)),
        ),
        (BinOp::Div, ValueV::Int(x), ValueV::Int(y)) => if y == 0 {
            Err(rt_division_by_zero_msg())
        } else {
            Ok(ValueV::Int(div_trunc_i32(x, y)))
        },
        (BinOp::Modulo, ValueV::Int(x), ValueV::Int(y)) => if y == 0 {
            Err(rt_division_by_zero_msg())
        } else {
            Ok(ValueV::Int(rem_trunc_i32(x, y)))
        },
        (BinOp::Eq, ValueV::Int(x), ValueV::Int(y)) => Ok(ValueV::Bool(x == y)),
        (BinOp::Eq, ValueV::Str(x), ValueV::Str(y)) => Ok(ValueV::Bool(x == y)),
        (BinOp::Eq, ValueV::Bool(x), ValueV::Bool(y)) => Ok(ValueV::Bool(x == y)),
        (BinOp::Gt, ValueV::Int(x), ValueV::Int(y)) => Ok(ValueV::Bool(x > y)),
        (BinOp::Gte, ValueV::Int(x), ValueV::Int(y)) => Ok(ValueV::Bool(x >= y)),
        (BinOp::Lt, ValueV::Int(x), ValueV::Int(y)) => Ok(ValueV::Bool(x < y)),
        (BinOp::Lte, ValueV::Int(x), ValueV::Int(y)) => Ok(ValueV::Bool(x <= y)),
        _ => Err(rt_wrong_operands_msg()),
    }
}

/// What negation yields on a runtime value: two's-complement negation
/// of an integer; anything else is refused as a defense.
pub open spec fn spec_apply_negate(v: ValueV) -> Result<ValueV, Seq<char>> {
    match v {
        ValueV::Int(x) => Ok(
            ValueV::Int(
                if x == i32::MIN {
                    i32::MIN
                } else {
                    (-x) as i32
                },
            ),
        ),
        _ => Err(rt_wrong_operands_msg()),
    }
}

/// The magnitude of a 32-bit integer, as an unsigned 32-bit integer.
fn abs_u32(a: i32) -> (r: u32)
    ensures
        r == i32_abs(a as int),
{
    if a >= 0 {
        a as u32
    } else if a == i32::MIN {
        0x8000_0000u32
    } else {
        (-a) as u32
    }
}

/// Combines two runtime values under a binary operator, mirroring
/// `spec_apply_binop`: the pure step behind the evaluator's apply
/// operations for `+ - * / % == > >= < <=`.
pub fn apply_binop_values(op: BinOp, l: ResolvedValue, r: ResolvedValue) -> (res: Result<
    ResolvedValue,
    RuntimeError,
>)
    ensures
        match res {
            Ok(v) => spec_apply_binop(op, l@, r@) == Ok::<ValueV, Seq<char>>(v@),
            Err(e) => spec_apply_binop(op, l@, r@) == Err::<ValueV, Seq<char>>(e@),
        },
{
    match (op, l, r) {
        (BinOp::Add, ResolvedValue::Int(x), ResolvedValue::Int(y)) => Ok(
            ResolvedValue::Int(x.wrapping_add(y)),
        ),
        (BinOp::Add, ResolvedValue::String(x), ResolvedValue::String(y)) => Ok(
            ResolvedValue::String(x.concat(y.as_str())),
        ),
        (BinOp::Sub, ResolvedValue::Int(x), ResolvedValue::Int(y)) => Ok(
            ResolvedValue::Int(x.wrapping_sub(y)),
        ),
        (BinOp::Mult, ResolvedValue::Int(x), ResolvedValue::Int(y)) => Ok(
            ResolvedValue::Int(x.wrapping_mul(y)),
        ),
        (BinOp::Div, ResolvedValue::Int(x), ResolvedValue::Int(y)) => {
            if y == 0 {
                Err(RuntimeError::new(String::from_str("Division by zero.")))
            } else if x == i32::MIN && y == -1 {
                Ok(ResolvedValue::Int(i32::MIN))
            } else {
                let q = abs_u32(x) / abs_u32(y);
                let quotient = if (x < 0) != (y < 0) {
                    if q == 0x8000_0000u32 {
                        i32::MIN
                    } else {
                        -(q as i32)
                    }
                } else {
                    q as i32
                };
                Ok(ResolvedValue::Int(quotient))
            }
        },
        (BinOp::Modulo, ResolvedValue::Int(x), ResolvedValue::Int(y)) => {
            if y == 0 {
                Err(RuntimeError::new(String::from_str("Division by zero.")))
            } else if x == i32::MIN && y == -1 {
                Ok(ResolvedValue::Int(0))
            } else {
                let m = abs_u32(x) % abs_u32(y);
                proof {
                    assert(m < 0x8000_0000u32);
                }
                let remainder = if x < 0 {
                    -(m as i32)
                } else {
                    m as i32
                };
                Ok(ResolvedValue::Int(remainder))
            }
        },
        (BinOp::Eq, ResolvedValue::Int(x), ResolvedValue::Int(y)) => Ok(
            ResolvedValue::Bool(x == y),
        ),
        (BinOp::Eq, ResolvedValue::String(x), ResolvedValue::String(y)) => Ok(
            ResolvedValue::Bool(x.eq(&y)),
        ),
        (BinOp::Eq, ResolvedValue::Bool(x), ResolvedValue::Bool(y)) => Ok(
            ResolvedValue::Bool(x == y),
        ),
        (BinOp::Gt, ResolvedValue::Int(x), ResolvedValue::Int(y)) => Ok(
            ResolvedValue::Bool(x > y),
        ),
        (BinOp::Gte, ResolvedValue::Int(x), ResolvedValue::Int(y)) => Ok(
            ResolvedValue::Bool(x >= y),
        ),
        (BinOp::Lt, ResolvedValue::Int(x), ResolvedValue::Int(y)) => Ok(
            ResolvedValue::Bool(x < y),
        ),
        (BinOp::Lte, ResolvedValue::Int(x), ResolvedValue::Int(y)) => Ok(
            ResolvedValue::Bool(x <= y),
        ),
        _ => Err(RuntimeError::new(String::from_str("Operands do not support this operation."))),
    }
}

/// Negates a runtime value, mirroring `spec_apply_negate`: the pure
/// step behind the evaluator's negate operation.
pub fn apply_negate_value(v: ResolvedValue) -> (res: Result<ResolvedValue, RuntimeError>)
    ensures
        match res {
            Ok(out) => spec_apply_negate(v@) == Ok::<ValueV, Seq<char>>(out@),
            Err(e) => spec_apply_negate(v@) == Err::<ValueV, Seq<char>>(e@),
        },
{
    match v {
        ResolvedValue::Int(x) => {
            if x == i32::MIN {
                Ok(ResolvedValue::Int(i32::MIN))
            } else {
                Ok(ResolvedValue::Int(-x))
            }
        },
        _ => Err(RuntimeError::new(String::from_str("Operands do not support this operation."))),
    }
}

/// What a literal evaluates to: the corresponding runtime value.
pub open spec fn spec_eval_literal(lit: LiteralV) -> ValueV {
    match lit {
        LiteralV::Int(i) => ValueV::Int(i),
        LiteralV::Str(s) => ValueV::Str(s),
        LiteralV::Bool(b) => ValueV::Bool(b),
    }
}

/// Evaluates a literal of the typed tree to its runtime value.
pub fn eval_literal_value(lit: &TypedLiteral) -> (r: ResolvedValue)
    ensures
        r@ == spec_eval_literal(lit@),
{
    match lit {
        TypedLiteral::Int(i) => ResolvedValue::Int(*i),
        TypedLiteral::String(s) => ResolvedValue::String(crate::typing::clone_string(s)),
        TypedLiteral::Bool(b) => ResolvedValue::Bool(*b),
    }
}

/// Whether a runtime value's kind is the one a type predicts.
pub open spec fn value_matches_type(v: ValueV, t: TypeV) -> bool {
    match v {
        ValueV::Int(_) => t == TypeV::Int,
        ValueV::Str(_) => t == TypeV::Str,
        ValueV::Bool(_) => t == TypeV::Bool,
        ValueV::Void => t == TypeV::Void,
        ValueV::Func(_) => t is Func,
        ValueV::List(_) => t is List,
    }
}

/// Subject reduction for literals: a literal always passes analysis,
/// and evaluating it yields exactly one value whose kind matches the
/// type the analyzer assigned.
pub proof fn lemma_literal_subject_reduction(
    ts: TScopeV,
    s: AStackV,
    hint: Option<TypeV>,
    lit: LiteralV,
)
    ensures
        spec_analyze_expr(ts, s, hint, ExprV::Literal(lit)) matches Ok((te, s2)) && s2 == s
            && value_matches_type(spec_eval_literal(lit), ty_v(te)),
{
}

/// String concatenation is associative: concatenating `a` with `b` and
/// then `c` equals concatenating `a` with the concatenation of `b` and
/// `c`.
pub proof fn lemma_string_concat_associative(a: ValueV, b: ValueV, c: ValueV)
    requires
        a is Str,
        b is Str,
        c is Str,
    ensures
        spec_apply_binop(BinOp::Add, a, b) matches Ok(ab) && spec_apply_binop(BinOp::Add, ab, c)
            == spec_apply_binop(
            BinOp::Add,
            a,
            spec_apply_binop(BinOp::Add, b, c)->Ok_0,
        ),
{
    let x = a->Str_0;
    let y = b->Str_0;
    let z = c->Str_0;
    assert((x + y) + z =~= x + (y + z));
}

/// Integer addition of values wraps to 32 bits: the sum of the two
/// integers, reduced into the two's-complement range.
pub proof fn lemma_int_add_is_wrapping(x: i32, y: i32)
    ensures
        spec_apply_binop(BinOp::Add, ValueV::Int(x), ValueV::Int(y)) matches Ok(v) && (v
            matches ValueV::Int(s) && (s == x + y || s == x + y - 0x1_0000_0000 || s == x + y
            + 0x1_0000_0000)),
{
}

} // verus!

verus! {

/// The message reported when a builtin receives arguments of a shape
/// its signature rules out; analysis prevents this for accepted
/// programs.
pub open spec fn rt_wrong_builtin_args_msg() -> Seq<char> {
    "Builtin arguments have the wrong shape."@
}

/// What `push` yields: its last argument appended to the list that
/// precedes it.
pub open spec fn spec_eval_push(args: Seq<ValueV>) -> Result<ValueV, Seq<char>> {
    if args.len() < 2 {
        Err(rt_wrong_builtin_args_msg())
    } else {
        match args[args.len() - 2] {
            ValueV::List(items) => Ok(ValueV::List(items.push(args.last()))),
            _ => Err(rt_wrong_builtin_args_msg()),
        }
    }
}

pub open spec fn values_view(vs: Seq<ResolvedValue>) -> Seq<ValueV> {
    Seq::new(vs.len(), |i: int| value_view(vs[i]))
}

/// The `push` builtin: appends the item to the list and returns the
/// new list. The I/O context is untouched.
pub fn eval_push(io: &mut crate::state::IoContext, args: Vec<ResolvedValue>) -> (r: Result<
    ResolvedValue,
    RuntimeError,
>)
    ensures
        final(io)@ == old(io)@,
        match r {
            Ok(v) => spec_eval_push(values_view(args@)) == Ok::<ValueV, Seq<char>>(v@),
            Err(e) => spec_eval_push(values_view(args@)) == Err::<ValueV, Seq<char>>(e@),
        },
{
    let mut args = args;
    let ghost args_v = values_view(args@);
    if args.len() < 2 {
        return Err(RuntimeError::new(String::from_str("Builtin arguments have the wrong shape.")));
    }
    let item = match args.pop() {
        Some(v) => v,
        None => {
            return Err(
                RuntimeError::new(String::from_str("Builtin arguments have the wrong shape.")),
            );
        },
    };
    proof {
        assert(item@ == args_v.last());
        assert(value_view(args@[args@.len() - 1]) == args_v[args_v.len() - 2]);
    }
    let list = match args.pop() {
        Some(v) => v,
        None => {
            return Err(
                RuntimeError::new(String::from_str("Builtin arguments have the wrong shape.")),
            );
        },
    };
    match list {
        ResolvedValue::List(items) => {
            let ghost items_v = value_view(ResolvedValue::List(items))->List_0;
            let mut items = items;
            items.push(item);
            let result = ResolvedValue::List(items);
            proof {
                assert(result@->List_0 =~= items_v.push(args_v.last()));
            }
            Ok(result)
        },
        _ => Err(RuntimeError::new(String::from_str("Builtin arguments have the wrong shape."))),
    }
}

/// The `read_line` builtin: reads one line through the I/O context and
/// hands it over as a string value, stripped of its line ending.
pub fn eval_read_line(io: &mut crate::state::IoContext, args: Vec<ResolvedValue>) -> (r: Result<
    ResolvedValue,
    RuntimeError,
>)
    ensures
        final(io)@.output == old(io)@.output,
        match r {
            Ok(v) => if old(io)@.input.len() == 0 {
                final(io)@.input == old(io)@.input && v@ == ValueV::Str(Seq::empty())
            } else {
                final(io)@.input =~= old(io)@.input.drop_first() && v@ == ValueV::Str(
                    crate::state::strip_line_v(old(io)@.input.first()),
                )
            },
            Err(_) => false,
        },
{
    let _ = args;
    match io.read_line() {
        Ok(line) => Ok(ResolvedValue::String(line)),
        Err(e) => Err(e),
    }
}

} // verus!

verus! {

/// The decimal digit character for a value below ten.
pub open spec fn dec_digit(d: int) -> char {
    if d == 0 {
        '0'
    } else if d == 1 {
        '1'
    } else if d == 2 {
        '2'
    } else if d == 3 {
        '3'
    } else if d == 4 {
        '4'
    } else if d == 5 {
        '5'
    } else if d == 6 {
        '6'
    } else if d == 7 {
        '7'
    } else if d == 8 {
        '8'
    } else {
        '9'
    }
}

/// The decimal form of a nonnegative number: its digits, most
/// significant first.
pub open spec fn u32_dec_v(n: nat) -> Seq<char>
    decreases n,
{
    if n < 10 {
        seq![dec_digit(n as int)]
    } else {
        u32_dec_v(n / 10).push(dec_digit((n % 10) as int))
    }
}

/// The decimal form of a 32-bit integer: a minus sign and the
/// magnitude's digits for a negative number, the digits alone
/// otherwise.
pub open spec fn i32_dec_v(x: i32) -> Seq<char> {
    if x >= 0 {
        u32_dec_v(x as nat)
    } else {
        seq!['-'] + u32_dec_v((-(x as int)) as nat)
    }
}

/// The one-character string for a decimal digit.
fn digit_str(d: u32) -> (r: &'static str)
    requires
        d < 10,
    ensures
        r@ =~= seq![dec_digit(d as int)],
{
    proof {
        reveal_strlit("0");
        reveal_strlit("1");
        reveal_strlit("2");
        reveal_strlit("3");
        reveal_strlit("4");
        reveal_strlit("5");
        reveal_strlit("6");
        reveal_strlit("7");
        reveal_strlit("8");
        reveal_strlit("9");
    }
    match d {
        0 => "0",
        1 => "1",
        2 => "2",
        3 => "3",
        4 => "4",
        5 => "5",
        6 => "6",
        7 => "7",
        8 => "8",
        _ => "9",
    }
}

/// The digits of `d`, most significant first.
pub open spec fn rev_digit_chars(d: Seq<u32>) -> Seq<char> {
    Seq::new(d.len(), |i: int| dec_digit(d[d.len() - 1 - i] as int))
}

/// Renders a 32-bit integer in decimal, as `str` and `print_line`
/// hand numbers over.
#[verifier::loop_isolation(false)]
pub fn i32_to_decimal(x: i32) -> (r: String)
    ensures
        r@ == i32_dec_v(x),
{
    let neg = x < 0;
    let mut m: u32 = abs_u32(x);
    let ghost n0 = m as nat;
    let mut digits: Vec<u32> = Vec::new();
    if m == 0 {
        digits.push(0);
        proof {
            assert(rev_digit_chars(digits@) =~= u32_dec_v(n0));
        }
    } else {
        while m > 0
            invariant
                forall|j: int| 0 <= j < digits@.len() ==> digits@[j] < 10,
                n0 > 0,
                m > 0 ==> u32_dec_v(n0) =~= u32_dec_v(m as nat) + rev_digit_chars(digits@),
                m == 0 ==> u32_dec_v(n0) =~= rev_digit_chars(digits@),
                m == 0 ==> digits@.len() > 0,
            decreases m,
        {
            let ghost old_digits = digits@;
            let ghost m_old = m as nat;
            digits.push(m % 10);
            m = m / 10;
            proof {
                assert(rev_digit_chars(digits@) =~= seq![dec_digit((m_old % 10) as int)]
                    + rev_digit_chars(old_digits));
                if m_old < 10 {
                    assert(u32_dec_v(m_old) =~= seq![dec_digit(m_old as int)]);
                    assert(u32_dec_v(n0) =~= rev_digit_chars(digits@));
                } else {
                    assert(u32_dec_v(m_old) == u32_dec_v(m_old / 10).push(
                        dec_digit((m_old % 10) as int),
                    ));
                    assert(u32_dec_v(m_old / 10) + (seq![dec_digit((m_old % 10) as int)]
                        + rev_digit_chars(old_digits)) =~= (u32_dec_v(m_old / 10).push(
                        dec_digit((m_old % 10) as int),
                    )) + rev_digit_chars(old_digits));
                }
            }
        }
    }
    let mut s = if neg {
        String::from_str("-")
    } else {
        String::new()
    };
    proof {
        reveal_strlit("-");
        assert("-"@ =~= seq!['-']);
    }
    let ghost prefix = s@;
    let k = digits.len();
    let mut i: usize = 0;
    while i < k
        invariant
            k == digits@.len(),
            i <= k,
            forall|j: int| 0 <= j < digits@.len() ==> digits@[j] < 10,
            s@ =~= prefix + rev_digit_chars(digits@).take(i as int),
        decreases k - i,
    {
        let ghost s_old = s@;
        s = s.concat(digit_str(digits[k - 1 - i]));
        proof {
            assert(rev_digit_chars(digits@)[i as int] == dec_digit(
                digits@[k - 1 - i as int] as int,
            ));
            assert(s@ =~= prefix + rev_digit_chars(digits@).take(i + 1));
        }
        i += 1;
    }
    proof {
        assert(rev_digit_chars(digits@).take(k as int) =~= rev_digit_chars(digits@));
        if neg {
            assert(s@ =~= seq!['-'] + u32_dec_v(n0));
        } else {
            assert(prefix =~= Seq::<char>::empty());
            assert(s@ =~= u32_dec_v(n0));
        }
    }
    s
}

} // verus!

verus! {

/// The message reported when a builtin receives a value of a kind it
/// does not yet support.
pub open spec fn rt_reserved_kind_msg() -> Seq<char> {
    "This value kind is not supported here."@
}

/// What `str` yields: the decimal form of an integer, `True` or
/// `False` for a boolean; other kinds are reserved.
pub open spec fn spec_eval_str(args: Seq<ValueV>) -> Result<ValueV, Seq<char>> {
    if args.len() == 0 {
        Err(rt_wrong_builtin_args_msg())
    } else {
        match args.last() {
            ValueV::Int(i) => Ok(ValueV::Str(i32_dec_v(i))),
            ValueV::Bool(b) => Ok(
                ValueV::Str(
                    if b {
                        "True"@
                    } else {
                        "False"@
                    },
                ),
            ),
            _ => Err(rt_reserved_kind_msg()),
        }
    }
}

/// The `str` builtin: stringifies its last argument. The I/O context is
/// untouched.
pub fn eval_str(io: &mut crate::state::IoContext, args: Vec<ResolvedValue>) -> (r: Result<
    ResolvedValue,
    RuntimeError,
>)
    ensures
        final(io)@ == old(io)@,
        match r {
            Ok(v) => spec_eval_str(values_view(args@)) == Ok::<ValueV, Seq<char>>(v@),
            Err(e) => spec_eval_str(values_view(args@)) == Err::<ValueV, Seq<char>>(e@),
        },
{
    let mut args = args;
    let ghost args_v = values_view(args@);
    let value = match args.pop() {
        Some(v) => v,
        None => {
            return Err(
                RuntimeError::new(String::from_str("Builtin arguments have the wrong shape.")),
            );
        },
    };
    proof {
        assert(value@ == args_v.last());
    }
    match value {
        ResolvedValue::Int(i) => Ok(ResolvedValue::String(i32_to_decimal(i))),
        ResolvedValue::Bool(b) => {
            if b {
                Ok(ResolvedValue::String(String::from_str("True")))
            } else {
                Ok(ResolvedValue::String(String::from_str("False")))
            }
        },
        _ => Err(RuntimeError::new(String::from_str("This value kind is not supported here."))),
    }
}

/// Whether a character is a decimal digit.
pub open spec fn is_dec_digit(c: char) -> bool {
    48 <= c as u32 <= 57
}

/// The numeric value of a decimal digit character.
pub open spec fn digit_val(c: char) -> int {
    c as u32 - 48
}

/// The number the digit characters denote, most significant first.
pub open spec fn digits_val(s: Seq<char>) -> int
    decreases s.len(),
{
    if s.len() == 0 {
        0
    } else {
        digits_val(s.drop_last()) * 10 + digit_val(s.last())
    }
}

/// Whether the number is written negative.
pub open spec fn num_is_negative(s: Seq<char>) -> bool {
    s.len() > 0 && s[0] == '-'
}

/// The digit characters after an optional sign.
pub open spec fn num_digits(s: Seq<char>) -> Seq<char> {
    if s.len() > 0 && (s[0] == '-' || s[0] == '+') {
        s.drop_first()
    } else {
        s
    }
}

/// Whether every character is a decimal digit.
pub open spec fn all_dec_digits(ds: Seq<char>) -> bool {
    forall|i: int| 0 <= i < ds.len() ==> is_dec_digit(ds[i])
}

/// The 32-bit integer a string denotes in base ten: an optional sign,
/// then at least one digit, with the value in range; anything else
/// does not parse.
pub open spec fn str_to_i32_v(s: Seq<char>) -> Option<i32> {
    let ds = num_digits(s);
    if ds.len() == 0 || !all_dec_digits(ds) {
        None
    } else {
        let v = if num_is_negative(s) {
            -digits_val(ds)
        } else {
            digits_val(ds)
        };
        if v < i32::MIN || v > i32::MAX {
            None
        } else {
            Some(v as i32)
        }
    }
}

/// Nonnegative digit strings denote nonnegative values.
proof fn lemma_digits_val_nonneg(s: Seq<char>)
    requires
        forall|i: int| 0 <= i < s.len() ==> is_dec_digit(s[i]),
    ensures
        digits_val(s) >= 0,
    decreases s.len(),
{
    if s.len() > 0 {
        lemma_digits_val_nonneg(s.drop_last());
    }
}

/// The message reported when `int` cannot parse its string argument.
pub open spec fn rt_int_parse_msg() -> Seq<char> {
    "Cannot parse an integer from the string."@
}

/// What `int` yields: the parsed value of a string in base ten, or one
/// and zero for the booleans; other kinds are reserved.
pub open spec fn spec_eval_int(args: Seq<ValueV>) -> Result<ValueV, Seq<char>> {
    if args.len() == 0 {
        Err(rt_wrong_builtin_args_msg())
    } else {
        match args.last() {
            ValueV::Str(s) => match str_to_i32_v(s) {
                Some(v) => Ok(ValueV::Int(v)),
                None => Err(rt_int_parse_msg()),
            },
            ValueV::Bool(b) => Ok(
                ValueV::Int(
                    if b {
                        1
                    } else {
                        0
                    },
                ),
            ),
            _ => Err(rt_reserved_kind_msg()),
        }
    }
}

/// Parses a base-ten integer from a string, as the `int` builtin does.
#[verifier::loop_isolation(false)]
#[verifier::rlimit(30)]
fn parse_i32(s: &str) -> (r: Option<i32>)
    ensures
        r == str_to_i32_v(s@),
{
    let n = s.unicode_len();
    let mut start: usize = 0;
    let mut neg = false;
    if n > 0 {
        let c0 = s.get_char(0);
        if c0 == '-' {
            neg = true;
            start = 1;
        } else if c0 == '+' {
            start = 1;
        }
    }
    let ghost ds = num_digits(s@);
    proof {
        assert(ds =~= s@.skip(start as int));
        assert(ds.len() == n - start);
        assert(neg == num_is_negative(s@));
    }
    if start == n {
        proof {
            assert(ds.len() == 0);
            assert(str_to_i32_v(s@) is None);
        }
        return None;
    }
    // Accumulates the magnitude, saturating just above the largest
    // representable magnitude once the true value has left the range.
    let mut acc: u64 = 0;
    let mut i: usize = start;
    while i < n
        invariant
            start <= i <= n,
            n == s@.len(),
            ds =~= s@.skip(start as int),
            forall|j: int| 0 <= j < i - start ==> is_dec_digit(ds[j]),
            digits_val(ds.take(i - start)) >= 0,
            digits_val(ds.take(i - start)) <= 0x8000_0000 ==> acc == digits_val(
                ds.take(i - start),
            ),
            digits_val(ds.take(i - start)) > 0x8000_0000 ==> acc == 0x8000_0001u64,
        decreases n - i,
    {
        let c = s.get_char(i);
        let cv = c as u32;
        if cv < 48 || cv > 57 {
            proof {
                assert(0 <= i - start < ds.len());
                assert(!is_dec_digit(ds[i - start]));
                assert(!all_dec_digits(num_digits(s@)));
            }
            return None;
        }
        let d = (cv - 48) as u64;
        let ghost prev = ds.take(i - start);
        let ghost cur = ds.take(i + 1 - start);
        proof {
            assert(cur.drop_last() =~= prev);
            assert(cur.last() == ds[i - start]);
            assert(digits_val(cur) == digits_val(prev) * 10 + digit_val(ds[i - start]));
            lemma_digits_val_nonneg(cur);
        }
        acc = acc * 10 + d;
        if acc > 0x8000_0000u64 {
            acc = 0x8000_0001u64;
        }
        proof {
            if digits_val(prev) > 0x8000_0000 {
                assert(digits_val(cur) >= digits_val(prev)) by {
                    assert(digits_val(prev) * 10 >= digits_val(prev)) by {
                        assert(digits_val(prev) >= 0);
                    }
                }
            }
        }
        i += 1;
    }
    proof {
        assert(ds.take(n - start) =~= ds);
        assert(all_dec_digits(num_digits(s@)));
        lemma_digits_val_nonneg(ds);
        assert(digits_val(num_digits(s@)) == digits_val(ds.take(n - start)));
    }
    if neg {
        if acc > 0x8000_0000u64 {
            None
        } else if acc == 0x8000_0000u64 {
            Some(i32::MIN)
        } else {
            Some(-(acc as i32))
        }
    } else {
        if acc > 0x7FFF_FFFFu64 {
            None
        } else {
            Some(acc as i32)
        }
    }
}

/// The `int` builtin: parses a string in base ten, or maps the
/// booleans to one and zero. The I/O context is untouched.
pub fn eval_int(io: &mut crate::state::IoContext, args: Vec<ResolvedValue>) -> (r: Result<
    ResolvedValue,
    RuntimeError,
>)
    ensures
        final(io)@ == old(io)@,
        match r {
            Ok(v) => spec_eval_int(values_view(args@)) == Ok::<ValueV, Seq<char>>(v@),
            Err(e) => spec_eval_int(values_view(args@)) == Err::<ValueV, Seq<char>>(e@),
        },
{
    let mut args = args;
    let ghost args_v = values_view(args@);
    let value = match args.pop() {
        Some(v) => v,
        None => {
            return Err(
                RuntimeError::new(String::from_str("Builtin arguments have the wrong shape.")),
            );
        },
    };
    proof {
        assert(value@ == args_v.last());
    }
    match value {
        ResolvedValue::String(s) => match parse_i32(s.as_str()) {
            Some(v) => Ok(ResolvedValue::Int(v)),
            None => Err(
                RuntimeError::new(String::from_str("Cannot parse an integer from the string.")),
            ),
        },
        ResolvedValue::Bool(b) => {
            if b {
                Ok(ResolvedValue::Int(1))
            } else {
                Ok(ResolvedValue::Int(0))
            }
        },
        _ => Err(RuntimeError::new(String::from_str("This value kind is not supported here."))),
    }
}

} // verus!

verus! {

/// The line `print_line` writes for a value: booleans and integers in
/// their written forms, strings as they are, `Void` by name, and a
/// function by its type's written form; lists are not supported.
pub open spec fn print_form(v: ValueV) -> Result<Seq<char>, Seq<char>> {
    match v {
        ValueV::Bool(b) => Ok(
            if b {
                "true"@
            } else {
                "false"@
            },
        ),
        ValueV::Int(i) => Ok(i32_dec_v(i)),
        ValueV::Str(s) => Ok(s),
        ValueV::Void => Ok("Void"@),
        ValueV::Func(f) => Ok(
            crate::typing::type_display(
                crate::analyzer::spec::sig_of_pairs(f.params, ty_v(*f.block)),
            ),
        ),
        ValueV::List(_) => Err(rt_reserved_kind_msg()),
    }
}

/// The `print_line` builtin: writes its last argument's written form as
/// one line and yields `Void`.
pub fn eval_print_line(io: &mut crate::state::IoContext, args: Vec<ResolvedValue>) -> (r: Result<
    ResolvedValue,
    RuntimeError,
>)
    ensures
        final(io)@.input == old(io)@.input,
        match r {
            Ok(v) => {
                &&& values_view(args@).len() > 0
                &&& print_form(values_view(args@).last()) matches Ok(line)
                &&& final(io)@.output =~= old(io)@.output.push(line)
                &&& v@ == ValueV::Void
            },
            Err(e) => final(io)@.output == old(io)@.output && (values_view(args@).len() == 0
                ==> e@ == rt_wrong_builtin_args_msg()) && (values_view(args@).len() > 0
                ==> print_form(values_view(args@).last()) == Err::<Seq<char>, Seq<char>>(e@)),
        },
{
    let mut args = args;
    let ghost args_v = values_view(args@);
    let value = match args.pop() {
        Some(v) => v,
        None => {
            return Err(
                RuntimeError::new(String::from_str("Builtin arguments have the wrong shape.")),
            );
        },
    };
    proof {
        assert(value@ == args_v.last());
    }
    let message: String = match value {
        ResolvedValue::Bool(b) => {
            if b {
                String::from_str("true")
            } else {
                String::from_str("false")
            }
        },
        ResolvedValue::Int(i) => i32_to_decimal(i),
        ResolvedValue::String(s) => s,
        ResolvedValue::Void => String::from_str("Void"),
        ResolvedValue::Func(f) => {
            let ghost fv = typed_func_view(f);
            let ret = f.block.ty();
            let sig = crate::analyzer::signature_type(&f.params, ret);
            proof {
                assert(crate::typed_ast::typed_params_view(f.params@) =~= fv.params);
                assert(sig@ == crate::analyzer::spec::sig_of_pairs(fv.params, ty_v(*fv.block)));
            }
            sig.display_string()
        },
        ResolvedValue::List(_) => {
            return Err(
                RuntimeError::new(String::from_str("This value kind is not supported here.")),
            );
        },
    };
    match io.write_line(message.as_str()) {
        Ok(_) => Ok(ResolvedValue::Void),
        Err(e) => Err(e),
    }
}

} // verus!

verus! {

impl Clone for ResolvedValue {
    /// A structural copy; the copy has the same view as the original.
    fn clone(&self) -> (r: ResolvedValue)
        ensures
            r@ == self@,
        decreases self,
    {
        match self {
            ResolvedValue::Int(i) => ResolvedValue::Int(*i),
            ResolvedValue::String(s) => ResolvedValue::String(crate::typing::clone_string(s)),
            ResolvedValue::Bool(b) => ResolvedValue::Bool(*b),
            ResolvedValue::Void => ResolvedValue::Void,
            ResolvedValue::Func(f) => ResolvedValue::Func(f.clone()),
            ResolvedValue::List(items) => {
                let n = items.len();
                let mut out: Vec<ResolvedValue> = Vec::new();
                let mut i: usize = 0;
                while i < n
                    invariant
                        self matches ResolvedValue::List(x) && x == items,
                        n == items@.len(),
                        i <= n,
                        out@.len() == i,
                        forall|j: int|
                            0 <= j < i ==> value_view(out@[j]) == value_view(items@[j]),
                    decreases n - i,
                {
                    proof {
                        vstd::std_specs::vec::axiom_vec_index_decreases(*items, i as int);
                    }
                    out.push(items[i].clone());
                    i += 1;
                }
                let result = ResolvedValue::List(out);
                proof {
                    assert(result@->List_0 =~= self@->List_0);
                }
                result
            },
        }
    }
}

} // verus!
