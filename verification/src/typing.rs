use vstd::prelude::*;

verus! {

broadcast use
    vstd::seq::axiom_seq_index_decreases,
    vstd::std_specs::vec::axiom_vec_index_decreases,
    vstd::std_specs::vec::axiom_vec_decreases_to_view;

/// Mathematical model of a language type: the same tree as `Type`,
/// with sequences in place of vectors.
pub enum TypeV {
    Any,
    Bool,
    Int,
    Float,
    Func(Seq<TypeV>),
    List(Box<TypeV>),
    Str,
    Void,
}

/// A language type. `Func` holds the parameter types followed by the
/// return type; `List` holds the element type. Equality is structural.
#[derive(Debug)]
pub enum Type {
    Any,
    Bool,
    Int,
    Float,
    Func(Vec<Type>),
    List(Box<Type>),
    Str,
    Void,
}

pub open spec fn type_view(t: Type) -> TypeV
    decreases t,
{
    match t {
        Type::Any => TypeV::Any,
        Type::Bool => TypeV::Bool,
        Type::Int => TypeV::Int,
        Type::Float => TypeV::Float,
        Type::Func(ts) => TypeV::Func(
            Seq::new(
                ts@.len(),
                |i: int|
                    if 0 <= i < ts@.len() {
                        type_view(ts@[i])
                    } else {
                        TypeV::Void
                    },
            ),
        ),
        Type::List(t0) => TypeV::List(Box::new(type_view(*t0))),
        Type::Str => TypeV::Str,
        Type::Void => TypeV::Void,
    }
}

impl View for Type {
    type V = TypeV;

    open spec fn view(&self) -> TypeV {
        type_view(*self)
    }
}

impl Type {
    /// Structural equality of two types.
    pub fn type_eq(&self, other: &Type) -> (r: bool)
        ensures
            r == (self@ == other@),
        decreases self,
    {
        match (self, other) {
            (Type::Any, Type::Any) => true,
            (Type::Bool, Type::Bool) => true,
            (Type::Int, Type::Int) => true,
            (Type::Float, Type::Float) => true,
            (Type::Str, Type::Str) => true,
            (Type::Void, Type::Void) => true,
            (Type::List(a), Type::List(b)) => a.type_eq(b),
            (Type::Func(ts_a), Type::Func(ts_b)) => {
                if ts_a.len() != ts_b.len() {
                    assert(self@->Func_0.len() != other@->Func_0.len());
                    false
                } else {
                    let n = ts_a.len();
                    let mut i: usize = 0;
                    let mut all_eq = true;
                    while i < n
                        invariant
                            n == ts_a.len() == ts_b.len(),
                            i <= n,
                            self matches Type::Func(x) && x == ts_a,
                            other matches Type::Func(y) && y == ts_b,
                            all_eq == (forall|j: int|
                                0 <= j < i ==> type_view(ts_a@[j]) == type_view(ts_b@[j])),
                        decreases n - i,
                    {
                        if !ts_a[i].type_eq(&ts_b[i]) {
                            all_eq = false;
                        }
                        i += 1;
                    }
                    proof {
                        let sa = self@->Func_0;
                        let sb = other@->Func_0;
                        if all_eq {
                            assert(sa =~= sb);
                        } else {
                            assert(exists|j: int|
                                0 <= j < n && type_view(ts_a@[j]) != type_view(ts_b@[j]));
                            let j = choose|j: int|
                                0 <= j < n && type_view(ts_a@[j]) != type_view(ts_b@[j]);
                            assert(sa[j] != sb[j]);
                        }
                    }
                    all_eq
                }
            },
            _ => false,
        }
    }
}

impl Clone for Type {
    /// A structural copy; the copy has the same view as the original.
    fn clone(&self) -> (r: Type)
        ensures
            r@ == self@,
        decreases self,
    {
        match self {
            Type::Any => Type::Any,
            Type::Bool => Type::Bool,
            Type::Int => Type::Int,
            Type::Float => Type::Float,
            Type::Str => Type::Str,
            Type::Void => Type::Void,
            Type::List(t0) => Type::List(Box::new((**t0).clone())),
            Type::Func(ts) => {
                let n = ts.len();
                let mut out: Vec<Type> = Vec::new();
                let mut i: usize = 0;
                while i < n
                    invariant
                        n == ts.len(),
                        i <= n,
                        self matches Type::Func(x) && x == ts,
                        out@.len() == i,
                        forall|j: int| 0 <= j < i ==> type_view(out@[j]) == type_view(ts@[j]),
                    decreases n - i,
                {
                    out.push(ts[i].clone());
                    i += 1;
                }
                let result = Type::Func(out);
                proof {
                    assert(result@->Func_0 =~= self@->Func_0);
                }
                result
            },
        }
    }
}

/// Mathematical model of a type-scope binding.
pub enum TypeBindingV {
    Atomic(TypeV),
    Applied { arity: usize },
}

/// What a type name is bound to in the type scope: a concrete type, or a
/// type constructor of fixed arity (`Func`, `List`).
#[derive(Debug)]
pub enum TypeBinding {
    Atomic(Type),
    Applied { arity: usize },
}

impl Clone for TypeBinding {
    /// A structural copy; the copy has the same view as the original.
    fn clone(&self) -> (r: TypeBinding)
        ensures
            r@ == self@,
    {
        match self {
            TypeBinding::Atomic(t) => TypeBinding::Atomic(t.clone()),
            TypeBinding::Applied { arity } => TypeBinding::Applied { arity: *arity },
        }
    }
}

impl View for TypeBinding {
    type V = TypeBindingV;

    open spec fn view(&self) -> TypeBindingV {
        match *self {
            TypeBinding::Atomic(t) => TypeBindingV::Atomic(type_view(t)),
            TypeBinding::Applied { arity } => TypeBindingV::Applied { arity },
        }
    }
}

/// Mathematical model of a syntactic type expression.
pub enum ProtoTypeV {
    Atomic(Seq<char>),
    Applied(Seq<char>, Seq<ProtoTypeV>),
}

/// A syntactic type expression as the parser hands it over: a bare name,
/// or a name applied to type arguments. Resolved against the type scope.
#[derive(Debug)]
pub enum ProtoType {
    Atomic(String),
    Applied(String, Vec<ProtoType>),
}

pub open spec fn proto_type_view(p: ProtoType) -> ProtoTypeV
    decreases p,
{
    match p {
        ProtoType::Atomic(name) => ProtoTypeV::Atomic(name@),
        ProtoType::Applied(name, args) => ProtoTypeV::Applied(
            name@,
            Seq::new(
                args@.len(),
                |i: int|
                    if 0 <= i < args@.len() {
                        proto_type_view(args@[i])
                    } else {
                        ProtoTypeV::Atomic(Seq::empty())
                    },
            ),
        ),
    }
}

impl View for ProtoType {
    type V = ProtoTypeV;

    open spec fn view(&self) -> ProtoTypeV {
        proto_type_view(*self)
    }
}

impl Clone for ProtoType {
    /// A structural copy; the copy has the same view as the original.
    fn clone(&self) -> (r: ProtoType)
        ensures
            r@ == self@,
        decreases self,
    {
        match self {
            ProtoType::Atomic(name) => ProtoType::Atomic(clone_string(name)),
            ProtoType::Applied(name, args) => {
                let n = args.len();
                let mut out: Vec<ProtoType> = Vec::new();
                let mut i: usize = 0;
                while i < n
                    invariant
                        n == args.len(),
                        i <= n,
                        self matches ProtoType::Applied(x, y) && y == args,
                        out@.len() == i,
                        forall|j: int|
                            0 <= j < i ==> proto_type_view(out@[j]) == proto_type_view(args@[j]),
                    decreases n - i,
                {
                    out.push(args[i].clone());
                    i += 1;
                }
                let result = ProtoType::Applied(clone_string(name), out);
                proof {
                    assert(result@->Applied_1 =~= self@->Applied_1);
                }
                result
            },
        }
    }
}

/// A copy of a string with the same characters.
pub fn clone_string(s: &String) -> (r: String)
    ensures
        r@ == s@,
{
    s.clone()
}

/// Character-for-character equality of two string slices.
pub fn str_eq(a: &str, b: &str) -> (r: bool)
    ensures
        r == (a@ == b@),
{
    let sa = a.to_owned();
    let sb = b.to_owned();
    sa.eq(&sb)
}

} // verus!

verus! {

/// The type a bare type name denotes, if any: the five primitive names,
/// and `Func` for an (empty) function type.
pub open spec fn type_from_str_v(s: Seq<char>) -> Option<TypeV> {
    if s == "Int"@ {
        Some(TypeV::Int)
    } else if s == "Float"@ {
        Some(TypeV::Float)
    } else if s == "String"@ {
        Some(TypeV::Str)
    } else if s == "Bool"@ {
        Some(TypeV::Bool)
    } else if s == "Void"@ {
        Some(TypeV::Void)
    } else if s == "Func"@ {
        Some(TypeV::Func(Seq::empty()))
    } else {
        None
    }
}

impl Type {
    /// The type a bare type name denotes; an unknown name is reported as
    /// an unresolved binding.
    pub fn from_str(s: &str) -> (r: Result<Type, crate::errors::TypeError>)
        ensures
            match r {
                Ok(t) => type_from_str_v(s@) == Some(t@),
                Err(e) => type_from_str_v(s@) is None && e@
                    == crate::errors::TypeErrorV::ScopeBindingNotFound(s@),
            },
    {
        if str_eq(s, "Int") {
            Ok(Type::Int)
        } else if str_eq(s, "Float") {
            Ok(Type::Float)
        } else if str_eq(s, "String") {
            Ok(Type::Str)
        } else if str_eq(s, "Bool") {
            Ok(Type::Bool)
        } else if str_eq(s, "Void") {
            Ok(Type::Void)
        } else if str_eq(s, "Func") {
            let result = Type::Func(Vec::new());
            proof {
                assert(result@->Func_0 =~= Seq::<TypeV>::empty());
            }
            Ok(result)
        } else {
            Err(crate::errors::TypeError::ScopeBindingNotFound(s.to_owned()))
        }
    }
}

} // verus!

verus! {

/// The canonical written form of a type: `String` for the string type,
/// `Func<T1, ..., Tn>` and `List<T>` for the constructors, the name
/// itself otherwise.
pub open spec fn type_display(t: TypeV) -> Seq<char>
    decreases t, 1int,
{
    match t {
        TypeV::Any => "Any"@,
        TypeV::Bool => "Bool"@,
        TypeV::Int => "Int"@,
        TypeV::Float => "Float"@,
        TypeV::Str => "String"@,
        TypeV::Void => "Void"@,
        TypeV::Func(ts) => "Func<"@ + join_type_displays(ts) + ">"@,
        TypeV::List(inner) => "List<"@ + type_display(*inner) + ">"@,
    }
}

/// The written forms of the types, separated by comma and space.
pub open spec fn join_type_displays(ts: Seq<TypeV>) -> Seq<char>
    decreases ts, 0int,
{
    if ts.len() == 0 {
        Seq::empty()
    } else if ts.len() == 1 {
        type_display(ts.first())
    } else {
        type_display(ts.first()) + ", "@ + join_type_displays(ts.drop_first())
    }
}

impl Type {
    /// Renders this type in its canonical written form.
    #[verifier::loop_isolation(false)]
    pub fn display_string(&self) -> (r: String)
        ensures
            r@ == type_display(self@),
        decreases self, 1int,
    {
        match self {
            Type::Any => String::from_str("Any"),
            Type::Bool => String::from_str("Bool"),
            Type::Int => String::from_str("Int"),
            Type::Float => String::from_str("Float"),
            Type::Str => String::from_str("String"),
            Type::Void => String::from_str("Void"),
            Type::List(inner) => {
                let s = String::from_str("List<").concat(inner.display_string().as_str()).concat(
                    ">",
                );
                s
            },
            Type::Func(ts) => {
                let mut s = String::from_str("Func<");
                let ghost all = crate::errors::types_view(ts@);
                proof {
                    assert(all =~= self@->Func_0);
                    assert(all.skip(0) =~= all);
                }
                let n = ts.len();
                let mut i: usize = 0;
                while i < n
                    invariant
                        n == ts@.len(),
                        i <= n,
                        all == crate::errors::types_view(ts@),
                        self matches Type::Func(x) && x == ts,
                        s@ + (if i == 0 {
                            join_type_displays(all)
                        } else if i < n {
                            ", "@ + join_type_displays(all.skip(i as int))
                        } else {
                            Seq::<char>::empty()
                        }) =~= "Func<"@ + join_type_displays(all),
                    decreases n - i,
                {
                    let ghost remaining = all.skip(i as int);
                    proof {
                        assert(remaining.first() == type_view(ts@[i as int]));
                        assert(remaining.drop_first() =~= all.skip(i + 1));
                        vstd::std_specs::vec::axiom_vec_index_decreases(*ts, i as int);
                    }
                    if i > 0 {
                        s = s.concat(", ");
                    }
                    let part = ts[i].display_string();
                    s = s.concat(part.as_str());
                    i += 1;
                }
                let out = s.concat(">");
                proof {
                    if n == 0 {
                        assert(join_type_displays(all) =~= Seq::<char>::empty());
                    }
                    assert(out@ =~= "Func<"@ + join_type_displays(all) + ">"@);
                }
                out
            },
        }
    }
}

} // verus!
