use vstd::prelude::*;

verus! {

/// Why a scope operation was refused: the name is absent, or it is
/// already bound in the innermost scope.
#[derive(Debug)]
pub enum ScopeError {
    NotFound,
    AlreadyExists,
}

/// One binding: whether it may be reassigned, and the bound value.
pub struct ScopeEntry<T> {
    pub is_mutable: bool,
    pub value: T,
}

impl<T: View> View for ScopeEntry<T> {
    type V = (bool, T::V);

    open spec fn view(&self) -> (bool, T::V) {
        (self.is_mutable, self.value@)
    }
}

/// The abstract content of a list of keyed entries, as a map. Later
/// entries win, but a well-formed scope never repeats a key.
pub open spec fn entries_map<T: View>(s: Seq<(String, T)>) -> Map<Seq<char>, T::V>
    decreases s.len(),
{
    if s.len() == 0 {
        Map::empty()
    } else {
        entries_map(s.drop_last()).insert(s.last().0@, s.last().1@)
    }
}

/// A single lexical scope: a mapping from identifier to `T`.
pub struct Scope<T> {
    entries: Vec<(String, T)>,
}

impl<T: View> View for Scope<T> {
    type V = Map<Seq<char>, T::V>;

    closed spec fn view(&self) -> Map<Seq<char>, T::V> {
        entries_map(self.entries@)
    }
}

proof fn lemma_entries_map_properties<T: View>(s: Seq<(String, T)>)
    ensures
        forall|name: Seq<char>|
            #[trigger] entries_map(s).contains_key(name) <==> exists|i: int|
                0 <= i < s.len() && s[i].0@ == name,
    decreases s.len(),
{
    if s.len() > 0 {
        lemma_entries_map_properties(s.drop_last());
        assert forall|name: Seq<char>| #[trigger]
            entries_map(s).contains_key(name) implies exists|i: int|
            0 <= i < s.len() && s[i].0@ == name by {
            if s.last().0@ != name {
                assert(entries_map(s.drop_last()).contains_key(name));
                let i = choose|i: int|
                    0 <= i < s.drop_last().len() && s.drop_last()[i].0@ == name;
                assert(s.drop_last()[i] == s[i]);
            } else {
                assert(s[s.len() - 1].0@ == name);
            }
        }
        assert forall|name: Seq<char>|
            (exists|i: int| 0 <= i < s.len() && s[i].0@ == name) implies #[trigger] entries_map(
            s,
        ).contains_key(name) by {
            let i = choose|i: int| 0 <= i < s.len() && s[i].0@ == name;
            if i < s.len() - 1 {
                assert(s.drop_last()[i].0@ == name);
                assert(entries_map(s.drop_last()).contains_key(name));
            }
        }
    }
}

/// In a scope without repeated keys, the entry at any index gives the
/// map's value for its key.
proof fn lemma_entries_map_index<T: View>(s: Seq<(String, T)>, i: int)
    requires
        forall|j: int, k: int| 0 <= j < k < s.len() ==> s[j].0@ != s[k].0@,
        0 <= i < s.len(),
    ensures
        entries_map(s).contains_key(s[i].0@),
        entries_map(s)[s[i].0@] == s[i].1@,
    decreases s.len(),
{
    lemma_entries_map_properties(s);
    if i < s.len() - 1 {
        assert(s.last().0@ != s[i].0@);
        assert(s.drop_last()[i] == s[i]);
        lemma_entries_map_index(s.drop_last(), i);
    }
}

impl<T: View> Scope<T> {
    /// No key occurs twice.
    pub closed spec fn wf(&self) -> bool {
        forall|j: int, k: int|
            0 <= j < k < self.entries@.len() ==> self.entries@[j].0@ != self.entries@[k].0@
    }

    /// A fresh, empty scope.
    pub fn new() -> (r: Scope<T>)
        ensures
            r@ == Map::<Seq<char>, T::V>::empty(),
            r.wf(),
    {
        Scope { entries: Vec::new() }
    }

    /// The value bound to `ident`, if any.
    pub fn get(&self, ident: &String) -> (r: Option<&T>)
        requires
            self.wf(),
        ensures
            match r {
                Some(v) => self@.contains_key(ident@) && v@ == self@[ident@],
                None => !self@.contains_key(ident@),
            },
    {
        proof {
            lemma_entries_map_properties(self.entries@);
        }
        let n = self.entries.len();
        let mut i: usize = 0;
        while i < n
            invariant
                self.wf(),
                n == self.entries@.len(),
                i <= n,
                forall|j: int| 0 <= j < i ==> self.entries@[j].0@ != ident@,
            decreases n - i,
        {
            if self.entries[i].0.eq(ident) {
                proof {
                    lemma_entries_map_index(self.entries@, i as int);
                }
                return Some(&self.entries[i].1);
            }
            i += 1;
        }
        proof {
            lemma_entries_map_properties(self.entries@);
        }
        None
    }

    /// Binds `ident` to `value`, replacing any earlier binding.
    pub fn insert(&mut self, ident: String, value: T)
        requires
            old(self).wf(),
        ensures
            final(self).wf(),
            final(self)@ == old(self)@.insert(ident@, value@),
    {
        proof {
            lemma_entries_map_properties(self.entries@);
        }
        let n = self.entries.len();
        let mut i: usize = 0;
        while i < n
            invariant
                self == old(self),
                self.wf(),
                n == self.entries@.len(),
                i <= n,
                forall|j: int| 0 <= j < i ==> self.entries@[j].0@ != ident@,
            decreases n - i,
        {
            if self.entries[i].0.eq(&ident) {
                let ghost old_entries = self.entries@;
                self.entries.set(i, (ident, value));
                proof {
                    lemma_replace_at_key(old_entries, self.entries@, i as int);
                    assert(old_entries[i as int].0@ == ident@);
                    assert(self.entries@[i as int].1@ == value@);
                    assert(entries_map(self.entries@) =~= entries_map(old_entries).insert(
                        ident@,
                        value@,
                    ));
                    assert(old_entries == old(self).entries@);
                    assert(self@ == old(self)@.insert(ident@, value@));
                }
                return ;
            }
            i += 1;
        }
        let ghost old_entries = self.entries@;
        self.entries.push((ident, value));
        proof {
            assert(self.entries@.drop_last() =~= old_entries);
            assert(self.entries@.last().0@ == ident@);
            assert(self.entries@.last().1@ == value@);
            assert(entries_map(self.entries@) == entries_map(old_entries).insert(ident@, value@));
            assert forall|j: int, k: int|
                0 <= j < k < self.entries@.len() implies self.entries@[j].0@
                != self.entries@[k].0@ by {
                if k == self.entries@.len() - 1 {
                    assert(old_entries[j].0@ != ident@);
                } else {
                    assert(old_entries[j].0@ != old_entries[k].0@);
                }
            }
        }
    }
}

/// Mathematical model of a scope stack: the current stack of scopes
/// (innermost last) and the stack parked aside by a non-closure call.
pub struct ScopeStackV<V> {
    pub current: Seq<Map<Seq<char>, (bool, V)>>,
    pub previous: Option<Seq<Map<Seq<char>, (bool, V)>>>,
}

/// Innermost-out search of a stack of scopes.
pub open spec fn stack_lookup_v<V>(stack: Seq<Map<Seq<char>, (bool, V)>>, name: Seq<char>) -> Option<
    (bool, V),
>
    decreases stack.len(),
{
    if stack.len() == 0 {
        None
    } else if stack.last().contains_key(name) {
        Some(stack.last()[name])
    } else {
        stack_lookup_v(stack.drop_last(), name)
    }
}

/// Binding `name` in the innermost scope. `None` when that scope already
/// binds it; an empty stack first regains one empty scope.
pub open spec fn stack_insert_v<V>(
    stack: Seq<Map<Seq<char>, (bool, V)>>,
    name: Seq<char>,
    entry: (bool, V),
) -> Option<Seq<Map<Seq<char>, (bool, V)>>> {
    let grown = if stack.len() == 0 {
        stack.push(Map::empty())
    } else {
        stack
    };
    if grown.last().contains_key(name) {
        None
    } else {
        Some(grown.drop_last().push(grown.last().insert(name, entry)))
    }
}

/// Innermost-out replacement of the value of the first binding of `name`;
/// its mutability flag is kept. `None` when no scope binds `name`.
pub open spec fn stack_mutate_v<V>(
    stack: Seq<Map<Seq<char>, (bool, V)>>,
    name: Seq<char>,
    value: V,
) -> Option<Seq<Map<Seq<char>, (bool, V)>>>
    decreases stack.len(),
{
    if stack.len() == 0 {
        None
    } else if stack.last().contains_key(name) {
        Some(stack.drop_last().push(stack.last().insert(name, (stack.last()[name].0, value))))
    } else {
        match stack_mutate_v(stack.drop_last(), name, value) {
            Some(s) => Some(s.push(stack.last())),
            None => None,
        }
    }
}

/// A stack of lexical scopes with two regimes: block nesting through
/// `push_scope`/`pop_scope`, and frame isolation for non-closure calls
/// through `create_new_stack`/`restore_previous_stack`.
pub struct ScopeStack<T> {
    current: Vec<Scope<ScopeEntry<T>>>,
    previous: Option<Vec<Scope<ScopeEntry<T>>>>,
}

pub open spec fn scopes_view<T: View>(v: Seq<Scope<ScopeEntry<T>>>) -> Seq<
    Map<Seq<char>, (bool, T::V)>,
> {
    Seq::new(
        v.len(),
        |i: int|
            if 0 <= i < v.len() {
                v[i]@
            } else {
                Map::empty()
            },
    )
}

impl<T: View> View for ScopeStack<T> {
    type V = ScopeStackV<T::V>;

    closed spec fn view(&self) -> ScopeStackV<T::V> {
        ScopeStackV {
            current: scopes_view(self.current@),
            previous: match self.previous {
                Some(prev) => Some(scopes_view(prev@)),
                None => None,
            },
        }
    }
}

impl<T: View> ScopeStack<T> {
    pub closed spec fn wf(&self) -> bool {
        &&& forall|i: int| 0 <= i < self.current@.len() ==> (#[trigger] self.current@[i]).wf()
        &&& match self.previous {
            Some(prev) => forall|i: int| 0 <= i < prev@.len() ==> (#[trigger] prev@[i]).wf(),
            None => true,
        }
    }

    /// A stack with one empty innermost scope and no saved stack.
    pub fn new() -> (r: ScopeStack<T>)
        ensures
            r.wf(),
            r@.current =~= seq![Map::<Seq<char>, (bool, T::V)>::empty()],
            r@.previous is None,
    {
        let mut current: Vec<Scope<ScopeEntry<T>>> = Vec::new();
        current.push(Scope::new());
        ScopeStack { current, previous: None }
    }

    /// Opens a nested scope; every enclosing binding stays visible.
    pub fn push_scope(&mut self)
        requires
            old(self).wf(),
        ensures
            final(self).wf(),
            final(self)@.current =~= old(self)@.current.push(
                Map::<Seq<char>, (bool, T::V)>::empty(),
            ),
            final(self)@.previous == old(self)@.previous,
    {
        self.current.push(Scope::new());
    }

    /// Closes the innermost scope, destroying its bindings. Does nothing
    /// on an empty stack.
    pub fn pop_scope(&mut self)
        requires
            old(self).wf(),
        ensures
            final(self).wf(),
            final(self)@.current =~= if old(self)@.current.len() > 0 {
                old(self)@.current.drop_last()
            } else {
                old(self)@.current
            },
            final(self)@.previous == old(self)@.previous,
    {
        let popped = self.current.pop();
        proof {
            if old(self).current@.len() > 0 {
                assert(final(self)@.current =~= old(self)@.current.drop_last());
            }
        }
    }

    /// Parks the current stack aside and starts a fresh one with a single
    /// empty scope: a non-closure callee must not see the caller's
    /// bindings.
    pub fn create_new_stack(&mut self)
        requires
            old(self).wf(),
        ensures
            final(self).wf(),
            final(self)@.current =~= seq![Map::<Seq<char>, (bool, T::V)>::empty()],
            final(self)@.previous == Some(old(self)@.current),
    {
        let mut fresh: Vec<Scope<ScopeEntry<T>>> = Vec::new();
        fresh.push(Scope::new());
        core::mem::swap(&mut self.current, &mut fresh);
        self.previous = Some(fresh);
    }

    /// Reinstates the stack parked by `create_new_stack`. Does nothing
    /// when no stack is parked.
    pub fn restore_previous_stack(&mut self)
        requires
            old(self).wf(),
        ensures
            final(self).wf(),
            match old(self)@.previous {
                Some(prev) => final(self)@.current == prev && final(self)@.previous is None,
                None => final(self)@ == old(self)@,
            },
    {
        if let Some(prev) = self.previous.take() {
            self.current = prev;
        }
    }

    /// Innermost-out search of the current stack only; the parked stack is
    /// never consulted.
    pub fn lookup(&self, ident: &String) -> (r: Result<&ScopeEntry<T>, ScopeError>)
        requires
            self.wf(),
        ensures
            match r {
                Ok(entry) => stack_lookup_v(self@.current, ident@) == Some(entry@),
                Err(e) => e == ScopeError::NotFound && stack_lookup_v(
                    self@.current,
                    ident@,
                ) is None,
            },
    {
        let n = self.current.len();
        proof {
            assert(self@.current.subrange(0, n as int) =~= self@.current);
        }
        let mut rem: usize = n;
        while rem > 0
            invariant
                self.wf(),
                n == self.current@.len(),
                rem <= n,
                stack_lookup_v(self@.current, ident@) == stack_lookup_v(
                    self@.current.subrange(0, rem as int),
                    ident@,
                ),
            decreases rem,
        {
            let ghost pre = self@.current.subrange(0, rem as int);
            if let Some(entry) = self.current[rem - 1].get(ident) {
                proof {
                    assert(pre.last() == self@.current[rem - 1]);
                }
                return Ok(entry);
            }
            proof {
                assert(pre.last() == self@.current[rem - 1]);
                assert(pre.drop_last() =~= self@.current.subrange(0, rem - 1));
            }
            rem -= 1;
        }
        proof {
            assert(self@.current.subrange(0, 0) =~= Seq::<Map<Seq<char>, (bool, T::V)>>::empty());
        }
        Err(ScopeError::NotFound)
    }

    /// Binds `ident` in the innermost scope; refused when that scope
    /// already binds it. Shadowing across nested scopes is permitted. An
    /// empty stack first regains one empty scope.
    pub fn insert(&mut self, ident: String, is_mutable: bool, value: T) -> (r: Result<
        (),
        ScopeError,
    >)
        requires
            old(self).wf(),
        ensures
            final(self).wf(),
            final(self)@.previous == old(self)@.previous,
            match r {
                Ok(_) => stack_insert_v(old(self)@.current, ident@, (is_mutable, value@)) matches
                    Some(s) && final(self)@.current =~= s,
                Err(e) => e == ScopeError::AlreadyExists && stack_insert_v(
                    old(self)@.current,
                    ident@,
                    (is_mutable, value@),
                ) is None && final(self)@ == old(self)@,
            },
    {
        if self.current.len() == 0 {
            self.current.push(Scope::new());
            proof {
                assert(self@.current =~= old(self)@.current.push(
                    Map::<Seq<char>, (bool, T::V)>::empty(),
                ));
            }
        }
        let ghost grown = self@.current;
        let idx = self.current.len() - 1;
        let exists_already = self.current[idx].get(&ident).is_some();
        if exists_already {
            proof {
                assert(grown =~= old(self)@.current);
            }
            return Err(ScopeError::AlreadyExists);
        }
        let mut innermost = self.current.remove(idx);
        innermost.insert(ident, ScopeEntry { is_mutable, value });
        self.current.push(innermost);
        proof {
            assert(grown.subrange(0, idx as int) =~= grown.drop_last());
            assert(final(self)@.current =~= grown.drop_last().push(
                grown.last().insert(ident@, (is_mutable, value@)),
            ));
        }
        Ok(())
    }

    /// Innermost-out search; replaces the value of the first binding of
    /// `ident`, keeping its mutability flag. The caller pre-verifies
    /// mutability.
    pub fn mutate(&mut self, ident: &String, value: T) -> (r: Result<(), ScopeError>)
        requires
            old(self).wf(),
        ensures
            final(self).wf(),
            final(self)@.previous == old(self)@.previous,
            match r {
                Ok(_) => {
                    &&& stack_mutate_v(old(self)@.current, ident@, value@) matches Some(s)
                    &&& final(self)@.current =~= stack_mutate_v(
                        old(self)@.current,
                        ident@,
                        value@,
                    )->Some_0
                },
                Err(e) => e == ScopeError::NotFound && stack_mutate_v(
                    old(self)@.current,
                    ident@,
                    value@,
                ) is None && final(self)@ == old(self)@,
            },
    {
        let n = self.current.len();
        proof {
            assert(self@.current.subrange(0, n as int) =~= self@.current);
            assert(self@.current.subrange(n as int, n as int) =~= Seq::<
                Map<Seq<char>, (bool, T::V)>,
            >::empty());
            if stack_mutate_v(self@.current, ident@, value@) is Some {
                assert(stack_mutate_v(self@.current, ident@, value@)->Some_0 + Seq::<
                    Map<Seq<char>, (bool, T::V)>,
                >::empty() =~= stack_mutate_v(self@.current, ident@, value@)->Some_0);
            }
        }
        let mut rem: usize = n;
        while rem > 0
            invariant
                self == old(self),
                self.wf(),
                n == self.current@.len(),
                rem <= n,
                stack_mutate_v(self@.current, ident@, value@) == match stack_mutate_v(
                    self@.current.subrange(0, rem as int),
                    ident@,
                    value@,
                ) {
                    Some(s) => Some(s + self@.current.subrange(rem as int, n as int)),
                    None => None::<Seq<Map<Seq<char>, (bool, T::V)>>>,
                },
            decreases rem,
        {
            let ghost pre = self@.current.subrange(0, rem as int);
            let ghost suf = self@.current.subrange(rem as int, n as int);
            let idx = rem - 1;
            let found = match self.current[idx].get(ident) {
                Some(entry) => Some(entry.is_mutable),
                None => None,
            };
            if let Some(is_mutable) = found {
                let mut sc = self.current.remove(idx);
                sc.insert(clone_ident(ident), ScopeEntry { is_mutable, value });
                self.current.insert(idx, sc);
                proof {
                    assert(pre.last() == old(self)@.current[idx as int]);
                    assert(pre.drop_last() =~= old(self)@.current.subrange(0, idx as int));
                    let mutated = pre.drop_last().push(
                        pre.last().insert(ident@, (is_mutable, value@)),
                    );
                    assert(stack_mutate_v(pre, ident@, value@) == Some(mutated));
                    assert(final(self)@.current =~= mutated + suf);
                }
                return Ok(());
            }
            proof {
                assert(pre.last() == self@.current[idx as int]);
                assert(pre.drop_last() =~= self@.current.subrange(0, idx as int));
                if stack_mutate_v(pre.drop_last(), ident@, value@) is Some {
                    assert(stack_mutate_v(pre.drop_last(), ident@, value@)->Some_0.push(pre.last())
                        + suf =~= stack_mutate_v(pre.drop_last(), ident@, value@)->Some_0 + (
                    self@.current.subrange(idx as int, n as int)));
                }
            }
            rem -= 1;
        }
        proof {
            assert(self@.current.subrange(0, 0) =~= Seq::<Map<Seq<char>, (bool, T::V)>>::empty());
        }
        Err(ScopeError::NotFound)
    }
}

/// A copy of an identifier with the same characters.
fn clone_ident(s: &String) -> (r: String)
    ensures
        r@ == s@,
{
    s.clone()
}

/// Entering a non-closure frame hides every caller binding: no name
/// resolves in a freshly created stack.
pub proof fn lemma_fresh_stack_hides_callers<V>(name: Seq<char>)
    ensures
        stack_lookup_v(seq![Map::<Seq<char>, (bool, V)>::empty()], name) is None,
{
    let stack = seq![Map::<Seq<char>, (bool, V)>::empty()];
    assert(stack.drop_last() =~= Seq::<Map<Seq<char>, (bool, V)>>::empty());
    assert(stack_lookup_v(Seq::<Map<Seq<char>, (bool, V)>>::empty(), name) is None);
    assert(!stack.last().contains_key(name));
}

/// Entering a closure frame keeps every enclosing binding visible: a
/// lookup after `push_scope` resolves exactly as before.
pub proof fn lemma_push_scope_preserves_lookup<V>(
    stack: Seq<Map<Seq<char>, (bool, V)>>,
    name: Seq<char>,
)
    ensures
        stack_lookup_v(stack.push(Map::empty()), name) == stack_lookup_v(stack, name),
{
    let pushed = stack.push(Map::<Seq<char>, (bool, V)>::empty());
    assert(pushed.drop_last() =~= stack);
}

/// Replacing the entry that holds a key rebinds exactly that key.
proof fn lemma_replace_at_key<T: View>(s1: Seq<(String, T)>, s2: Seq<(String, T)>, i: int)
    requires
        forall|j: int, k: int| 0 <= j < k < s1.len() ==> s1[j].0@ != s1[k].0@,
        0 <= i < s1.len(),
        s2.len() == s1.len(),
        forall|j: int| 0 <= j < s1.len() && j != i ==> s2[j] == s1[j],
        s2[i].0@ == s1[i].0@,
    ensures
        entries_map(s2) =~= entries_map(s1).insert(s1[i].0@, s2[i].1@),
        forall|j: int, k: int| 0 <= j < k < s2.len() ==> s2[j].0@ != s2[k].0@,
    decreases s1.len(),
{
    lemma_entries_map_properties(s1);
    lemma_entries_map_properties(s2);
    assert forall|j: int, k: int| 0 <= j < k < s2.len() implies s2[j].0@ != s2[k].0@ by {
        assert(s1[j].0@ != s1[k].0@);
    }
    assert forall|name: Seq<char>| #[trigger]
        entries_map(s2).contains_key(name) implies entries_map(s1).insert(
        s1[i].0@,
        s2[i].1@,
    ).contains_key(name) && entries_map(s2)[name] == entries_map(s1).insert(
        s1[i].0@,
        s2[i].1@,
    )[name] by {
        let j = choose|j: int| 0 <= j < s2.len() && s2[j].0@ == name;
        lemma_entries_map_index(s2, j);
        if j != i {
            lemma_entries_map_index(s1, j);
            assert(s1[j].0@ != s1[i].0@);
        }
    }
    assert forall|name: Seq<char>|
        entries_map(s1).insert(s1[i].0@, s2[i].1@).contains_key(name) implies entries_map(
        s2,
    ).contains_key(name) by {
        if name == s1[i].0@ {
            assert(s2[i].0@ == name);
        } else {
            let j = choose|j: int| 0 <= j < s1.len() && s1[j].0@ == name;
            assert(s2[j].0@ == name);
        }
    }
}

} // verus!
