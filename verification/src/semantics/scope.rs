//! The checker and what it keeps track of: the variables in scope and the
//! functions that can be called.

use vstd::prelude::*;
use crate::semantics::query::{FunctionQuery, keys_view};
use crate::typed_absy::identifier::{CoreIdentifier, Identifier, IdentifierView};
use crate::typed_absy::types::{FunctionKey, FunctionKeyView, same_key};
use crate::typed_absy::variable::{Variable, VariableView};

verus! {

/// A variable together with the level of the scope it was declared in, so
/// that it can leave when that scope ends.
#[derive(Debug)]
pub struct ScopedVariable {
    pub id: Variable,
    pub level: usize,
}

pub struct ScopedVariableView {
    pub id: VariableView,
    pub level: nat,
}

impl View for ScopedVariable {
    type V = ScopedVariableView;

    open spec fn view(&self) -> ScopedVariableView {
        ScopedVariableView { id: self.id@, level: self.level as nat }
    }
}

/// The checker: the variables in scope, the functions that can be called,
/// and the level of the scope at hand.
#[derive(Debug)]
pub struct Checker {
    pub scope: Vec<ScopedVariable>,
    pub functions: Vec<FunctionKey>,
    pub level: usize,
}

pub struct CheckerView {
    pub scope: Seq<ScopedVariableView>,
    pub functions: Seq<FunctionKeyView>,
    pub level: nat,
}

/// The views of the variables in scope.
pub open spec fn scope_view(scope: Seq<ScopedVariable>) -> Seq<ScopedVariableView> {
    Seq::new(scope.len(), |i: int| scope[i]@)
}

impl View for Checker {
    type V = CheckerView;

    open spec fn view(&self) -> CheckerView {
        CheckerView {
            scope: scope_view(self.scope@),
            functions: keys_view(self.functions@),
            level: self.level as nat,
        }
    }
}

/// The position of the first variable in scope with the identifier `id`, or
/// the number of variables in scope if there is none.
pub open spec fn scope_position(scope: Seq<ScopedVariableView>, id: IdentifierView) -> int
    decreases scope.len(),
{
    if scope.len() == 0 {
        0
    } else if scope[0].id.id == id {
        0
    } else {
        1 + scope_position(scope.drop_first(), id)
    }
}

pub proof fn lemma_scope_position(scope: Seq<ScopedVariableView>, id: IdentifierView)
    ensures
        0 <= scope_position(scope, id) <= scope.len(),
        scope_position(scope, id) < scope.len() ==> scope[scope_position(scope, id)].id.id == id,
        forall|j: int| 0 <= j < scope_position(scope, id) ==> (#[trigger] scope[j]).id.id != id,
    decreases scope.len(),
{
    if scope.len() != 0 && scope[0].id.id != id {
        let rest = scope.drop_first();
        lemma_scope_position(rest, id);
        assert forall|j: int| 0 <= j < scope_position(scope, id) implies (#[trigger] scope[j]).id.id
            != id by {
            if j > 0 {
                assert(scope[j] == rest[j - 1]);
            }
        }
    }
}

pub proof fn lemma_scope_position_is(scope: Seq<ScopedVariableView>, id: IdentifierView, i: int)
    requires
        0 <= i <= scope.len(),
        i < scope.len() ==> scope[i].id.id == id,
        forall|j: int| 0 <= j < i ==> (#[trigger] scope[j]).id.id != id,
    ensures
        scope_position(scope, id) == i,
{
    lemma_scope_position(scope, id);
    let p = scope_position(scope, id);
    if p < i {
        assert(scope[p].id.id == id);
    }
}

/// The variables of a scope that were declared below `level`, in their
/// order.
pub open spec fn below_level(scope: Seq<ScopedVariableView>, level: nat) -> Seq<
    ScopedVariableView,
>
    decreases scope.len(),
{
    if scope.len() == 0 {
        Seq::empty()
    } else if scope.last().level < level {
        below_level(scope.drop_last(), level).push(scope.last())
    } else {
        below_level(scope.drop_last(), level)
    }
}

impl CheckerView {
    /// Whether a variable with the identifier `id` is in scope.
    pub open spec fn in_scope(self, id: IdentifierView) -> bool {
        scope_position(self.scope, id) < self.scope.len()
    }

    /// The variable in scope with the source name `name`.
    pub open spec fn get_scope(self, name: Seq<char>) -> Option<ScopedVariableView> {
        if self.in_scope(IdentifierView::source(name)) {
            Some(self.scope[scope_position(self.scope, IdentifierView::source(name))])
        } else {
            None
        }
    }

    /// The scope with `v` declared at the level at hand. A variable with the
    /// same identifier that is in scope already stays, and `v` is not added.
    pub open spec fn insert_into_scope(self, v: VariableView) -> CheckerView {
        if self.in_scope(v.id) {
            self
        } else {
            CheckerView {
                scope: self.scope.push(ScopedVariableView { id: v, level: self.level }),
                ..self
            }
        }
    }

    /// The checker one scope further in.
    pub open spec fn enter_scope(self) -> CheckerView {
        CheckerView { level: self.level + 1, ..self }
    }

    /// The checker one scope further out: the variables declared at the
    /// level at hand or deeper leave.
    pub open spec fn exit_scope(self) -> CheckerView {
        CheckerView {
            scope: below_level(self.scope, self.level),
            level: (self.level - 1) as nat,
            ..self
        }
    }

    /// The checker back at a level: the variables declared deeper leave.
    pub open spec fn back_to(self, level: nat) -> CheckerView {
        CheckerView { scope: below_level(self.scope, level + 1), level, ..self }
    }

    /// The checker with one more function that can be called. A key that
    /// equals `key` and is there already stays, and `key` is not added.
    pub open spec fn with_function(self, key: FunctionKeyView) -> CheckerView {
        if exists|i: int| 0 <= i < self.functions.len() && same_key(#[trigger] self.functions[i], key) {
            self
        } else {
            CheckerView { functions: self.functions.push(key), ..self }
        }
    }
}

impl Checker {
    pub fn new() -> (r: Checker)
        ensures
            r@ == (CheckerView { scope: Seq::empty(), functions: Seq::empty(), level: 0 }),
    {
        let r = Checker { scope: Vec::new(), functions: Vec::new(), level: 0 };
        assert(r@.scope =~= Seq::empty());
        assert(r@.functions =~= Seq::empty());
        r
    }

    /// Where the variable with the source name `name` stands in the scope.
    fn find_in_scope(&self, id: &Identifier) -> (r: Option<usize>)
        ensures
            r is Some <==> self@.in_scope(id@),
            r matches Some(i) ==> i == scope_position(self@.scope, id@),
    {
        let mut i: usize = 0;
        let ghost scope = self@.scope;
        while i < self.scope.len()
            invariant
                i <= self.scope.len(),
                scope == self@.scope,
                forall|j: int| 0 <= j < i ==> (#[trigger] scope[j]).id.id != id@,
            decreases self.scope.len() - i,
        {
            if same_identifier(&self.scope[i].id.id, id) {
                proof {
                    lemma_scope_position_is(scope, id@, i as int);
                }
                return Some(i);
            }
            i += 1;
        }
        proof {
            lemma_scope_position_is(scope, id@, i as int);
        }
        None
    }

    /// The variable in scope with the source name `variable_name`.
    pub fn get_scope(&self, variable_name: &str) -> (r: Option<&ScopedVariable>)
        ensures
            r is Some <==> self@.get_scope(variable_name@) is Some,
            r matches Some(v) ==> Some(v@) == self@.get_scope(variable_name@),
    {
        let id = Identifier::from(variable_name);
        match self.find_in_scope(&id) {
            Some(i) => Some(&self.scope[i]),
            None => None,
        }
    }

    /// Declares `v` at the level at hand, unless a variable with the same
    /// identifier is in scope already.
    pub fn insert_into_scope(&mut self, v: Variable) -> (r: bool)
        ensures
            final(self)@ == old(self)@.insert_into_scope(v@),
            r == !old(self)@.in_scope(v@.id),
    {
        match self.find_in_scope(&v.id) {
            Some(_) => false,
            None => {
                self.scope.push(ScopedVariable { id: v, level: self.level });
                assert(self@.scope =~= old(self)@.scope.push(
                    ScopedVariableView { id: v@, level: old(self)@.level },
                ));
                true
            },
        }
    }

    /// The first function that answers the query.
    pub fn find_function(&self, query: &FunctionQuery) -> (r: Option<FunctionKey>)
        ensures
            r is Some <==> query@.find(self@.functions) is Some,
            r matches Some(k) ==> Some(k@) == query@.find(self@.functions),
    {
        query.match_funcs(&self.functions)
    }

    /// Adds a function that can be called, unless an equal key is there
    /// already.
    pub fn insert_function(&mut self, key: FunctionKey) -> (r: bool)
        ensures
            final(self)@ == old(self)@.with_function(key@),
    {
        let mut i: usize = 0;
        let ghost keys = self@.functions;
        while i < self.functions.len()
            invariant
                i <= self.functions.len(),
                keys == self@.functions,
                *self == *old(self),
                forall|j: int| 0 <= j < i ==> !same_key(#[trigger] keys[j], key@),
            decreases self.functions.len() - i,
        {
            if self.functions[i].same(&key) {
                assert(same_key(keys[i as int], key@));
                return false;
            }
            i += 1;
        }
        self.functions.push(key);
        assert(self@.functions =~= keys.push(key@));
        assert(self@.scope =~= old(self)@.scope);
        true
    }

    pub fn enter_scope(&mut self)
        requires
            old(self).level < usize::MAX,
        ensures
            final(self)@ == old(self)@.enter_scope(),
    {
        self.level += 1;
        assert(self@.scope =~= old(self)@.scope);
        assert(self@.functions =~= old(self)@.functions);
    }

    /// Goes back to a level: the variables declared deeper leave.
    pub fn back_to(&mut self, level: usize)
        requires
            level < usize::MAX,
        ensures
            final(self)@ == old(self)@.back_to(level as nat),
    {
        let mut kept: Vec<ScopedVariable> = Vec::new();
        let ghost before = self@.scope;
        let mut i: usize = 0;
        assert(before.take(0) =~= Seq::<ScopedVariableView>::empty());
        while i < self.scope.len()
            invariant
                i <= self.scope.len(),
                level < usize::MAX,
                *self == *old(self),
                before == self@.scope,
                scope_view(kept@) == below_level(before.take(i as int), (level + 1) as nat),
            decreases self.scope.len() - i,
        {
            let ghost old_kept = scope_view(kept@);
            proof {
                assert(before.take(i + 1).drop_last() =~= before.take(i as int));
                assert(before.take(i + 1).last() == self.scope[i as int]@);
            }
            if self.scope[i].level <= level {
                let v = ScopedVariable { id: self.scope[i].id.clone(), level: self.scope[i].level };
                kept.push(v);
                assert(scope_view(kept@) =~= old_kept.push(v@));
            } else {
                assert(scope_view(kept@) =~= old_kept);
            }
            i += 1;
        }
        assert(before.take(i as int) =~= before);
        self.scope = kept;
        self.level = level;
        assert(self@.functions =~= old(self)@.functions);
    }

    pub fn exit_scope(&mut self)
        requires
            old(self).level > 0,
        ensures
            final(self)@ == old(self)@.exit_scope(),
    {
        let current_level = self.level;
        let mut kept: Vec<ScopedVariable> = Vec::new();
        let ghost before = self@.scope;
        let mut i: usize = 0;
        assert(before.take(0) =~= Seq::<ScopedVariableView>::empty());
        while i < self.scope.len()
            invariant
                i <= self.scope.len(),
                *self == *old(self),
                before == self@.scope,
                scope_view(kept@) == below_level(before.take(i as int), current_level as nat),
            decreases self.scope.len() - i,
        {
            let ghost old_kept = scope_view(kept@);
            proof {
                assert(before.take(i + 1).drop_last() =~= before.take(i as int));
                assert(before.take(i + 1).last() == self.scope[i as int]@);
            }
            if self.scope[i].level < current_level {
                let v = ScopedVariable { id: self.scope[i].id.clone(), level: self.scope[i].level };
                kept.push(v);
                assert(scope_view(kept@) =~= old_kept.push(v@));
            } else {
                assert(scope_view(kept@) =~= old_kept);
            }
            i += 1;
        }
        assert(before.take(i as int) =~= before);
        self.scope = kept;
        self.level -= 1;
        assert(self@.functions =~= old(self)@.functions);
    }
}

/// Whether two identifiers are the same.
pub fn same_identifier(a: &Identifier, b: &Identifier) -> (r: bool)
    ensures
        r == (a@ == b@),
{
    let same_core = match &a.id {
        CoreIdentifier::Source(x) => match &b.id {
            CoreIdentifier::Source(y) => *x == *y,
            _ => false,
        },
        CoreIdentifier::Internal(x, i) => match &b.id {
            CoreIdentifier::Internal(y, j) => *x == *y && *i == *j,
            _ => false,
        },
        CoreIdentifier::Call(x, i) => match &b.id {
            CoreIdentifier::Call(y, j) => *x == *y && *i == *j,
            _ => false,
        },
    };
    assert(same_core == (a@.id == b@.id));
    if !same_core {
        return false;
    }
    if a.version != b.version {
        return false;
    }
    if a.stack.len() != b.stack.len() {
        assert(a@.stack.len() != b@.stack.len());
        return false;
    }
    let mut i: usize = 0;
    while i < a.stack.len()
        invariant
            i <= a.stack.len(),
            a.stack.len() == b.stack.len(),
            forall|j: int| 0 <= j < i ==> a@.stack[j] == b@.stack[j],
        decreases a.stack.len() - i,
    {
        let x = &a.stack[i];
        let y = &b.stack[i];
        if !(x.0 == y.0 && x.1 == y.1 && x.2 == y.2) {
            assert(a@.stack[i as int] != b@.stack[i as int]);
            return false;
        }
        i += 1;
    }
    assert(a@.stack =~= b@.stack);
    true
}

} // verus!
