//! The names a module declares. A name stands for one type or for a group
//! of functions with different signatures, never for both.

use vstd::prelude::*;
use crate::collections::{StringMap, lemma_position_of, position_of};
use crate::typed_absy::types::{Signature, SignatureView, same_signature};

verus! {

/// What a name stands for.
#[derive(Debug, PartialEq)]
pub enum SymbolType {
    Type,
    Functions(Vec<Signature>),
}

pub enum SymbolTypeView {
    Type,
    Functions(Seq<SignatureView>),
}

/// The views of a list of signatures.
pub open spec fn signatures_view(signatures: Seq<Signature>) -> Seq<SignatureView> {
    Seq::new(signatures.len(), |i: int| signatures[i]@)
}

impl View for SymbolType {
    type V = SymbolTypeView;

    open spec fn view(&self) -> SymbolTypeView {
        match self {
            SymbolType::Type => SymbolTypeView::Type,
            SymbolType::Functions(signatures) => SymbolTypeView::Functions(
                signatures_view(signatures@),
            ),
        }
    }
}

/// The names a module declares.
#[derive(Debug)]
pub struct SymbolUnifier {
    pub symbols: StringMap<SymbolType>,
}

/// The names a module declares, in the order in which they were declared
/// first, each with what it stands for.
pub type UnifierView = Seq<(Seq<char>, SymbolTypeView)>;

impl View for SymbolUnifier {
    type V = UnifierView;

    open spec fn view(&self) -> UnifierView {
        Seq::new(
            self.symbols.entries@.len(),
            |i: int| (self.symbols.entries[i].0@, self.symbols.entries[i].1@),
        )
    }
}

/// The position of the first name that is `id`, or the number of names if
/// there is none.
pub open spec fn symbol_position(u: UnifierView, id: Seq<char>) -> int
    decreases u.len(),
{
    if u.len() == 0 {
        0
    } else if u[0].0 == id {
        0
    } else {
        1 + symbol_position(u.drop_first(), id)
    }
}

/// Whether one of the signatures equals `signature`.
pub open spec fn has_signature(signatures: Seq<SignatureView>, signature: SignatureView) -> bool {
    exists|i: int| 0 <= i < signatures.len() && same_signature(#[trigger] signatures[i], signature)
}

/// Whether anything is declared under `id`.
pub open spec fn declared(u: UnifierView, id: Seq<char>) -> bool {
    symbol_position(u, id) < u.len()
}

/// Declaring `id` as a type: refused, with nothing changed, where `id`
/// stands for anything already.
pub open spec fn with_type(u: UnifierView, id: Seq<char>) -> (UnifierView, bool) {
    if declared(u, id) {
        (u, false)
    } else {
        (u.push((id, SymbolTypeView::Type)), true)
    }
}

/// Declaring a function called `id` with the given signature: refused, with
/// nothing changed, where `id` stands for a type or for a function with an
/// equal signature.
pub open spec fn with_function(u: UnifierView, id: Seq<char>, signature: SignatureView) -> (
    UnifierView,
    bool,
) {
    let at = symbol_position(u, id);
    if at < u.len() {
        match u[at].1 {
            SymbolTypeView::Type => (u, false),
            SymbolTypeView::Functions(known) => if has_signature(known, signature) {
                (u, false)
            } else {
                (u.update(at, (id, SymbolTypeView::Functions(known.push(signature)))), true)
            },
        }
    } else {
        (u.push((id, SymbolTypeView::Functions(seq![signature]))), true)
    }
}

pub proof fn lemma_symbol_position(u: UnifierView, id: Seq<char>)
    ensures
        0 <= symbol_position(u, id) <= u.len(),
        symbol_position(u, id) < u.len() ==> u[symbol_position(u, id)].0 == id,
        forall|j: int| 0 <= j < symbol_position(u, id) ==> (#[trigger] u[j]).0 != id,
    decreases u.len(),
{
    if u.len() != 0 && u[0].0 != id {
        let rest = u.drop_first();
        lemma_symbol_position(rest, id);
        assert forall|j: int| 0 <= j < symbol_position(u, id) implies (#[trigger] u[j]).0 != id by {
            if j > 0 {
                assert(u[j] == rest[j - 1]);
            }
        }
    }
}

pub proof fn lemma_symbol_position_is(u: UnifierView, id: Seq<char>, i: int)
    requires
        0 <= i <= u.len(),
        i < u.len() ==> u[i].0 == id,
        forall|j: int| 0 <= j < i ==> (#[trigger] u[j]).0 != id,
    ensures
        symbol_position(u, id) == i,
{
    lemma_symbol_position(u, id);
    let p = symbol_position(u, id);
    if p < i {
        assert(u[p].0 == id);
    }
}

/// A second function of one name and an equal signature is refused.
pub proof fn lemma_same_signature_twice(
    u: UnifierView,
    id: Seq<char>,
    first: SignatureView,
    second: SignatureView,
)
    requires
        same_signature(first, second),
        with_function(u, id, first).1,
    ensures
        !with_function(with_function(u, id, first).0, id, second).1,
{
    lemma_symbol_position(u, id);
    let at = symbol_position(u, id);
    let after = with_function(u, id, first).0;
    if at < u.len() {
        let known = u[at].1->Functions_0;
        assert(after[at].0 == id);
        assert forall|j: int| 0 <= j < at implies (#[trigger] after[j]).0 != id by {
            assert(u[j].0 != id);
        }
        lemma_symbol_position_is(after, id, at);
        assert(known.push(first)[known.len() as int] == first);
    } else {
        assert forall|j: int| 0 <= j < at implies (#[trigger] after[j]).0 != id by {
            assert(u[j].0 != id);
        }
        lemma_symbol_position_is(after, id, at);
        assert(seq![first][0] == first);
    }
}

/// A name cannot stand for a function and for a type, whichever comes
/// first.
pub proof fn law_type_or_function(u: UnifierView, id: Seq<char>, signature: SignatureView)
    ensures
        with_type(u, id).1 ==> !with_function(with_type(u, id).0, id, signature).1,
        with_function(u, id, signature).1 ==> !with_type(with_function(u, id, signature).0, id).1,
{
    lemma_symbol_position(u, id);
    let at = symbol_position(u, id);
    if with_type(u, id).1 {
        let after = with_type(u, id).0;
        assert forall|j: int| 0 <= j < at implies (#[trigger] after[j]).0 != id by {
            assert(u[j].0 != id);
        }
        lemma_symbol_position_is(after, id, at);
    }
    if with_function(u, id, signature).1 {
        let after = with_function(u, id, signature).0;
        assert(after[at].0 == id);
        assert forall|j: int| 0 <= j < at implies (#[trigger] after[j]).0 != id by {
            assert(u[j].0 != id);
        }
        lemma_symbol_position_is(after, id, at);
    }
}

/// Where a name stands in the entries is where it stands in their view.
pub proof fn lemma_positions_agree(unifier: &SymbolUnifier, id: Seq<char>)
    ensures
        symbol_position(unifier@, id) == position_of(unifier.symbols.entries@, id),
{
    lemma_position_of(unifier.symbols.entries@, id);
    let p = position_of(unifier.symbols.entries@, id);
    assert forall|j: int| 0 <= j < p implies (#[trigger] unifier@[j]).0 != id by {
        assert(unifier.symbols.entries[j].0@ != id);
    }
    lemma_symbol_position_is(unifier@, id, p);
}

impl SymbolUnifier {
    pub open spec fn wf(&self) -> bool {
        self.symbols.wf()
    }

    pub fn new() -> (r: SymbolUnifier)
        ensures
            r.wf(),
            r@ == Seq::<(Seq<char>, SymbolTypeView)>::empty(),
    {
        let r = SymbolUnifier { symbols: StringMap::new() };
        assert(r@ =~= Seq::<(Seq<char>, SymbolTypeView)>::empty());
        r
    }

    /// Declares `id` as a type. That is refused, with nothing changed, where
    /// `id` stands for anything already.
    pub fn insert_type(&mut self, id: &str) -> (r: bool)
        requires
            old(self).wf(),
        ensures
            final(self).wf(),
            (final(self)@, r) == with_type(old(self)@, id@),
    {
        proof {
            lemma_positions_agree(self, id@);
        }
        if self.symbols.contains_key(id) {
            false
        } else {
            self.symbols.insert(String::from_str(id), SymbolType::Type);
            assert(self@ =~= old(self)@.push((id@, SymbolTypeView::Type)));
            true
        }
    }

    /// Declares a function called `id` with the given signature. That is
    /// refused, with nothing changed, where `id` stands for a type or for a
    /// function with an equal signature.
    pub fn insert_function(&mut self, id: &str, signature: Signature) -> (r: bool)
        requires
            old(self).wf(),
        ensures
            final(self).wf(),
            (final(self)@, r) == with_function(old(self)@, id@, signature@),
    {
        let ghost before = self.symbols.entries@;
        proof {
            lemma_positions_agree(self, id@);
            lemma_position_of(before, id@);
        }
        match self.symbols.find(id) {
            Some(i) => {
                let known = match &self.symbols.entries[i].1 {
                    SymbolType::Type => true,
                    SymbolType::Functions(signatures) => {
                        let ghost views = signatures_view(signatures@);
                        let mut k: usize = 0;
                        let mut found = false;
                        while k < signatures.len() && !found
                            invariant
                                k <= signatures.len(),
                                views == signatures_view(signatures@),
                                found ==> has_signature(views, signature@),
                                !found ==> forall|j: int|
                                    0 <= j < k ==> !same_signature(
                                        #[trigger] views[j],
                                        signature@,
                                    ),
                            decreases signatures.len() - k + if found {
                                0int
                            } else {
                                1int
                            },
                        {
                            if signatures[k].same(&signature) {
                                assert(same_signature(views[k as int], signature@));
                                found = true;
                            } else {
                                k += 1;
                            }
                        }
                        found
                    },
                };
                if known {
                    false
                } else {
                    let entry = self.symbols.entries.remove(i);
                    let (name, symbol) = entry;
                    let mut signatures = match symbol {
                        SymbolType::Functions(signatures) => signatures,
                        SymbolType::Type => Vec::new(),
                    };
                    let ghost old_views = signatures_view(signatures@);
                    signatures.push(signature);
                    assert(signatures_view(signatures@) =~= old_views.push(signature@));
                    self.symbols.entries.insert(i, (name, SymbolType::Functions(signatures)));
                    proof {
                        let after = self.symbols.entries@;
                        assert(after =~= before.update(
                            i as int,
                            (name, SymbolType::Functions(signatures)),
                        ));
                        assert forall|a: int, b: int| 0 <= a < b < after.len() implies (
                        #[trigger] after[a]).0@ != (#[trigger] after[b]).0@ by {
                            assert(before[a].0@ != before[b].0@);
                            assert(after[a].0@ == before[a].0@);
                            assert(after[b].0@ == before[b].0@);
                        }
                        assert(self@ =~= old(self)@.update(
                            i as int,
                            (id@, SymbolTypeView::Functions(old_views.push(signature@))),
                        ));
                    }
                    true
                }
            },
            None => {
                let mut signatures: Vec<Signature> = Vec::new();
                signatures.push(signature);
                assert(signatures_view(signatures@) =~= seq![signature@]);
                self.symbols.insert(String::from_str(id), SymbolType::Functions(signatures));
                assert(self@ =~= old(self)@.push(
                    (id@, SymbolTypeView::Functions(seq![signature@])),
                ));
                true
            },
        }
    }
}

impl Default for SymbolUnifier {
    fn default() -> (r: Self)
        ensures
            r.wf(),
            r@ == Seq::<(Seq<char>, SymbolTypeView)>::empty(),
    {
        SymbolUnifier::new()
    }
}

} // verus!
