//! What is known of the program while it is analysed, and how it changes.

use vstd::prelude::*;
use crate::absy::Module;
use crate::collections::{StringMap, lemma_position_of, named_position};
use crate::field::Field;
use crate::semantics::{State, TypeMap, TypesView, declared_type, structs_only};
use crate::typed_absy::program::{
    TypedFunctionSymbol, TypedFunctionSymbolView, TypedModuleView, lemma_symbol_position,
    modules_view, symbol_position, symbols_view,
};
use crate::typed_absy::types::{FunctionKey, FunctionKeyView, Type, TypeView, same_key};

verus! {

/// The modules that are still to be analysed, each under what identifies
/// it.
pub open spec fn pending_view(entries: Seq<(String, Module)>) -> Seq<(Seq<char>, Module)> {
    Seq::new(entries.len(), |i: int| (entries[i].0@, entries[i].1))
}

pub struct StateView {
    pub modules: Seq<(Seq<char>, Module)>,
    pub typed_modules: Seq<(Seq<char>, TypedModuleView)>,
    pub types: TypesView,
}

impl<T: Field> View for State<T> {
    type V = StateView;

    open spec fn view(&self) -> StateView {
        StateView {
            modules: pending_view(self.modules.entries@),
            typed_modules: modules_view(self.typed_modules.entries@),
            types: self.types@,
        }
    }
}

/// The entries with `value` under `id`: in the place of the entry that was
/// under `id` before, or at the end.
pub open spec fn with_named<V>(entries: Seq<(Seq<char>, V)>, id: Seq<char>, value: V) -> Seq<
    (Seq<char>, V),
> {
    let at = named_position(entries, id);
    if at < entries.len() {
        entries.update(at, (id, value))
    } else {
        entries.push((id, value))
    }
}

/// The type map with an entry for `module`, empty unless it was there.
pub open spec fn with_module(types: TypesView, module: Seq<char>) -> TypesView {
    if types.dom().contains(module) {
        types
    } else {
        types.insert(module, Map::empty())
    }
}

/// The type map with `ty` under `name` in `module`.
pub open spec fn with_declared_type(
    types: TypesView,
    module: Seq<char>,
    name: Seq<char>,
    ty: TypeView,
) -> TypesView {
    let known = with_module(types, module);
    known.insert(module, known[module].insert(name, ty))
}

/// The symbols of a module with `symbol` under `key`: in the place of the
/// entry under an equal key, which keeps its key, or at the end.
pub open spec fn with_symbol(
    functions: Seq<(FunctionKeyView, TypedFunctionSymbolView)>,
    key: FunctionKeyView,
    symbol: TypedFunctionSymbolView,
) -> Seq<(FunctionKeyView, TypedFunctionSymbolView)> {
    let at = key_position(functions, key);
    if at < functions.len() {
        functions.update(at, (functions[at].0, symbol))
    } else {
        functions.push((key, symbol))
    }
}

/// The position of the first entry whose key equals `key`, or the number of
/// entries if there is none.
pub open spec fn key_position(
    functions: Seq<(FunctionKeyView, TypedFunctionSymbolView)>,
    key: FunctionKeyView,
) -> int
    decreases functions.len(),
{
    if functions.len() == 0 {
        0
    } else if same_key(functions[0].0, key) {
        0
    } else {
        1 + key_position(functions.drop_first(), key)
    }
}

pub proof fn lemma_key_position(
    functions: Seq<(FunctionKeyView, TypedFunctionSymbolView)>,
    key: FunctionKeyView,
)
    ensures
        0 <= key_position(functions, key) <= functions.len(),
        key_position(functions, key) < functions.len() ==> same_key(
            functions[key_position(functions, key)].0,
            key,
        ),
        forall|j: int|
            0 <= j < key_position(functions, key) ==> !same_key((#[trigger] functions[j]).0, key),
    decreases functions.len(),
{
    if functions.len() != 0 && !same_key(functions[0].0, key) {
        let rest = functions.drop_first();
        lemma_key_position(rest, key);
        assert forall|j: int| 0 <= j < key_position(functions, key) implies !same_key(
            (#[trigger] functions[j]).0,
            key,
        ) by {
            if j > 0 {
                assert(functions[j] == rest[j - 1]);
            }
        }
    }
}

pub proof fn lemma_key_position_is(
    functions: Seq<(FunctionKeyView, TypedFunctionSymbolView)>,
    key: FunctionKeyView,
    i: int,
)
    requires
        0 <= i <= functions.len(),
        i < functions.len() ==> same_key(functions[i].0, key),
        forall|j: int| 0 <= j < i ==> !same_key((#[trigger] functions[j]).0, key),
    ensures
        key_position(functions, key) == i,
{
    lemma_key_position(functions, key);
    let p = key_position(functions, key);
    if p < i {
        assert(same_key(functions[p].0, key));
    }
}

/// Where a key stands in the entries is where it stands in their view.
pub proof fn lemma_key_positions_agree<T: Field>(
    entries: Seq<(FunctionKey, TypedFunctionSymbol<T>)>,
    key: FunctionKeyView,
)
    ensures
        key_position(symbols_view(entries), key) == symbol_position(entries, key),
{
    lemma_symbol_position(entries, key);
    let p = symbol_position(entries, key);
    let views = symbols_view(entries);
    assert forall|j: int| 0 <= j < p implies !same_key((#[trigger] views[j]).0, key) by {
        assert(!same_key(entries[j].0@, key));
    }
    lemma_key_position_is(views, key, p);
}

/// Every map of the type map holds each name once.
pub open spec fn type_map_wf(types: &TypeMap) -> bool {
    &&& types.wf()
    &&& forall|i: int| 0 <= i < types.entries.len() ==> (#[trigger] types.entries[i]).1.wf()
}

impl<T: Field> State<T> {
    /// Each module occurs once among the pending and once among the typed
    /// modules, the symbols of each typed module have different keys, and
    /// the type map holds struct types only, each name once.
    pub open spec fn wf(&self) -> bool {
        &&& self.modules.wf()
        &&& self.typed_modules.wf()
        &&& type_map_wf(&self.types)
        &&& structs_only(self.types@)
    }
}

/// Gives `module` an entry in the type map, empty unless it is there.
pub fn ensure_module(types: &mut TypeMap, module: &str)
    requires
        type_map_wf(old(types)),
    ensures
        type_map_wf(final(types)),
        final(types)@ == with_module(old(types)@, module@),
{
    let ghost before = *types;
    if !types.contains_key(module) {
        let empty: StringMap<Type> = StringMap::new();
        types.insert(String::from_str(module), empty);
        proof {
            assert forall|i: int| 0 <= i < types.entries.len() implies (
            #[trigger] types.entries[i]).1.wf() by {
                if i < before.entries.len() {
                    assert(types.entries[i] == before.entries[i]);
                }
            }
            assert forall|name: Seq<char>| !empty.contains(name) by {
                lemma_position_of(empty.entries@, name);
            }
            assert(empty@ =~= Map::<Seq<char>, TypeView>::empty());
            assert(types@ =~= before@.insert(module@, Map::empty()));
        }
    }
}

/// Puts `ty` under `name` in `module`.
pub fn declare_type(types: &mut TypeMap, module: &str, name: String, ty: Type)
    requires
        type_map_wf(old(types)),
    ensures
        type_map_wf(final(types)),
        final(types)@ == with_declared_type(old(types)@, module@, name@, ty@),
{
    let ghost start = *types;
    ensure_module(types, module);
    let ghost before = *types;
    let i = match types.find(module) {
        Some(i) => i,
        None => {
            proof {
                assert(types@.dom().contains(module@));
                assert(false);
            }
            0
        },
    };
    proof {
        lemma_position_of(before.entries@, module@);
    }
    let entry = types.entries.remove(i);
    let (module_name, known) = entry;
    let mut known = known;
    let ghost old_known = known;
    known.insert(name, ty);
    types.entries.insert(i, (module_name, known));
    proof {
        let after = types.entries@;
        assert(after =~= before.entries@.update(i as int, (module_name, known)));
        assert forall|a: int, b: int| 0 <= a < b < after.len() implies (#[trigger] after[a]).0@ != (
        #[trigger] after[b]).0@ by {
            assert(before.entries[a].0@ != before.entries[b].0@);
            assert(after[a].0@ == before.entries[a].0@);
            assert(after[b].0@ == before.entries[b].0@);
        }
        assert forall|k: int| 0 <= k < after.len() implies (#[trigger] after[k]).1.wf() by {
            if k != i {
                assert(after[k] == before.entries[k]);
            }
        }
        assert(known@ =~= old_known@.insert(name@, ty@));
        assert forall|m: Seq<char>| #[trigger] types.contains(m) == before.contains(m) by {
            crate::collections::lemma_same_names(before.entries@, after, m);
        }
        assert forall|m: Seq<char>| types.contains(m) implies (#[trigger] types.value(m))@ == (
        if m == module@ {
            known@
        } else {
            before.value(m)@
        }) by {
            crate::collections::lemma_same_names(before.entries@, after, m);
            lemma_position_of(before.entries@, m);
        }
        assert(types@ =~= before@.insert(module@, before@[module@].insert(name@, ty@)));
    }
}

/// A type map that holds struct types only still does after a struct type
/// is declared.
pub proof fn lemma_structs_only_declared(
    types: TypesView,
    module: Seq<char>,
    name: Seq<char>,
    ty: TypeView,
)
    requires
        structs_only(types),
        ty is Struct,
    ensures
        structs_only(with_declared_type(types, module, name, ty)),
        structs_only(with_module(types, module)),
{
    let after = with_declared_type(types, module, name, ty);
    assert forall|m: Seq<char>, n: Seq<char>|
        (#[trigger] declared_type(after, m, n)) is Some implies declared_type(
        after,
        m,
        n,
    )->Some_0 is Struct by {
        if !(m == module && n == name) {
            assert(declared_type(after, m, n) == declared_type(types, m, n));
        }
    }
    let with = with_module(types, module);
    assert forall|m: Seq<char>, n: Seq<char>|
        (#[trigger] declared_type(with, m, n)) is Some implies declared_type(
        with,
        m,
        n,
    )->Some_0 is Struct by {
        assert(declared_type(with, m, n) == declared_type(types, m, n));
    }
}

} // verus!
